//! The error type: one packed error value.

use vstd::prelude::*;
use vstd::std_specs::convert::FromSpecImpl;
use std::num::TryFromIntError;
use crate::codes::{self, ErrorCode, ErrorSource, GPG_ERR_EINVAL, GPG_ERR_SOURCE_UNKNOWN};
use crate::value::{code_of, gpg_err_code, gpg_err_make, make};

verus! {

/// An error reported by one of the GnuPG libraries.
///
/// It wraps the raw error value and compares, copies and hashes as that value
/// does. Its view is the raw value.
#[derive(Copy, Clone, Debug, PartialEq, Eq, Hash, Structural)]
pub struct Error(u32);

impl View for Error {
    type V = u32;

    closed spec fn view(&self) -> u32 {
        self.0
    }
}

impl Error {
    /// The error that wraps the raw value `err`.
    pub closed spec fn wrap(err: u32) -> Error {
        Error(err)
    }

    /// The error that wraps a raw value has that value.
    pub proof fn lemma_wrap_view(err: u32)
        ensures
            Error::wrap(err)@ == err,
    {
    }

    /// An error is the one that wraps its raw value, so two errors with the
    /// same raw value are the same error.
    pub proof fn lemma_view_wrap(self)
        ensures
            Error::wrap(self@) == self,
    {
    }

    /// Creates an error from a raw error value, which is kept as it is.
    pub fn new(err: u32) -> (e: Self)
        ensures
            e@ == err,
            e == Error::wrap(err),
    {
        Error(err)
    }

    /// Returns the raw error value that this error wraps.
    pub fn raw(&self) -> (err: u32)
        ensures
            err == self@,
    {
        self.0
    }

    /// Creates an error from an error source and an error code.
    pub fn from_source(source: ErrorSource, code: ErrorCode) -> (e: Self)
        ensures
            e@ == make(source, code),
            code_of(e@) == code_of(code),
    {
        Error::new(gpg_err_make(source, code))
    }

    /// Creates an error from an error code, with the unknown source. The
    /// raw value is then the code itself, cut to the width of its field.
    pub fn from_code(code: ErrorCode) -> (e: Self)
        ensures
            e@ == make(GPG_ERR_SOURCE_UNKNOWN, code),
            e@ == code_of(code),
    {
        Error::from_source(GPG_ERR_SOURCE_UNKNOWN, code)
    }

    /// Returns the error code.
    pub fn code(&self) -> (code: ErrorCode)
        ensures
            code == code_of(self@),
    {
        gpg_err_code(self.0)
    }

    /// Returns an error with the same code, from the given source.
    pub fn with_source(&self, src: ErrorSource) -> (e: Self)
        ensures
            e@ == make(src, code_of(self@)),
            code_of(e@) == code_of(self@),
    {
        Error::from_source(src, self.code())
    }

    /// Tells success from failure: `Ok` for the value zero, which stands for
    /// success, and the error itself otherwise.
    pub fn into_result(self) -> (r: Result<(), Error>)
        ensures
            self@ == 0 <==> r is Ok,
            r matches Err(e) ==> e == self,
    {
        if self.0 == 0 {
            Ok(())
        } else {
            Err(self)
        }
    }
}

/// The known sources, by name.
impl Error {
    /// The source [`GPG_ERR_SOURCE_UNKNOWN`](codes::GPG_ERR_SOURCE_UNKNOWN).
    pub const SOURCE_UNKNOWN: ErrorSource = codes::GPG_ERR_SOURCE_UNKNOWN;

    /// The source [`GPG_ERR_SOURCE_GCRYPT`](codes::GPG_ERR_SOURCE_GCRYPT).
    pub const SOURCE_GCRYPT: ErrorSource = codes::GPG_ERR_SOURCE_GCRYPT;

    /// The source [`GPG_ERR_SOURCE_GPG`](codes::GPG_ERR_SOURCE_GPG).
    pub const SOURCE_GPG: ErrorSource = codes::GPG_ERR_SOURCE_GPG;

    /// The source [`GPG_ERR_SOURCE_GPGSM`](codes::GPG_ERR_SOURCE_GPGSM).
    pub const SOURCE_GPGSM: ErrorSource = codes::GPG_ERR_SOURCE_GPGSM;

    /// The source [`GPG_ERR_SOURCE_GPGAGENT`](codes::GPG_ERR_SOURCE_GPGAGENT).
    pub const SOURCE_GPGAGENT: ErrorSource = codes::GPG_ERR_SOURCE_GPGAGENT;

    /// The source [`GPG_ERR_SOURCE_PINENTRY`](codes::GPG_ERR_SOURCE_PINENTRY).
    pub const SOURCE_PINENTRY: ErrorSource = codes::GPG_ERR_SOURCE_PINENTRY;

    /// The source [`GPG_ERR_SOURCE_SCD`](codes::GPG_ERR_SOURCE_SCD).
    pub const SOURCE_SCD: ErrorSource = codes::GPG_ERR_SOURCE_SCD;

    /// The source [`GPG_ERR_SOURCE_GPGME`](codes::GPG_ERR_SOURCE_GPGME).
    pub const SOURCE_GPGME: ErrorSource = codes::GPG_ERR_SOURCE_GPGME;

    /// The source [`GPG_ERR_SOURCE_KEYBOX`](codes::GPG_ERR_SOURCE_KEYBOX).
    pub const SOURCE_KEYBOX: ErrorSource = codes::GPG_ERR_SOURCE_KEYBOX;

    /// The source [`GPG_ERR_SOURCE_KSBA`](codes::GPG_ERR_SOURCE_KSBA).
    pub const SOURCE_KSBA: ErrorSource = codes::GPG_ERR_SOURCE_KSBA;

    /// The source [`GPG_ERR_SOURCE_DIRMNGR`](codes::GPG_ERR_SOURCE_DIRMNGR).
    pub const SOURCE_DIRMNGR: ErrorSource = codes::GPG_ERR_SOURCE_DIRMNGR;

    /// The source [`GPG_ERR_SOURCE_GSTI`](codes::GPG_ERR_SOURCE_GSTI).
    pub const SOURCE_GSTI: ErrorSource = codes::GPG_ERR_SOURCE_GSTI;

    /// The source [`GPG_ERR_SOURCE_GPA`](codes::GPG_ERR_SOURCE_GPA).
    pub const SOURCE_GPA: ErrorSource = codes::GPG_ERR_SOURCE_GPA;

    /// The source [`GPG_ERR_SOURCE_KLEO`](codes::GPG_ERR_SOURCE_KLEO).
    pub const SOURCE_KLEO: ErrorSource = codes::GPG_ERR_SOURCE_KLEO;

    /// The source [`GPG_ERR_SOURCE_G13`](codes::GPG_ERR_SOURCE_G13).
    pub const SOURCE_G13: ErrorSource = codes::GPG_ERR_SOURCE_G13;

    /// The source [`GPG_ERR_SOURCE_ASSUAN`](codes::GPG_ERR_SOURCE_ASSUAN).
    pub const SOURCE_ASSUAN: ErrorSource = codes::GPG_ERR_SOURCE_ASSUAN;

    /// The source [`GPG_ERR_SOURCE_TPM2D`](codes::GPG_ERR_SOURCE_TPM2D).
    pub const SOURCE_TPM2D: ErrorSource = codes::GPG_ERR_SOURCE_TPM2D;

    /// The source [`GPG_ERR_SOURCE_TLS`](codes::GPG_ERR_SOURCE_TLS).
    pub const SOURCE_TLS: ErrorSource = codes::GPG_ERR_SOURCE_TLS;

    /// The source [`GPG_ERR_SOURCE_TKD`](codes::GPG_ERR_SOURCE_TKD).
    pub const SOURCE_TKD: ErrorSource = codes::GPG_ERR_SOURCE_TKD;

    /// The source [`GPG_ERR_SOURCE_ANY`](codes::GPG_ERR_SOURCE_ANY).
    pub const SOURCE_ANY: ErrorSource = codes::GPG_ERR_SOURCE_ANY;

    /// The source [`GPG_ERR_SOURCE_USER_1`](codes::GPG_ERR_SOURCE_USER_1).
    pub const SOURCE_USER_1: ErrorSource = codes::GPG_ERR_SOURCE_USER_1;

    /// The source [`GPG_ERR_SOURCE_USER_2`](codes::GPG_ERR_SOURCE_USER_2).
    pub const SOURCE_USER_2: ErrorSource = codes::GPG_ERR_SOURCE_USER_2;

    /// The source [`GPG_ERR_SOURCE_USER_3`](codes::GPG_ERR_SOURCE_USER_3).
    pub const SOURCE_USER_3: ErrorSource = codes::GPG_ERR_SOURCE_USER_3;

    /// The source [`GPG_ERR_SOURCE_USER_4`](codes::GPG_ERR_SOURCE_USER_4).
    pub const SOURCE_USER_4: ErrorSource = codes::GPG_ERR_SOURCE_USER_4;
}

/// A raw error value becomes the error that wraps it.
impl From<u32> for Error {
    fn from(e: u32) -> (err: Self) {
        Error::new(e)
    }
}

impl FromSpecImpl<u32> for Error {
    open spec fn obeys_from_spec() -> bool {
        true
    }

    open spec fn from_spec(e: u32) -> Self {
        Error::wrap(e)
    }
}

/// An integer that did not fit its type is reported as an invalid argument.
impl From<TryFromIntError> for Error {
    fn from(_e: TryFromIntError) -> (err: Self) {
        Error::new(GPG_ERR_EINVAL)
    }
}

impl FromSpecImpl<TryFromIntError> for Error {
    open spec fn obeys_from_spec() -> bool {
        true
    }

    open spec fn from_spec(_e: TryFromIntError) -> Self {
        Error::wrap(GPG_ERR_EINVAL)
    }
}

} // verus!
