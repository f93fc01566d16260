//! Error values and the kinds of I/O error that the platform knows.
//!
//! An error is classed by its code alone; its source plays no part. A kind
//! is turned into the system error code that stands for it, with the unknown
//! source.

use vstd::prelude::*;
use std::io::ErrorKind;
use crate::codes::{
    GPG_ERR_DNS_TIMEOUT, GPG_ERR_EACCES, GPG_ERR_EADDRINUSE, GPG_ERR_EADDRNOTAVAIL,
    GPG_ERR_EAFNOSUPPORT, GPG_ERR_EAGAIN, GPG_ERR_ECONNABORTED, GPG_ERR_ECONNREFUSED,
    GPG_ERR_ECONNRESET, GPG_ERR_EDOM, GPG_ERR_EEXIST, GPG_ERR_EINTR, GPG_ERR_EINVAL, GPG_ERR_EIO,
    GPG_ERR_ENODEV, GPG_ERR_ENOENT, GPG_ERR_ENOMEM, GPG_ERR_ENOSYS, GPG_ERR_ENOTCONN,
    GPG_ERR_ENOTSUP, GPG_ERR_ENXIO, GPG_ERR_EOPNOTSUPP, GPG_ERR_EPERM, GPG_ERR_EPIPE,
    GPG_ERR_EPROTONOSUPPORT, GPG_ERR_ESRCH, GPG_ERR_ETIMEDOUT, GPG_ERR_EWOULDBLOCK,
    GPG_ERR_LDAP_ALREADY_EXISTS, GPG_ERR_LDAP_NOT_SUPPORTED, GPG_ERR_LDAP_NO_MEMORY,
    GPG_ERR_LDAP_NO_RESULTS, GPG_ERR_LDAP_TIMEOUT, GPG_ERR_NOT_SUPPORTED, GPG_ERR_SOURCE_UNKNOWN,
    GPG_ERR_SQL_INTERRUPT,
    GPG_ERR_SQL_NOMEM, GPG_ERR_SQL_NOTFOUND, GPG_ERR_SQL_PERM, GPG_ERR_TIMEOUT,
};
use crate::error::Error;
use crate::value::{code_of, lemma_resource_keeps_code, make};

verus! {

/// Makes `std::io::ErrorKind` known to the verifier. The declaration hides
/// nothing: the verifier reads the variants from the standard library's own
/// definition, so that verified code can tell them apart, and nothing is
/// assumed of them.
#[verifier::external_type_specification]
pub struct ExErrorKind(std::io::ErrorKind);

/// The kind of I/O error that an error code is classed under. Codes that
/// belong to no kind of their own are `Other`.
pub open spec fn kind_of_code(code: u32) -> ErrorKind {
    if code == GPG_ERR_EADDRINUSE {
        ErrorKind::AddrInUse
    } else if code == GPG_ERR_EADDRNOTAVAIL {
        ErrorKind::AddrNotAvailable
    } else if code == GPG_ERR_ECONNABORTED {
        ErrorKind::ConnectionAborted
    } else if code == GPG_ERR_ECONNREFUSED {
        ErrorKind::ConnectionRefused
    } else if code == GPG_ERR_ECONNRESET {
        ErrorKind::ConnectionReset
    } else if code == GPG_ERR_EEXIST || code == GPG_ERR_LDAP_ALREADY_EXISTS {
        ErrorKind::AlreadyExists
    } else if code == GPG_ERR_EINTR || code == GPG_ERR_SQL_INTERRUPT {
        ErrorKind::Interrupted
    } else if code == GPG_ERR_EINVAL || code == GPG_ERR_EDOM {
        ErrorKind::InvalidInput
    } else if code == GPG_ERR_ENOENT || code == GPG_ERR_ENODEV || code == GPG_ERR_ENXIO || code
        == GPG_ERR_ESRCH || code == GPG_ERR_LDAP_NO_RESULTS || code == GPG_ERR_SQL_NOTFOUND {
        ErrorKind::NotFound
    } else if code == GPG_ERR_ENOMEM || code == GPG_ERR_LDAP_NO_MEMORY || code
        == GPG_ERR_SQL_NOMEM {
        ErrorKind::OutOfMemory
    } else if code == GPG_ERR_ENOSYS || code == GPG_ERR_ENOTSUP || code == GPG_ERR_EOPNOTSUPP
        || code == GPG_ERR_EAFNOSUPPORT || code == GPG_ERR_EPROTONOSUPPORT || code
        == GPG_ERR_NOT_SUPPORTED || code == GPG_ERR_LDAP_NOT_SUPPORTED {
        ErrorKind::Unsupported
    } else if code == GPG_ERR_ENOTCONN {
        ErrorKind::NotConnected
    } else if code == GPG_ERR_EACCES || code == GPG_ERR_EPERM || code == GPG_ERR_SQL_PERM {
        ErrorKind::PermissionDenied
    } else if code == GPG_ERR_EPIPE {
        ErrorKind::BrokenPipe
    } else if code == GPG_ERR_ETIMEDOUT || code == GPG_ERR_TIMEOUT || code == GPG_ERR_DNS_TIMEOUT
        || code == GPG_ERR_LDAP_TIMEOUT {
        ErrorKind::TimedOut
    } else if code == GPG_ERR_EAGAIN || code == GPG_ERR_EWOULDBLOCK {
        ErrorKind::WouldBlock
    } else {
        ErrorKind::Other
    }
}

/// The error code that stands for a kind of I/O error. A kind without a
/// system error code of its own is reported as an input/output error.
pub open spec fn code_of_kind(kind: ErrorKind) -> u32 {
    match kind {
        ErrorKind::AddrInUse => GPG_ERR_EADDRINUSE,
        ErrorKind::AddrNotAvailable => GPG_ERR_EADDRNOTAVAIL,
        ErrorKind::AlreadyExists => GPG_ERR_EEXIST,
        ErrorKind::BrokenPipe => GPG_ERR_EPIPE,
        ErrorKind::ConnectionAborted => GPG_ERR_ECONNABORTED,
        ErrorKind::ConnectionRefused => GPG_ERR_ECONNREFUSED,
        ErrorKind::ConnectionReset => GPG_ERR_ECONNRESET,
        ErrorKind::Interrupted => GPG_ERR_EINTR,
        ErrorKind::InvalidInput => GPG_ERR_EINVAL,
        ErrorKind::NotConnected => GPG_ERR_ENOTCONN,
        ErrorKind::NotFound => GPG_ERR_ENOENT,
        ErrorKind::OutOfMemory => GPG_ERR_ENOMEM,
        ErrorKind::PermissionDenied => GPG_ERR_EACCES,
        ErrorKind::TimedOut => GPG_ERR_ETIMEDOUT,
        ErrorKind::Unsupported => GPG_ERR_ENOSYS,
        ErrorKind::WouldBlock => GPG_ERR_EWOULDBLOCK,
        _ => GPG_ERR_EIO,
    }
}

/// Whether a kind of I/O error has a system error code of its own.
pub open spec fn has_own_code(kind: ErrorKind) -> bool {
    code_of_kind(kind) != GPG_ERR_EIO
}

impl Error {
    /// Returns the kind of I/O error that this error is classed under. Only
    /// the code decides; the source is left out of account.
    pub fn io_kind(&self) -> (kind: ErrorKind)
        ensures
            kind == kind_of_code(code_of(self@)),
    {
        let code: u32 = self.code();
        if code == GPG_ERR_EADDRINUSE {
            ErrorKind::AddrInUse
        } else if code == GPG_ERR_EADDRNOTAVAIL {
            ErrorKind::AddrNotAvailable
        } else if code == GPG_ERR_ECONNABORTED {
            ErrorKind::ConnectionAborted
        } else if code == GPG_ERR_ECONNREFUSED {
            ErrorKind::ConnectionRefused
        } else if code == GPG_ERR_ECONNRESET {
            ErrorKind::ConnectionReset
        } else if code == GPG_ERR_EEXIST || code == GPG_ERR_LDAP_ALREADY_EXISTS {
            ErrorKind::AlreadyExists
        } else if code == GPG_ERR_EINTR || code == GPG_ERR_SQL_INTERRUPT {
            ErrorKind::Interrupted
        } else if code == GPG_ERR_EINVAL || code == GPG_ERR_EDOM {
            ErrorKind::InvalidInput
        } else if code == GPG_ERR_ENOENT || code == GPG_ERR_ENODEV || code == GPG_ERR_ENXIO
            || code == GPG_ERR_ESRCH || code == GPG_ERR_LDAP_NO_RESULTS || code
            == GPG_ERR_SQL_NOTFOUND {
            ErrorKind::NotFound
        } else if code == GPG_ERR_ENOMEM || code == GPG_ERR_LDAP_NO_MEMORY || code
            == GPG_ERR_SQL_NOMEM {
            ErrorKind::OutOfMemory
        } else if code == GPG_ERR_ENOSYS || code == GPG_ERR_ENOTSUP || code == GPG_ERR_EOPNOTSUPP
            || code == GPG_ERR_EAFNOSUPPORT || code == GPG_ERR_EPROTONOSUPPORT || code
            == GPG_ERR_NOT_SUPPORTED || code == GPG_ERR_LDAP_NOT_SUPPORTED {
            ErrorKind::Unsupported
        } else if code == GPG_ERR_ENOTCONN {
            ErrorKind::NotConnected
        } else if code == GPG_ERR_EACCES || code == GPG_ERR_EPERM || code == GPG_ERR_SQL_PERM {
            ErrorKind::PermissionDenied
        } else if code == GPG_ERR_EPIPE {
            ErrorKind::BrokenPipe
        } else if code == GPG_ERR_ETIMEDOUT || code == GPG_ERR_TIMEOUT || code
            == GPG_ERR_DNS_TIMEOUT || code == GPG_ERR_LDAP_TIMEOUT {
            ErrorKind::TimedOut
        } else if code == GPG_ERR_EAGAIN || code == GPG_ERR_EWOULDBLOCK {
            ErrorKind::WouldBlock
        } else {
            ErrorKind::Other
        }
    }

    /// Creates the error that stands for a kind of I/O error: the system
    /// error code of the kind, with the unknown source.
    pub fn from_io_kind(kind: ErrorKind) -> (e: Self)
        ensures
            e@ == code_of_kind(kind),
    {
        let code: u32 = match kind {
            ErrorKind::AddrInUse => GPG_ERR_EADDRINUSE,
            ErrorKind::AddrNotAvailable => GPG_ERR_EADDRNOTAVAIL,
            ErrorKind::AlreadyExists => GPG_ERR_EEXIST,
            ErrorKind::BrokenPipe => GPG_ERR_EPIPE,
            ErrorKind::ConnectionAborted => GPG_ERR_ECONNABORTED,
            ErrorKind::ConnectionRefused => GPG_ERR_ECONNREFUSED,
            ErrorKind::ConnectionReset => GPG_ERR_ECONNRESET,
            ErrorKind::Interrupted => GPG_ERR_EINTR,
            ErrorKind::InvalidInput => GPG_ERR_EINVAL,
            ErrorKind::NotConnected => GPG_ERR_ENOTCONN,
            ErrorKind::NotFound => GPG_ERR_ENOENT,
            ErrorKind::OutOfMemory => GPG_ERR_ENOMEM,
            ErrorKind::PermissionDenied => GPG_ERR_EACCES,
            ErrorKind::TimedOut => GPG_ERR_ETIMEDOUT,
            ErrorKind::Unsupported => GPG_ERR_ENOSYS,
            ErrorKind::WouldBlock => GPG_ERR_EWOULDBLOCK,
            _ => GPG_ERR_EIO,
        };
        Error::from_code(code)
    }
}

/// A kind that has a code of its own comes back unchanged when its error is
/// classed again; every other kind comes back as `Other`.
pub proof fn lemma_kind_round_trip(kind: ErrorKind)
    ensures
        has_own_code(kind) ==> kind_of_code(code_of_kind(kind)) == kind,
        !has_own_code(kind) ==> kind_of_code(code_of_kind(kind)) == ErrorKind::Other,
{
}

/// The code that stands for a kind fits the code field, so the error of a
/// kind is the code itself, with the unknown source.
pub proof fn lemma_kind_code_fits(kind: ErrorKind)
    ensures
        code_of(code_of_kind(kind)) == code_of_kind(kind),
        make(GPG_ERR_SOURCE_UNKNOWN, code_of_kind(kind)) == code_of_kind(kind),
{
}

/// Giving an error another source does not change the kind that it is
/// classed under.
pub proof fn lemma_kind_ignores_source(source: u32, err: u32)
    ensures
        kind_of_code(code_of(make(source, code_of(err)))) == kind_of_code(code_of(err)),
{
    lemma_resource_keeps_code(source, err);
}

} // verus!
