//! What the native library says of an error, as text.
//!
//! The native library describes an error by writing a zero-terminated byte
//! string into a buffer and reporting a status, which is zero on success. It
//! names the source of an error by a byte string, or by nothing. The
//! functions here take those outcomes as plain values and turn them into
//! what callers see; the calls themselves are left to the caller.

use vstd::prelude::*;
use vstd::slice::{slice_subrange, slice_to_vec};
use vstd::string::{StringExecFns, StringSliceAdditionalSpecFns};
use vstd::utf8::valid_utf8;
use crate::error::Error;
use crate::text::{check_utf8, decimal, lossy, lossy_text, push_decimal};
use crate::value::code_of;

verus! {

/// The description of an error that the native library does not know.
pub const UNKNOWN_ERROR: &'static str = "Unknown error";

/// Whether the text in a buffer ends at `n`: no zero byte stands in front of
/// `n`, and `n` is the place of a zero byte or the end of the buffer.
pub open spec fn ends_text(buf: Seq<u8>, n: int) -> bool {
    &&& 0 <= n <= buf.len()
    &&& forall|i: int| 0 <= i < n ==> buf[i] != 0
    &&& n < buf.len() ==> buf[n] == 0
}

/// The number of bytes in front of the first zero byte of a buffer, or the
/// length of the buffer where it holds no zero byte.
pub open spec fn text_len(buf: Seq<u8>) -> nat
    decreases buf.len(),
{
    if buf.len() == 0 || buf[0] == 0 {
        0
    } else {
        1 + text_len(buf.drop_first())
    }
}

/// The text that a buffer holds: its bytes in front of the first zero byte.
pub open spec fn text_of(buf: Seq<u8>) -> Seq<u8> {
    buf.take(text_len(buf) as int)
}

/// The text in a buffer ends at `text_len`.
pub proof fn lemma_text_len_ends(buf: Seq<u8>)
    ensures
        ends_text(buf, text_len(buf) as int),
    decreases buf.len(),
{
    if buf.len() == 0 || buf[0] == 0 {
    } else {
        let tail = buf.drop_first();
        lemma_text_len_ends(tail);
        assert forall|i: int| 0 <= i < text_len(buf) implies buf[i] != 0 by {
            if i > 0 {
                assert(buf[i] == tail[i - 1]);
            }
        }
    }
}

/// The text in a buffer ends in one place only.
pub proof fn lemma_text_len_unique(buf: Seq<u8>, n: int)
    requires
        ends_text(buf, n),
    ensures
        text_len(buf) == n,
    decreases buf.len(),
{
    if buf.len() == 0 || buf[0] == 0 {
    } else {
        let tail = buf.drop_first();
        assert forall|i: int| 0 <= i < n - 1 implies tail[i] != 0 by {
            assert(tail[i] == buf[i + 1]);
        }
        lemma_text_len_unique(tail, n - 1);
    }
}

/// The text of a buffer holds no zero byte, and a buffer without a zero byte
/// is all text.
pub proof fn lemma_text_of(buf: Seq<u8>)
    ensures
        text_of(buf).len() == text_len(buf),
        forall|i: int| 0 <= i < text_of(buf).len() ==> text_of(buf)[i] != 0,
        (forall|i: int| 0 <= i < buf.len() ==> buf[i] != 0) ==> text_of(buf) == buf,
        text_of(text_of(buf)) == text_of(buf),
{
    lemma_text_len_ends(buf);
    let text = text_of(buf);
    assert(ends_text(text, text.len() as int));
    lemma_text_len_unique(text, text.len() as int);
    assert(text.take(text.len() as int) =~= text);
    if forall|i: int| 0 <= i < buf.len() ==> buf[i] != 0 {
        lemma_text_len_unique(buf, buf.len() as int);
        assert(buf.take(buf.len() as int) =~= buf);
    }
}

/// Returns the text that a zero-terminated buffer holds: the bytes in front
/// of its first zero byte, or all of it where there is none.
pub fn terminated(buf: &[u8]) -> (text: &[u8])
    ensures
        text@ == text_of(buf@),
        ends_text(buf@, text@.len() as int),
{
    let mut n: usize = 0;
    while n < buf.len() && buf[n] != 0
        invariant
            n <= buf@.len(),
            forall|i: int| 0 <= i < n ==> buf@[i] != 0,
        decreases buf@.len() - n,
    {
        n += 1;
    }
    proof {
        lemma_text_len_unique(buf@, n as int);
    }
    slice_subrange(buf, 0, n)
}

/// The description that a buffer holds after the native library was asked
/// to fill it: the text in the buffer where the status is zero, nothing
/// otherwise.
pub open spec fn written(status: i32, buf: Seq<u8>) -> Option<Seq<u8>> {
    if status == 0 {
        Some(text_of(buf))
    } else {
        None
    }
}

/// The printable description: the written one decoded to text, or
/// [`UNKNOWN_ERROR`] where none was written.
pub open spec fn description_of(status: i32, buf: Seq<u8>) -> Seq<char> {
    match written(status, buf) {
        Some(text) => lossy(text),
        None => UNKNOWN_ERROR@,
    }
}

/// The description as bytes: the written one, or the bytes of
/// [`UNKNOWN_ERROR`] where none was written.
pub open spec fn raw_description_of(status: i32, buf: Seq<u8>) -> Seq<u8> {
    match written(status, buf) {
        Some(text) => text,
        None => UNKNOWN_ERROR.spec_bytes(),
    }
}

/// The line that shows an error with the given code: its description, then
/// the code in decimal, in the form `DESCRIPTION (gpg error CODE)`.
pub open spec fn display_of(status: i32, buf: Seq<u8>, code: u32) -> Seq<char> {
    description_of(status, buf) + " (gpg error "@ + decimal(code as nat) + ")"@
}

impl Error {
    /// Returns the part of a buffer that holds the description of an error,
    /// once the native library was asked to write one there and reported
    /// `status`.
    ///
    /// # Errors
    ///
    /// A status other than zero says that the buffer was not long enough or
    /// that the error is not recognized; there is no description then.
    pub fn write_description(status: i32, buf: &[u8]) -> (r: Result<&[u8], ()>)
        ensures
            match r {
                Ok(text) => written(status, buf@) == Some(text@),
                Err(_) => written(status, buf@) is None,
            },
    {
        if status == 0 {
            Ok(terminated(buf))
        } else {
            Err(())
        }
    }

    /// Returns a printable description of an error, from the buffer that
    /// the native library was asked to write it to and the status that it
    /// reported.
    pub fn description(status: i32, buf: &[u8]) -> (text: String)
        ensures
            text@ == description_of(status, buf@),
    {
        match Error::write_description(status, buf) {
            Ok(b) => lossy_text(b),
            Err(_) => String::from_str(UNKNOWN_ERROR),
        }
    }

    /// Returns the description of an error as bytes, from the buffer that
    /// the native library was asked to write it to and the status that it
    /// reported.
    pub fn raw_description(status: i32, buf: &[u8]) -> (bytes: Vec<u8>)
        ensures
            bytes@ == raw_description_of(status, buf@),
    {
        match Error::write_description(status, buf) {
            Ok(b) => slice_to_vec(b),
            Err(_) => slice_to_vec(UNKNOWN_ERROR.as_bytes()),
        }
    }

    /// Returns the name of the source of an error as text, from the bytes by
    /// which the native library names it: the text that they encode, if the
    /// library gave a name and the name is valid UTF-8.
    pub fn source(raw: Option<&[u8]>) -> (name: Option<&str>)
        ensures
            match name {
                Some(s) => raw matches Some(b) && valid_utf8(b@) && s.spec_bytes() == b@,
                None => raw matches Some(b) ==> !valid_utf8(b@),
            },
    {
        match raw {
            Some(b) => match check_utf8(b) {
                Ok(s) => Some(s),
                Err(_) => None,
            },
            None => None,
        }
    }

    /// Returns the line that shows this error, from the buffer that the
    /// native library was asked to write its description to and the status
    /// that it reported.
    pub fn display(&self, status: i32, buf: &[u8]) -> (line: String)
        ensures
            line@ == display_of(status, buf@, code_of(self@)),
    {
        let mut line = Error::description(status, buf);
        line.append(" (gpg error ");
        push_decimal(&mut line, self.code());
        line.append(")");
        line
    }
}

} // verus!
