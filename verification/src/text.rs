//! Text out of bytes: decoding that never fails.
//!
//! The descriptions that the native library hands out are byte strings in
//! the encoding of the current locale. They are shown as text by decoding
//! them as UTF-8 and putting U+FFFD in place of every byte sequence that is
//! not valid.

use vstd::prelude::*;
use vstd::string::{StringExecFns, StringSliceAdditionalSpecFns};
use vstd::slice::slice_subrange;
use vstd::utf8::{decode_utf8, encode_utf8, valid_utf8};

verus! {

/// The character that stands in for bytes that are not valid UTF-8.
pub const REPLACEMENT: char = '\u{FFFD}';

/// The length of the longest prefix of `bytes` that is valid UTF-8.
pub open spec fn valid_prefix_len(bytes: Seq<u8>) -> nat
    decreases bytes.len(),
{
    if bytes.len() == 0 || valid_utf8(bytes) {
        bytes.len()
    } else {
        valid_prefix_len(bytes.drop_last())
    }
}

/// For bytes that are not valid UTF-8: the length of the invalid sequence
/// that follows their longest valid prefix, as `Utf8Error::error_len` of the
/// standard library reports it. `None` means that the input ends in the
/// middle of a character.
pub uninterp spec fn utf8_error_len(bytes: Seq<u8>) -> Option<usize>;

/// Where decoding resumes after an invalid sequence: behind the sequence, if
/// one is reported that is not empty and lies inside the input.
pub open spec fn resume_at(len: int, valid_up_to: int, error_len: Option<usize>) -> Option<int> {
    match error_len {
        Some(l) => if 1 <= l && valid_up_to + l <= len {
            Some(valid_up_to + l)
        } else {
            None
        },
        None => None,
    }
}

/// The text that `bytes` decode to: their valid parts decoded as UTF-8, with
/// U+FFFD for every invalid sequence between them. Decoding stops after the
/// replacement character where the input ends in the middle of a character.
pub open spec fn lossy(bytes: Seq<u8>) -> Seq<char>
    decreases bytes.len(),
{
    if valid_utf8(bytes) {
        decode_utf8(bytes)
    } else {
        let n = valid_prefix_len(bytes) as int;
        let head = decode_utf8(bytes.take(n)).push(REPLACEMENT);
        match resume_at(bytes.len() as int, n, utf8_error_len(bytes)) {
            Some(next) => head + lossy(bytes.skip(next)),
            None => head,
        }
    }
}

/// Calls `std::str::from_utf8` and hands out what it reports as plain
/// values. The contract restates the documentation of that function and of
/// `Utf8Error`: the call succeeds exactly on valid UTF-8, and the string then
/// consists of the given bytes; on failure, `valid_up_to` is the greatest
/// length of a prefix that is valid, and `error_len` is the result that
/// [`utf8_error_len`] names.
#[verifier::external_body]
pub(crate) fn check_utf8(bytes: &[u8]) -> (r: Result<&str, (usize, Option<usize>)>)
    ensures
        r is Ok <==> valid_utf8(bytes@),
        r matches Ok(s) ==> s.spec_bytes() == bytes@,
        r matches Err((valid_up_to, error_len)) ==> valid_up_to == valid_prefix_len(bytes@)
            && error_len == utf8_error_len(bytes@),
{
    match std::str::from_utf8(bytes) {
        Ok(s) => Ok(s),
        Err(e) => Err((e.valid_up_to(), e.error_len())),
    }
}

/// Calls `String::push`, which appends one character to a string.
#[verifier::external_body]
pub(crate) fn push_char(s: &mut String, c: char)
    ensures
        final(s)@ == old(s)@.push(c),
{
    s.push(c)
}

/// Tells where lossy decoding of an input of `len` bytes resumes, once a
/// check has reported an invalid sequence of `error_len` bytes at
/// `valid_up_to`. `None` says that decoding is over.
pub fn resume_after(len: usize, valid_up_to: usize, error_len: Option<usize>) -> (next: Option<
    usize,
>)
    ensures
        match next {
            Some(n) => resume_at(len as int, valid_up_to as int, error_len) == Some(n as int),
            None => resume_at(len as int, valid_up_to as int, error_len) is None,
        },
{
    match error_len {
        Some(l) => {
            if valid_up_to <= len && 1 <= l && l <= len - valid_up_to {
                Some(valid_up_to + l)
            } else {
                None
            }
        },
        None => None,
    }
}

/// The longest valid prefix is a prefix, and it is valid.
pub proof fn lemma_valid_prefix(bytes: Seq<u8>)
    ensures
        valid_prefix_len(bytes) <= bytes.len(),
        valid_utf8(bytes.take(valid_prefix_len(bytes) as int)),
        valid_utf8(bytes) <==> valid_prefix_len(bytes) == bytes.len(),
    decreases bytes.len(),
{
    if bytes.len() == 0 || valid_utf8(bytes) {
        assert(bytes.take(bytes.len() as int) =~= bytes);
    } else {
        let shorter = bytes.drop_last();
        lemma_valid_prefix(shorter);
        let n = valid_prefix_len(shorter) as int;
        assert(shorter.take(n) =~= bytes.take(n));
    }
}

/// Valid UTF-8 decodes to the text that it encodes, and nothing is lost:
/// encoding the text gives the bytes back.
pub proof fn lemma_lossy_of_valid(bytes: Seq<u8>)
    requires
        valid_utf8(bytes),
    ensures
        lossy(bytes) == decode_utf8(bytes),
        encode_utf8(lossy(bytes)) == bytes,
{
    vstd::utf8::decode_utf8_encode_utf8(bytes);
}

/// A text that is encoded as UTF-8 and decoded again is the same text.
pub proof fn lemma_lossy_of_text(text: Seq<char>)
    ensures
        lossy(encode_utf8(text)) == text,
{
    vstd::utf8::encode_utf8_valid_utf8(text);
    vstd::utf8::encode_utf8_decode_utf8(text);
}

/// Decodes bytes to text, with U+FFFD in place of what is not valid UTF-8.
pub fn lossy_text(bytes: &[u8]) -> (text: String)
    ensures
        text@ == lossy(bytes@),
{
    let mut text = String::new();
    let mut rest: &[u8] = bytes;
    loop
        invariant
            text@ + lossy(rest@) == lossy(bytes@),
        decreases rest@.len(),
    {
        broadcast use vstd::utf8::encode_utf8_decode_utf8;

        match check_utf8(rest) {
            Ok(s) => {
                text.append(s);
                return text;
            },
            Err((valid_up_to, error_len)) => {
                proof {
                    lemma_valid_prefix(rest@);
                }
                let valid = slice_subrange(rest, 0, valid_up_to);
                assert(valid@ == rest@.take(valid_up_to as int));
                match check_utf8(valid) {
                    Ok(s) => {
                        text.append(s);
                    },
                    Err(_) => {
                        assert(false);
                    },
                }
                push_char(&mut text, REPLACEMENT);
                match resume_after(rest.len(), valid_up_to, error_len) {
                    Some(next) => {
                        let ghost before = rest@;
                        rest = slice_subrange(rest, next, rest.len());
                        assert(rest@ == before.skip(next as int));
                    },
                    None => {
                        return text;
                    },
                }
            },
        }
    }
}

/// The decimal digit for a number below ten: the characters from `0`, whose
/// code is 48, to `9`.
pub open spec fn digit(d: nat) -> char {
    ((48 + d) as u8) as char
}

/// A number in decimal, without sign or leading zeros.
pub open spec fn decimal(n: nat) -> Seq<char>
    decreases n,
{
    if n < 10 {
        seq![digit(n)]
    } else {
        decimal(n / 10).push(digit(n % 10))
    }
}

/// Appends a number in decimal to a string.
pub fn push_decimal(out: &mut String, n: u32)
    ensures
        final(out)@ == old(out)@ + decimal(n as nat),
    decreases n,
{
    if n >= 10 {
        push_decimal(out, n / 10);
    }
    let d: u8 = (n % 10) as u8;
    push_char(out, (48 + d) as char);
}

/// The lower-case hexadecimal digit for a number below sixteen: a decimal
/// digit, or a letter from `a`, whose code is 97, to `f`.
pub open spec fn hex_digit(d: nat) -> char {
    if d < 10 {
        ((48 + d) as u8) as char
    } else {
        ((87 + d) as u8) as char
    }
}

/// One byte as printable ASCII. Tab, carriage return, line feed, both quotes
/// and the backslash are written as a backslash and a letter or the
/// character itself; the printable bytes from space to tilde stand for
/// themselves; every other byte is written as `\xNN` with two lower-case
/// hexadecimal digits.
pub open spec fn escape_byte(b: u8) -> Seq<char> {
    if b == 9 {
        seq!['\\', 't']
    } else if b == 13 {
        seq!['\\', 'r']
    } else if b == 10 {
        seq!['\\', 'n']
    } else if b == 39 {
        seq!['\\', '\'']
    } else if b == 34 {
        seq!['\\', '"']
    } else if b == 92 {
        seq!['\\', '\\']
    } else if 32 <= b <= 126 {
        seq![b as char]
    } else {
        seq!['\\', 'x', hex_digit(b as nat / 16), hex_digit(b as nat % 16)]
    }
}

/// The bytes of a string, each as printable ASCII, in order.
pub open spec fn escaped(bytes: Seq<u8>) -> Seq<char>
    decreases bytes.len(),
{
    if bytes.len() == 0 {
        seq![]
    } else {
        escaped(bytes.drop_last()) + escape_byte(bytes.last())
    }
}

/// A byte string as a quoted literal: its escaped bytes between two double
/// quotes.
pub open spec fn quoted(bytes: Seq<u8>) -> Seq<char> {
    seq!['"'] + escaped(bytes) + seq!['"']
}

/// Whether a character is printable ASCII: from the space to the tilde.
pub open spec fn is_printable(c: char) -> bool {
    32 <= c as u32 <= 126
}

/// A byte is written as one to four characters, all of them printable ASCII.
pub proof fn lemma_escape_byte_printable(b: u8)
    ensures
        1 <= escape_byte(b).len() <= 4,
        forall|i: int| 0 <= i < escape_byte(b).len() ==> is_printable(#[trigger] escape_byte(b)[i]),
{
}

/// Escaped bytes are printable ASCII throughout, at least as many characters
/// as there were bytes and at most four times as many.
pub proof fn lemma_escaped_printable(bytes: Seq<u8>)
    ensures
        bytes.len() <= escaped(bytes).len() <= 4 * bytes.len(),
        forall|i: int| 0 <= i < escaped(bytes).len() ==> is_printable(#[trigger] escaped(bytes)[i]),
    decreases bytes.len(),
{
    if bytes.len() > 0 {
        lemma_escaped_printable(bytes.drop_last());
        lemma_escape_byte_printable(bytes.last());
    }
}

/// Returns the lower-case hexadecimal digit for a number below sixteen.
fn hex_char(d: u8) -> (c: char)
    requires
        d < 16,
    ensures
        c == hex_digit(d as nat),
{
    if d < 10 {
        (48 + d) as char
    } else {
        (87 + d) as char
    }
}

/// Appends one byte as printable ASCII to a string.
pub fn push_escaped(out: &mut String, b: u8)
    ensures
        final(out)@ == old(out)@ + escape_byte(b),
{
    if b == 9 {
        out.append("\\t");
        proof { reveal_strlit("\\t"); }
    } else if b == 13 {
        out.append("\\r");
        proof { reveal_strlit("\\r"); }
    } else if b == 10 {
        out.append("\\n");
        proof { reveal_strlit("\\n"); }
    } else if b == 39 {
        out.append("\\'");
        proof { reveal_strlit("\\'"); }
    } else if b == 34 {
        out.append("\\\"");
        proof { reveal_strlit("\\\""); }
    } else if b == 92 {
        out.append("\\\\");
        proof { reveal_strlit("\\\\"); }
    } else if 32 <= b && b <= 126 {
        push_char(out, b as char);
    } else {
        out.append("\\x");
        proof { reveal_strlit("\\x"); }
        push_char(out, hex_char(b / 16));
        push_char(out, hex_char(b % 16));
    }
    assert(out@ =~= old(out)@ + escape_byte(b));
}

/// Writes a byte string as a quoted literal of printable ASCII.
pub fn escaped_text(bytes: &[u8]) -> (text: String)
    ensures
        text@ == quoted(bytes@),
{
    let mut text = String::from_str("\"");
    proof { reveal_strlit("\""); }
    let mut i: usize = 0;
    while i < bytes.len()
        invariant
            i <= bytes@.len(),
            text@ == seq!['"'] + escaped(bytes@.take(i as int)),
        decreases bytes@.len() - i,
    {
        push_escaped(&mut text, bytes[i]);
        proof {
            let upto = bytes@.take(i + 1);
            assert(upto.drop_last() =~= bytes@.take(i as int));
            assert(upto.last() == bytes@[i as int]);
        }
        i += 1;
    }
    assert(bytes@.take(i as int) =~= bytes@);
    push_char(&mut text, '"');
    text
}

} // verus!
