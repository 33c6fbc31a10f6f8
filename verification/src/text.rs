//! Text at the boundary: names stored in fixed-capacity, NUL-terminated
//! byte buffers, and the search for NUL characters in strings.

use vstd::prelude::*;
use vstd::string::StrSliceExecFns;
use vstd::utf8::{decode_utf8, valid_utf8};

use crate::error::BgpStreamError;

verus! {

/// Index of the first NUL byte at or after `from`, or the length of the
/// buffer if there is none.
pub open spec fn nul_position_from(buffer: Seq<u8>, from: int) -> int
    decreases buffer.len() - from,
{
    if from < 0 || from >= buffer.len() || buffer[from] == 0 {
        from
    } else {
        nul_position_from(buffer, from + 1)
    }
}

/// Index of the first NUL byte of a buffer, or its length if there is none.
pub open spec fn nul_position(buffer: Seq<u8>) -> int {
    nul_position_from(buffer, 0)
}

/// The bytes of a buffer that come before its first NUL.
pub open spec fn text_bytes(buffer: Seq<u8>) -> Seq<u8> {
    buffer.take(nul_position(buffer))
}

/// The name held in a buffer: its bytes up to the first NUL, read as UTF-8.
pub open spec fn name_of(buffer: Seq<u8>) -> Result<Seq<char>, BgpStreamError> {
    if valid_utf8(text_bytes(buffer)) {
        Ok(decode_utf8(text_bytes(buffer)))
    } else {
        Err(BgpStreamError::InvalidText)
    }
}

/// The first NUL of a buffer lies within it, no byte before it is NUL, and
/// the byte at it is NUL unless the buffer holds none.
pub proof fn lemma_nul_position(buffer: Seq<u8>, from: int)
    requires
        0 <= from <= buffer.len(),
    ensures
        from <= nul_position_from(buffer, from) <= buffer.len(),
        forall|i: int| from <= i < nul_position_from(buffer, from) ==> buffer[i] != 0,
        nul_position_from(buffer, from) < buffer.len() ==> buffer[nul_position_from(
            buffer,
            from,
        )] == 0,
    decreases buffer.len() - from,
{
    if from < buffer.len() && buffer[from] != 0 {
        lemma_nul_position(buffer, from + 1);
    }
}

/// `String::from_utf8` of the standard library: the bytes become a string
/// exactly when they are valid UTF-8, and the string then holds the
/// characters they encode.
#[verifier::external_body]
fn string_from_utf8(bytes: Vec<u8>) -> (r: Option<String>)
    ensures
        r is Some <==> valid_utf8(bytes@),
        r is Some ==> r->Some_0@ == decode_utf8(bytes@),
{
    match String::from_utf8(bytes) {
        Ok(s) => Some(s),
        Err(_) => None,
    }
}

/// Reads a name out of a fixed-capacity buffer: scans to the first NUL (or
/// to the end of the buffer) and validates what came before as UTF-8. The
/// bytes after the first NUL never count.
pub fn array_to_string(array: &[u8]) -> (r: Result<String, BgpStreamError>)
    ensures
        r is Ok <==> valid_utf8(text_bytes(array@)),
        r is Ok ==> r->Ok_0@ == decode_utf8(text_bytes(array@)),
        r is Err ==> r->Err_0 == BgpStreamError::InvalidText,
{
    let mut text: Vec<u8> = Vec::new();
    let mut i: usize = 0;
    while i < array.len() && array[i] != 0
        invariant
            0 <= i <= array.len(),
            text@ == array@.take(i as int),
            nul_position(array@) == nul_position_from(array@, i as int),
        decreases array.len() - i,
    {
        text.push(array[i]);
        i += 1;
        assert(text@ == array@.take(i as int));
    }
    assert(text@ == text_bytes(array@));
    match string_from_utf8(text) {
        Some(s) => Ok(s),
        None => Err(BgpStreamError::InvalidText),
    }
}

/// Whether a character sequence holds the NUL character.
pub open spec fn has_nul(s: Seq<char>) -> bool {
    exists|i: int| 0 <= i < s.len() && s[i] == '\0'
}

/// Tells whether a string contains a NUL character.
pub fn contains_nul(s: &str) -> (found: bool)
    ensures
        found == has_nul(s@),
{
    let n = s.unicode_len();
    let mut i: usize = 0;
    while i < n
        invariant
            0 <= i <= n,
            n == s@.len(),
            forall|j: int| 0 <= j < i ==> s@[j] != '\0',
        decreases n - i,
    {
        if s.get_char(i) == '\0' {
            return true;
        }
        i += 1;
    }
    false
}

/// The character of a decimal digit.
pub open spec fn digit_char(d: nat) -> char {
    if d == 0 {
        '0'
    } else if d == 1 {
        '1'
    } else if d == 2 {
        '2'
    } else if d == 3 {
        '3'
    } else if d == 4 {
        '4'
    } else if d == 5 {
        '5'
    } else if d == 6 {
        '6'
    } else if d == 7 {
        '7'
    } else if d == 8 {
        '8'
    } else {
        '9'
    }
}

/// A number written in decimal, without sign or leading zeros.
pub open spec fn decimal(n: nat) -> Seq<char>
    decreases n,
{
    if n < 10 {
        seq![digit_char(n)]
    } else {
        decimal(n / 10).push(digit_char(n % 10))
    }
}

/// `to_string` of the standard library on a `u64`: the number in decimal,
/// without sign or leading zeros.
#[verifier::external_body]
pub(crate) fn decimal_string(n: u64) -> (s: String)
    ensures
        s@ == decimal(n as nat),
{
    n.to_string()
}

} // verus!
