use vstd::prelude::*;
use vstd::string::{StringExecFns, StringSliceAdditionalSpecFns};
use vstd::utf8::{decode_utf8, valid_utf8};

use crate::error::Error;

verus! {

/// The decimal digit for `d < 10`.
pub open spec fn digit(d: nat) -> char {
    seq!['0', '1', '2', '3', '4', '5', '6', '7', '8', '9'][d as int]
}

/// The decimal notation of `n`, without leading zeros.
pub open spec fn decimal(n: nat) -> Seq<char>
    decreases n,
{
    if n < 10 {
        seq![digit(n)]
    } else {
        decimal(n / 10).push(digit(n % 10))
    }
}

/// Relies on `usize`'s `ToString`: its decimal notation.
#[verifier::external_body]
fn decimal_text(n: usize) -> (r: String)
    ensures
        r@ == decimal(n as nat),
{
    n.to_string()
}

/// The words before the position in the message for an embedded zero byte.
pub open spec fn nul_prefix() -> Seq<char> {
    "nul byte found in provided data at position: "@
}

/// The message for text whose first zero byte stands at `pos`.
pub open spec fn nul_message(pos: nat) -> Seq<char> {
    nul_prefix() + decimal(pos)
}

/// Whether `b` holds a zero byte.
pub open spec fn has_nul(b: Seq<u8>) -> bool {
    exists|i: int| 0 <= i < b.len() && b[i] == 0
}

/// Whether `pos` is the index of the first zero byte of `b`.
pub open spec fn is_first_nul(b: Seq<u8>, pos: int) -> bool {
    &&& 0 <= pos < b.len()
    &&& b[pos] == 0
    &&& forall|j: int| 0 <= j < pos ==> b[j] != 0
}

/// The local error for text whose first zero byte stands at `pos`.
pub fn nul_error(pos: usize) -> (e: Error)
    ensures
        e.is_local_with(nul_message(pos as nat)),
{
    let mut message = String::from_str("nul byte found in provided data at position: ");
    proof {
        reveal_strlit("nul byte found in provided data at position: ");
    }
    message.append(decimal_text(pos).as_str());
    Error::from(message)
}

/// Encodes text for the engine: its bytes followed by one zero byte.
/// Text that holds a zero byte itself cannot be encoded, and gives the
/// local error that names the first one's position.
pub fn to_cstring(b: &[u8]) -> (r: Result<Vec<u8>, Error>)
    ensures
        !has_nul(b@) <==> r is Ok,
        r matches Ok(v) ==> v@ == b@.push(0),
        r matches Err(e) ==> exists|pos: int| #[trigger] is_first_nul(b@, pos)
            && e.is_local_with(nul_message(pos as nat)),
{
    let mut out: Vec<u8> = Vec::new();
    let mut i: usize = 0;
    while i < b.len()
        invariant
            i <= b@.len(),
            out@ == b@.subrange(0, i as int),
            forall|j: int| 0 <= j < i ==> b@[j] != 0,
        decreases b@.len() - i,
    {
        if b[i] == 0 {
            assert(is_first_nul(b@, i as int));
            return Err(nul_error(i));
        }
        out.push(b[i]);
        assert(out@ == b@.subrange(0, i + 1));
        i = i + 1;
    }
    assert(out@ == b@);
    out.push(0);
    Ok(out)
}

/// Relies on `std::str::from_utf8`: it accepts exactly valid UTF-8, and the
/// text it gives back has the same bytes.
#[verifier::external_body]
fn utf8_str(b: &[u8]) -> (r: Option<&str>)
    ensures
        r is Some <==> valid_utf8(b@),
        r matches Some(s) ==> s.spec_bytes() == b@,
{
    std::str::from_utf8(b).ok()
}

/// The bytes behind an optional view.
pub open spec fn bytes_of(b: Option<&[u8]>) -> Option<Seq<u8>> {
    match b {
        Some(s) => Some(s@),
        None => None,
    }
}

/// The characters behind an optional text view.
pub open spec fn chars_of(s: Option<&str>) -> Option<Seq<char>> {
    match s {
        Some(t) => Some(t@),
        None => None,
    }
}

/// What an optional engine string reads as: absent when it is absent or is
/// not valid UTF-8, else its decoded characters.
pub open spec fn text_of(b: Option<Seq<u8>>) -> Option<Seq<char>> {
    match b {
        Some(s) => if valid_utf8(s) {
            Some(decode_utf8(s))
        } else {
            None
        },
        None => None,
    }
}

/// Reads an optional engine string as text, borrowing from the same memory.
/// Absence and malformed text both read as `None`.
pub fn text_view<'a>(b: Option<&'a [u8]>) -> (r: Option<&'a str>)
    ensures
        chars_of(r) == text_of(bytes_of(b)),
{
    match b {
        None => None,
        Some(bytes) => {
            let r = utf8_str(bytes);
            proof {
                if let Some(s) = r {
                    vstd::utf8::encode_utf8_decode_utf8(s@);
                }
            }
            r
        },
    }
}

} // verus!
