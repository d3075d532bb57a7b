//! LEB128 integers: what a byte string encodes, and the reads of the
//! `leb128` crate that decode them.
use vstd::prelude::*;

verus! {

/// The unsigned LEB128 value at the front of `b`, with the number of bytes
/// it takes: the first byte without the continuation bit ends it. `None`
/// when every byte of `b` carries the continuation bit.
pub open spec fn uleb(b: Seq<u8>) -> Option<(int, nat)>
    decreases b.len(),
{
    if b.len() == 0 {
        None
    } else if b[0] < 0x80 {
        Some((b[0] as int, 1nat))
    } else {
        match uleb(b.drop_first()) {
            Some((v, n)) => Some(((b[0] - 0x80) + 0x80 * v, n + 1)),
            None => None,
        }
    }
}

/// The signed LEB128 value at the front of `b`, with the number of bytes it
/// takes. The last byte's bit `0x40` is the sign.
pub open spec fn sleb(b: Seq<u8>) -> Option<(int, nat)>
    decreases b.len(),
{
    if b.len() == 0 {
        None
    } else if b[0] < 0x80 {
        Some((if b[0] < 0x40 { b[0] as int } else { b[0] - 0x80 }, 1nat))
    } else {
        match sleb(b.drop_first()) {
            Some((v, n)) => Some(((b[0] - 0x80) + 0x80 * v, n + 1)),
            None => None,
        }
    }
}

#[verifier::external_type_specification]
#[verifier::external_body]
pub struct ExLebError(leb128::read::Error);

/// Relies on `leb128::read::unsigned` reading from a slice of at most ten
/// bytes: it succeeds exactly when the slice starts with an encoding whose
/// value fits in 64 bits, returns that value, and leaves the slice after it.
/// The second component is the length of what is left unread.
#[verifier::external_body]
pub(crate) fn read_unsigned(window: &[u8]) -> (r: Result<(u64, usize), leb128::read::Error>)
    requires
        window@.len() <= 10,
    ensures
        r is Ok <==> (uleb(window@) matches Some((v, _)) && v < 0x1_0000_0000_0000_0000),
        r matches Ok((v, rest)) ==> uleb(window@) matches Some((w, n)) && v == w && rest
            == window@.len() - n,
{
    let mut reader: &[u8] = window;
    match leb128::read::unsigned(&mut reader) {
        Ok(v) => Ok((v, reader.len())),
        Err(e) => Err(e),
    }
}

/// Relies on `leb128::read::signed` reading from a slice of at most ten
/// bytes: it succeeds exactly when the slice starts with an encoding whose
/// value fits in an `i64`, returns that value, and leaves the slice after it.
/// The second component is the length of what is left unread.
#[verifier::external_body]
pub(crate) fn read_signed(window: &[u8]) -> (r: Result<(i64, usize), leb128::read::Error>)
    requires
        window@.len() <= 10,
    ensures
        r is Ok <==> (sleb(window@) matches Some((v, _)) && i64::MIN <= v <= i64::MAX),
        r matches Ok((v, rest)) ==> sleb(window@) matches Some((w, n)) && v == w && rest
            == window@.len() - n,
{
    let mut reader: &[u8] = window;
    match leb128::read::signed(&mut reader) {
        Ok(v) => Ok((v, reader.len())),
        Err(e) => Err(e),
    }
}

} // verus!
