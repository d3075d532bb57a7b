//! A read position over a borrowed byte string, and the primitive reads.
use vstd::prelude::*;
use crate::error::{ParseError, ParseResult};
use crate::leb::{read_signed, read_unsigned, sleb, uleb};

verus! {

/// What a read at a position gives on a whole input: the value and the
/// position after it, or the error that the read reports.
pub type SpecResult<T> = Result<(T, int), ParseError>;

/// The bytes from `pos` on, but at most `k` of them.
pub open spec fn window(b: Seq<u8>, pos: int, k: int) -> Seq<u8> {
    if pos + k <= b.len() {
        b.subrange(pos, pos + k)
    } else {
        b.subrange(pos, b.len() as int)
    }
}

/// A single byte.
pub open spec fn spec_byte(b: Seq<u8>, pos: int) -> SpecResult<u8> {
    if 0 <= pos < b.len() {
        Ok((b[pos], pos + 1))
    } else {
        Err(ParseError::UnexpectedEnd)
    }
}

/// An unsigned LEB128 integer of at most `k` bytes whose value is below `bound`.
pub open spec fn spec_uleb(b: Seq<u8>, pos: int, k: int, bound: int) -> SpecResult<int> {
    match uleb(window(b, pos, k)) {
        Some((v, n)) => if v < bound {
            Ok((v, pos + n))
        } else {
            Err(ParseError::MalformedInteger)
        },
        None => Err(ParseError::MalformedInteger),
    }
}

/// A signed LEB128 integer of at most `k` bytes whose value lies in `lo..=hi`.
pub open spec fn spec_sleb(b: Seq<u8>, pos: int, k: int, lo: int, hi: int) -> SpecResult<int> {
    match sleb(window(b, pos, k)) {
        Some((v, n)) => if lo <= v <= hi {
            Ok((v, pos + n))
        } else {
            Err(ParseError::MalformedInteger)
        },
        None => Err(ParseError::MalformedInteger),
    }
}

/// A `u32`: at most five bytes, as 32 bits need.
pub open spec fn spec_u32(b: Seq<u8>, pos: int) -> SpecResult<u32> {
    match spec_uleb(b, pos, 5, 0x1_0000_0000) {
        Ok((v, p)) => Ok((v as u32, p)),
        Err(e) => Err(e),
    }
}

/// A `u64`: at most ten bytes, as 64 bits need.
pub open spec fn spec_u64(b: Seq<u8>, pos: int) -> SpecResult<u64> {
    match spec_uleb(b, pos, 10, 0x1_0000_0000_0000_0000) {
        Ok((v, p)) => Ok((v as u64, p)),
        Err(e) => Err(e),
    }
}

/// An `i32`: at most five bytes.
pub open spec fn spec_i32(b: Seq<u8>, pos: int) -> SpecResult<i32> {
    match spec_sleb(b, pos, 5, i32::MIN as int, i32::MAX as int) {
        Ok((v, p)) => Ok((v as i32, p)),
        Err(e) => Err(e),
    }
}

/// An `i64`: at most ten bytes.
pub open spec fn spec_i64(b: Seq<u8>, pos: int) -> SpecResult<i64> {
    match spec_sleb(b, pos, 10, i64::MIN as int, i64::MAX as int) {
        Ok((v, p)) => Ok((v as i64, p)),
        Err(e) => Err(e),
    }
}

/// The read that a cursor made agrees with what the spec gives: the same
/// value and end position, or the same error.
pub open spec fn agrees<T>(s: SpecResult<T>, r: ParseResult<T>, end: int) -> bool {
    match s {
        Ok((v, p)) => r == Ok::<T, ParseError>(v) && end == p,
        Err(e) => r == Err::<T, ParseError>(e),
    }
}

/// A read position over borrowed bytes. Reads never copy the bytes.
pub struct Cursor<'a> {
    pub bytes: &'a [u8],
    pub pos: usize,
}

impl<'a> Cursor<'a> {
    /// The position lies within the bytes.
    pub open spec fn wf(&self) -> bool {
        self.pos <= self.bytes@.len()
    }

    /// A cursor at the start of `bytes`.
    pub fn new(bytes: &'a [u8]) -> (c: Self)
        ensures
            c.wf(),
            c.bytes@ == bytes@,
            c.pos == 0,
    {
        Cursor { bytes, pos: 0 }
    }

    /// The current position.
    pub fn position(&self) -> (r: usize)
        ensures
            r == self.pos,
    {
        self.pos
    }

    /// The bytes from the current position to the end.
    pub fn remaining(&self) -> (r: &'a [u8])
        requires
            self.wf(),
        ensures
            r@ == self.bytes@.subrange(self.pos as int, self.bytes@.len() as int),
    {
        &self.bytes[self.pos..self.bytes.len()]
    }

    /// The bytes from the current position on, but at most `k` of them.
    fn window(&self, k: usize) -> (r: &'a [u8])
        requires
            self.wf(),
        ensures
            r@ == window(self.bytes@, self.pos as int, k as int),
            r@.len() <= k,
            self.pos + r@.len() <= self.bytes@.len(),
    {
        let end = if self.bytes.len() - self.pos >= k {
            self.pos + k
        } else {
            self.bytes.len()
        };
        &self.bytes[self.pos..end]
    }

    /// Read one byte.
    pub fn read_byte(&mut self) -> (r: ParseResult<u8>)
        requires
            old(self).wf(),
        ensures
            final(self).wf(),
            final(self).bytes@ == old(self).bytes@,
            final(self).pos >= old(self).pos,
            agrees(spec_byte(old(self).bytes@, old(self).pos as int), r, final(self).pos as int),
    {
        if self.pos < self.bytes.len() {
            let b = self.bytes[self.pos];
            self.pos = self.pos + 1;
            Ok(b)
        } else {
            Err(ParseError::UnexpectedEnd)
        }
    }

    /// Read an unsigned LEB128 integer of at most `k` bytes.
    fn read_uleb(&mut self, k: usize) -> (r: ParseResult<u64>)
        requires
            old(self).wf(),
            k <= 10,
        ensures
            final(self).wf(),
            final(self).bytes@ == old(self).bytes@,
            final(self).pos >= old(self).pos,
            match spec_uleb(old(self).bytes@, old(self).pos as int, k as int, 0x1_0000_0000_0000_0000) {
                Ok((v, p)) => r matches Ok(x) && x == v && final(self).pos == p,
                Err(e) => r == Err::<u64, ParseError>(e),
            },
    {
        let total = self.bytes.len();
        let w = self.window(k);
        match read_unsigned(w) {
            Ok((v, rest)) => {
                proof {
                    lemma_uleb_len(w@);
                }
                assert(self.pos + w@.len() <= total);
                self.pos = self.pos + (w.len() - rest);
                Ok(v)
            },
            Err(_) => Err(ParseError::MalformedInteger),
        }
    }

    /// Read a signed LEB128 integer of at most `k` bytes.
    fn read_sleb(&mut self, k: usize) -> (r: ParseResult<i64>)
        requires
            old(self).wf(),
            k <= 10,
        ensures
            final(self).wf(),
            final(self).bytes@ == old(self).bytes@,
            final(self).pos >= old(self).pos,
            match spec_sleb(old(self).bytes@, old(self).pos as int, k as int, i64::MIN as int, i64::MAX as int) {
                Ok((v, p)) => r matches Ok(x) && x == v && final(self).pos == p,
                Err(e) => r == Err::<i64, ParseError>(e),
            },
    {
        let total = self.bytes.len();
        let w = self.window(k);
        match read_signed(w) {
            Ok((v, rest)) => {
                proof {
                    lemma_sleb_len(w@);
                }
                assert(self.pos + w@.len() <= total);
                self.pos = self.pos + (w.len() - rest);
                Ok(v)
            },
            Err(_) => Err(ParseError::MalformedInteger),
        }
    }

    /// Read a `u32`.
    pub fn read_u32(&mut self) -> (r: ParseResult<u32>)
        requires
            old(self).wf(),
        ensures
            final(self).wf(),
            final(self).bytes@ == old(self).bytes@,
            final(self).pos >= old(self).pos,
            agrees(spec_u32(old(self).bytes@, old(self).pos as int), r, final(self).pos as int),
    {
        let v = self.read_uleb(5)?;
        if v <= 0xFFFF_FFFF {
            Ok(v as u32)
        } else {
            Err(ParseError::MalformedInteger)
        }
    }

    /// Read a `u64`.
    pub fn read_u64(&mut self) -> (r: ParseResult<u64>)
        requires
            old(self).wf(),
        ensures
            final(self).wf(),
            final(self).bytes@ == old(self).bytes@,
            final(self).pos >= old(self).pos,
            agrees(spec_u64(old(self).bytes@, old(self).pos as int), r, final(self).pos as int),
    {
        self.read_uleb(10)
    }

    /// Read an `i32`.
    pub fn read_i32(&mut self) -> (r: ParseResult<i32>)
        requires
            old(self).wf(),
        ensures
            final(self).wf(),
            final(self).bytes@ == old(self).bytes@,
            final(self).pos >= old(self).pos,
            agrees(spec_i32(old(self).bytes@, old(self).pos as int), r, final(self).pos as int),
    {
        let v = self.read_sleb(5)?;
        if -0x8000_0000 <= v && v <= 0x7FFF_FFFF {
            Ok(v as i32)
        } else {
            Err(ParseError::MalformedInteger)
        }
    }

    /// Read an `i64`.
    pub fn read_i64(&mut self) -> (r: ParseResult<i64>)
        requires
            old(self).wf(),
        ensures
            final(self).wf(),
            final(self).bytes@ == old(self).bytes@,
            final(self).pos >= old(self).pos,
            agrees(spec_i64(old(self).bytes@, old(self).pos as int), r, final(self).pos as int),
    {
        self.read_sleb(10)
    }
}

/// A decoded integer never takes more bytes than it was given.
pub proof fn lemma_uleb_len(b: Seq<u8>)
    ensures
        uleb(b) matches Some((_, n)) ==> 1 <= n <= b.len(),
    decreases b.len(),
{
    if b.len() > 0 {
        lemma_uleb_len(b.drop_first());
    }
}

/// A decoded signed integer never takes more bytes than it was given.
pub proof fn lemma_sleb_len(b: Seq<u8>)
    ensures
        sleb(b) matches Some((_, n)) ==> 1 <= n <= b.len(),
    decreases b.len(),
{
    if b.len() > 0 {
        lemma_sleb_len(b.drop_first());
    }
}

} // verus!
