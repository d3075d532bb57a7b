//! Byte streams and (de)serialisation for contract code, free of `std::io`.
use vstd::prelude::*;
use vstd::bytes::{
    spec_u16_to_le_bytes, spec_u32_to_le_bytes, spec_u64_to_le_bytes, u16_from_le_bytes,
    u16_to_le_bytes, u32_from_le_bytes, u32_to_le_bytes, u64_from_le_bytes, u64_to_le_bytes,
};

verus! {

/// Where a seek counts from.
pub enum SeekFrom {
    Start(u64),
    End(i64),
    Current(i64),
}

/// A stream with a position that can be moved.
pub trait Seek {
    type Err;

    /// Move to a new position; on success return it, counted from the start.
    fn seek(&mut self, pos: SeekFrom) -> Result<u64, Self::Err>;
}

/// A source of bytes.
pub trait Read {
    type Err: Default;

    /// Read some bytes into the front of `buf`; `Ok(n)` says how many,
    /// which may be none.
    fn read(&mut self, buf: &mut [u8]) -> (r: Result<usize, Self::Err>)
        ensures
            final(buf)@.len() == old(buf)@.len(),
            r matches Ok(n) ==> n <= old(buf)@.len(),
    ;

    /// Fill `buf` completely, reading as often as needed. It fails if a read
    /// fails or the source ends first; `buf` then holds what was read.
    fn read_exact(&mut self, buf: &mut [u8]) -> (r: Result<(), Self::Err>)
        ensures
            final(buf)@.len() == old(buf)@.len(),
    {
        let len = buf.len();
        let mut start: usize = 0;
        while start < buf.len()
            invariant
                buf@.len() == len,
                len == old(buf)@.len(),
                start <= len,
            decreases len - start,
        {
            let (_, rest) = buf.split_at_mut(start);
            match self.read(rest) {
                Ok(0) => break,
                Ok(n) => {
                    start = start + n;
                },
                Err(_) => {
                    return Err(Self::Err::default());
                },
            }
        }
        if start == buf.len() {
            Ok(())
        } else {
            Err(Self::Err::default())
        }
    }

    /// Read a `u64` in little-endian order.
    fn read_u64(&mut self) -> Result<u64, Self::Err> {
        let mut bytes: Vec<u8> = vec![0u8; 8];
        self.read_exact(bytes.as_mut_slice())?;
        Ok(u64_from_le_bytes(bytes.as_slice()))
    }

    /// Read a `u32` in little-endian order.
    fn read_u32(&mut self) -> Result<u32, Self::Err> {
        let mut bytes: Vec<u8> = vec![0u8; 4];
        self.read_exact(bytes.as_mut_slice())?;
        Ok(u32_from_le_bytes(bytes.as_slice()))
    }

    /// Read a `u16` in little-endian order.
    fn read_u16(&mut self) -> Result<u16, Self::Err> {
        let mut bytes: Vec<u8> = vec![0u8; 2];
        self.read_exact(bytes.as_mut_slice())?;
        Ok(u16_from_le_bytes(bytes.as_slice()))
    }

    /// Read one byte.
    fn read_u8(&mut self) -> Result<u8, Self::Err> {
        let mut bytes: Vec<u8> = vec![0u8; 1];
        self.read_exact(bytes.as_mut_slice())?;
        Ok(bytes[0])
    }
}

/// A sink of bytes. `written` is everything the sink has taken so far.
pub trait Write {
    type Err: Default;

    spec fn written(&self) -> Seq<u8>;

    /// Write a prefix of `buf`; `Ok(n)` says how long.
    fn write(&mut self, buf: &[u8]) -> (r: Result<usize, Self::Err>)
        ensures
            r matches Ok(n) ==> n <= buf@.len() && final(self).written() == old(self).written()
                + buf@.subrange(0, n as int),
    ;

    /// Write all of `buf`, writing as often as needed. It fails if a write
    /// fails or takes nothing.
    fn write_all(&mut self, buf: &[u8]) -> (r: Result<(), Self::Err>)
        ensures
            r is Ok ==> final(self).written() == old(self).written() + buf@,
    {
        let mut start: usize = 0;
        while start < buf.len()
            invariant
                start <= buf@.len(),
                self.written() == old(self).written() + buf@.subrange(0, start as int),
            decreases buf@.len() - start,
        {
            let rest = &buf[start..buf.len()];
            match self.write(rest) {
                Ok(n) => {
                    if n == 0 {
                        return Err(Self::Err::default());
                    }
                    assert(buf@.subrange(0, start + n) =~= buf@.subrange(0, start as int)
                        + rest@.subrange(0, n as int));
                    start = start + n;
                },
                Err(_) => {
                    return Err(Self::Err::default());
                },
            }
        }
        assert(buf@.subrange(0, buf@.len() as int) =~= buf@);
        Ok(())
    }

    /// Write one byte.
    fn write_u8(&mut self, x: u8) -> (r: Result<(), Self::Err>)
        ensures
            r is Ok ==> final(self).written() == old(self).written() + seq![x],
    {
        let bytes: Vec<u8> = vec![x];
        let r = self.write_all(bytes.as_slice());
        assert(bytes@ =~= seq![x]);
        r
    }

    /// Write a `u16` in little-endian order.
    fn write_u16(&mut self, x: u16) -> (r: Result<(), Self::Err>)
        ensures
            r is Ok ==> final(self).written() == old(self).written() + spec_u16_to_le_bytes(x),
    {
        let bytes = u16_to_le_bytes(x);
        self.write_all(bytes.as_slice())
    }

    /// Write a `u32` in little-endian order.
    fn write_u32(&mut self, x: u32) -> (r: Result<(), Self::Err>)
        ensures
            r is Ok ==> final(self).written() == old(self).written() + spec_u32_to_le_bytes(x),
    {
        let bytes = u32_to_le_bytes(x);
        self.write_all(bytes.as_slice())
    }

    /// Write a `u64` in little-endian order.
    fn write_u64(&mut self, x: u64) -> (r: Result<(), Self::Err>)
        ensures
            r is Ok ==> final(self).written() == old(self).written() + spec_u64_to_le_bytes(x),
    {
        let bytes = u64_to_le_bytes(x);
        self.write_all(bytes.as_slice())
    }
}

/// A vector is a sink that never fails: it appends what it is given.
impl Write for Vec<u8> {
    type Err = ();

    open spec fn written(&self) -> Seq<u8> {
        self@
    }

    fn write(&mut self, buf: &[u8]) -> (r: Result<usize, ()>)
        ensures
            r == Ok::<usize, ()>(buf@.len() as usize),
            final(self)@ == old(self)@ + buf@,
    {
        let mut i: usize = 0;
        while i < buf.len()
            invariant
                i <= buf@.len(),
                self@ == old(self)@ + buf@.subrange(0, i as int),
            decreases buf@.len() - i,
        {
            self.push(buf[i]);
            assert(self@ =~= old(self)@ + buf@.subrange(0, i + 1));
            i = i + 1;
        }
        assert(buf@.subrange(0, buf@.len() as int) =~= buf@);
        Ok(buf.len())
    }
}

/// A value that can be written to a sink.
pub trait Serial {
    /// Write the value, failing if only part of it could be written.
    fn serial<W: Write>(&self, out: &mut W) -> Result<(), W::Err>;
}

/// A value that can be read from a source.
pub trait Deserial: Sized {
    /// Read a value, failing if the source fails or holds no such value.
    fn deserial<R: Read>(source: &mut R) -> Result<Self, R::Err>;
}

/// A value that can be both written and read.
pub trait Serialize: Serial + Deserial {

}

impl<A: Deserial + Serial> Serialize for A {

}

/// Reading a value whose type the context decides.
pub trait Get<T> {
    type Err;

    fn get(&mut self) -> Result<T, Self::Err>;
}

impl<R: Read, T: Deserial> Get<T> for R {
    type Err = R::Err;

    fn get(&mut self) -> Result<T, R::Err> {
        T::deserial(self)
    }
}

} // verus!
