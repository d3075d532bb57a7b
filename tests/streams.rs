use wasm_transform::traits::{Read, Write};

#[test]
fn vec_writer_appends() {
    let mut out: Vec<u8> = vec![9];
    out.write_all(&[1, 2, 3]).unwrap();
    out.write_u8(4).unwrap();
    out.write_u16(0x0605).unwrap();
    out.write_u32(0x0A09_0807).unwrap();
    out.write_u64(0x1211_100F_0E0D_0C0B).unwrap();
    assert_eq!(out, (1..=0x12).fold(vec![9u8], |mut v, x| { v.push(x); v }));
}

struct Source {
    data: Vec<u8>,
    chunk: usize,
}

impl Read for Source {
    type Err = ();

    fn read(&mut self, buf: &mut [u8]) -> Result<usize, ()> {
        let n = self.chunk.min(buf.len()).min(self.data.len());
        buf[..n].copy_from_slice(&self.data[..n]);
        self.data.drain(..n);
        Ok(n)
    }
}

#[test]
fn reader_reads_little_endian() {
    let mut source = Source { data: vec![1, 2, 0, 3, 0, 0, 0, 4, 0, 0, 0, 0, 0, 0, 0], chunk: 3 };
    assert_eq!(source.read_u8().unwrap(), 1);
    assert_eq!(source.read_u16().unwrap(), 2);
    assert_eq!(source.read_u32().unwrap(), 3);
    assert_eq!(source.read_u64().unwrap(), 4);
    assert!(source.read_u8().is_err());
}
