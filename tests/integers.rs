use wasm_transform::cursor::Cursor;
use wasm_transform::error::ParseError;

#[test]
fn unsigned_integers() {
    let bytes = [0xE5, 0x8E, 0x26];
    let mut cursor = Cursor::new(&bytes);
    assert_eq!(cursor.read_u32().unwrap(), 624485);
    assert_eq!(cursor.position(), 3);
    let mut padded = Cursor::new(&[0x80, 0x00]);
    assert_eq!(padded.read_u32().unwrap(), 0);
    assert_eq!(padded.position(), 2);
}

#[test]
fn u32_limits() {
    let max = [0xFF, 0xFF, 0xFF, 0xFF, 0x0F];
    assert_eq!(Cursor::new(&max).read_u32().unwrap(), u32::MAX);
    let too_big = [0xFF, 0xFF, 0xFF, 0xFF, 0x1F];
    assert_eq!(Cursor::new(&too_big).read_u32().unwrap_err(), ParseError::MalformedInteger);
    let too_long = [0x80, 0x80, 0x80, 0x80, 0x80, 0x00];
    assert_eq!(Cursor::new(&too_long).read_u32().unwrap_err(), ParseError::MalformedInteger);
    let cut = [0x80];
    assert_eq!(Cursor::new(&cut).read_u32().unwrap_err(), ParseError::MalformedInteger);
}

#[test]
fn u64_limits() {
    let max = [0xFF, 0xFF, 0xFF, 0xFF, 0xFF, 0xFF, 0xFF, 0xFF, 0xFF, 0x01];
    assert_eq!(Cursor::new(&max).read_u64().unwrap(), u64::MAX);
    let over = [0xFF, 0xFF, 0xFF, 0xFF, 0xFF, 0xFF, 0xFF, 0xFF, 0xFF, 0x02];
    assert_eq!(Cursor::new(&over).read_u64().unwrap_err(), ParseError::MalformedInteger);
}

#[test]
fn signed_integers() {
    assert_eq!(Cursor::new(&[0x7F]).read_i32().unwrap(), -1);
    assert_eq!(Cursor::new(&[0xC0, 0xBB, 0x78]).read_i32().unwrap(), -123456);
    assert_eq!(Cursor::new(&[0x3F]).read_i32().unwrap(), 63);
    assert_eq!(Cursor::new(&[0x80, 0x80, 0x80, 0x80, 0x78]).read_i32().unwrap(), i32::MIN);
    let below = [0xFF, 0xFF, 0xFF, 0xFF, 0x77];
    assert_eq!(Cursor::new(&below).read_i32().unwrap_err(), ParseError::MalformedInteger);
}

#[test]
fn i64_limits() {
    let min = [0x80, 0x80, 0x80, 0x80, 0x80, 0x80, 0x80, 0x80, 0x80, 0x7F];
    assert_eq!(Cursor::new(&min).read_i64().unwrap(), i64::MIN);
    let max = [0xFF, 0xFF, 0xFF, 0xFF, 0xFF, 0xFF, 0xFF, 0xFF, 0xFF, 0x00];
    assert_eq!(Cursor::new(&max).read_i64().unwrap(), i64::MAX);
    let over = [0xFF, 0xFF, 0xFF, 0xFF, 0xFF, 0xFF, 0xFF, 0xFF, 0xFF, 0x01];
    assert_eq!(Cursor::new(&over).read_i64().unwrap_err(), ParseError::MalformedInteger);
}

#[test]
fn bytes_and_end_of_input() {
    let mut cursor = Cursor::new(&[0x2A]);
    assert_eq!(cursor.read_byte().unwrap(), 0x2A);
    assert_eq!(cursor.read_byte().unwrap_err(), ParseError::UnexpectedEnd);
    assert!(cursor.remaining().is_empty());
}
