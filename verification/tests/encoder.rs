use mbpr::{Encoder, Encoding};

#[test]
fn test_encode_u8() {
    let mut e = Encoder::with_capacity(100);
    assert_eq!(e.len(), 0);
    assert_eq!(e.as_slice(), &b""[..]);
    (0xFFu8).encode(&mut e);
    assert_eq!(e.len(), 1);
    assert_eq!(e.as_slice(), &b"\xFF"[..]);
}

#[test]
fn test_encode_u16() {
    let mut e = Encoder::with_capacity(100);
    assert_eq!(e.len(), 0);
    assert_eq!(e.as_slice(), &b""[..]);
    (0xAAFFu16).encode(&mut e);
    assert_eq!(e.len(), 2);
    assert_eq!(e.as_slice(), &b"\xAA\xFF"[..]);
}

#[test]
fn test_encode_u32() {
    let mut e = Encoder::with_capacity(100);
    assert_eq!(e.len(), 0);
    assert_eq!(e.as_slice(), &b""[..]);
    (0x44BBAAFFu32).encode(&mut e);
    assert_eq!(e.len(), 4);
    assert_eq!(e.as_slice(), &b"\x44\xBB\xAA\xFF"[..]);
}

#[test]
fn test_encode_u64() {
    let mut e = Encoder::with_capacity(100);
    assert_eq!(e.len(), 0);
    assert_eq!(e.as_slice(), &b""[..]);
    (0x1166884444BBAAFFu64).encode(&mut e);
    assert_eq!(e.len(), 8);
    assert_eq!(e.as_slice(), &b"\x11\x66\x88\x44\x44\xBB\xAA\xFF"[..]);
}

#[test]
fn test_encode_slice() {
    let mut e = Encoder::with_capacity(100);
    assert_eq!(e.len(), 0);
    assert_eq!(e.as_slice(), &b""[..]);
    let slice: &'static [u8] = b"Hello World Test";
    slice.encode(&mut e);
    assert_eq!(e.len(), slice.len());
    assert_eq!(e.as_slice(), &b"Hello World Test"[..]);
}

#[test]
fn test_encoding_vec() {
    let mut e = Encoder::with_capacity(100);
    assert_eq!(e.len(), 0);
    assert_eq!(e.as_slice(), &b""[..]);
    let slice: Vec<u8> = vec![1, 2, 3, 4, 5, 6, 7, 8, 9, 10];
    slice.encode(&mut e);
    assert_eq!(e.len(), slice.len());
    assert_eq!(e.as_slice(), &b"\x01\x02\x03\x04\x05\x06\x07\x08\x09\x0A"[..]);
}
