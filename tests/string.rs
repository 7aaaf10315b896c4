use lvd_lib::string::{FixedString, ParseFixedStringError};
use lvd_lib::version::{Version, Versioned};
use lvd_lib::wire::{DecodeError, Endian, Wire};

#[test]
fn read_buf_init() {
    let buf = b"COL_00_Floor01\0\0";
    let (value, end) = FixedString::<16>::decode_payload(1, Endian::Big, buf, 0).unwrap();
    assert_eq!(value.to_string().unwrap(), "COL_00_Floor01");
    assert_eq!(end, 16);
}

#[test]
fn read_buf_uninit() {
    let buf = b"START_00_P01\0\xFF\xFF\xFF";
    let (value, end) = FixedString::<16>::decode_payload(1, Endian::Big, buf, 0).unwrap();
    assert_eq!(value.to_string().unwrap(), "START_00_P01");
    assert_eq!(end, 16);
}

#[test]
fn read_buf_empty_init() {
    let buf = b"\0\0\0\0\0\0\0\0";
    let (value, _) = FixedString::<8>::decode_payload(1, Endian::Big, buf, 0).unwrap();
    assert_eq!(value.to_string().unwrap(), "");
}

#[test]
fn read_buf_empty_uninit() {
    let buf = b"\0\xFF\xFF\xFF\xFF\xFF\xFF\xFF";
    let (value, end) = FixedString::<8>::decode_payload(1, Endian::Big, buf, 0).unwrap();
    assert_eq!(value.to_string().unwrap(), "");
    assert_eq!(end, 8);
}

#[test]
fn read_buf_missing_nul() {
    let buf = b"DEATH_00";
    let value = FixedString::<8>::decode_payload(1, Endian::Big, buf, 0);
    assert!(value.is_err());
    assert_eq!(value.map(|(_, e)| e), Err(DecodeError::MissingTerminator { pos: 0 }));
}

#[test]
fn from_str_ok() {
    let s = "";
    let value = FixedString::<8>::from_str(s).unwrap();
    assert_eq!(value.to_string().unwrap(), s);

    let s = "COL_curve1";
    let value = FixedString::<16>::from_str(s).unwrap();
    assert_eq!(value.to_string().unwrap(), s);
}

#[test]
fn from_str_err() {
    let s = "GeneralPoint3D__tag____0000_Kir";
    let value = FixedString::<24>::from_str(s);

    assert_eq!(value, Err(ParseFixedStringError::BufferOverflow));
}

#[test]
fn write_buf() {
    let value = FixedString::<8>::from_str("curve1").unwrap();
    let mut out = Vec::new();
    value.encode_payload(Endian::Big, &mut out);
    assert_eq!(out, b"curve1\0\0");
}

#[test]
fn write_buf_empty() {
    let value = FixedString::<8>::new();
    let mut out = Vec::new();
    value.encode_payload(Endian::Big, &mut out);
    assert_eq!(out, b"\0\0\0\0\0\0\0\0");
}

#[test]
fn capacity_edge() {
    assert!(FixedString::<8>::from_str("1234567").is_ok());
    assert_eq!(FixedString::<8>::from_str("12345678"), Err(ParseFixedStringError::BufferOverflow));
    let value = FixedString::<8>::from_str("1234567").unwrap();
    let mut out = Vec::new();
    Versioned::new(value).encode(Endian::Big, &mut out);
    assert_eq!(out, b"\x011234567\0");
    let (back, end) = Versioned::<FixedString<8>>::read(Endian::Big, &out, 0).unwrap();
    assert_eq!(back.inner.as_bytes(), b"1234567");
    assert_eq!(back.inner.len(), 7);
    assert!(!back.inner.is_empty());
    assert_eq!(end, 9);
}

#[test]
fn text_stops_at_first_zero_byte() {
    let value = FixedString::<8>::from_str("ab\0cd").unwrap();
    assert_eq!(value.as_bytes(), b"ab");
}

#[test]
fn window_shorter_than_capacity_is_truncated() {
    let buf = b"abc\0";
    let r = FixedString::<8>::decode_payload(1, Endian::Big, buf, 0);
    assert_eq!(r.map(|(_, e)| e), Err(DecodeError::Truncated { pos: 0 }));
}

#[test]
fn invalid_utf8_has_no_text() {
    let buf = b"\xFF\xFE\0\0";
    let (value, _) = FixedString::<4>::decode_payload(1, Endian::Big, buf, 0).unwrap();
    assert!(value.to_str().is_err());
    assert_eq!(value.as_bytes(), b"\xFF\xFE");
}

#[test]
fn window_read_ignores_bytes_after_terminator() {
    let (a, end_a) = FixedString::<8>::read_window(b"ab\0xxxxx", 0).unwrap();
    let (b, end_b) = FixedString::<8>::read_window(b"ab\0\0\0\0\0\0", 0).unwrap();
    assert_eq!(a, b);
    assert_eq!(a.as_bytes(), b"ab");
    assert_eq!((end_a, end_b), (8, 8));
    assert_eq!(FixedString::<8>::read_window(b"abcdefgh", 0).map(|(_, e)| e), Err(DecodeError::MissingTerminator { pos: 0 }));
}
