use netcdf::error::Error;
use netcdf::text::{checked_name, checked_names, decode, is_representable};

#[test]
fn text_without_zero_bytes_is_representable() {
    assert!(is_representable(""));
    assert!(is_representable("simple_xy.nc"));
    assert!(is_representable("ø/β/値"));
    assert!(!is_representable("\0"));
    assert!(!is_representable("abc\0"));
    assert!(!is_representable("\0abc"));
    assert!(!is_representable("ab\0cd"));
}

#[test]
fn checked_name_copies_or_refuses() {
    assert_eq!(checked_name("lat"), Ok("lat".to_string()));
    assert_eq!(checked_name(""), Ok(String::new()));
    assert_eq!(checked_name("l\0at"), Err(Error::EncodingError));
}

#[test]
fn checked_names_copies_all_or_refuses_all() {
    assert_eq!(checked_names(&["a", "b", "c"]), Ok(vec!["a".to_string(), "b".to_string(), "c".to_string()]));
    assert_eq!(checked_names(&[]), Ok(Vec::new()));
    assert_eq!(checked_names(&["a", "b\0", "c"]), Err(Error::EncodingError));
    assert_eq!(checked_names(&["a", "b", "\0"]), Err(Error::EncodingError));
}

#[test]
fn decode_reads_utf8() {
    assert_eq!(decode(b"simple_xy.nc".to_vec()), Ok("simple_xy.nc".to_string()));
    assert_eq!(decode(Vec::new()), Ok(String::new()));
    assert_eq!(decode(vec![0xe2, 0x82, 0xac]), Ok("€".to_string()));
    assert_eq!(decode(vec![0xf0, 0x9f, 0x8c, 0x8d]), Ok("🌍".to_string()));
    assert_eq!(decode(vec![0x61, 0x00, 0x62]), Ok("a\0b".to_string()));
}

#[test]
fn decode_refuses_what_is_not_utf8() {
    assert_eq!(decode(vec![0xff]), Err(Error::EncodingError));
    assert_eq!(decode(vec![0xe2, 0x82]), Err(Error::EncodingError));
    assert_eq!(decode(vec![0xc0, 0x80]), Err(Error::EncodingError));
    assert_eq!(decode(vec![0xf4, 0x90, 0x80, 0x80]), Err(Error::EncodingError));
}
