use aardvark_rs::error::{
    check_count, check_status, status_string_from_bytes, InvalidStatusText,
    UNABLE_TO_FIND_UNUSED_DEVICE_CODE,
};
use aardvark_rs::AardvarkError;

#[test]
fn new_keeps_status() {
    let e = AardvarkError::new(-7);
    assert_eq!(e.get(), -7);
    let f = AardvarkError::new_from_const(0x0001);
    assert_eq!(f.get(), 1);
}

#[test]
fn code_round_trips_through_i32() {
    let e = AardvarkError::new(-104);
    let code: i32 = i32::from(e);
    assert_eq!(code, -104);
    let code: i32 = AardvarkError::new(i32::MIN).into();
    assert_eq!(code, i32::MIN);
}

#[test]
fn unable_to_find_unused_device_is_code_one() {
    let e = AardvarkError::unable_to_find_unused_device();
    assert_eq!(e.get(), 1);
    assert_eq!(UNABLE_TO_FIND_UNUSED_DEVICE_CODE, 1);
}

#[test]
fn displays_code_in_decimal() {
    assert_eq!(AardvarkError::new(-7).to_string(), "Aardvark error: -7");
    assert_eq!(AardvarkError::new(1234).to_string(), "Aardvark error: 1234");
    assert_eq!(AardvarkError::new(1).to_string(), "Aardvark error: 1");
    assert_eq!(AardvarkError::new(10).to_string(), "Aardvark error: 10");
    assert_eq!(AardvarkError::new(i32::MIN).to_string(), "Aardvark error: -2147483648");
    assert_eq!(AardvarkError::new(i32::MAX).to_string(), "Aardvark error: 2147483647");
}

#[test]
fn display_matches_std_formatting() {
    for code in [-1000000, -100, -9, -1, 1, 9, 99, 100, 65535, 1000001] {
        let expected = format!("Aardvark error: {}", code);
        assert_eq!(AardvarkError::new(code).to_string(), expected);
    }
}

#[test]
fn check_status_negative_is_error() {
    assert_eq!(check_status(0), Ok(()));
    assert_eq!(check_status(5), Ok(()));
    assert_eq!(check_status(-1), Err(AardvarkError::new(-1)));
    assert_eq!(check_status(i32::MIN), Err(AardvarkError::new(i32::MIN)));
}

#[test]
fn check_count_negative_is_error() {
    assert_eq!(check_count(0), Ok(0));
    assert_eq!(check_count(17), Ok(17));
    assert_eq!(check_count(-2).unwrap_err().get(), -2);
}

#[test]
fn status_text_is_decoded_from_utf8() {
    assert_eq!(status_string_from_bytes(b"AA_UNABLE_TO_OPEN").unwrap(), "AA_UNABLE_TO_OPEN");
    assert_eq!(status_string_from_bytes("d\u{e9}j\u{e0}".as_bytes()).unwrap(), "d\u{e9}j\u{e0}");
    assert_eq!(status_string_from_bytes(b"").unwrap(), "");
    assert_eq!(status_string_from_bytes(&[0x41, 0xff, 0x42]), Err(InvalidStatusText));
}
