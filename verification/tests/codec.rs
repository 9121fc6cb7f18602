use picotin::{check_name, format_id, format_pid, parse_pid, random_id, Error};

#[test]
fn format_id_renders_eight_hex_digits() {
    assert_eq!(format_id(0), "00000000");
    assert_eq!(format_id(0xdeadbeef), "deadbeef");
    assert_eq!(format_id(0x00000001), "00000001");
    assert_eq!(format_id(0xffffffff), "ffffffff");
    assert_eq!(format_id(0x0badcafe), "0badcafe");
}

#[test]
fn random_id_is_eight_hex_digits() {
    for _ in 0..32 {
        let id = random_id();
        assert_eq!(id.len(), 8);
        assert!(id.chars().all(|c| c.is_ascii_hexdigit() && !c.is_ascii_uppercase()));
    }
}

#[test]
fn parse_pid_accepts_decimal() {
    assert_eq!(parse_pid("1234"), Ok(1234));
    assert_eq!(parse_pid("0"), Ok(0));
    assert_eq!(parse_pid("007"), Ok(7));
    assert_eq!(parse_pid("+42"), Ok(42));
    assert_eq!(parse_pid("4294967295"), Ok(u32::MAX));
}

#[test]
fn parse_pid_rejects_malformed() {
    assert_eq!(parse_pid(""), Err(Error::Malformed));
    assert_eq!(parse_pid("+"), Err(Error::Malformed));
    assert_eq!(parse_pid("12a"), Err(Error::Malformed));
    assert_eq!(parse_pid("-5"), Err(Error::Malformed));
    assert_eq!(parse_pid(" 12"), Err(Error::Malformed));
    assert_eq!(parse_pid("12\n"), Err(Error::Malformed));
    assert_eq!(parse_pid("4294967296"), Err(Error::Malformed));
    assert_eq!(parse_pid("99999999999999999999"), Err(Error::Malformed));
}

#[test]
fn pid_round_trips_through_decimal_text() {
    for pid in [0u32, 1, 9, 10, 99, 100, 4096, 65535, 123456789, u32::MAX] {
        let text = format_pid(pid);
        assert_eq!(parse_pid(&text), Ok(pid));
    }
    assert_eq!(format_pid(1234), "1234");
    assert_eq!(format_pid(0), "0");
}

#[test]
fn name_with_slash_is_rejected() {
    assert_eq!(check_name("abc"), Ok(()));
    assert_eq!(check_name("0a1b2c3d"), Ok(()));
    assert_eq!(check_name(""), Ok(()));
    assert_eq!(check_name("a/b"), Err(Error::InvalidInput));
    assert_eq!(check_name("/"), Err(Error::InvalidInput));
    assert_eq!(check_name("../escape"), Err(Error::InvalidInput));
}
