use anaheim::text::{decimal_string, hex_string};
use anaheim::util::{hostname, hostname_or_unknown};

#[test]
fn hostname_fallback() {
    assert_eq!(hostname_or_unknown(None), "<UNKNOWN_HOST>");
    assert_eq!(hostname_or_unknown(Some("\"box\"".to_string())), "\"box\"");
}

#[test]
fn hostname_is_read() {
    let name = hostname();
    assert!(!name.is_empty());
    if name != "<UNKNOWN_HOST>" {
        assert!(name.starts_with('"') && name.ends_with('"'));
    }
}

#[test]
fn decimal_rendering() {
    assert_eq!(decimal_string(0), "0");
    assert_eq!(decimal_string(7), "7");
    assert_eq!(decimal_string(10), "10");
    assert_eq!(decimal_string(u64::MAX), u64::MAX.to_string());
    for n in [1u64, 9, 99, 100, 12345, 65535] {
        assert_eq!(decimal_string(n).parse::<u64>().unwrap(), n);
    }
}

#[test]
fn hex_rendering() {
    assert_eq!(hex_string(0, 0), "");
    assert_eq!(hex_string(255, 2), "ff");
    assert_eq!(hex_string(255, 4), "00ff");
    assert_eq!(hex_string(0x1ff, 2), "ff");
}
