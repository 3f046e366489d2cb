use wolrus::parse_mac;

#[test]
fn parse_colon_separated() {
    assert_eq!(parse_mac(b"00:01:02:03:04:05"), Some([0, 1, 2, 3, 4, 5]));
}

#[test]
fn parse_hyphen_separated() {
    assert_eq!(parse_mac(b"00-11-22-33-44-55"), Some([0x00, 0x11, 0x22, 0x33, 0x44, 0x55]));
}

#[test]
fn parse_mixed_case_digits() {
    assert_eq!(parse_mac(b"aB:cD:eF:0a:B1:C2"), Some([0xab, 0xcd, 0xef, 0x0a, 0xb1, 0xc2]));
}

#[test]
fn parse_broadcast_address() {
    assert_eq!(parse_mac(b"FF:FF:FF:FF:FF:FF"), Some([0xff; 6]));
}

#[test]
fn reject_too_short() {
    assert_eq!(parse_mac(b"00:01:02:03:04"), None);
    assert_eq!(parse_mac(b""), None);
}

#[test]
fn reject_too_long() {
    assert_eq!(parse_mac(b"00:01:02:03:04:05:06"), None);
    assert_eq!(parse_mac(b"00:01:02:03:04:055"), None);
}

#[test]
fn reject_bad_digit() {
    assert_eq!(parse_mac(b"0g:01:02:03:04:05"), None);
    assert_eq!(parse_mac(b"00:01:02:03:04:0 "), None);
}

#[test]
fn reject_bad_separator() {
    assert_eq!(parse_mac(b"00.01.02.03.04.05"), None);
    assert_eq!(parse_mac(b"000102030405000102"), None);
}

#[test]
fn reject_mixed_separators() {
    assert_eq!(parse_mac(b"00:01-02:03-04:05"), None);
}
