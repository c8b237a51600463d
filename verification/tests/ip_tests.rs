use bento::ip::is_ip_address;
use bento::ip::is_ipv4;
use bento::ip::is_ipv6;
use bento::ip::split_char;

#[test]
fn test_split_char() {
    let parts = split_char("a:b::c", ':');
    assert_eq!(parts, vec!["a", "b", "", "c"]);
    assert_eq!(split_char("", '.'), vec![""]);
    assert_eq!(split_char("..", '.'), vec!["", "", ""]);
    assert_eq!(split_char("1.2.3.4", '.'), vec!["1", "2", "3", "4"]);
}

#[test]
fn test_ipv4_accepts_dotted_quads() {
    assert!(is_ipv4("0.0.0.0"));
    assert!(is_ipv4("127.0.0.1"));
    assert!(is_ipv4("255.255.255.255"));
    assert!(is_ipv4("192.168.1.10"));
}

#[test]
fn test_ipv4_rejects_malformed_text() {
    assert!(!is_ipv4(""));
    assert!(!is_ipv4("1.2.3"));
    assert!(!is_ipv4("1.2.3.4.5"));
    assert!(!is_ipv4("256.1.1.1"));
    assert!(!is_ipv4("01.1.1.1"));
    assert!(!is_ipv4("1.2.3.x"));
    assert!(!is_ipv4("1..2.3"));
    assert!(!is_ipv4(" 1.2.3.4"));
    assert!(!is_ipv4("1.2.3.4 "));
    assert!(!is_ipv4("1234.1.1.1"));
}

#[test]
fn test_ipv6_accepts_standard_forms() {
    assert!(is_ipv6("::"));
    assert!(is_ipv6("::1"));
    assert!(is_ipv6("1::"));
    assert!(is_ipv6("1:2:3:4:5:6:7:8"));
    assert!(is_ipv6("2001:db8::8a2e:370:7334"));
    assert!(is_ipv6("fe80::1"));
    assert!(is_ipv6("ABCD:EF01:2345:6789:abcd:ef01:2345:6789"));
    assert!(is_ipv6("1:2:3:4:5:6:7::"));
    assert!(is_ipv6("::1:2:3:4:5:6:7"));
}

#[test]
fn test_ipv6_accepts_embedded_ipv4() {
    assert!(is_ipv6("::ffff:192.168.1.1"));
    assert!(is_ipv6("::1.2.3.4"));
    assert!(is_ipv6("1:2:3:4:5:6:1.2.3.4"));
    assert!(is_ipv6("1::2:1.2.3.4"));
}

#[test]
fn test_ipv6_rejects_malformed_text() {
    assert!(!is_ipv6(""));
    assert!(!is_ipv6(":"));
    assert!(!is_ipv6(":::"));
    assert!(!is_ipv6(":1"));
    assert!(!is_ipv6("1:"));
    assert!(!is_ipv6("1:2:3:4:5:6:7"));
    assert!(!is_ipv6("1:2:3:4:5:6:7:8:9"));
    assert!(!is_ipv6("1:2:3:4:5:6:7:8::"));
    assert!(!is_ipv6("::1:2:3:4:5:6:7:8"));
    assert!(!is_ipv6("1::2::3"));
    assert!(!is_ipv6("12345::1"));
    assert!(!is_ipv6("abcg::1"));
    assert!(!is_ipv6("1.2.3.4"));
    assert!(!is_ipv6("1:2:3:4:5:1.2.3.4:8"));
    assert!(!is_ipv6("1:2:3:4:5:6:7:1.2.3.4"));
}

#[test]
fn test_ip_address_accepts_both_families() {
    assert!(is_ip_address("10.0.0.1"));
    assert!(is_ip_address("::1"));
    assert!(!is_ip_address("not-an-ip"));
    assert!(!is_ip_address("10.0.0"));
}
