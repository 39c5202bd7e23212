use george_template::net::is_valid_ipv4;

#[test]
fn accepts_valid_ipv4_addresses() {
    assert!(is_valid_ipv4("192.168.1.1"));
    assert!(is_valid_ipv4("0.0.0.0"));
    assert!(is_valid_ipv4("255.255.255.255"));
}

#[test]
fn rejects_invalid_ipv4_addresses() {
    assert!(!is_valid_ipv4("256.1.1.1"));
    assert!(!is_valid_ipv4("192.168.1"));
    assert!(!is_valid_ipv4("a.b.c.d"));
    assert!(!is_valid_ipv4(" 127.0.0.1 "));
}

#[test]
fn ipv4_validation_handles_edge_cases() {
    let valid = ["1.2.3.4", "1.2.3.255", "10.0.0.1", "9.99.199.249", "0.10.100.200"];
    let invalid = [
        "01.2.3.4", "0.0.0.00", "1.2.3.4.", ".1.2.3", "1..2.3", "1.2.3.4.5", "1.2.3.256",
        "1000.1.1.1", "001.1.1.1", "1.2.3.-4", "1.2.3.+4", "", "...", "1.2.3.4 ",
        "\u{0661}.2.3.4", "1.2.3.0004",
    ];
    for case in valid {
        assert!(is_valid_ipv4(case), "{case:?}");
    }
    for case in invalid {
        assert!(!is_valid_ipv4(case), "{case:?}");
    }
}
