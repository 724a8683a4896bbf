use inventory_server::models::{CheckIn, Drive};
use inventory_server::validation::{
    validate_hostname, validate_ip_address, validate_printable_ascii_required, validate_timestamp,
    Field, Rule, Violation,
};

fn checkin(hostname: &str, ip: &str, user: Option<&str>, serial: &str, ts: &str) -> CheckIn {
    CheckIn {
        hostname: hostname.to_string(),
        ip_address: ip.to_string(),
        logged_in_user: user.map(|u| u.to_string()),
        laptop_serial: serial.to_string(),
        drives: vec![],
        timestamp_utc: ts.to_string(),
    }
}

fn drive(model: &str, serial: Option<&str>, device: &str) -> Drive {
    Drive {
        model: model.to_string(),
        serial_number: serial.map(|s| s.to_string()),
        device_id: device.to_string(),
    }
}

fn good() -> CheckIn {
    checkin("LAPTOP-01", "10.0.0.5", Some("user"), "SERIAL001", "2025-12-18T12:00:00Z")
}

fn violations(c: &CheckIn) -> Vec<Violation> {
    match c.validate() {
        Ok(()) => vec![],
        Err(v) => v,
    }
}

#[test]
fn test_hostname_validation_with_underscores() {
    // Valid: underscores in middle
    let checkin1 = checkin("LAPTOP_TEST_01", "192.168.1.100", Some("user"), "ABC123", "2025-12-21T10:00:00Z");
    assert!(checkin1.validate().is_ok());

    // Valid: mixed separators
    let checkin2 = checkin("WIN_DESKTOP-01", "192.168.1.101", None, "XYZ789", "2025-12-21T11:00:00Z");
    assert!(checkin2.validate().is_ok());

    // Invalid: starts with underscore
    let checkin3 = checkin("_INVALID", "192.168.1.102", None, "BAD001", "2025-12-21T12:00:00Z");
    assert!(checkin3.validate().is_err());

    // Invalid: ends with underscore
    let checkin4 = checkin("INVALID_", "192.168.1.103", None, "BAD002", "2025-12-21T13:00:00Z");
    assert!(checkin4.validate().is_err());

    // Invalid: contains special characters
    let checkin5 = checkin("HOST@NAME", "192.168.1.104", None, "BAD003", "2025-12-21T14:00:00Z");
    assert!(checkin5.validate().is_err());
}

#[test]
fn test_hostname_validation_traditional_formats() {
    // Traditional DNS-style hostname (still valid)
    let checkin1 = checkin("LAPTOP-TEST", "192.168.1.200", None, "TRAD001", "2025-12-21T15:00:00Z");
    assert!(checkin1.validate().is_ok());

    // Simple alphanumeric
    let checkin2 = checkin("WORKSTATION01", "192.168.1.201", None, "TRAD002", "2025-12-21T16:00:00Z");
    assert!(checkin2.validate().is_ok());
}

#[test]
fn hostname_with_space_or_control_is_rejected() {
    for bad in ["HOST NAME", "HOST\nNAME", "HOST\tNAME", "HOST\u{0}NAME", "-HOST", "HOST-", " HOST"] {
        let mut c = good();
        c.hostname = bad.to_string();
        let v = violations(&c);
        assert!(v.contains(&Violation { field: Field::Hostname, rule: Rule::Hostname }), "{bad:?}");
    }
}

#[test]
fn hostname_length_bounds() {
    let mut c = good();
    c.hostname = "A".repeat(63);
    assert!(c.validate().is_ok());
    c.hostname = "A".repeat(64);
    assert_eq!(violations(&c), vec![Violation { field: Field::Hostname, rule: Rule::Length }]);
    c.hostname = String::new();
    assert_eq!(
        violations(&c),
        vec![
            Violation { field: Field::Hostname, rule: Rule::Length },
            Violation { field: Field::Hostname, rule: Rule::Hostname },
        ]
    );
    c.hostname = "a".to_string();
    assert!(c.validate().is_ok());
}

#[test]
fn ip_addresses_v4_and_v6() {
    for ok in ["192.168.1.1", "0.0.0.0", "::1", "fe80::223:6cff:fe8a:2e8a", "::ffff:254.42.16.14"] {
        assert_eq!(validate_ip_address(ok), Ok(()), "{ok}");
    }
    for bad in ["256.1.1.1", "25.1.1.", "not-an-ip", "", "192.168.1.1 "] {
        assert_eq!(validate_ip_address(bad), Err(Rule::IpAddress), "{bad}");
    }
    let mut c = good();
    c.ip_address = "999.0.0.1".to_string();
    assert_eq!(violations(&c), vec![Violation { field: Field::IpAddress, rule: Rule::IpAddress }]);
}

#[test]
fn timestamps_must_be_rfc3339_with_offset() {
    assert_eq!(validate_timestamp("2025-12-18T10:00:00Z"), Ok(()));
    assert_eq!(validate_timestamp("2025-12-18T10:00:00+02:00"), Ok(()));
    assert_eq!(validate_timestamp("1970-01-01T00:00:00Z"), Ok(()));
    assert_eq!(validate_timestamp("2999-01-01T00:00:00Z"), Ok(()));
    assert_eq!(validate_timestamp("2025-12-18 10:00:00"), Err(Rule::Timestamp));
    assert_eq!(validate_timestamp("2025-12-18T10:00:00"), Err(Rule::Timestamp));
    assert_eq!(validate_timestamp("yesterday"), Err(Rule::Timestamp));
    let mut c = good();
    c.timestamp_utc = "2025-13-40T10:00:00Z".to_string();
    assert_eq!(violations(&c), vec![Violation { field: Field::Timestamp, rule: Rule::Timestamp }]);
}

#[test]
fn printable_ascii_rule() {
    assert_eq!(validate_printable_ascii_required("DOMAIN\\user ~!"), Ok(()));
    assert_eq!(validate_printable_ascii_required(""), Ok(()));
    assert_eq!(validate_printable_ascii_required("line\nbreak"), Err(Rule::Characters));
    assert_eq!(validate_printable_ascii_required("nul\u{0}"), Err(Rule::Characters));
    assert_eq!(validate_printable_ascii_required("del\u{7f}"), Err(Rule::Characters));
    assert_eq!(validate_printable_ascii_required("caf\u{e9}"), Err(Rule::Characters));
}

#[test]
fn hostname_rule_directly() {
    assert_eq!(validate_hostname("WIN_DESKTOP-01"), Ok(()));
    assert_eq!(validate_hostname("_INVALID"), Err(Rule::Hostname));
    assert_eq!(validate_hostname(""), Err(Rule::Hostname));
    assert_eq!(validate_hostname("h\u{e9}te"), Err(Rule::Hostname));
}

#[test]
fn user_is_optional_and_bounded() {
    let mut c = good();
    c.logged_in_user = None;
    assert!(c.validate().is_ok());
    c.logged_in_user = Some(String::new());
    assert!(c.validate().is_ok());
    c.logged_in_user = Some("u".repeat(512));
    assert!(c.validate().is_ok());
    c.logged_in_user = Some("u".repeat(513));
    assert_eq!(violations(&c), vec![Violation { field: Field::LoggedInUser, rule: Rule::Length }]);
    c.logged_in_user = Some("bad\nuser".to_string());
    assert_eq!(violations(&c), vec![Violation { field: Field::LoggedInUser, rule: Rule::Characters }]);
}

#[test]
fn serial_is_required_and_bounded() {
    let mut c = good();
    c.laptop_serial = String::new();
    assert_eq!(violations(&c), vec![Violation { field: Field::LaptopSerial, rule: Rule::Length }]);
    c.laptop_serial = "S".repeat(128);
    assert!(c.validate().is_ok());
    c.laptop_serial = "S".repeat(129);
    assert_eq!(violations(&c), vec![Violation { field: Field::LaptopSerial, rule: Rule::Length }]);
}

#[test]
fn drive_list_bounds_and_fields() {
    let mut c = good();
    c.drives = (0..32).map(|_| drive("Model", None, "PHYSICALDRIVE0")).collect();
    assert!(c.validate().is_ok());
    c.drives.push(drive("Model", None, "PHYSICALDRIVE0"));
    assert_eq!(violations(&c), vec![Violation { field: Field::Drives, rule: Rule::Length }]);

    let mut c = good();
    c.drives = vec![
        drive("Samsung SSD", Some("S123456"), "PHYSICALDRIVE0"),
        drive("", Some("bad\nserial"), &"d".repeat(257)),
    ];
    assert_eq!(
        violations(&c),
        vec![
            Violation { field: Field::DriveModel(1), rule: Rule::Length },
            Violation { field: Field::DriveSerialNumber(1), rule: Rule::Characters },
            Violation { field: Field::DriveDeviceId(1), rule: Rule::Length },
        ]
    );
}

#[test]
fn every_violation_is_collected_in_field_order() {
    let mut c = checkin("bad host", "nope", Some("a\u{1}"), "", "never");
    c.drives = vec![drive("m", None, "")];
    assert_eq!(
        violations(&c),
        vec![
            Violation { field: Field::Hostname, rule: Rule::Hostname },
            Violation { field: Field::IpAddress, rule: Rule::IpAddress },
            Violation { field: Field::LoggedInUser, rule: Rule::Characters },
            Violation { field: Field::LaptopSerial, rule: Rule::Length },
            Violation { field: Field::DriveDeviceId(0), rule: Rule::Length },
            Violation { field: Field::Timestamp, rule: Rule::Timestamp },
        ]
    );
}

#[test]
fn rules_given_parser_verdicts() {
    let c = good();
    assert!(c.validate_with(true, true).is_ok());
    assert_eq!(
        c.validate_with(false, true),
        Err(vec![Violation { field: Field::IpAddress, rule: Rule::IpAddress }])
    );
    assert_eq!(
        c.validate_with(true, false),
        Err(vec![Violation { field: Field::Timestamp, rule: Rule::Timestamp }])
    );
    let mut bad = good();
    bad.hostname = "-x".to_string();
    assert_eq!(
        bad.validate_with(false, false),
        Err(vec![
            Violation { field: Field::Hostname, rule: Rule::Hostname },
            Violation { field: Field::IpAddress, rule: Rule::IpAddress },
            Violation { field: Field::Timestamp, rule: Rule::Timestamp },
        ])
    );
}
