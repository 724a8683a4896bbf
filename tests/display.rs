use inventory_server::display::{
    clean_drives, device_page, drive_serials_display, trim_device_prefix, DeviceTemplate,
};
use inventory_server::models::{CheckinRow, Drive, IndexLaptopRow, LaptopRow};

fn drive(serial: Option<&str>, device: &str) -> Drive {
    Drive {
        model: "Samsung SSD 970 EVO".to_string(),
        serial_number: serial.map(|s| s.to_string()),
        device_id: device.to_string(),
    }
}

fn row() -> LaptopRow {
    LaptopRow {
        laptop_serial: "SN123".to_string(),
        hostname: "test-laptop".to_string(),
        ip_address: "10.0.0.1".to_string(),
        logged_in_user: Some("admin".to_string()),
        last_seen_utc: "2024-01-15T12:00:00Z".to_string(),
        drives_json: "[]".to_string(),
    }
}

#[test]
fn device_prefix_is_trimmed() {
    assert_eq!(trim_device_prefix("\\\\.\\PhysicalDrive0"), "PhysicalDrive0");
    assert_eq!(trim_device_prefix("\\\\.\\\\\\.\\PhysicalDrive1"), "PhysicalDrive1");
    assert_eq!(trim_device_prefix("PHYSICALDRIVE0"), "PHYSICALDRIVE0");
    assert_eq!(trim_device_prefix("\\\\.\\"), "");
    assert_eq!(trim_device_prefix("\\\\."), "\\\\.");
    assert_eq!(trim_device_prefix("x\\\\.\\y"), "x\\\\.\\y");
    assert_eq!(trim_device_prefix(""), "");
}

#[test]
fn serials_are_joined_for_display() {
    assert_eq!(drive_serials_display(&vec![]), "-");
    assert_eq!(drive_serials_display(&vec![drive(None, "d")]), "-");
    assert_eq!(drive_serials_display(&vec![drive(Some("S4EVNX0M123456"), "d")]), "S4EVNX0M123456");
    assert_eq!(
        drive_serials_display(&vec![drive(Some("SN1"), "a"), drive(None, "b"), drive(Some("SN3"), "c")]),
        "SN1<br>SN3"
    );
}

#[test]
fn overview_row_keeps_values() {
    let r = IndexLaptopRow::from_row(row(), &vec![drive(Some("A"), "x"), drive(Some("B"), "y")]);
    assert_eq!(r.laptop_serial, "SN123");
    assert_eq!(r.hostname, "test-laptop");
    assert_eq!(r.ip_address, "10.0.0.1");
    assert_eq!(r.logged_in_user, Some("admin".to_string()));
    assert_eq!(r.last_seen_utc, "2024-01-15T12:00:00Z");
    assert_eq!(r.drive_serials_display, "A<br>B");
}

#[test]
fn device_page_cleans_drives() {
    let drives = vec![drive(Some("S1"), "\\\\.\\PhysicalDrive0"), drive(None, "PhysicalDrive1")];
    let cleaned = clean_drives(&drives);
    assert_eq!(cleaned.len(), 2);
    assert_eq!(cleaned[0].device_id, "PhysicalDrive0");
    assert_eq!(cleaned[0].serial_number, Some("S1".to_string()));
    assert_eq!(cleaned[0].model, "Samsung SSD 970 EVO");
    assert_eq!(cleaned[1].device_id, "PhysicalDrive1");

    let history = vec![CheckinRow {
        hostname: "test-laptop".to_string(),
        ip_address: "10.0.0.1".to_string(),
        logged_in_user: None,
        timestamp_utc: "2024-01-15T12:00:00Z".to_string(),
    }];
    let page = DeviceTemplate::new(row(), &drives, history.clone());
    assert_eq!(page.laptop, row());
    assert_eq!(page.checkins, history);
    assert_eq!(page.drives[0].device_id, "PhysicalDrive0");
}

#[test]
fn device_page_is_not_found_without_a_row() {
    assert!(matches!(device_page(None, &vec![], vec![]), Err(404)));
    let drives = vec![drive(Some("S1"), "\\\\.\\PhysicalDrive0")];
    let page = device_page(Some(row()), &drives, vec![]).ok().expect("the row exists");
    assert_eq!(page.laptop.laptop_serial, "SN123");
    assert_eq!(page.drives[0].device_id, "PhysicalDrive0");
}
