//! The records that flow through the system: the untrusted check-in report,
//! its drive snapshot, and the rows read back from the store.

use vstd::prelude::*;

verus! {

/// One attached storage drive, as reported by the client.
#[derive(Debug, Clone, PartialEq, Eq)]
pub struct Drive {
    pub model: String,
    pub serial_number: Option<String>,
    pub device_id: String,
}

/// A check-in report submitted by a client machine.
#[derive(Debug, Clone, PartialEq, Eq)]
pub struct CheckIn {
    pub hostname: String,
    pub ip_address: String,
    pub logged_in_user: Option<String>,
    pub laptop_serial: String,
    pub drives: Vec<Drive>,
    pub timestamp_utc: String,
}

/// A current-state row: the latest accepted check-in of one machine.
#[derive(Debug, Clone, PartialEq, Eq)]
pub struct LaptopRow {
    pub laptop_serial: String,
    pub hostname: String,
    pub ip_address: String,
    pub logged_in_user: Option<String>,
    pub last_seen_utc: String,
    pub drives_json: String,
}

/// An audit-log row, as shown in a machine's history.
#[derive(Debug, Clone, PartialEq, Eq)]
pub struct CheckinRow {
    pub hostname: String,
    pub ip_address: String,
    pub logged_in_user: Option<String>,
    pub timestamp_utc: String,
}

/// A current-state row prepared for the inventory overview, with the drive
/// serial numbers joined for compact display.
#[derive(Debug, Clone, PartialEq, Eq)]
pub struct IndexLaptopRow {
    pub laptop_serial: String,
    pub hostname: String,
    pub ip_address: String,
    pub logged_in_user: Option<String>,
    pub last_seen_utc: String,
    pub drive_serials_display: String,
}

} // verus!
