//! The relational layout of the store and the statements that read and write
//! it. The store is a single file in write-ahead-log mode with two tables: the
//! current state of each machine, keyed by serial, and the append-only audit
//! log of check-ins, indexed by serial and by timestamp.

use vstd::prelude::*;

verus! {

/// Connection settings applied on every open: write-ahead logging, normal
/// synchronisation, foreign keys enforced.
pub const PRAGMAS_SQL: &'static str =
    "PRAGMA journal_mode = WAL; PRAGMA synchronous = NORMAL; PRAGMA foreign_keys = ON;";

/// Creates both tables and the audit log's indexes when absent.
pub const SCHEMA_SQL: &'static str = "
CREATE TABLE IF NOT EXISTS laptops (
  laptop_serial TEXT PRIMARY KEY,
  hostname TEXT NOT NULL,
  ip_address TEXT NOT NULL,
  logged_in_user TEXT,
  last_seen_utc TEXT NOT NULL,
  drives_json TEXT NOT NULL
);

CREATE TABLE IF NOT EXISTS checkins (
  id INTEGER PRIMARY KEY AUTOINCREMENT,
  laptop_serial TEXT NOT NULL,
  hostname TEXT NOT NULL,
  ip_address TEXT NOT NULL,
  logged_in_user TEXT,
  timestamp_utc TEXT NOT NULL,
  drives_json TEXT NOT NULL
);

CREATE INDEX IF NOT EXISTS idx_checkins_laptop_serial ON checkins(laptop_serial);
CREATE INDEX IF NOT EXISTS idx_checkins_timestamp ON checkins(timestamp_utc);
";

/// Appends one audit row. Parameters: serial, hostname, address, user,
/// timestamp, drive snapshot.
pub const INSERT_CHECKIN_SQL: &'static str = "
INSERT INTO checkins (
    laptop_serial, hostname, ip_address, logged_in_user, timestamp_utc, drives_json
) VALUES (?1, ?2, ?3, ?4, ?5, ?6)
";

/// Creates the current-state row of a serial, or overwrites every column of
/// it. Parameters as for the audit insert; the timestamp becomes last-seen.
pub const UPSERT_LAPTOP_SQL: &'static str = "
INSERT INTO laptops (
    laptop_serial, hostname, ip_address, logged_in_user, last_seen_utc, drives_json
) VALUES (?1, ?2, ?3, ?4, ?5, ?6)
ON CONFLICT(laptop_serial) DO UPDATE SET
    hostname=excluded.hostname,
    ip_address=excluded.ip_address,
    logged_in_user=excluded.logged_in_user,
    last_seen_utc=excluded.last_seen_utc,
    drives_json=excluded.drives_json
";

/// Every current-state row, most recently seen first.
pub const SELECT_ALL_LAPTOPS_SQL: &'static str = "
SELECT laptop_serial, hostname, ip_address, logged_in_user, last_seen_utc, drives_json
FROM laptops
ORDER BY last_seen_utc DESC
";

/// The current-state row of one serial (parameter 1).
pub const SELECT_LAPTOP_SQL: &'static str = "
SELECT laptop_serial, hostname, ip_address, logged_in_user, last_seen_utc, drives_json
FROM laptops
WHERE laptop_serial = ?1
";

/// The audit rows of one serial (parameter 1), most recent first.
pub const SELECT_CHECKINS_SQL: &'static str = "
SELECT hostname, ip_address, logged_in_user, timestamp_utc
FROM checkins
WHERE laptop_serial = ?1
ORDER BY timestamp_utc DESC
";

} // verus!
