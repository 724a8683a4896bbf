//! Validation engine: pure checks of an untrusted check-in report against the
//! syntactic and semantic rules, collecting every violation in one pass.

use vstd::prelude::*;
use vstd::string::StringSliceAdditionalSpecFns;
use crate::models::{CheckIn, Drive};

verus! {

/// Longest hostname accepted, in characters.
pub const HOSTNAME_MAX_LEN: usize = 63;

/// Longest logged-in user name accepted, in characters.
pub const USER_MAX_LEN: usize = 512;

/// Longest machine serial number accepted, in characters.
pub const SERIAL_MAX_LEN: usize = 128;

/// Most drives a single check-in may report.
pub const DRIVES_MAX: usize = 32;

/// Longest drive model, drive serial number or device identifier accepted.
pub const DRIVE_TEXT_MAX_LEN: usize = 256;

/// The part of a check-in that a violation concerns. Drive fields carry the
/// drive's position in the report.
#[derive(Debug, Clone, Copy, PartialEq, Eq, Structural)]
pub enum Field {
    Hostname,
    IpAddress,
    LoggedInUser,
    LaptopSerial,
    Drives,
    DriveModel(usize),
    DriveSerialNumber(usize),
    DriveDeviceId(usize),
    Timestamp,
}

/// The rule that a field broke.
#[derive(Debug, Clone, Copy, PartialEq, Eq, Structural)]
pub enum Rule {
    /// Too short or too long (for the drive list: too many entries).
    Length,
    /// Holds a character that is not printable ASCII.
    Characters,
    /// Not a hostname: bad character, or not alphanumeric at either end.
    Hostname,
    /// Not the text of an IPv4 or IPv6 address.
    IpAddress,
    /// Not an RFC 3339 date-time with an offset.
    Timestamp,
}

/// One field-level violation.
#[derive(Debug, Clone, Copy, PartialEq, Eq, Structural)]
pub struct Violation {
    pub field: Field,
    pub rule: Rule,
}

// ---------------------------------------------------------------------------
// Character classes

/// ASCII, and not a control character.
pub open spec fn is_printable_ascii_char(c: char) -> bool {
    ' ' <= c <= '~'
}

pub open spec fn is_printable_ascii(s: Seq<char>) -> bool {
    forall|i: int| 0 <= i < s.len() ==> is_printable_ascii_char(#[trigger] s[i])
}

pub open spec fn is_ascii_alphanumeric(c: char) -> bool {
    ('0' <= c <= '9') || ('a' <= c <= 'z') || ('A' <= c <= 'Z')
}

pub open spec fn is_hostname_char(c: char) -> bool {
    is_ascii_alphanumeric(c) || c == '-' || c == '_'
}

/// Alphanumerics, `-` and `_` only, with an alphanumeric at both ends.
pub open spec fn is_hostname(s: Seq<char>) -> bool {
    &&& s.len() > 0
    &&& forall|i: int| 0 <= i < s.len() ==> is_hostname_char(#[trigger] s[i])
    &&& is_ascii_alphanumeric(s[0])
    &&& is_ascii_alphanumeric(s[s.len() - 1])
}

/// Whether std's `IpAddr` parser accepts the text as an IPv4 or IPv6 address.
pub uninterp spec fn is_ip_text(s: Seq<char>) -> bool;

/// Whether chrono's RFC 3339 parser accepts the text as a date-time with offset.
pub uninterp spec fn is_rfc3339(s: Seq<char>) -> bool;

// ---------------------------------------------------------------------------
// The rules, stated directly

pub open spec fn text_ok(s: Seq<char>, min: int, max: int) -> bool {
    min <= s.len() <= max && is_printable_ascii(s)
}

pub open spec fn optional_text_ok(o: Option<String>, max: int) -> bool {
    match o {
        Some(s) => text_ok(s@, 0, max),
        None => true,
    }
}

pub open spec fn drive_ok(d: Drive) -> bool {
    &&& text_ok(d.model@, 1, DRIVE_TEXT_MAX_LEN as int)
    &&& optional_text_ok(d.serial_number, DRIVE_TEXT_MAX_LEN as int)
    &&& text_ok(d.device_id@, 1, DRIVE_TEXT_MAX_LEN as int)
}

/// Every rule of a check-in report holds, given whether its address and its
/// timestamp parse.
pub open spec fn rules_hold(c: CheckIn, ip_ok: bool, timestamp_ok: bool) -> bool {
    &&& 1 <= c.hostname@.len() <= HOSTNAME_MAX_LEN
    &&& is_hostname(c.hostname@)
    &&& ip_ok
    &&& optional_text_ok(c.logged_in_user, USER_MAX_LEN as int)
    &&& text_ok(c.laptop_serial@, 1, SERIAL_MAX_LEN as int)
    &&& c.drives@.len() <= DRIVES_MAX
    &&& forall|i: int| 0 <= i < c.drives@.len() ==> drive_ok(#[trigger] c.drives@[i])
    &&& timestamp_ok
}

/// Every rule of a check-in report holds.
pub open spec fn checkin_ok(c: CheckIn) -> bool {
    rules_hold(c, is_ip_text(c.ip_address@), is_rfc3339(c.timestamp_utc@))
}

// ---------------------------------------------------------------------------
// The violations, in the order in which they are reported

pub open spec fn one_if(broken: bool, field: Field, rule: Rule) -> Seq<Violation> {
    if broken {
        seq![Violation { field, rule }]
    } else {
        seq![]
    }
}

pub open spec fn text_violations(field: Field, s: Seq<char>, min: int, max: int) -> Seq<Violation> {
    one_if(!(min <= s.len() <= max), field, Rule::Length) + one_if(
        !is_printable_ascii(s),
        field,
        Rule::Characters,
    )
}

pub open spec fn optional_text_violations(field: Field, o: Option<String>, max: int) -> Seq<
    Violation,
> {
    match o {
        Some(s) => text_violations(field, s@, 0, max),
        None => seq![],
    }
}

pub open spec fn drive_violations(d: Drive, i: usize) -> Seq<Violation> {
    text_violations(Field::DriveModel(i), d.model@, 1, DRIVE_TEXT_MAX_LEN as int)
        + optional_text_violations(
        Field::DriveSerialNumber(i),
        d.serial_number,
        DRIVE_TEXT_MAX_LEN as int,
    ) + text_violations(Field::DriveDeviceId(i), d.device_id@, 1, DRIVE_TEXT_MAX_LEN as int)
}

/// The violations of each drive in turn, each tagged with its position.
pub open spec fn drives_violations(ds: Seq<Drive>) -> Seq<Violation>
    decreases ds.len(),
{
    if ds.len() == 0 {
        seq![]
    } else {
        drives_violations(ds.drop_last()) + drive_violations(ds.last(), (ds.len() - 1) as usize)
    }
}

/// Every violation of a check-in report, given whether its address and its
/// timestamp parse: hostname, address, user, serial, drive list, each drive,
/// timestamp.
pub open spec fn violations_given(c: CheckIn, ip_ok: bool, timestamp_ok: bool) -> Seq<Violation> {
    one_if(!(1 <= c.hostname@.len() <= HOSTNAME_MAX_LEN), Field::Hostname, Rule::Length)
        + one_if(!is_hostname(c.hostname@), Field::Hostname, Rule::Hostname)
        + one_if(!ip_ok, Field::IpAddress, Rule::IpAddress)
        + optional_text_violations(Field::LoggedInUser, c.logged_in_user, USER_MAX_LEN as int)
        + text_violations(Field::LaptopSerial, c.laptop_serial@, 1, SERIAL_MAX_LEN as int)
        + one_if(!(c.drives@.len() <= DRIVES_MAX), Field::Drives, Rule::Length)
        + drives_violations(c.drives@)
        + one_if(!timestamp_ok, Field::Timestamp, Rule::Timestamp)
}

/// Every violation of a check-in report.
pub open spec fn checkin_violations(c: CheckIn) -> Seq<Violation> {
    violations_given(c, is_ip_text(c.ip_address@), is_rfc3339(c.timestamp_utc@))
}

// ---------------------------------------------------------------------------
// Outside parsers

/// Relies on validator's `ValidateIp::validate_ip`, which asks std's `IpAddr`
/// parser whether the text is an IPv4 or IPv6 address.
#[verifier::external_body]
fn ip_text_ok(s: &str) -> (r: bool)
    ensures
        r == is_ip_text(s@),
{
    validator::ValidateIp::validate_ip(&s)
}

/// Relies on chrono's `DateTime::parse_from_rfc3339`: whether it parses the text.
#[verifier::external_body]
fn rfc3339_ok(s: &str) -> (r: bool)
    ensures
        r == is_rfc3339(s@),
{
    chrono::DateTime::parse_from_rfc3339(s).is_ok()
}

// ---------------------------------------------------------------------------
// Checks on one string

proof fn lemma_ascii_bytes(s: &str)
    requires
        s.is_ascii(),
    ensures
        s.spec_bytes().len() == s@.len(),
        forall|i: int| 0 <= i < s@.len() ==> (#[trigger] s.spec_bytes()[i]) as int == s@[i] as int,
{
    vstd::string::is_ascii_spec_bytes(s);
    assert forall|i: int| 0 <= i < s@.len() implies (#[trigger] s.spec_bytes()[i]) as int
        == s@[i] as int by {
        assert('\0' <= s@[i] <= '\u{7f}');
    }
}

fn printable_ascii(s: &str) -> (r: bool)
    ensures
        r == is_printable_ascii(s@),
{
    if !s.is_ascii() {
        return false;
    }
    proof {
        lemma_ascii_bytes(s);
    }
    let bytes = s.as_bytes();
    let n = bytes.len();
    let mut i: usize = 0;
    while i < n
        invariant
            n == bytes@.len() == s@.len(),
            bytes@ == s.spec_bytes(),
            forall|j: int| 0 <= j < s@.len() ==> (#[trigger] bytes@[j]) as int == s@[j] as int,
            i <= n,
            forall|j: int| 0 <= j < i ==> is_printable_ascii_char(#[trigger] s@[j]),
        decreases n - i,
    {
        let b = bytes[i];
        assert(b as int == s@[i as int] as int);
        if b < 0x20 || b > 0x7e {
            return false;
        }
        i += 1;
    }
    true
}

fn ascii_alphanumeric_byte(b: u8) -> (r: bool)
    ensures
        r == ((0x30 <= b <= 0x39) || (0x61 <= b <= 0x7a) || (0x41 <= b <= 0x5a)),
{
    (0x30 <= b && b <= 0x39) || (0x61 <= b && b <= 0x7a) || (0x41 <= b && b <= 0x5a)
}

/// Whether a string holds only printable ASCII characters.
pub fn validate_printable_ascii_required(s: &str) -> (r: Result<(), Rule>)
    ensures
        r is Ok <==> is_printable_ascii(s@),
        r is Err ==> r == Err::<(), Rule>(Rule::Characters),
{
    if printable_ascii(s) {
        Ok(())
    } else {
        Err(Rule::Characters)
    }
}

/// Whether a string is a hostname: alphanumerics, `-` and `_`, with an
/// alphanumeric first and last character.
pub fn validate_hostname(hostname: &str) -> (r: Result<(), Rule>)
    ensures
        r is Ok <==> is_hostname(hostname@),
        r is Err ==> r == Err::<(), Rule>(Rule::Hostname),
{
    if !hostname.is_ascii() {
        proof {
            let k = choose|k: int| 0 <= k < hostname@.len() && !('\0' <= #[trigger] hostname@[k] <= '\u{7f}');
            assert(!is_hostname_char(hostname@[k]));
        }
        return Err(Rule::Hostname);
    }
    proof {
        lemma_ascii_bytes(hostname);
    }
    let bytes = hostname.as_bytes();
    let n = bytes.len();
    if n == 0 {
        return Err(Rule::Hostname);
    }
    let mut i: usize = 0;
    while i < n
        invariant
            n == bytes@.len() == hostname@.len(),
            forall|j: int| 0 <= j < hostname@.len() ==> (#[trigger] bytes@[j]) as int == hostname@[j] as int,
            i <= n,
            forall|j: int| 0 <= j < i ==> is_hostname_char(#[trigger] hostname@[j]),
        decreases n - i,
    {
        let b = bytes[i];
        assert(b as int == hostname@[i as int] as int);
        if !(ascii_alphanumeric_byte(b) || b == 0x2d || b == 0x5f) {
            assert(!is_hostname_char(hostname@[i as int]));
            return Err(Rule::Hostname);
        }
        i += 1;
    }
    assert(bytes@[0] as int == hostname@[0] as int);
    assert(bytes@[n - 1] as int == hostname@[n - 1] as int);
    if ascii_alphanumeric_byte(bytes[0]) && ascii_alphanumeric_byte(bytes[n - 1]) {
        Ok(())
    } else {
        Err(Rule::Hostname)
    }
}

/// Whether a string is the text of an IPv4 or IPv6 address.
pub fn validate_ip_address(ip: &str) -> (r: Result<(), Rule>)
    ensures
        r is Ok <==> is_ip_text(ip@),
        r is Err ==> r == Err::<(), Rule>(Rule::IpAddress),
{
    if ip_text_ok(ip) {
        Ok(())
    } else {
        Err(Rule::IpAddress)
    }
}

/// Whether a string is an RFC 3339 date-time with an offset.
pub fn validate_timestamp(ts: &str) -> (r: Result<(), Rule>)
    ensures
        r is Ok <==> is_rfc3339(ts@),
        r is Err ==> r == Err::<(), Rule>(Rule::Timestamp),
{
    if rfc3339_ok(ts) {
        Ok(())
    } else {
        Err(Rule::Timestamp)
    }
}

// ---------------------------------------------------------------------------
// Collecting every violation of a report

proof fn lemma_text_violations_empty(field: Field, s: Seq<char>, min: int, max: int)
    ensures
        text_violations(field, s, min, max).len() == 0 <==> text_ok(s, min, max),
{
}

proof fn lemma_optional_text_violations_empty(field: Field, o: Option<String>, max: int)
    ensures
        optional_text_violations(field, o, max).len() == 0 <==> optional_text_ok(o, max),
{
}

proof fn lemma_drives_violations_empty(ds: Seq<Drive>)
    ensures
        drives_violations(ds).len() == 0 <==> forall|i: int|
            0 <= i < ds.len() ==> drive_ok(#[trigger] ds[i]),
    decreases ds.len(),
{
    if ds.len() > 0 {
        let d = ds.last();
        let k = (ds.len() - 1) as usize;
        lemma_drives_violations_empty(ds.drop_last());
        lemma_text_violations_empty(Field::DriveModel(k), d.model@, 1, DRIVE_TEXT_MAX_LEN as int);
        lemma_optional_text_violations_empty(
            Field::DriveSerialNumber(k),
            d.serial_number,
            DRIVE_TEXT_MAX_LEN as int,
        );
        lemma_text_violations_empty(
            Field::DriveDeviceId(k),
            d.device_id@,
            1,
            DRIVE_TEXT_MAX_LEN as int,
        );
        if drives_violations(ds).len() == 0 {
            assert forall|i: int| 0 <= i < ds.len() implies drive_ok(#[trigger] ds[i]) by {
                if i < ds.len() - 1 {
                    assert(ds[i] == ds.drop_last()[i]);
                }
            }
        } else {
            if drives_violations(ds.drop_last()).len() != 0 {
                let j = choose|j: int|
                    0 <= j < ds.drop_last().len() && !drive_ok(#[trigger] ds.drop_last()[j]);
                assert(ds[j] == ds.drop_last()[j]);
            } else {
                assert(!drive_ok(ds[ds.len() - 1]));
            }
        }
    }
}

/// A report has no violation exactly when every rule holds of it.
pub proof fn lemma_no_violations_iff_ok(c: CheckIn, ip_ok: bool, timestamp_ok: bool)
    ensures
        violations_given(c, ip_ok, timestamp_ok).len() == 0 <==> rules_hold(c, ip_ok, timestamp_ok),
{
    lemma_optional_text_violations_empty(
        Field::LoggedInUser,
        c.logged_in_user,
        USER_MAX_LEN as int,
    );
    lemma_text_violations_empty(Field::LaptopSerial, c.laptop_serial@, 1, SERIAL_MAX_LEN as int);
    lemma_drives_violations_empty(c.drives@);
}

fn push_if(out: &mut Vec<Violation>, broken: bool, field: Field, rule: Rule)
    ensures
        final(out)@ == old(out)@ + one_if(broken, field, rule),
{
    if broken {
        out.push(Violation { field, rule });
    }
    assert(final(out)@ =~= old(out)@ + one_if(broken, field, rule));
}

fn check_text(out: &mut Vec<Violation>, field: Field, s: &str, min: usize, max: usize)
    ensures
        final(out)@ == old(out)@ + text_violations(field, s@, min as int, max as int),
{
    let ghost start = out@;
    let len = s.unicode_len();
    push_if(out, !(min <= len && len <= max), field, Rule::Length);
    push_if(out, validate_printable_ascii_required(s).is_err(), field, Rule::Characters);
    assert(out@ =~= start + text_violations(field, s@, min as int, max as int));
}

fn check_optional_text(out: &mut Vec<Violation>, field: Field, o: &Option<String>, max: usize)
    ensures
        final(out)@ == old(out)@ + optional_text_violations(field, *o, max as int),
{
    match o {
        Some(s) => {
            check_text(out, field, s.as_str(), 0, max);
        },
        None => {
            assert(out@ =~= out@ + optional_text_violations(field, *o, max as int));
        },
    }
}

fn check_drive(out: &mut Vec<Violation>, d: &Drive, i: usize)
    ensures
        final(out)@ == old(out)@ + drive_violations(*d, i),
{
    let ghost start = out@;
    check_text(out, Field::DriveModel(i), d.model.as_str(), 1, DRIVE_TEXT_MAX_LEN);
    check_optional_text(out, Field::DriveSerialNumber(i), &d.serial_number, DRIVE_TEXT_MAX_LEN);
    check_text(out, Field::DriveDeviceId(i), d.device_id.as_str(), 1, DRIVE_TEXT_MAX_LEN);
    assert(out@ =~= start + drive_violations(*d, i));
}

impl CheckIn {
    /// Checks every rule of the report, taking as given whether its address
    /// and its timestamp parse, and collects every violation in field order;
    /// `Ok` exactly when there is none.
    pub fn validate_with(&self, ip_ok: bool, timestamp_ok: bool) -> (r: Result<(), Vec<Violation>>)
        ensures
            r is Ok <==> rules_hold(*self, ip_ok, timestamp_ok),
            match r {
                Ok(_) => violations_given(*self, ip_ok, timestamp_ok).len() == 0,
                Err(v) => v@ == violations_given(*self, ip_ok, timestamp_ok) && v@.len() > 0,
            },
    {
        let mut out: Vec<Violation> = Vec::new();
        let hlen = self.hostname.as_str().unicode_len();
        push_if(&mut out, !(1 <= hlen && hlen <= HOSTNAME_MAX_LEN), Field::Hostname, Rule::Length);
        push_if(
            &mut out,
            validate_hostname(self.hostname.as_str()).is_err(),
            Field::Hostname,
            Rule::Hostname,
        );
        push_if(&mut out, !ip_ok, Field::IpAddress, Rule::IpAddress);
        check_optional_text(&mut out, Field::LoggedInUser, &self.logged_in_user, USER_MAX_LEN);
        check_text(
            &mut out,
            Field::LaptopSerial,
            self.laptop_serial.as_str(),
            1,
            SERIAL_MAX_LEN,
        );
        let n = self.drives.len();
        push_if(&mut out, !(n <= DRIVES_MAX), Field::Drives, Rule::Length);
        let ghost before_drives = out@;
        let mut i: usize = 0;
        while i < n
            invariant
                n == self.drives@.len(),
                i <= n,
                out@ == before_drives + drives_violations(self.drives@.subrange(0, i as int)),
            decreases n - i,
        {
            check_drive(&mut out, &self.drives[i], i);
            proof {
                let next = self.drives@.subrange(0, i + 1);
                assert(next.drop_last() =~= self.drives@.subrange(0, i as int));
                assert(out@ =~= before_drives + drives_violations(next));
            }
            i += 1;
        }
        assert(self.drives@.subrange(0, n as int) =~= self.drives@);
        push_if(&mut out, !timestamp_ok, Field::Timestamp, Rule::Timestamp);
        assert(out@ =~= violations_given(*self, ip_ok, timestamp_ok));
        proof {
            lemma_no_violations_iff_ok(*self, ip_ok, timestamp_ok);
        }
        if out.len() == 0 {
            Ok(())
        } else {
            Err(out)
        }
    }

    /// Checks every rule of the report and collects every violation, in
    /// field order; `Ok` exactly when there is none.
    pub fn validate(&self) -> (r: Result<(), Vec<Violation>>)
        ensures
            r is Ok <==> checkin_ok(*self),
            match r {
                Ok(_) => checkin_violations(*self).len() == 0,
                Err(v) => v@ == checkin_violations(*self) && v@.len() > 0,
            },
    {
        let ip_ok = validate_ip_address(self.ip_address.as_str()).is_ok();
        let timestamp_ok = validate_timestamp(self.timestamp_utc.as_str()).is_ok();
        self.validate_with(ip_ok, timestamp_ok)
    }
}

} // verus!
