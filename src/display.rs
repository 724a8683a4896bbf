//! Read-side views: the values that the inventory overview and the device
//! page show, derived from rows of the store and their drive snapshots.

use vstd::prelude::*;
use crate::errors::STATUS_NOT_FOUND;
use crate::ingest::{clone_opt, opt_view};
use crate::models::{CheckinRow, Drive, IndexLaptopRow, LaptopRow};

verus! {

/// The overview page: every machine's current state, most recently seen first.
pub struct IndexTemplate {
    pub laptops: Vec<IndexLaptopRow>,
}

/// The device page: one machine's current state, its drives and its history.
pub struct DeviceTemplate {
    pub laptop: LaptopRow,
    pub drives: Vec<Drive>,
    pub checkins: Vec<CheckinRow>,
}

/// The platform prefix of a raw device path, `\\.\`.
pub open spec fn device_prefix() -> Seq<char> {
    seq!['\\', '\\', '.', '\\']
}

pub open spec fn br_text() -> Seq<char> {
    seq!['<', 'b', 'r', '>']
}

pub open spec fn has_prefix_at(s: Seq<char>, i: int, p: Seq<char>) -> bool {
    0 <= i && i + p.len() <= s.len() && s.subrange(i, i + p.len()) == p
}

/// `s` with every leading repetition of the non-empty `p` removed.
pub open spec fn trim_prefix_all(s: Seq<char>, p: Seq<char>) -> Seq<char>
    decreases s.len(),
{
    if p.len() > 0 && has_prefix_at(s, 0, p) {
        trim_prefix_all(s.subrange(p.len() as int, s.len() as int), p)
    } else {
        s
    }
}

/// The serial numbers that the drives report, in drive order.
pub open spec fn present_serials(ds: Seq<Drive>) -> Seq<Seq<char>>
    decreases ds.len(),
{
    if ds.len() == 0 {
        seq![]
    } else {
        let rest = present_serials(ds.drop_last());
        match ds.last().serial_number {
            Some(s) => rest.push(s@),
            None => rest,
        }
    }
}

/// The parts, with `sep` between each two.
pub open spec fn join(parts: Seq<Seq<char>>, sep: Seq<char>) -> Seq<char>
    decreases parts.len(),
{
    if parts.len() == 0 {
        seq![]
    } else if parts.len() == 1 {
        parts[0]
    } else {
        join(parts.drop_last(), sep) + sep + parts.last()
    }
}

/// The drive serial numbers joined by line breaks, or `-` when none is known.
pub open spec fn serials_display(ds: Seq<Drive>) -> Seq<char> {
    if present_serials(ds).len() == 0 {
        seq!['-']
    } else {
        join(present_serials(ds), br_text())
    }
}

fn device_prefix_at(s: &str, i: usize, n: usize) -> (r: bool)
    requires
        n == s@.len(),
        i <= n,
    ensures
        r == has_prefix_at(s@, i as int, device_prefix()),
{
    if n - i < 4 {
        return false;
    }
    let r = s.get_char(i) == '\\' && s.get_char(i + 1) == '\\' && s.get_char(i + 2) == '.'
        && s.get_char(i + 3) == '\\';
    proof {
        if r {
            assert(s@.subrange(i as int, i + 4) =~= device_prefix());
        } else if has_prefix_at(s@, i as int, device_prefix()) {
            assert(s@.subrange(i as int, i + 4)[0] == s@[i as int]);
            assert(s@.subrange(i as int, i + 4)[1] == s@[i + 1]);
            assert(s@.subrange(i as int, i + 4)[2] == s@[i + 2]);
            assert(s@.subrange(i as int, i + 4)[3] == s@[i + 3]);
        }
    }
    r
}

/// A device identifier without its leading `\\.\` prefixes.
pub fn trim_device_prefix(s: &str) -> (r: String)
    ensures
        r@ == trim_prefix_all(s@, device_prefix()),
{
    let n = s.unicode_len();
    let mut i: usize = 0;
    assert(s@.subrange(0, n as int) =~= s@);
    while device_prefix_at(s, i, n)
        invariant
            n == s@.len(),
            i <= n,
            trim_prefix_all(s@, device_prefix()) == trim_prefix_all(
                s@.subrange(i as int, n as int),
                device_prefix(),
            ),
        decreases n - i,
    {
        proof {
            let t = s@.subrange(i as int, n as int);
            assert(t.subrange(0, 4) =~= s@.subrange(i as int, i + 4));
            assert(t.subrange(4, t.len() as int) =~= s@.subrange(i + 4, n as int));
        }
        i = i + 4;
    }
    proof {
        let t = s@.subrange(i as int, n as int);
        if has_prefix_at(t, 0, device_prefix()) {
            assert(t.subrange(0, 4) =~= s@.subrange(i as int, i + 4));
        }
    }
    s.substring_char(i, n).to_owned()
}

/// The serial numbers of the drives, joined by `<br>`, or `-` when no drive
/// reports one.
pub fn drive_serials_display(drives: &Vec<Drive>) -> (r: String)
    ensures
        r@ == serials_display(drives@),
{
    proof {
        reveal_strlit("<br>");
        reveal_strlit("-");
    }
    let mut out = String::new();
    let mut count: usize = 0;
    let mut i: usize = 0;
    while i < drives.len()
        invariant
            i <= drives@.len(),
            count <= i,
            count == present_serials(drives@.subrange(0, i as int)).len(),
            out@ == join(present_serials(drives@.subrange(0, i as int)), br_text()),
        decreases drives@.len() - i,
    {
        let ghost prefix = drives@.subrange(0, i as int);
        let ghost next = drives@.subrange(0, i + 1);
        assert(next.drop_last() =~= prefix);
        match &drives[i] {
            Drive { serial_number: Some(s), .. } => {
                let ghost before = out@;
                if count > 0 {
                    proof {
                        reveal_strlit("<br>");
                    }
                    out.append("<br>");
                    assert(out@ == before + br_text());
                }
                out.append(s.as_str());
                proof {
                    let parts = present_serials(next);
                    assert(parts == present_serials(prefix).push(s@));
                    assert(parts.drop_last() =~= present_serials(prefix));
                    if count == 0 {
                        assert(out@ =~= parts[0]);
                    } else {
                        assert(before == join(parts.drop_last(), br_text()));
                        assert(out@ =~= before + br_text() + s@);
                    }
                }
                count = count + 1;
            },
            _ => {
                assert(present_serials(next) == present_serials(prefix));
            },
        }
        i += 1;
    }
    assert(drives@.subrange(0, drives@.len() as int) =~= drives@);
    if count == 0 {
        String::from_str("-")
    } else {
        out
    }
}

/// The drives as the device page shows them: device identifiers without
/// their `\\.\` prefixes, everything else as reported.
pub fn clean_drives(drives: &Vec<Drive>) -> (r: Vec<Drive>)
    ensures
        r@.len() == drives@.len(),
        forall|i: int|
            0 <= i < r@.len() ==> {
                &&& (#[trigger] r@[i]).model@ == drives@[i].model@
                &&& opt_view(r@[i].serial_number) == opt_view(drives@[i].serial_number)
                &&& r@[i].device_id@ == trim_prefix_all(drives@[i].device_id@, device_prefix())
            },
{
    let mut out: Vec<Drive> = Vec::new();
    let mut i: usize = 0;
    while i < drives.len()
        invariant
            i <= drives@.len(),
            out@.len() == i,
            forall|j: int|
                0 <= j < i ==> {
                    &&& (#[trigger] out@[j]).model@ == drives@[j].model@
                    &&& opt_view(out@[j].serial_number) == opt_view(drives@[j].serial_number)
                    &&& out@[j].device_id@ == trim_prefix_all(
                        drives@[j].device_id@,
                        device_prefix(),
                    )
                },
        decreases drives@.len() - i,
    {
        let d = &drives[i];
        out.push(
            Drive {
                model: d.model.clone(),
                serial_number: clone_opt(&d.serial_number),
                device_id: trim_device_prefix(d.device_id.as_str()),
            },
        );
        i += 1;
    }
    out
}

impl IndexLaptopRow {
    /// The overview row of a current-state row, given its parsed drives.
    pub fn from_row(row: LaptopRow, drives: &Vec<Drive>) -> (r: IndexLaptopRow)
        ensures
            r.laptop_serial == row.laptop_serial,
            r.hostname == row.hostname,
            r.ip_address == row.ip_address,
            r.logged_in_user == row.logged_in_user,
            r.last_seen_utc == row.last_seen_utc,
            r.drive_serials_display@ == serials_display(drives@),
    {
        IndexLaptopRow {
            laptop_serial: row.laptop_serial,
            hostname: row.hostname,
            ip_address: row.ip_address,
            logged_in_user: row.logged_in_user,
            last_seen_utc: row.last_seen_utc,
            drive_serials_display: drive_serials_display(drives),
        }
    }
}

impl DeviceTemplate {
    /// The device page of a machine, given its parsed drives and its history.
    pub fn new(laptop: LaptopRow, drives: &Vec<Drive>, checkins: Vec<CheckinRow>) -> (r:
        DeviceTemplate)
        ensures
            r.laptop == laptop,
            r.checkins == checkins,
            r.drives@.len() == drives@.len(),
            forall|i: int|
                0 <= i < r.drives@.len() ==> {
                    &&& (#[trigger] r.drives@[i]).model@ == drives@[i].model@
                    &&& opt_view(r.drives@[i].serial_number) == opt_view(drives@[i].serial_number)
                    &&& r.drives@[i].device_id@ == trim_prefix_all(
                        drives@[i].device_id@,
                        device_prefix(),
                    )
                },
    {
        DeviceTemplate { laptop, drives: clean_drives(drives), checkins }
    }
}

/// The device page of a looked-up serial: the page when the store holds a
/// current-state row for it, `404` when it does not.
pub fn device_page(found: Option<LaptopRow>, drives: &Vec<Drive>, checkins: Vec<CheckinRow>) -> (r:
    Result<DeviceTemplate, u16>)
    ensures
        found is None ==> r == Err::<DeviceTemplate, u16>(STATUS_NOT_FOUND),
        found is Some ==> r is Ok && ({
            let page = r->Ok_0;
            &&& page.laptop == found->Some_0
            &&& page.checkins == checkins
            &&& page.drives@.len() == drives@.len()
            &&& forall|i: int|
                0 <= i < page.drives@.len() ==> {
                    &&& (#[trigger] page.drives@[i]).model@ == drives@[i].model@
                    &&& opt_view(page.drives@[i].serial_number) == opt_view(
                        drives@[i].serial_number,
                    )
                    &&& page.drives@[i].device_id@ == trim_prefix_all(
                        drives@[i].device_id@,
                        device_prefix(),
                    )
                }
        }),
{
    match found {
        Some(laptop) => Ok(DeviceTemplate::new(laptop, drives, checkins)),
        None => Err(STATUS_NOT_FOUND),
    }
}

} // verus!
