//! The ingestion handler: the per-request state machine
//! `received -> validating -> (rejected | persisting) -> (committed | failed)`.
//!
//! The machine decides; its caller performs each requested action (serialize
//! the drive snapshot, open the store, run a statement, commit) and hands the
//! outcome back. A ghost model of the store records what readers can see, so
//! that the atomicity of the write is stated over every run of the machine.

use vstd::prelude::*;
use crate::errors::CheckInError;
use crate::models::{CheckIn, CheckinRow, LaptopRow};
use crate::validation::{checkin_ok, checkin_violations};

verus! {

/// The values written by one accepted check-in. The audit event and the
/// current-state row carry these same values; the row's last-seen time is
/// the event's timestamp.
#[derive(Debug)]
pub struct CheckinRecord {
    pub laptop_serial: String,
    pub hostname: String,
    pub ip_address: String,
    pub logged_in_user: Option<String>,
    pub timestamp_utc: String,
    pub drives_json: String,
}

/// A check-in record as plain text values.
pub struct RecordView {
    pub serial: Seq<char>,
    pub hostname: Seq<char>,
    pub ip_address: Seq<char>,
    pub user: Option<Seq<char>>,
    pub timestamp: Seq<char>,
    pub drives_json: Seq<char>,
}

pub open spec fn opt_view(o: Option<String>) -> Option<Seq<char>> {
    match o {
        Some(s) => Some(s@),
        None => None,
    }
}

impl View for CheckinRecord {
    type V = RecordView;

    open spec fn view(&self) -> RecordView {
        RecordView {
            serial: self.laptop_serial@,
            hostname: self.hostname@,
            ip_address: self.ip_address@,
            user: opt_view(self.logged_in_user),
            timestamp: self.timestamp_utc@,
            drives_json: self.drives_json@,
        }
    }
}

/// The record that a report and its serialized drive snapshot give.
pub open spec fn record_of(c: CheckIn, drives_json: Seq<char>) -> RecordView {
    RecordView {
        serial: c.laptop_serial@,
        hostname: c.hostname@,
        ip_address: c.ip_address@,
        user: opt_view(c.logged_in_user),
        timestamp: c.timestamp_utc@,
        drives_json,
    }
}

/// What readers of the store see: the current-state row of each serial, and
/// the audit log in order of insertion.
pub struct StoreModel {
    pub current: Map<Seq<char>, RecordView>,
    pub history: Seq<RecordView>,
}

/// The audit insert alone.
pub open spec fn insert_event(m: StoreModel, r: RecordView) -> StoreModel {
    StoreModel { current: m.current, history: m.history.push(r) }
}

/// The current-state upsert alone: created if absent, else overwritten whole.
pub open spec fn upsert_current(m: StoreModel, r: RecordView) -> StoreModel {
    StoreModel { current: m.current.insert(r.serial, r), history: m.history }
}

/// One accepted check-in: the audit insert, then the upsert.
pub open spec fn apply_checkin(m: StoreModel, r: RecordView) -> StoreModel {
    upsert_current(insert_event(m, r), r)
}

/// The audit rows of one serial, in order of insertion.
pub open spec fn history_of(m: StoreModel, serial: Seq<char>) -> Seq<RecordView> {
    m.history.filter(of_serial(serial))
}

pub open spec fn of_serial(serial: Seq<char>) -> spec_fn(RecordView) -> bool {
    |e: RecordView| e.serial == serial
}

pub(crate) fn clone_opt(o: &Option<String>) -> (r: Option<String>)
    ensures
        opt_view(r) == opt_view(*o),
{
    match o {
        Some(s) => Some(s.clone()),
        None => None,
    }
}

impl CheckinRecord {
    /// The record of a report, with its drive snapshot already serialized.
    pub fn new(c: CheckIn, drives_json: String) -> (r: CheckinRecord)
        ensures
            r@ == record_of(c, drives_json@),
    {
        CheckinRecord {
            laptop_serial: c.laptop_serial,
            hostname: c.hostname,
            ip_address: c.ip_address,
            logged_in_user: c.logged_in_user,
            timestamp_utc: c.timestamp_utc,
            drives_json,
        }
    }

    /// The current-state row that the record derives.
    pub fn current_state_row(&self) -> (r: LaptopRow)
        ensures
            r.laptop_serial@ == self.laptop_serial@,
            r.hostname@ == self.hostname@,
            r.ip_address@ == self.ip_address@,
            opt_view(r.logged_in_user) == opt_view(self.logged_in_user),
            r.last_seen_utc@ == self.timestamp_utc@,
            r.drives_json@ == self.drives_json@,
    {
        LaptopRow {
            laptop_serial: self.laptop_serial.clone(),
            hostname: self.hostname.clone(),
            ip_address: self.ip_address.clone(),
            logged_in_user: clone_opt(&self.logged_in_user),
            last_seen_utc: self.timestamp_utc.clone(),
            drives_json: self.drives_json.clone(),
        }
    }

    /// The audit row that the record adds to the machine's history.
    pub fn history_row(&self) -> (r: CheckinRow)
        ensures
            r.hostname@ == self.hostname@,
            r.ip_address@ == self.ip_address@,
            opt_view(r.logged_in_user) == opt_view(self.logged_in_user),
            r.timestamp_utc@ == self.timestamp_utc@,
    {
        CheckinRow {
            hostname: self.hostname.clone(),
            ip_address: self.ip_address.clone(),
            logged_in_user: clone_opt(&self.logged_in_user),
            timestamp_utc: self.timestamp_utc.clone(),
        }
    }
}

/// Where a check-in request stands.
#[derive(Debug, Clone, Copy, PartialEq, Eq, Structural)]
pub enum Stage {
    Received,
    Serializing,
    Opening,
    Configuring,
    Beginning,
    InsertingEvent,
    UpsertingCurrent,
    Committing,
    Committed,
    Rejected,
    Failed,
}

/// What came of decoding the request body.
pub enum Body {
    /// The body decoded into a report.
    Report(CheckIn),
    /// The body is not syntactically JSON.
    Malformed,
    /// The body is JSON, but a required field is missing or mistyped.
    MissingOrMistyped,
}

/// What the machine asks its caller to do next.
#[derive(Debug)]
pub enum Action {
    /// Serialize the drive snapshot of the accepted report.
    SerializeDrives,
    /// Open a handle to the store.
    OpenStore,
    /// Select write-ahead logging and the store's other settings.
    ConfigureStore,
    /// Begin the transaction that holds both writes.
    BeginTransaction,
    /// Insert the record into the audit log.
    InsertEvent,
    /// Insert or overwrite the current-state row of the record's serial.
    UpsertCurrent,
    /// Commit the transaction.
    Commit,
    /// Roll back any open transaction and reply: success with no body, or the error.
    Finish(Result<(), CheckInError>),
}

pub open spec fn is_store_stage(s: Stage) -> bool {
    s is Opening || s is Configuring || s is Beginning || s is InsertingEvent
        || s is UpsertingCurrent || s is Committing
}

/// The stage after a store step of `s` succeeds.
pub open spec fn next_store_stage(s: Stage) -> Stage {
    match s {
        Stage::Opening => Stage::Configuring,
        Stage::Configuring => Stage::Beginning,
        Stage::Beginning => Stage::InsertingEvent,
        Stage::InsertingEvent => Stage::UpsertingCurrent,
        Stage::UpsertingCurrent => Stage::Committing,
        _ => Stage::Committed,
    }
}

/// One check-in request on its way through the machine.
pub struct CheckinFlow {
    pub stage: Stage,
    /// The report, once decoded and found valid, until its record is built.
    pub payload: Option<CheckIn>,
    /// The values to write, once the drive snapshot is serialized.
    pub record: Option<CheckinRecord>,
    /// The store as readers saw it when the request came in.
    pub before: Ghost<StoreModel>,
    /// The store as the open transaction sees it.
    pub tx: Ghost<StoreModel>,
    /// The store as readers see it now.
    pub visible: Ghost<StoreModel>,
}

impl CheckinFlow {
    pub open spec fn rec(&self) -> RecordView {
        self.record->Some_0@
    }

    /// The machine's invariant: which values each stage holds, and what the
    /// transaction and the readers see at that stage.
    pub open spec fn wf(&self) -> bool {
        let b = self.before@;
        &&& match self.stage {
            Stage::Received => self.payload is None && self.record is None,
            Stage::Serializing => {
                &&& self.payload is Some
                &&& checkin_ok(self.payload->Some_0)
                &&& self.record is None
            },
            Stage::Rejected | Stage::Failed => true,
            _ => self.record is Some,
        }
        &&& (self.stage is Opening || self.stage is Configuring || self.stage is Beginning
            || self.stage is InsertingEvent) ==> self.tx@ == b
        &&& self.stage is UpsertingCurrent ==> self.tx@ == insert_event(b, self.rec())
        &&& self.stage is Committing ==> self.tx@ == apply_checkin(b, self.rec())
        &&& self.stage is Committed ==> self.visible@ == apply_checkin(b, self.rec())
        &&& !(self.stage is Committed) ==> self.visible@ == b
    }

    /// A request that has just arrived.
    pub fn new() -> (r: CheckinFlow)
        ensures
            r.wf(),
            r.stage is Received,
    {
        let ghost b: StoreModel = vstd::pervasive::arbitrary();
        CheckinFlow {
            stage: Stage::Received,
            payload: None,
            record: None,
            before: Ghost(b),
            tx: Ghost(b),
            visible: Ghost(b),
        }
    }

    /// Takes the decoded body: a malformed body is rejected before any
    /// validation; a report that breaks a rule is rejected with every
    /// violation; a valid one goes on to have its drives serialized.
    pub fn receive(&mut self, body: Body) -> (a: Action)
        requires
            old(self).wf(),
            old(self).stage is Received,
        ensures
            final(self).wf(),
            final(self).before == old(self).before,
            final(self).visible == old(self).visible,
            match body {
                Body::Malformed => {
                    &&& final(self).stage is Rejected
                    &&& a matches Action::Finish(Err(CheckInError::MalformedBody))
                },
                Body::MissingOrMistyped => {
                    &&& final(self).stage is Rejected
                    &&& a matches Action::Finish(Err(CheckInError::MissingOrMistypedField))
                },
                Body::Report(c) => if checkin_ok(c) {
                    &&& final(self).stage is Serializing
                    &&& final(self).payload == Some(c)
                    &&& a is SerializeDrives
                } else {
                    &&& final(self).stage is Rejected
                    &&& a matches Action::Finish(Err(CheckInError::ValidationFailed(v)))
                    &&& v@ == checkin_violations(c)
                },
            },
    {
        match body {
            Body::Malformed => {
                self.stage = Stage::Rejected;
                Action::Finish(Err(CheckInError::MalformedBody))
            },
            Body::MissingOrMistyped => {
                self.stage = Stage::Rejected;
                Action::Finish(Err(CheckInError::MissingOrMistypedField))
            },
            Body::Report(c) => {
                match c.validate() {
                    Ok(()) => {
                        self.stage = Stage::Serializing;
                        self.payload = Some(c);
                        Action::SerializeDrives
                    },
                    Err(v) => {
                        self.stage = Stage::Rejected;
                        Action::Finish(Err(CheckInError::ValidationFailed(v)))
                    },
                }
            },
        }
    }

    /// Takes the serialized drive snapshot, or the serializer's error.
    pub fn drives_serialized(&mut self, outcome: Result<String, String>) -> (a: Action)
        requires
            old(self).wf(),
            old(self).stage is Serializing,
        ensures
            final(self).wf(),
            final(self).before == old(self).before,
            final(self).visible == old(self).visible,
            match outcome {
                Ok(json) => {
                    &&& final(self).stage is Opening
                    &&& final(self).rec() == record_of(old(self).payload->Some_0, json@)
                    &&& a is OpenStore
                },
                Err(e) => {
                    &&& final(self).stage is Failed
                    &&& a matches Action::Finish(Err(CheckInError::SerializationError(d)))
                    &&& d@ == e@
                },
            },
    {
        match outcome {
            Ok(json) => {
                let c = self.payload.take().unwrap();
                self.record = Some(CheckinRecord::new(c, json));
                self.tx = self.before;
                self.stage = Stage::Opening;
                Action::OpenStore
            },
            Err(e) => {
                self.stage = Stage::Failed;
                Action::Finish(Err(CheckInError::SerializationError(e)))
            },
        }
    }

    /// Takes the outcome of the last store step. Each success moves one step
    /// along open, configure, begin, insert event, upsert current, commit;
    /// only the commit changes what readers see. Any failure ends the
    /// request, with the transaction rolled back and the store as it was.
    pub fn store_step_done(&mut self, outcome: Result<(), String>) -> (a: Action)
        requires
            old(self).wf(),
            is_store_stage(old(self).stage),
        ensures
            final(self).wf(),
            final(self).before == old(self).before,
            final(self).rec() == old(self).rec(),
            match outcome {
                Ok(()) => {
                    &&& final(self).stage == next_store_stage(old(self).stage)
                    &&& final(self).stage is Configuring ==> a is ConfigureStore
                    &&& final(self).stage is Beginning ==> a is BeginTransaction
                    &&& final(self).stage is InsertingEvent ==> a is InsertEvent
                    &&& final(self).stage is UpsertingCurrent ==> a is UpsertCurrent
                    &&& final(self).stage is Committing ==> a is Commit
                    &&& final(self).stage is Committed ==> a matches Action::Finish(Ok(()))
                },
                Err(e) => {
                    &&& final(self).stage is Failed
                    &&& final(self).visible == old(self).before
                    &&& a matches Action::Finish(Err(CheckInError::DatabaseError(d)))
                    &&& d@ == e@
                },
            },
    {
        match outcome {
            Err(e) => {
                self.stage = Stage::Failed;
                self.tx = self.before;
                Action::Finish(Err(CheckInError::DatabaseError(e)))
            },
            Ok(()) => {
                match self.stage {
                    Stage::Opening => {
                        self.stage = Stage::Configuring;
                        Action::ConfigureStore
                    },
                    Stage::Configuring => {
                        self.stage = Stage::Beginning;
                        Action::BeginTransaction
                    },
                    Stage::Beginning => {
                        self.stage = Stage::InsertingEvent;
                        Action::InsertEvent
                    },
                    Stage::InsertingEvent => {
                        self.tx = Ghost(insert_event(self.before@, self.rec()));
                        self.stage = Stage::UpsertingCurrent;
                        Action::UpsertCurrent
                    },
                    Stage::UpsertingCurrent => {
                        self.tx = Ghost(upsert_current(self.tx@, self.rec()));
                        self.stage = Stage::Committing;
                        Action::Commit
                    },
                    _ => {
                        self.visible = self.tx;
                        self.stage = Stage::Committed;
                        Action::Finish(Ok(()))
                    },
                }
            },
        }
    }
}

// ---------------------------------------------------------------------------
// Laws of the write path

proof fn lemma_history_of_push(h: Seq<RecordView>, r: RecordView, serial: Seq<char>)
    ensures
        h.push(r).filter(of_serial(serial)) == if r.serial == serial {
            h.filter(of_serial(serial)).push(r)
        } else {
            h.filter(of_serial(serial))
        },
{
    reveal(Seq::filter);
    assert(h.push(r).drop_last() =~= h);
}

/// Two committed requests that write the same record, one after the other,
/// leave exactly one current-state row for its serial (the second write
/// overwrites the first with the same values) and two more audit rows.
pub proof fn lemma_same_checkin_twice(first: CheckinFlow, second: CheckinFlow)
    requires
        first.wf(),
        second.wf(),
        first.stage is Committed,
        second.stage is Committed,
        second.before@ == first.visible@,
        second.rec() == first.rec(),
    ensures
        second.visible@.current.dom() == first.before@.current.dom().insert(first.rec().serial),
        second.visible@.current[first.rec().serial] == first.rec(),
        second.visible@.current == first.visible@.current,
        history_of(second.visible@, first.rec().serial).len() == history_of(
            first.before@,
            first.rec().serial,
        ).len() + 2,
        second.visible@.history.len() == first.before@.history.len() + 2,
{
    let r = first.rec();
    let m = first.before@;
    let m1 = first.visible@;
    let m2 = second.visible@;
    assert(m1.current.insert(r.serial, r) =~= m1.current);
    assert(m2.current.dom() =~= m.current.dom().insert(r.serial));
    lemma_history_of_push(m.history, r, r.serial);
    lemma_history_of_push(m1.history, r, r.serial);
}

/// A request that does not commit, whether rejected or failed at any step
/// (also after the audit insert and before the upsert), leaves the store as
/// readers saw it: no current-state row and no audit row of it.
pub proof fn lemma_unfinished_write_leaves_no_trace(f: CheckinFlow, serial: Seq<char>)
    requires
        f.wf(),
        f.stage is Rejected || f.stage is Failed,
    ensures
        f.visible@ == f.before@,
        f.visible@.current.dom().contains(serial) <==> f.before@.current.dom().contains(serial),
        history_of(f.visible@, serial) == history_of(f.before@, serial),
{
}

/// Every committed request adds exactly one audit row and leaves exactly one
/// current-state row for its serial, holding the record's values.
pub proof fn lemma_commit_writes_both(f: CheckinFlow)
    requires
        f.wf(),
        f.stage is Committed,
    ensures
        f.visible@.history == f.before@.history.push(f.rec()),
        f.visible@.current.dom().contains(f.rec().serial),
        f.visible@.current[f.rec().serial] == f.rec(),
        forall|s: Seq<char>|
            s != f.rec().serial ==> (#[trigger] f.visible@.current.dom().contains(s)
                <==> f.before@.current.dom().contains(s)),
{
}

} // verus!
