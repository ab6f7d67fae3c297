//! Best-effort, non-authoritative audit log of raw inbound and outbound
//! activity payloads, keyed by their identifier. Loss of a record never
//! affects federation correctness; insertion is idempotent by identifier.

use vstd::prelude::*;

verus! {

/// One logged activity: a signed federation message's identifier, its raw
/// payload, its origin, and its sensitivity.
#[derive(Debug)]
pub struct ActivityRecord {
    /// The activity's unique identifier URL, as text.
    pub ap_id: String,
    /// The raw JSON payload.
    pub data: String,
    /// Whether the activity originated on this instance.
    pub local: bool,
    /// Whether the payload is sensitive.
    pub sensitive: bool,
}

/// Spec-level image of one logged activity.
#[verifier::ext_equal]
pub ghost struct RecordModel {
    pub ap_id: Seq<char>,
    pub data: Seq<char>,
    pub local: bool,
    pub sensitive: bool,
}

impl View for ActivityRecord {
    type V = RecordModel;

    open spec fn view(&self) -> RecordModel {
        RecordModel { ap_id: self.ap_id@, data: self.data@, local: self.local, sensitive: self.sensitive }
    }
}

/// Whether some record in `s` carries the identifier `id`.
pub open spec fn log_contains_id(s: Seq<RecordModel>, id: Seq<char>) -> bool {
    exists|i: int| 0 <= i < s.len() && s[i].ap_id == id
}

/// The log's invariant: identifiers are unique, so each activity is
/// recorded at most once.
pub open spec fn log_wf(s: Seq<RecordModel>) -> bool {
    forall|i: int, j: int| 0 <= i < j < s.len() ==> s[i].ap_id != s[j].ap_id
}

/// What an insertion leaves behind: the log unchanged where the identifier
/// is already present, else the log with the record appended.
pub open spec fn log_after_insert(s: Seq<RecordModel>, r: RecordModel) -> Seq<RecordModel> {
    if log_contains_id(s, r.ap_id) {
        s
    } else {
        s.push(r)
    }
}

/// The audit log itself: a sequence of records with pairwise distinct
/// identifiers.
#[derive(Debug)]
pub struct ActivityLog {
    pub records: Vec<ActivityRecord>,
}

impl View for ActivityLog {
    type V = Seq<RecordModel>;

    open spec fn view(&self) -> Seq<RecordModel> {
        self.records@.map_values(|r: ActivityRecord| r@)
    }
}

impl ActivityLog {
    /// An empty log.
    pub fn new() -> (r: ActivityLog)
        ensures
            r@ == Seq::<RecordModel>::empty(),
            log_wf(r@),
    {
        let log = ActivityLog { records: Vec::new() };
        proof {
            assert(log@ =~= Seq::<RecordModel>::empty());
        }
        log
    }

    /// Records a sent or received activity, for diagnostics. Returns whether
    /// a new record was inserted: false, and no change, where the identifier
    /// is already present.
    pub fn insert_activity(
        &mut self,
        ap_id: String,
        data: String,
        local: bool,
        sensitive: bool,
    ) -> (inserted: bool)
        requires
            log_wf(old(self)@),
        ensures
            inserted == !log_contains_id(old(self)@, ap_id@),
            final(self)@ == log_after_insert(
                old(self)@,
                (RecordModel { ap_id: ap_id@, data: data@, local, sensitive }),
            ),
            log_wf(final(self)@),
    {
        let ghost m = RecordModel { ap_id: ap_id@, data: data@, local, sensitive };
        let mut i: usize = 0;
        while i < self.records.len()
            invariant
                *self == *old(self),
                log_wf(old(self)@),
                0 <= i <= self.records@.len(),
                forall|j: int| 0 <= j < i ==> self@[j].ap_id != ap_id@,
            decreases self.records@.len() - i,
        {
            if self.records[i].ap_id == ap_id {
                proof {
                    assert(self@[i as int].ap_id == ap_id@);
                }
                return false;
            }
            i = i + 1;
        }
        let record = ActivityRecord { ap_id, data, local, sensitive };
        self.records.push(record);
        proof {
            let s2 = final(self)@;
            let s1 = old(self)@;
            assert(s2 =~= s1.push(m));
            assert(!log_contains_id(s1, m.ap_id));
            assert forall|a: int, b: int| 0 <= a < b < s2.len() implies s2[a].ap_id != s2[b].ap_id by {
                if b == s1.len() {
                    assert(s2[a] == s1[a]);
                }
            }
        }
        true
    }
}

/// Audit insertion is idempotent by identifier: once a record with an
/// identifier stands in the log, inserting another with the same identifier
/// reports no new row and leaves the log exactly as it stands, so exactly
/// one record per identifier remains.
pub proof fn lemma_insert_idempotent(s: Seq<RecordModel>, r1: RecordModel, r2: RecordModel)
    requires
        r1.ap_id == r2.ap_id,
    ensures
        log_contains_id(log_after_insert(s, r1), r2.ap_id),
        log_after_insert(log_after_insert(s, r1), r2) == log_after_insert(s, r1),
{
    if !log_contains_id(s, r1.ap_id) {
        assert(s.push(r1)[s.len() as int] == r1);
    }
}

} // verus!
