//! Which records a ledger keeps when its journal has grown too large.

use vstd::prelude::*;
use vstd::set_lib::{lemma_int_range, lemma_len_subset, lemma_map_size, set_int_range};

use super::ledger::{
    latest, records_of, BrokerLedger, LedgerError, LedgerRecord, LedgerState, RecordModel,
    MAX_LEDGER_BYTES, MAX_RETAINED_INTERRUPTED_MARKERS,
};
use crate::instant::Timestamp;

verus! {

/// Whether a record is the last one of its job.
pub open spec fn current(records: Seq<RecordModel>, i: int) -> bool {
    0 <= i < records.len() && forall|j: int|
        i < j < records.len() ==> (#[trigger] records[j]).job_id != records[i].job_id
}

/// Whether a record is the last one of its job and says that it never ended.
pub open spec fn interrupted(records: Seq<RecordModel>, i: int) -> bool {
    current(records, i) && records[i].state == LedgerState::Executing
}

/// Whether record `j` is newer than record `i`. Of two records of the same
/// moment the later one in the journal is the newer one.
pub open spec fn newer(records: Seq<RecordModel>, i: int, j: int) -> bool {
    records[j].recorded_at@ > records[i].recorded_at@ || (records[j].recorded_at@
        == records[i].recorded_at@ && j > i)
}

/// The interrupted markers that are newer than record `i`.
pub open spec fn newer_markers(records: Seq<RecordModel>, i: int) -> Set<int> {
    Set::new(|j: int| interrupted(records, j) && newer(records, i, j))
}

/// Whether compaction keeps a record: the last one of its job, and if it is an
/// interrupted marker, one of the newest few.
pub open spec fn kept(records: Seq<RecordModel>, i: int) -> bool {
    current(records, i) && (records[i].state == LedgerState::Executing ==> newer_markers(
        records,
        i,
    ).len() < MAX_RETAINED_INTERRUPTED_MARKERS)
}

/// The kept ones among the first `n` records.
pub open spec fn kept_before(records: Seq<RecordModel>, n: int) -> Seq<RecordModel>
    decreases n,
{
    if n <= 0 {
        Seq::empty()
    } else if kept(records, n - 1) {
        kept_before(records, n - 1).push(records[n - 1])
    } else {
        kept_before(records, n - 1)
    }
}

/// What compaction makes of the records that count.
pub open spec fn compacted(records: Seq<RecordModel>) -> Seq<RecordModel> {
    kept_before(records, records.len() as int)
}

/// Whether a journal of this many bytes is to be compacted before it grows.
pub fn needs_compaction(bytes: u64) -> (result: bool)
    ensures
        result == (bytes > MAX_LEDGER_BYTES),
{
    bytes > MAX_LEDGER_BYTES
}

fn is_current(records: &Vec<LedgerRecord>, i: usize) -> (result: bool)
    requires
        i < records.len(),
    ensures
        result == current(records_of(records@), i as int),
{
    let ghost models = records_of(records@);
    let mut j: usize = i + 1;
    while j < records.len()
        invariant
            i < j <= records.len(),
            models == records_of(records@),
            forall|k: int| i < k < j ==> (#[trigger] models[k]).job_id != models[i as int].job_id,
        decreases records.len() - j,
    {
        assert(models[j as int] == records@[j as int]@);
        assert(models[i as int] == records@[i as int]@);
        if records[j].job_id == records[i].job_id {
            return false;
        }
        j += 1;
    }
    true
}

/// The newer markers among the first `n` records.
spec fn newer_markers_before(records: Seq<RecordModel>, i: int, n: int) -> Set<int> {
    Set::new(|j: int| j < n && interrupted(records, j) && newer(records, i, j))
}

proof fn markers_are_finite(records: Seq<RecordModel>, i: int, n: int)
    ensures
        newer_markers_before(records, i, n).finite(),
        newer_markers(records, i).finite(),
{
    lemma_int_range(0, records.len() as int);
    let all = set_int_range(0, records.len() as int);
    lemma_len_subset(newer_markers(records, i), all);
    lemma_len_subset(newer_markers_before(records, i, n), all);
}

fn count_newer_markers(records: &Vec<LedgerRecord>, current_ones: &Vec<bool>, i: usize) -> (result:
    usize)
    requires
        i < records.len(),
        current_ones.len() == records.len(),
        forall|k: int|
            0 <= k < records.len() ==> #[trigger] current_ones@[k] == current(
                records_of(records@),
                k,
            ),
    ensures
        result == newer_markers(records_of(records@), i as int).len(),
{
    let ghost models = records_of(records@);
    let mut count: usize = 0;
    let mut j: usize = 0;
    assert(newer_markers_before(models, i as int, 0) =~= Set::empty());
    while j < records.len()
        invariant
            j <= records.len(),
            i < records.len(),
            count <= j,
            models == records_of(records@),
            current_ones.len() == records.len(),
            forall|k: int|
                0 <= k < records.len() ==> #[trigger] current_ones@[k] == current(models, k),
            count == newer_markers_before(models, i as int, j as int).len(),
        decreases records.len() - j,
    {
        assert(models[j as int] == records@[j as int]@);
        assert(models[i as int] == records@[i as int]@);
        let before = records[i].recorded_at.before(&records[j].recorded_at);
        let after = records[j].recorded_at.before(&records[i].recorded_at);
        let counted = current_ones[j] && records[j].state == LedgerState::Executing && (before || (
        !after && j > i));
        proof {
            markers_are_finite(models, i as int, j as int);
            if counted {
                assert(newer_markers_before(models, i as int, j + 1) =~= newer_markers_before(
                    models,
                    i as int,
                    j as int,
                ).insert(j as int));
            } else {
                assert(newer_markers_before(models, i as int, j + 1) =~= newer_markers_before(
                    models,
                    i as int,
                    j as int,
                ));
            }
        }
        if counted {
            count += 1;
        }
        j += 1;
    }
    assert(newer_markers_before(models, i as int, models.len() as int) =~= newer_markers(
        models,
        i as int,
    ));
    count
}

/// Chooses the records that a compacted journal holds.
pub fn compact_records(records: &Vec<LedgerRecord>) -> (result: Vec<LedgerRecord>)
    ensures
        records_of(result@) == compacted(records_of(records@)),
{
    let ghost models = records_of(records@);
    let mut current_ones: Vec<bool> = Vec::new();
    let mut i: usize = 0;
    while i < records.len()
        invariant
            i <= records.len(),
            current_ones.len() == i,
            models == records_of(records@),
            forall|k: int| 0 <= k < i ==> #[trigger] current_ones@[k] == current(models, k),
        decreases records.len() - i,
    {
        current_ones.push(is_current(records, i));
        i += 1;
    }
    let mut result: Vec<LedgerRecord> = Vec::new();
    let mut n: usize = 0;
    assert(records_of(result@) =~= Seq::empty());
    while n < records.len()
        invariant
            n <= records.len(),
            models == records_of(records@),
            current_ones.len() == records.len(),
            forall|k: int|
                0 <= k < records.len() ==> #[trigger] current_ones@[k] == current(models, k),
            records_of(result@) == kept_before(models, n as int),
        decreases records.len() - n,
    {
        let ghost before = records_of(result@);
        assert(models[n as int] == records@[n as int]@);
        let keep = current_ones[n] && (records[n].state == LedgerState::Completed
            || count_newer_markers(records, &current_ones, n) < MAX_RETAINED_INTERRUPTED_MARKERS);
        if keep {
            result.push(records[n].clone());
            assert(records_of(result@) =~= before.push(models[n as int]));
        }
        n += 1;
    }
    result
}

impl BrokerLedger {
    /// The records of the journal that replaces this one: the latest committed
    /// record for each job, with interrupted markers bounded to the newest few.
    pub fn compact(&self, now: Timestamp) -> (result: Result<Vec<LedgerRecord>, LedgerError>)
        ensures
            match result {
                Ok(records) => super::ledger::first_fault(self@) is None && records_of(records@)
                    == compacted(super::ledger::committed(self@, now@)),
                Err(error) => super::ledger::first_fault(self@) == Some(error),
            },
    {
        match self.read_committed(now) {
            Ok(records) => Ok(compact_records(&records)),
            Err(error) => Err(error),
        }
    }
}

/// Compaction leaves the last record of a job alone when it keeps it.
pub proof fn compaction_keeps_latest(records: Seq<RecordModel>, i: int)
    requires
        kept(records, i),
    ensures
        latest(compacted(records), records[i].job_id) == Some(records[i]),
        latest(records, records[i].job_id) == Some(records[i]),
{
    kept_latest(records, i, records.len() as int);
    current_is_latest(records, i, records.len() as int);
    assert(records.take(records.len() as int) == records);
}

proof fn kept_latest(records: Seq<RecordModel>, i: int, n: int)
    requires
        kept(records, i),
        i < n <= records.len(),
    ensures
        latest(kept_before(records, n), records[i].job_id) == Some(records[i]),
    decreases n,
{
    if n - 1 > i {
        kept_latest(records, i, n - 1);
        assert(records[n - 1].job_id != records[i].job_id);
        if kept(records, n - 1) {
            assert(kept_before(records, n).drop_last() == kept_before(records, n - 1));
        }
    }
}

proof fn current_is_latest(records: Seq<RecordModel>, i: int, n: int)
    requires
        current(records, i),
        i < n <= records.len(),
    ensures
        latest(records.take(n), records[i].job_id) == Some(records[i]),
    decreases n,
{
    assert(records.take(n).drop_last() == records.take(n - 1));
    if n - 1 > i {
        current_is_latest(records, i, n - 1);
        assert(records[n - 1].job_id != records[i].job_id);
    }
}

/// A job's last record is the current one, if the job has a record.
proof fn latest_is_current(records: Seq<RecordModel>, job_id: u128, n: int) -> (found: int)
    requires
        0 <= n <= records.len(),
        forall|j: int| n <= j < records.len() ==> (#[trigger] records[j]).job_id != job_id,
    ensures
        match latest(records.take(n), job_id) {
            Some(record) => current(records, found) && records[found] == record && record.job_id
                == job_id,
            None => forall|j: int| 0 <= j < n ==> (#[trigger] records[j]).job_id != job_id,
        },
    decreases n,
{
    if n == 0 {
        0
    } else if records[n - 1].job_id == job_id {
        n - 1
    } else {
        assert(records.take(n).drop_last() == records.take(n - 1));
        latest_is_current(records, job_id, n - 1)
    }
}

proof fn kept_ones_are_records(records: Seq<RecordModel>, job_id: u128, n: int)
    requires
        0 <= n <= records.len(),
        forall|j: int| 0 <= j < n && kept(records, j) ==> (#[trigger] records[j]).job_id != job_id,
    ensures
        latest(kept_before(records, n), job_id) is None,
    decreases n,
{
    if n > 0 {
        kept_ones_are_records(records, job_id, n - 1);
        if kept(records, n - 1) {
            assert(kept_before(records, n).drop_last() == kept_before(records, n - 1));
        }
    }
}

/// Compaction changes what the ledger says of a job in one case only: the job's
/// last record is an interrupted marker, and as many markers as are retained
/// are newer than it.
pub proof fn compaction_drops_only_old_markers(records: Seq<RecordModel>, job_id: u128)
    ensures
        latest(compacted(records), job_id) == latest(records, job_id) || exists|i: int|
            interrupted(records, i) && records[i].job_id == job_id && (#[trigger] newer_markers(
                records,
                i,
            )).len() >= MAX_RETAINED_INTERRUPTED_MARKERS,
{
    assert(records.take(records.len() as int) == records);
    let i = latest_is_current(records, job_id, records.len() as int);
    match latest(records, job_id) {
        None => {
            kept_ones_are_records(records, job_id, records.len() as int);
        },
        Some(_) => {
            if kept(records, i) {
                compaction_keeps_latest(records, i);
            } else {
                assert(interrupted(records, i));
                assert(newer_markers(records, i).len() >= MAX_RETAINED_INTERRUPTED_MARKERS);
            }
        },
    }
}

/// The number of interrupted markers among records.
pub open spec fn marker_count(records: Seq<RecordModel>) -> nat
    decreases records.len(),
{
    if records.len() == 0 {
        0
    } else {
        marker_count(records.drop_last()) + if records.last().state == LedgerState::Executing {
            1nat
        } else {
            0nat
        }
    }
}

spec fn kept_markers_before(records: Seq<RecordModel>, n: int) -> Set<int> {
    Set::new(|i: int| i < n && interrupted(records, i) && kept(records, i))
}

proof fn kept_markers_are_counted(records: Seq<RecordModel>, n: int)
    requires
        0 <= n <= records.len(),
    ensures
        kept_markers_before(records, n).finite(),
        marker_count(kept_before(records, n)) == kept_markers_before(records, n).len(),
    decreases n,
{
    if n == 0 {
        assert(kept_markers_before(records, 0) =~= Set::empty());
    } else {
        kept_markers_are_counted(records, n - 1);
        if kept(records, n - 1) {
            assert(kept_before(records, n).drop_last() == kept_before(records, n - 1));
        }
        if kept(records, n - 1) && records[n - 1].state == LedgerState::Executing {
            assert(kept_markers_before(records, n) =~= kept_markers_before(records, n - 1).insert(
                n - 1,
            ));
        } else {
            assert(kept_markers_before(records, n) =~= kept_markers_before(records, n - 1));
        }
    }
}

/// Newer markers have fewer markers that are newer than they are.
proof fn rank_decreases(records: Seq<RecordModel>, i: int, j: int)
    requires
        interrupted(records, i),
        interrupted(records, j),
        newer(records, i, j),
    ensures
        newer_markers(records, j).len() < newer_markers(records, i).len(),
{
    markers_are_finite(records, i, 0);
    markers_are_finite(records, j, 0);
    let smaller = newer_markers(records, j);
    assert(!smaller.contains(j));
    assert(smaller.insert(j).subset_of(newer_markers(records, i)));
    lemma_len_subset(smaller.insert(j), newer_markers(records, i));
}

/// A compacted journal holds no more interrupted markers than the bound.
pub proof fn compaction_bounds_markers(records: Seq<RecordModel>)
    ensures
        marker_count(compacted(records)) <= MAX_RETAINED_INTERRUPTED_MARKERS,
{
    let n = records.len() as int;
    kept_markers_are_counted(records, n);
    let markers = kept_markers_before(records, n);
    let rank = |i: int| newer_markers(records, i).len() as int;
    let ranks = markers.map(rank);
    assert forall|i: int, j: int| markers.contains(i) && markers.contains(j) && #[trigger] rank(i)
        == #[trigger] rank(j) implies i == j by {
        if i != j {
            if newer(records, i, j) {
                rank_decreases(records, i, j);
            } else {
                rank_decreases(records, j, i);
            }
        }
    }
    lemma_map_size(markers, ranks, rank);
    let bound = MAX_RETAINED_INTERRUPTED_MARKERS as int;
    lemma_int_range(0, bound);
    assert(ranks.subset_of(set_int_range(0, bound))) by {
        assert forall|r: int| ranks.contains(r) implies set_int_range(0, bound).contains(r) by {
            let i = choose|i: int| markers.contains(i) && r == rank(i);
            assert(kept(records, i));
        }
    }
    lemma_len_subset(ranks, set_int_range(0, bound));
}

/// What was completed is kept exactly if nothing newer was recorded of its job, and of the marks of
/// interrupted jobs one is kept exactly if fewer than 32 are newer.
pub proof fn compaction_keeps_what_counts(records: Seq<RecordModel>, i: int)
    requires
        0 <= i < records.len(),
    ensures
        records[i].state == LedgerState::Completed ==> (kept(records, i) <==> current(records, i)),
        records[i].state == LedgerState::Executing ==> (kept(records, i) <==> current(records, i)
            && newer_markers(records, i).len() < 32),
        marker_count(compacted(records)) <= 32,
{
    compaction_bounds_markers(records);
}

} // verus!
