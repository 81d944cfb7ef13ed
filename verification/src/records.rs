//! Frame records and the result aggregator.
//!
//! Annotation jobs complete in no particular order; the aggregator restores
//! the deterministic output order by sorting records ascending by
//! timestamp, ties broken by frame id.  With distinct frame ids the sorted
//! sequence is unique, so the output does not depend on completion order.

use vstd::prelude::*;
use vstd::seq_lib::group_to_multiset_ensures;
use vstd::multiset::Multiset;

verus! {

/// Ghost shape of a finished record.
#[verifier::ext_equal]
pub ghost struct RecordView {
    pub frame_id: int,
    pub timestamp_ms: int,
    pub description: Seq<char>,
    pub path: Seq<char>,
    pub jpeg: Option<Seq<u8>>,
}

/// One annotated frame: id, timestamp, description text, storage path,
/// and the encoded image held in memory until persisted.
pub struct FrameRecord {
    pub frame_id: u64,
    pub timestamp_ms: u64,
    pub description: String,
    pub path: String,
    pub jpeg_bytes: Option<Vec<u8>>,
}

impl View for FrameRecord {
    type V = RecordView;

    open spec fn view(&self) -> RecordView {
        RecordView {
            frame_id: self.frame_id as int,
            timestamp_ms: self.timestamp_ms as int,
            description: self.description@,
            path: self.path@,
            jpeg: match self.jpeg_bytes {
                Option::Some(b) => Option::Some(b@),
                Option::None => Option::None,
            },
        }
    }
}

/// Output order: ascending timestamp, ties broken by frame id.
pub open spec fn rec_le(a: FrameRecord, b: FrameRecord) -> bool {
    ||| a.timestamp_ms < b.timestamp_ms
    ||| (a.timestamp_ms == b.timestamp_ms && a.frame_id <= b.frame_id)
}

/// Every pair of positions is in order.
pub open spec fn sorted_records(s: Seq<FrameRecord>) -> bool {
    forall|i: int, j: int| 0 <= i < j < s.len() ==> rec_le(s[i], s[j])
}

/// No two positions carry the same frame id.
pub open spec fn distinct_ids(s: Seq<FrameRecord>) -> bool {
    forall|i: int, j: int| 0 <= i < j < s.len() ==> s[i].frame_id != s[j].frame_id
}

/// Inserts a record into a sorted vector, keeping it sorted.
fn insert_sorted(out: &mut Vec<FrameRecord>, x: FrameRecord)
    requires
        sorted_records(old(out)@),
    ensures
        sorted_records(final(out)@),
        final(out)@.to_multiset() == old(out)@.to_multiset().insert(x),
        final(out)@.len() == old(out)@.len() + 1,
{
    broadcast use group_to_multiset_ensures;

    let mut idx: usize = 0;
    while idx < out.len() && rec_le_exec(&out[idx], &x)
        invariant
            idx <= out@.len(),
            sorted_records(out@),
            out@ == old(out)@,
            forall|j: int| 0 <= j < idx ==> rec_le(out@[j], x),
        decreases out@.len() - idx,
    {
        idx = idx + 1;
    }
    let ghost pre = out@;
    out.insert(idx, x);
    proof {
        assert forall|j: int| idx <= j < pre.len() implies rec_le(x, pre[j]) by {
            assert(!rec_le(pre[idx as int], x));
            if j > idx {
                assert(rec_le(pre[idx as int], pre[j]));
            }
        }
        assert(forall|k: int| 0 <= k < idx ==> out@[k] == pre[k]);
        assert(out@[idx as int] == x);
        assert(forall|k: int| idx < k < out@.len() ==> out@[k] == pre[k - 1]);
        assert forall|a: int, b: int| 0 <= a < b < out@.len() implies rec_le(out@[a], out@[b]) by {
            if b < idx {
            } else if a > idx {
            } else if a == idx && b > idx {
                assert(rec_le(x, pre[b - 1]));
            } else if b == idx {
                assert(rec_le(pre[a], x));
            } else if a < idx && b > idx {
                assert(rec_le(pre[a], pre[b - 1]));
            }
        }
    }
}

/// Executable form of the output order.
fn rec_le_exec(a: &FrameRecord, b: &FrameRecord) -> (r: bool)
    ensures
        r == rec_le(*a, *b),
{
    a.timestamp_ms < b.timestamp_ms
        || (a.timestamp_ms == b.timestamp_ms && a.frame_id <= b.frame_id)
}

/// Restores the deterministic output order: the result holds exactly the
/// given records, sorted ascending by timestamp, ties broken by frame id.
/// It never faults, whatever order the jobs completed in.
pub fn sort_records(records: Vec<FrameRecord>) -> (r: Vec<FrameRecord>)
    ensures
        sorted_records(r@),
        r@.to_multiset() == records@.to_multiset(),
        r@.len() == records@.len(),
{
    broadcast use group_to_multiset_ensures;

    let mut input = records;
    let mut out: Vec<FrameRecord> = Vec::new();
    while input.len() > 0
        invariant
            sorted_records(out@),
            out@.to_multiset().add(input@.to_multiset()) == records@.to_multiset(),
            out@.len() + input@.len() == records@.len(),
        decreases input@.len(),
    {
        let ghost pre_in = input@;
        let ghost pre_out = out@;
        let x = input.pop().unwrap();
        proof {
            assert(pre_in =~= input@.push(x));
            assert(pre_in.to_multiset() == input@.push(x).to_multiset());
            vstd::seq_lib::to_multiset_build(input@, x);
        }
        insert_sorted(&mut out, x);
        proof {
            assert(out@.to_multiset() =~= pre_out.to_multiset().insert(x));
            assert(out@.to_multiset().add(input@.to_multiset()) =~= records@.to_multiset());
        }
    }
    proof {
        assert(input@.to_multiset() =~= Multiset::<FrameRecord>::empty());
        assert(out@.to_multiset() =~= records@.to_multiset());
    }
    out
}

/// Law: with distinct frame ids, the sorted record list is unique — two
/// sorted sequences holding the same records are the same sequence, so the
/// aggregated output is independent of the order completions arrived in.
pub proof fn lemma_sorted_records_unique(x: Seq<FrameRecord>, y: Seq<FrameRecord>)
    requires
        sorted_records(x),
        sorted_records(y),
        distinct_ids(x),
        distinct_ids(y),
        x.to_multiset() == y.to_multiset(),
    ensures
        x =~= y,
    decreases x.len(),
{
    broadcast use group_to_multiset_ensures;
    broadcast use vstd::multiset::group_multiset_axioms;

    if x.len() == 0 {
        assert(y.to_multiset().len() == 0);
    } else if y.len() == 0 {
        assert(x.to_multiset().len() == 0);
    } else {
        assert(x.contains(x[0]));
        assert(x.to_multiset().contains(y[0]));
        assert(x.contains(y[0]));
        let i = choose|i: int| 0 <= i < x.len() && x[i] == y[0];
        assert(rec_le(x[0], x[i]) || i == 0);
        assert(y.to_multiset().contains(x[0]));
        assert(y.contains(x[0]));
        let j = choose|j: int| 0 <= j < y.len() && y[j] == x[0];
        assert(rec_le(y[0], y[j]) || j == 0);
        assert(rec_le(x[0], y[0]) || x[0] == y[0]);
        assert(rec_le(y[0], x[0]) || x[0] == y[0]);
        if x[0] != y[0] {
            assert(x[0].frame_id == y[0].frame_id);
            assert(x[i].frame_id == x[0].frame_id);
            assert(i != 0);
            assert(false);
        }
        assert(x.drop_first() =~= x.remove(0));
        assert(y.drop_first() =~= y.remove(0));
        assert(x.drop_first().to_multiset() =~= x.to_multiset().remove(x[0]));
        assert(y.drop_first().to_multiset() =~= y.to_multiset().remove(y[0]));
        assert(forall|a: int, b: int|
            0 <= a < b < x.drop_first().len() ==> x.drop_first()[a] == x[a + 1] && x.drop_first()[b]
                == x[b + 1]);
        assert(forall|a: int, b: int|
            0 <= a < b < y.drop_first().len() ==> y.drop_first()[a] == y[a + 1] && y.drop_first()[b]
                == y[b + 1]);
        lemma_sorted_records_unique(x.drop_first(), y.drop_first());
        assert(x =~= Seq::<FrameRecord>::empty().push(x.first()).add(x.drop_first()));
        assert(y =~= Seq::<FrameRecord>::empty().push(y.first()).add(y.drop_first()));
    }
}

} // verus!
