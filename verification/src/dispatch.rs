//! The annotation dispatcher: bounded concurrency over description jobs.
//!
//! Each selected frame becomes one job: its encoded image and storage
//! path.  Jobs are dispatched in selection order; at most `bound` may be
//! in flight at once — one permit per running job, released whatever the
//! outcome.  Completions may arrive in any order; `run_batch` plays one
//! whole batch under an arbitrary completion schedule and reports the
//! highest concurrency it ever observed.

use vstd::prelude::*;
use vstd::seq_lib::group_to_multiset_ensures;
use vstd::multiset::Multiset;
use crate::codec::{encode_frame_jpeg, jpeg_of};
use crate::errors::PipelineError;
use crate::records::FrameRecord;
use crate::selector::Candidate;
use crate::text::{frame_path, spec_pad3};

verus! {

/// One annotation job: a selected frame, encoded and addressed.
pub struct Job {
    pub id: u64,
    pub ts_ms: u64,
    pub jpeg: Vec<u8>,
    pub path: String,
}

/// The record a job yields once the description capability answers.
pub open spec fn record_of(j: Job, description: String) -> FrameRecord {
    FrameRecord {
        frame_id: j.id,
        timestamp_ms: j.ts_ms,
        description: description,
        path: j.path,
        jpeg_bytes: Option::Some(j.jpeg),
    }
}

/// The records a whole batch of jobs yields, in dispatch order.
pub open spec fn planned(jobs: Seq<Job>, descriptions: Seq<String>) -> Seq<FrameRecord> {
    Seq::new(jobs.len(), |i: int| record_of(jobs[i], descriptions[i]))
}

/// Turns one selected candidate into a job: the frame is compressed to a
/// JPEG and addressed under the video's id with its zero-padded frame id.
/// Succeeds exactly when the frame's dimensions are in `1 ..= 65535`.
pub fn prepare_job(c: Candidate, video_id: &str) -> (r: Result<Job, PipelineError>)
    requires
        c.payload.wf(),
    ensures
        r is Ok <==> (1 <= c.payload.width <= 65535 && 1 <= c.payload.height <= 65535),
        r matches Ok(j) ==> {
            &&& j.id == c.id
            &&& j.ts_ms == c.ts_ms
            &&& j.jpeg@ == jpeg_of(c.payload.bytes@, c.payload.width, c.payload.height)
            &&& j.path@ == "data/"@ + video_id@ + "_frame_"@ + spec_pad3(c.id as nat) + ".jpg"@
        },
        r matches Err(e) ==> e is EncodeFailed,
{
    match encode_frame_jpeg(&c.payload) {
        Ok(jpeg) => Ok(Job { id: c.id, ts_ms: c.ts_ms, jpeg, path: frame_path(video_id, c.id) }),
        Err(e) => Err(e),
    }
}

/// Assembles the finished record of one job from the description the
/// external capability returned; the encoded bytes stay in memory for
/// later persistence.
pub fn complete_job(j: Job, description: String) -> (r: FrameRecord)
    ensures
        r == record_of(j, description),
{
    FrameRecord {
        frame_id: j.id,
        timestamp_ms: j.ts_ms,
        description,
        path: j.path,
        jpeg_bytes: Option::Some(j.jpeg),
    }
}

/// The dispatcher's permit pool: how many description calls may still
/// start, against a fixed bound.
pub struct Dispatcher {
    pub bound: usize,
    pub in_flight: usize,
}

impl Dispatcher {
    /// Never more jobs in flight than the bound allows.
    pub open spec fn wf(self) -> bool {
        &&& 1 <= self.bound
        &&& self.in_flight <= self.bound
    }

    /// A pool of `max_concurrency` permits; a bound of zero is raised to
    /// one, as a pool that can never run anything would stall forever.
    pub fn new(max_concurrency: usize) -> (r: Dispatcher)
        ensures
            r.wf(),
            r.in_flight == 0,
            r.bound == if max_concurrency >= 1 { max_concurrency as int } else { 1int },
    {
        let bound = if max_concurrency >= 1 { max_concurrency } else { 1 };
        Dispatcher { bound, in_flight: 0 }
    }

    /// Takes one permit if one is free: a job may start exactly when the
    /// bound is not yet reached.
    pub fn try_begin(&mut self) -> (started: bool)
        requires
            old(self).wf(),
        ensures
            final(self).wf(),
            final(self).bound == old(self).bound,
            started <==> old(self).in_flight < old(self).bound,
            started ==> final(self).in_flight == old(self).in_flight + 1,
            !started ==> final(self).in_flight == old(self).in_flight,
    {
        if self.in_flight < self.bound {
            self.in_flight = self.in_flight + 1;
            true
        } else {
            false
        }
    }

    /// Releases one permit; called on every completion, success or not.
    pub fn finish_job(&mut self)
        requires
            old(self).wf(),
            old(self).in_flight >= 1,
        ensures
            final(self).wf(),
            final(self).bound == old(self).bound,
            final(self).in_flight == old(self).in_flight - 1,
    {
        self.in_flight = self.in_flight - 1;
    }
}

/// Law: however the pool is driven, a well-formed dispatcher never has
/// more jobs in flight than its bound.
pub proof fn lemma_dispatcher_bounded(d: Dispatcher)
    requires
        d.wf(),
    ensures
        d.in_flight <= d.bound,
{
}

/// Plays one batch of jobs under the concurrency bound, with an arbitrary
/// completion schedule choosing which in-flight job finishes next.
///
/// Returns every job's record — exactly the batch's planned records, in
/// completion order — and the highest number of jobs ever in flight at
/// once, which never exceeds the bound (a zero bound counts as one).
pub fn run_batch(
    jobs: Vec<Job>,
    descriptions: Vec<String>,
    max_concurrency: usize,
    schedule: Vec<usize>,
) -> (r: (Vec<FrameRecord>, usize))
    requires
        descriptions@.len() == jobs@.len(),
    ensures
        r.0@.len() == jobs@.len(),
        r.0@.to_multiset() == planned(jobs@, descriptions@).to_multiset(),
        r.1 <= (if max_concurrency >= 1 { max_concurrency as int } else { 1int }),
{
    broadcast use group_to_multiset_ensures;
    broadcast use vstd::multiset::group_multiset_axioms;

    let ghost all = planned(jobs@, descriptions@);
    let mut pending_jobs = jobs;
    let mut descs = descriptions;
    let mut pool = Dispatcher::new(max_concurrency);
    let mut active: Vec<FrameRecord> = Vec::new();
    let mut records: Vec<FrameRecord> = Vec::new();
    let mut max_seen: usize = 0;
    let mut step: usize = 0;

    fill_permits(&mut pending_jobs, &mut descs, &mut pool, &mut active, Ghost(all), Ghost(records@));
    if active.len() > max_seen {
        max_seen = active.len();
    }
    while active.len() > 0
        invariant
            descs@.len() == pending_jobs@.len(),
            pool.wf(),
            pool.in_flight == active@.len(),
            pool.bound == (if max_concurrency >= 1 { max_concurrency as int } else { 1int }),
            max_seen <= pool.bound,
            pending_jobs@.len() > 0 ==> active@.len() == pool.bound,
            records@.to_multiset().add(active@.to_multiset()).add(
                planned(pending_jobs@, descs@).to_multiset()) =~= all.to_multiset(),
            records@.len() + active@.len() + pending_jobs@.len() == all.len(),
            all == planned(jobs@, descriptions@),
        decreases pending_jobs@.len() + active@.len(),
    {
        let ghost pre_active = active@;
        let ghost pre_records = records@;
        let k = pick_next(step, active.len(), &schedule);
        step = if step == usize::MAX { 0 } else { step + 1 };
        let done = active.remove(k);
        pool.finish_job();
        records.push(done);
        proof {
            broadcast use group_to_multiset_ensures;
            broadcast use vstd::multiset::group_multiset_axioms;
            assert(pre_active.remove(k as int).to_multiset()
                == pre_active.to_multiset().remove(pre_active[k as int]));
            assert(records@.to_multiset() == pre_records.push(done).to_multiset());
            assert(records@.to_multiset() == pre_records.to_multiset().insert(done));
            assert(records@.to_multiset().add(active@.to_multiset()).add(
                planned(pending_jobs@, descs@).to_multiset()) =~= all.to_multiset());
        }
        fill_permits(&mut pending_jobs, &mut descs, &mut pool, &mut active, Ghost(all), Ghost(records@));
        if active.len() > max_seen {
            max_seen = active.len();
        }
    }
    proof {
        vstd::seq_lib::to_multiset_len(active@);
        vstd::seq_lib::to_multiset_len(planned(pending_jobs@, descs@));
        vstd::multiset::lemma_multiset_empty_len(active@.to_multiset());
        vstd::multiset::lemma_multiset_empty_len(planned(pending_jobs@, descs@).to_multiset());
        assert(records@.to_multiset() =~= all.to_multiset());
        vstd::seq_lib::to_multiset_len(records@);
        vstd::seq_lib::to_multiset_len(all);
    }
    (records, max_seen)
}

/// The schedule's pick of which in-flight job completes next.
fn pick_next(step: usize, active_len: usize, schedule: &Vec<usize>) -> (k: usize)
    requires
        active_len >= 1,
    ensures
        k < active_len,
{
    if schedule.len() == 0 {
        0
    } else {
        schedule[step % schedule.len()] % active_len
    }
}

/// Starts pending jobs while permits are free: each start moves the front
/// job from the queue into the in-flight set, its record ready for the
/// moment the schedule completes it.
fn fill_permits(
    pending_jobs: &mut Vec<Job>,
    descs: &mut Vec<String>,
    pool: &mut Dispatcher,
    active: &mut Vec<FrameRecord>,
    Ghost(all): Ghost<Seq<FrameRecord>>,
    Ghost(done): Ghost<Seq<FrameRecord>>,
)
    requires
        old(descs)@.len() == old(pending_jobs)@.len(),
        old(pool).wf(),
        old(pool).in_flight == old(active)@.len(),
        done.to_multiset().add(old(active)@.to_multiset()).add(
            planned(old(pending_jobs)@, old(descs)@).to_multiset()) =~= all.to_multiset(),
        done.len() + old(active)@.len() + old(pending_jobs)@.len() == all.len(),
    ensures
        final(descs)@.len() == final(pending_jobs)@.len(),
        final(pool).wf(),
        final(pool).bound == old(pool).bound,
        final(pool).in_flight == final(active)@.len(),
        final(active)@.len() >= old(active)@.len(),
        final(pending_jobs)@.len() > 0 ==> final(active)@.len() == final(pool).bound,
        done.to_multiset().add(final(active)@.to_multiset()).add(
            planned(final(pending_jobs)@, final(descs)@).to_multiset()) =~= all.to_multiset(),
        done.len() + final(active)@.len() + final(pending_jobs)@.len() == all.len(),
{
    broadcast use group_to_multiset_ensures;
    broadcast use vstd::multiset::group_multiset_axioms;

    while pending_jobs.len() > 0 && pool.in_flight < pool.bound
        invariant
            descs@.len() == pending_jobs@.len(),
            pool.wf(),
            pool.bound == old(pool).bound,
            pool.in_flight == active@.len(),
            active@.len() >= old(active)@.len(),
            done.to_multiset().add(active@.to_multiset()).add(
                planned(pending_jobs@, descs@).to_multiset()) =~= all.to_multiset(),
            done.len() + active@.len() + pending_jobs@.len() == all.len(),
        decreases pending_jobs@.len(),
    {
        let ghost pp = pending_jobs@;
        let ghost pd = descs@;
        let ghost pre_active = active@;
        let started = pool.try_begin();
        assert(started);
        let j = pending_jobs.remove(0);
        let d = descs.remove(0);
        let rec = complete_job(j, d);
        active.push(rec);
        proof {
            broadcast use group_to_multiset_ensures;
            broadcast use vstd::multiset::group_multiset_axioms;
            assert(planned(pp, pd) =~= seq![rec] + planned(pending_jobs@, descs@));
            assert(seq![rec] =~= Seq::<FrameRecord>::empty().push(rec));
            vstd::seq_lib::lemma_multiset_commutative(seq![rec], planned(pending_jobs@, descs@));
            assert(planned(pp, pd).to_multiset() =~= planned(pending_jobs@, descs@).to_multiset().insert(rec));
            assert(active@.to_multiset() == pre_active.push(rec).to_multiset());
            assert(active@.to_multiset() =~= pre_active.to_multiset().insert(rec));
            assert(done.to_multiset().add(active@.to_multiset()).add(
                planned(pending_jobs@, descs@).to_multiset()) =~= all.to_multiset());
        }
    }
}

} // verus!
