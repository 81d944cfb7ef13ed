//! The streaming selector: a fixed sampling clock over decoded frames and
//! a two-slot comparison window that always emits the candidate least
//! similar to the running reference.
//!
//! The very first decoded frame is emitted unconditionally and becomes the
//! reference.  After that, every owed clock tick turns the current frame
//! into a candidate; a candidate meeting an empty window waits as pending,
//! and a candidate meeting a pending one is compared against the reference:
//! the one with the lower similarity is emitted and becomes the new
//! reference, ties going to the pending (earlier) candidate.

use vstd::prelude::*;
use crate::feature::{FeatureVector, copy_feature};
use crate::raster::{RgbImage, RgbView, copy_rgb};
use crate::similarity::{score_num, score_den, score_le, cosine};

verus! {

/// Largest timestamp the pipeline accepts, in milliseconds.
pub const MAX_TS_MS: u64 = 281474976710655;

/// Largest sampling interval, in milliseconds.
pub const MAX_INTERVAL_MS: u64 = 0xFFFF_FFFF;

/// Ghost shape of a candidate: a sampled frame awaiting its decision.
#[verifier::ext_equal]
pub ghost struct CandView {
    pub id: int,
    pub ts_ms: int,
    pub levels: Seq<u8>,
    pub rgb: RgbView,
}

/// Ghost shape of the selector state.
#[verifier::ext_equal]
pub ghost struct SelView {
    pub reference: Option<Seq<u8>>,
    pub pending: Option<CandView>,
    pub next_sample_ms: int,
    pub interval_ms: int,
    pub next_id: int,
}

/// A frame sampled at one clock tick, owning its fingerprint and pixels.
pub struct Candidate {
    pub id: u64,
    pub ts_ms: u64,
    pub feature: FeatureVector,
    pub payload: RgbImage,
}

impl View for Candidate {
    type V = CandView;

    open spec fn view(&self) -> CandView {
        CandView {
            id: self.id as int,
            ts_ms: self.ts_ms as int,
            levels: self.feature.levels@,
            rgb: self.payload@,
        }
    }
}

impl Candidate {
    pub open spec fn wf(self) -> bool {
        self.feature.wf()
    }
}

/// Views of a sequence of candidates.
pub open spec fn views_of(s: Seq<Candidate>) -> Seq<CandView> {
    s.map_values(|c: Candidate| c@)
}

/// View of an optional candidate.
pub open spec fn opt_view(o: Option<Candidate>) -> Option<CandView> {
    match o {
        Option::Some(c) => Option::Some(c@),
        Option::None => Option::None,
    }
}

/// The selector: reference slot, pending window slot, sampling clock.
pub struct Selector {
    pub reference: Option<FeatureVector>,
    pub pending: Option<Candidate>,
    pub next_sample_ms: u64,
    pub interval_ms: u64,
    pub next_id: u64,
}

impl View for Selector {
    type V = SelView;

    open spec fn view(&self) -> SelView {
        SelView {
            reference: match self.reference {
                Option::Some(f) => Option::Some(f.levels@),
                Option::None => Option::None,
            },
            pending: match self.pending {
                Option::Some(c) => Option::Some(c@),
                Option::None => Option::None,
            },
            next_sample_ms: self.next_sample_ms as int,
            interval_ms: self.interval_ms as int,
            next_id: self.next_id as int,
        }
    }
}

/// One clock tick: the candidate either waits as pending, or is compared
/// with the pending one against the reference; exactly one of the pair is
/// emitted and becomes the reference, ties favouring the pending one.
pub open spec fn spec_tick(st: SelView, c: CandView) -> (SelView, Option<CandView>) {
    match st.pending {
        Option::None => (SelView { pending: Option::Some(c), ..st }, Option::None),
        Option::Some(p) => {
            let rf = st.reference->0;
            if score_le(
                score_num(rf, p.levels), score_den(rf, p.levels),
                score_num(rf, c.levels), score_den(rf, c.levels),
            ) {
                (
                    SelView { reference: Option::Some(p.levels), pending: Option::Some(c), ..st },
                    Option::Some(p),
                )
            } else {
                (
                    SelView { reference: Option::Some(c.levels), pending: Option::None, ..st },
                    Option::Some(c),
                )
            }
        }
    }
}

/// All clock ticks owed by a frame at `ts`: each owed tick receives this
/// frame as its candidate, stamped with the tick's own time and a fresh id.
pub open spec fn spec_ticks(st: SelView, ts: int, levels: Seq<u8>, rgb: RgbView)
    -> (SelView, Seq<CandView>)
    decreases vstd::math::max(ts + 1 - st.next_sample_ms, 0),
{
    if st.interval_ms < 1 || ts < st.next_sample_ms {
        (st, Seq::empty())
    } else {
        let c = CandView { id: st.next_id, ts_ms: st.next_sample_ms, levels, rgb };
        let bumped = SelView {
            next_sample_ms: st.next_sample_ms + st.interval_ms,
            next_id: st.next_id + 1,
            ..st
        };
        let stepped = spec_tick(bumped, c);
        let rest = spec_ticks(stepped.0, ts, levels, rgb);
        match stepped.1 {
            Option::Some(e) => (rest.0, seq![e] + rest.1),
            Option::None => (rest.0, rest.1),
        }
    }
}

/// A decoded frame arrives: the first one is selected unconditionally at
/// timestamp zero and initializes the reference; later ones serve every
/// owed clock tick.
pub open spec fn spec_observe(st: SelView, ts: int, levels: Seq<u8>, rgb: RgbView)
    -> (SelView, Seq<CandView>)
{
    if st.reference is None {
        (
            SelView { reference: Option::Some(levels), ..st },
            seq![CandView { id: 0, ts_ms: 0, levels, rgb }],
        )
    } else {
        spec_ticks(st, ts, levels, rgb)
    }
}

/// End of the stream: a candidate still waiting in the window is selected.
pub open spec fn spec_finish(st: SelView) -> (SelView, Option<CandView>) {
    match st.pending {
        Option::None => (st, Option::None),
        Option::Some(p) => (
            SelView { reference: Option::Some(p.levels), pending: Option::None, ..st },
            Option::Some(p),
        ),
    }
}

impl Selector {
    /// The clock is sane, ids keep pace with it, and every held feature
    /// vector is well formed; a pending candidate implies a reference.
    pub open spec fn wf(self) -> bool {
        &&& 1 <= self.interval_ms <= MAX_INTERVAL_MS
        &&& self.next_sample_ms as int <= MAX_TS_MS as int + self.interval_ms as int
        &&& self.next_id <= self.next_sample_ms
        &&& match self.reference {
            Option::Some(f) => f.wf(),
            Option::None => true,
        }
        &&& match self.pending {
            Option::Some(c) => c.wf() && self.reference is Some,
            Option::None => true,
        }
    }

    /// A fresh selector with the given sampling interval.
    pub fn with_interval(interval_ms: u64) -> (r: Selector)
        requires
            1 <= interval_ms <= MAX_INTERVAL_MS,
        ensures
            r.wf(),
            r@.reference is None,
            r@.pending is None,
            r@.next_sample_ms == interval_ms as int,
            r@.interval_ms == interval_ms as int,
            r@.next_id == 1,
    {
        Selector {
            reference: Option::None,
            pending: Option::None,
            next_sample_ms: interval_ms,
            interval_ms,
            next_id: 1,
        }
    }

    /// A fresh selector with the default sampling interval.
    pub fn new() -> (r: Selector)
        ensures
            r.wf(),
            r@.reference is None,
            r@.pending is None,
            r@.next_sample_ms == crate::SAMPLE_INTERVAL_MS as int,
            r@.interval_ms == crate::SAMPLE_INTERVAL_MS as int,
            r@.next_id == 1,
    {
        Selector::with_interval(crate::SAMPLE_INTERVAL_MS)
    }

    /// One comparison step of the sliding window.
    fn tick(&mut self, c: Candidate) -> (emitted: Option<Candidate>)
        requires
            old(self).wf(),
            old(self).reference is Some,
            c.wf(),
        ensures
            final(self).wf(),
            final(self)@ == spec_tick(old(self)@, c@).0,
            opt_view(emitted) == spec_tick(old(self)@, c@).1,
    {
        match self.pending.take() {
            Option::None => {
                self.pending = Option::Some(c);
                Option::None
            },
            Option::Some(p) => {
                let rf = self.reference.as_ref().unwrap();
                let sp = cosine(rf, &p.feature);
                let sc = cosine(rf, &c.feature);
                if sp.le(&sc) {
                    self.reference = Option::Some(copy_feature(&p.feature));
                    self.pending = Option::Some(c);
                    Option::Some(p)
                } else {
                    self.reference = Option::Some(copy_feature(&c.feature));
                    self.pending = Option::None;
                    Option::Some(c)
                }
            },
        }
    }

    /// Feeds one decoded frame to the selector; returns the candidates
    /// selected by this frame, in emission order.
    pub fn observe(&mut self, ts_ms: u64, feature: FeatureVector, payload: RgbImage)
        -> (selected: Vec<Candidate>)
        requires
            old(self).wf(),
            feature.wf(),
            ts_ms <= MAX_TS_MS,
        ensures
            final(self).wf(),
            final(self)@ == spec_observe(old(self)@, ts_ms as int, feature.levels@, payload@).0,
            views_of(selected@) == spec_observe(old(self)@, ts_ms as int, feature.levels@, payload@).1,
    {
        let mut out: Vec<Candidate> = Vec::new();
        if self.reference.is_none() {
            self.reference = Option::Some(copy_feature(&feature));
            out.push(Candidate { id: 0, ts_ms: 0, feature, payload });
            proof {
                assert(views_of(out@) =~=
                    spec_observe(old(self)@, ts_ms as int, feature.levels@, payload@).1);
            }
            return out;
        }
        let ghost lv = feature.levels@;
        let ghost rv = payload@;
        let ghost target = spec_ticks(self@, ts_ms as int, lv, rv);
        while self.next_sample_ms <= ts_ms
            invariant
                self.wf(),
                self.reference is Some,
                feature.wf(),
                ts_ms <= MAX_TS_MS,
                lv == feature.levels@,
                rv == payload@,
                target.0 == spec_ticks(self@, ts_ms as int, lv, rv).0,
                target.1 =~= views_of(out@) + spec_ticks(self@, ts_ms as int, lv, rv).1,
            decreases vstd::math::max(ts_ms as int + 1 - self.next_sample_ms as int, 0),
        {
            let ghost pre = self@;
            let ghost out0 = out@;
            let cid = self.next_id;
            let cts = self.next_sample_ms;
            self.next_id = self.next_id + 1;
            self.next_sample_ms = self.next_sample_ms + self.interval_ms;
            let cand = Candidate {
                id: cid,
                ts_ms: cts,
                feature: copy_feature(&feature),
                payload: copy_rgb(&payload),
            };
            let ghost cv = cand@;
            let emitted = self.tick(cand);
            match emitted {
                Option::Some(e) => {
                    out.push(e);
                },
                Option::None => {},
            }
            proof {
                let bumped = SelView {
                    next_sample_ms: pre.next_sample_ms + pre.interval_ms,
                    next_id: pre.next_id + 1,
                    ..pre
                };
                assert(cv =~= CandView { id: pre.next_id, ts_ms: pre.next_sample_ms, levels: lv, rgb: rv });
                assert(spec_ticks(pre, ts_ms as int, lv, rv).0
                    == spec_ticks(self@, ts_ms as int, lv, rv).0);
                assert(views_of(out@) =~= views_of(out0) + (match spec_tick(bumped, cv).1 {
                    Option::Some(e) => seq![e],
                    Option::None => Seq::<CandView>::empty(),
                }));
                assert(spec_ticks(pre, ts_ms as int, lv, rv).1 =~= (match spec_tick(bumped, cv).1 {
                    Option::Some(e) => seq![e],
                    Option::None => Seq::<CandView>::empty(),
                }) + spec_ticks(self@, ts_ms as int, lv, rv).1);
                assert(target.1 =~= views_of(out@) + spec_ticks(self@, ts_ms as int, lv, rv).1);
            }
        }
        proof {
            assert(target.1 =~= views_of(out@));
        }
        out
    }

    /// Ends the stream: a candidate still pending is selected last.
    pub fn finish(&mut self) -> (emitted: Option<Candidate>)
        requires
            old(self).wf(),
        ensures
            final(self).wf(),
            final(self)@ == spec_finish(old(self)@).0,
            opt_view(emitted) == spec_finish(old(self)@).1,
    {
        match self.pending.take() {
            Option::None => Option::None,
            Option::Some(p) => {
                self.reference = Option::Some(copy_feature(&p.feature));
                Option::Some(p)
            },
        }
    }
}

/// Every pair of emissions is in strictly increasing id order.
pub open spec fn ids_increasing(s: Seq<CandView>) -> bool {
    forall|i: int, j: int| 0 <= i < j < s.len() ==> s[i].id < s[j].id
}

/// The smallest id the selector can still emit: the pending candidate's,
/// else the next id the clock will assign.
pub open spec fn min_live_id(st: SelView) -> int {
    match st.pending {
        Option::Some(p) => p.id,
        Option::None => st.next_id,
    }
}

/// A pending candidate's id is older than the next id to be assigned.
pub open spec fn ids_ordered(st: SelView) -> bool {
    match st.pending {
        Option::Some(p) => p.id < st.next_id,
        Option::None => true,
    }
}

/// Law: one frame's owed ticks emit candidates in strictly increasing id
/// order; every emission's id lies between the ids still live before and
/// after, and the live ids only move forward.
pub proof fn lemma_ticks_ids_increasing(st: SelView, ts: int, lv: Seq<u8>, rv: RgbView)
    requires
        ids_ordered(st),
    ensures
        ({
            let st2 = spec_ticks(st, ts, lv, rv).0;
            let em = spec_ticks(st, ts, lv, rv).1;
            &&& ids_increasing(em)
            &&& forall|k: int| 0 <= k < em.len()
                ==> min_live_id(st) <= (#[trigger] em[k]).id < min_live_id(st2)
            &&& min_live_id(st) <= min_live_id(st2)
            &&& ids_ordered(st2)
            &&& (st.reference is Some ==> st2.reference is Some)
        }),
    decreases vstd::math::max(ts + 1 - st.next_sample_ms, 0),
{
    if st.interval_ms < 1 || ts < st.next_sample_ms {
    } else {
        let c = CandView { id: st.next_id, ts_ms: st.next_sample_ms, levels: lv, rgb: rv };
        let bumped = SelView {
            next_sample_ms: st.next_sample_ms + st.interval_ms,
            next_id: st.next_id + 1,
            ..st
        };
        let stepped = spec_tick(bumped, c);
        lemma_ticks_ids_increasing(stepped.0, ts, lv, rv);
        let rest = spec_ticks(stepped.0, ts, lv, rv);
        match stepped.1 {
            Option::Some(e) => {
                let em = seq![e] + rest.1;
                assert(em[0] == e);
                assert(forall|k: int| 1 <= k < em.len() ==> em[k] == rest.1[k - 1]);
            },
            Option::None => {},
        }
    }
}

/// Law: a full comparison window selects exactly one of its two
/// candidates — one no more similar to the reference than the other —
/// with ties resolved in favour of the pending (earlier) candidate, and
/// the reference afterwards holds the selected candidate's feature.
pub proof fn lemma_tick_selects_exactly_one(st: SelView, c: CandView)
    requires
        st.pending is Some,
    ensures
        spec_tick(st, c).1 is Some,
        ({
            let rf = st.reference->0;
            let p = st.pending->0;
            let p_first = score_le(
                score_num(rf, p.levels), score_den(rf, p.levels),
                score_num(rf, c.levels), score_den(rf, c.levels),
            );
            let sel = if p_first { p } else { c };
            let other = if p_first { c } else { p };
            &&& spec_tick(st, c).1 == Option::Some(sel)
            &&& score_le(
                    score_num(rf, sel.levels), score_den(rf, sel.levels),
                    score_num(rf, other.levels), score_den(rf, other.levels),
                )
            &&& spec_tick(st, c).0.reference == Option::Some(sel.levels)
            &&& spec_tick(st, c).0.pending == (if p_first {
                Option::Some(c)
            } else {
                Option::<CandView>::None
            })
        }),
{
}

} // verus!
