//! The decode-side pipeline: frames in decode order, through feature
//! extraction and the streaming selector, to the selected candidates.
//!
//! The decoder hands over frames one by one; everything after that hand-off
//! is pure: fingerprint the luminance plane, serve the sampling clock, and
//! keep the two-slot window's survivor.  At end of stream a candidate
//! still waiting in the window is selected last.

use vstd::prelude::*;
use crate::extract::{extract_feature, level_at};
use crate::feature::FEATURE_DIM;
use crate::raster::{LumaPlane, RgbImage};
use crate::selector::{CandView, Candidate, SelView, Selector, spec_finish, spec_observe,
    views_of, MAX_TS_MS, MAX_INTERVAL_MS, ids_increasing, ids_ordered, min_live_id,
    lemma_ticks_ids_increasing};

verus! {

/// One decoded frame: its timestamp, its luminance plane for
/// fingerprinting, and its RGB pixels for later encoding.
pub struct DecodedFrame {
    pub ts_ms: u64,
    pub luma: LumaPlane,
    pub rgb: RgbImage,
}

impl DecodedFrame {
    pub open spec fn wf(self) -> bool {
        &&& self.luma.wf()
        &&& self.rgb.wf()
        &&& self.ts_ms <= MAX_TS_MS
    }
}

/// The feature levels a luminance plane extracts to.
pub open spec fn feature_of(p: LumaPlane) -> Seq<u8> {
    Seq::new(FEATURE_DIM as nat, |k: int| level_at(p, k) as u8)
}

/// An optional candidate as a sequence of zero or one.
pub open spec fn opt_seq(o: Option<CandView>) -> Seq<CandView> {
    match o {
        Option::Some(c) => seq![c],
        Option::None => Seq::empty(),
    }
}

/// The whole run from state `st`: each frame is observed in decode order,
/// and the window is flushed at end of stream.
pub open spec fn spec_run_frames(st: SelView, frames: Seq<DecodedFrame>)
    -> (SelView, Seq<CandView>)
    decreases frames.len(),
{
    if frames.len() == 0 {
        let fin = spec_finish(st);
        (fin.0, opt_seq(fin.1))
    } else {
        let f = frames[0];
        let ob = spec_observe(st, f.ts_ms as int, feature_of(f.luma), f.rgb@);
        let rest = spec_run_frames(ob.0, frames.drop_first());
        (rest.0, ob.1 + rest.1)
    }
}

/// Runs the selection over a whole decoded sequence: extracts each
/// frame's feature vector, serves every owed sampling tick, and flushes
/// the window at end of stream.  Returns the selected candidates in
/// emission order — exactly what the selection protocol prescribes.
pub fn select_frames(frames: Vec<DecodedFrame>, interval_ms: u64) -> (selected: Vec<Candidate>)
    requires
        1 <= interval_ms <= MAX_INTERVAL_MS,
        forall|i: int| 0 <= i < frames@.len() ==> (#[trigger] frames@[i]).wf(),
    ensures
        views_of(selected@)
            == spec_run_frames(Selector::initial_view(interval_ms), frames@).1,
{
    let mut sel = Selector::with_interval(interval_ms);
    let mut rest = frames;
    let mut out: Vec<Candidate> = Vec::new();
    let ghost target = spec_run_frames(sel@, rest@);
    while rest.len() > 0
        invariant
            sel.wf(),
            forall|i: int| 0 <= i < rest@.len() ==> (#[trigger] rest@[i]).wf(),
            target.0 == spec_run_frames(sel@, rest@).0,
            target.1 =~= views_of(out@) + spec_run_frames(sel@, rest@).1,
        decreases rest@.len(),
    {
        let ghost pre_frames = rest@;
        let ghost pre_out = out@;
        let f = rest.remove(0);
        let feat = extract_feature(&f.luma);
        proof {
            assert(feat.levels@ =~= feature_of(f.luma));
            assert(rest@ =~= pre_frames.drop_first());
        }
        let mut got = sel.observe(f.ts_ms, feat, f.rgb);
        let ghost got_views = views_of(got@);
        out.append(&mut got);
        proof {
            assert(views_of(out@) =~= views_of(pre_out) + got_views);
            assert(target.1 =~= views_of(out@) + spec_run_frames(sel@, rest@).1);
        }
    }
    let last = sel.finish();
    match last {
        Option::Some(c) => {
            let ghost pre_out = out@;
            out.push(c);
            proof {
                assert(views_of(out@) =~= views_of(pre_out) + seq![c@]);
                assert(target.1 =~= views_of(out@));
            }
        },
        Option::None => {
            proof {
                assert(target.1 =~= views_of(out@));
            }
        },
    }
    out
}

/// Law: once the selector has its reference, every further emission of a
/// run — flush included — carries an id no older than the ids still live,
/// and the run's emissions are in strictly increasing id order.
pub proof fn lemma_run_ids_increasing(st: SelView, frames: Seq<DecodedFrame>)
    requires
        st.reference is Some,
        ids_ordered(st),
    ensures
        ({
            let em = spec_run_frames(st, frames).1;
            &&& ids_increasing(em)
            &&& forall|k: int| 0 <= k < em.len() ==> min_live_id(st) <= (#[trigger] em[k]).id
        }),
    decreases frames.len(),
{
    if frames.len() == 0 {
    } else {
        let f = frames[0];
        let ob = spec_observe(st, f.ts_ms as int, feature_of(f.luma), f.rgb@);
        lemma_ticks_ids_increasing(st, f.ts_ms as int, feature_of(f.luma), f.rgb@);
        lemma_run_ids_increasing(ob.0, frames.drop_first());
        let rest = spec_run_frames(ob.0, frames.drop_first());
        let em = ob.1 + rest.1;
        assert(forall|k: int| 0 <= k < ob.1.len() ==> em[k] == ob.1[k]);
        assert(forall|k: int| ob.1.len() <= k < em.len() ==> em[k] == rest.1[k - ob.1.len()]);
    }
}

/// Law: frame ids are strictly increasing in emission order — the whole
/// run of any decoded sequence, from a fresh selector, emits its selected
/// candidates with strictly increasing ids.
pub proof fn lemma_selection_ids_increasing(interval_ms: u64, frames: Seq<DecodedFrame>)
    ensures
        ids_increasing(spec_run_frames(Selector::initial_view(interval_ms), frames).1),
{
    let st = Selector::initial_view(interval_ms);
    if frames.len() == 0 {
    } else {
        let f = frames[0];
        let ob = spec_observe(st, f.ts_ms as int, feature_of(f.luma), f.rgb@);
        lemma_run_ids_increasing(ob.0, frames.drop_first());
        let rest = spec_run_frames(ob.0, frames.drop_first());
        let em = ob.1 + rest.1;
        assert(em[0].id == 0);
        assert(forall|k: int| 1 <= k < em.len() ==> em[k] == rest.1[k - 1]);
        assert(min_live_id(ob.0) == 1);
    }
}

/// The timestamp the decoder reports for a frame: the frame's own stamp,
/// else the packet's, else zero.
pub fn effective_ts_units(frame_ts: Option<i64>, packet_ts: Option<i64>) -> (r: i64)
    ensures
        r == (match frame_ts {
            Option::Some(t) => t,
            Option::None => match packet_ts {
                Option::Some(p) => p,
                Option::None => 0i64,
            },
        }),
{
    match frame_ts {
        Option::Some(t) => t,
        Option::None => match packet_ts {
            Option::Some(p) => p,
            Option::None => 0,
        },
    }
}

/// A decoder timestamp in stream units as whole milliseconds: scaled by
/// the stream's time base, truncated, clamped to `0 ..= MAX_TS_MS`.
pub open spec fn spec_timestamp_ms(units: int, tb_num: int, tb_den: int) -> int {
    if units <= 0 {
        0
    } else {
        let v = units * tb_num * 1000 / tb_den;
        if v > MAX_TS_MS as int {
            MAX_TS_MS as int
        } else {
            v
        }
    }
}

/// Converts a decoder timestamp to milliseconds, exactly as
/// `spec_timestamp_ms` prescribes.
pub fn timestamp_ms(units: i64, tb_num: u32, tb_den: u32) -> (r: u64)
    requires
        tb_den >= 1,
    ensures
        r == spec_timestamp_ms(units as int, tb_num as int, tb_den as int),
        r <= MAX_TS_MS,
{
    if units <= 0 {
        return 0;
    }
    proof {
        vstd::arithmetic::mul::lemma_mul_upper_bound(
            units as int, 0x7FFF_FFFF_FFFF_FFFF, tb_num as int, 0xFFFF_FFFF);
        vstd::arithmetic::mul::lemma_mul_nonnegative(units as int, tb_num as int);
        assert(0x7FFF_FFFF_FFFF_FFFFint * 0xFFFF_FFFFint
            == 39614081247908796755622232065int) by (nonlinear_arith);
    }
    let scaled: i128 = (units as i128) * (tb_num as i128) * 1000;
    let v: i128 = scaled / (tb_den as i128);
    proof {
        vstd::arithmetic::div_mod::lemma_div_is_ordered(0, scaled as int, tb_den as int);
    }
    if v > MAX_TS_MS as i128 {
        MAX_TS_MS
    } else {
        v as u64
    }
}

impl Selector {
    /// The view a fresh selector with this interval starts from.
    pub open spec fn initial_view(interval_ms: u64) -> SelView {
        SelView {
            reference: Option::None,
            pending: Option::None,
            next_sample_ms: interval_ms as int,
            interval_ms: interval_ms as int,
            next_id: 1,
        }
    }
}

} // verus!
