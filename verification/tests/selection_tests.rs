use frameselect::feature::FeatureVector;
use frameselect::raster::{LumaPlane, RgbImage};
use frameselect::pipeline::{select_frames, timestamp_ms, effective_ts_units, DecodedFrame};
use frameselect::selector::Selector;

fn rgb(v: u8) -> RgbImage {
    RgbImage { width: 2, height: 2, bytes: vec![v; 12] }
}

fn uniform_frame(ts_ms: u64, v: u8) -> DecodedFrame {
    DecodedFrame {
        ts_ms,
        luma: LumaPlane { width: 4, height: 4, stride: 4, samples: vec![v; 16] },
        rgb: rgb(v),
    }
}

#[test]
fn first_frame_always_selected_at_zero() {
    let mut sel = Selector::new();
    let f = FeatureVector::new(vec![9u8; 16]);
    let got = sel.observe(700, f, rgb(9));
    assert_eq!(got.len(), 1);
    assert_eq!(got[0].id, 0);
    assert_eq!(got[0].ts_ms, 0);
    assert!(sel.reference.is_some());
}

#[test]
fn window_selects_less_similar_candidate() {
    // reference is bright; pending stays bright, current goes dark:
    // the dark one is less similar and must win, emptying the window.
    let mut sel = Selector::with_interval(250);
    sel.observe(0, FeatureVector::new(vec![200u8; 16]), rgb(200));
    let got1 = sel.observe(250, FeatureVector::new(vec![200u8; 16]), rgb(200));
    assert_eq!(got1.len(), 0); // first tick only fills the window
    let got2 = sel.observe(500, FeatureVector::new(vec![0u8, 200, 0, 200]), rgb(0));
    assert_eq!(got2.len(), 1);
    assert_eq!(got2[0].id, 2); // the current, less similar candidate
    assert_eq!(got2[0].ts_ms, 500);
    assert!(sel.pending.is_none()); // window slid by two ticks
}

#[test]
fn tie_selects_the_pending_candidate() {
    let mut sel = Selector::with_interval(250);
    sel.observe(0, FeatureVector::new(vec![50u8; 16]), rgb(50));
    sel.observe(250, FeatureVector::new(vec![50u8; 16]), rgb(50));
    let got = sel.observe(500, FeatureVector::new(vec![50u8; 16]), rgb(50));
    assert_eq!(got.len(), 1);
    assert_eq!(got[0].id, 1); // equal similarity: the earlier candidate wins
    assert_eq!(got[0].ts_ms, 250);
    assert!(sel.pending.is_some()); // current became the new pending
}

#[test]
fn one_second_video_gets_four_ticks_plus_first_frame() {
    // uniform frame availability over one second
    let mut frames = Vec::new();
    let mut t = 0u64;
    while t <= 1000 {
        frames.push(uniform_frame(t, 7));
        t += 50;
    }
    let selected = select_frames(frames, 250);
    let ids: Vec<u64> = selected.iter().map(|c| c.id).collect();
    let stamps: Vec<u64> = selected.iter().map(|c| c.ts_ms).collect();
    // the unconditional first selection plus the four sampling ticks
    assert_eq!(ids, vec![0, 1, 2, 3, 4]);
    assert_eq!(stamps, vec![0, 250, 500, 750, 1000]);
}

#[test]
fn decode_gap_owes_several_ticks_to_one_frame() {
    let frames = vec![uniform_frame(0, 7), uniform_frame(1000, 7)];
    let selected = select_frames(frames, 250);
    // ticks at 250, 500, 750, 1000 all served by the second frame
    let stamps: Vec<u64> = selected.iter().map(|c| c.ts_ms).collect();
    assert_eq!(stamps, vec![0, 250, 500, 750, 1000]);
}

#[test]
fn pending_candidate_is_flushed_at_end_of_stream() {
    let frames = vec![uniform_frame(0, 7), uniform_frame(250, 9)];
    let selected = select_frames(frames, 250);
    assert_eq!(selected.len(), 2);
    assert_eq!(selected[1].id, 1);
    assert_eq!(selected[1].ts_ms, 250);
}

#[test]
fn timestamp_conversion_scales_and_clamps() {
    assert_eq!(timestamp_ms(90000, 1, 90000), 1000);
    assert_eq!(timestamp_ms(45000, 1, 90000), 500);
    assert_eq!(timestamp_ms(3, 1, 4), 750);
    assert_eq!(timestamp_ms(-5, 1, 90000), 0);
    assert_eq!(timestamp_ms(0, 1, 90000), 0);
    assert_eq!(timestamp_ms(i64::MAX, u32::MAX, 1), 281474976710655);
}

#[test]
fn effective_timestamp_prefers_frame_then_packet() {
    assert_eq!(effective_ts_units(Some(5), Some(9)), 5);
    assert_eq!(effective_ts_units(None, Some(9)), 9);
    assert_eq!(effective_ts_units(None, None), 0);
}
