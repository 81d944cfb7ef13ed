use frameselect::codec::{describe_request, encode_frame_jpeg};
use frameselect::dispatch::{prepare_job, run_batch};
use frameselect::errors::PipelineError;
use frameselect::pipeline::{select_frames, DecodedFrame};
use frameselect::raster::{LumaPlane, RgbImage};
use frameselect::records::sort_records;

fn uniform_frame(ts_ms: u64, v: u8) -> DecodedFrame {
    DecodedFrame {
        ts_ms,
        luma: LumaPlane { width: 4, height: 4, stride: 4, samples: vec![v; 16] },
        rgb: RgbImage { width: 2, height: 2, bytes: vec![v; 12] },
    }
}

#[test]
fn two_sample_sequence_through_stub_capability() {
    // a frame of uniform value 0 at t=0 and one of uniform value 255 at t=0.25s
    let frames = vec![uniform_frame(0, 0), uniform_frame(250, 255)];
    let selected = select_frames(frames, 250);
    assert_eq!(selected.len(), 2);

    let mut jobs = Vec::new();
    for c in selected {
        jobs.push(prepare_job(c, "clip").expect("tiny frames encode fine"));
    }
    assert_eq!(jobs[0].path, "data/clip_frame_000.jpg");
    assert_eq!(jobs[1].path, "data/clip_frame_001.jpg");

    // the stub description capability always answers "X"
    let descriptions = vec!["X".to_string(), "X".to_string()];
    let (records, _) = run_batch(jobs, descriptions, 100, vec![]);
    let records = sort_records(records);

    assert_eq!(records.len(), 2);
    assert_eq!(records[0].frame_id, 0);
    assert_eq!(records[0].timestamp_ms, 0);
    assert_eq!(records[0].description, "X");
    assert_eq!(records[1].frame_id, 1);
    assert_eq!(records[1].timestamp_ms, 250);
    assert_eq!(records[1].description, "X");
}

#[test]
fn jpeg_encoding_yields_a_jpeg_stream() {
    let img = RgbImage { width: 2, height: 2, bytes: vec![10, 20, 30, 40, 50, 60, 70, 80, 90, 100, 110, 120] };
    let jpeg = encode_frame_jpeg(&img).expect("valid dimensions encode");
    assert!(jpeg.len() > 2);
    assert_eq!(jpeg[0], 0xFF); // JPEG start-of-image marker
    assert_eq!(jpeg[1], 0xD8);
}

#[test]
fn jpeg_encoding_rejects_empty_dimensions() {
    let img = RgbImage { width: 0, height: 0, bytes: Vec::new() };
    assert_eq!(encode_frame_jpeg(&img), Err(PipelineError::EncodeFailed));
}

#[test]
fn describe_request_inlines_base64() {
    let req = describe_request(&vec![b'M', b'a', b'n']);
    assert_eq!(req.image_base64, "TWFu"); // not the input handed back
    assert_eq!(req.mime, "image/jpeg");
    assert!(req.prompt.starts_with("Please describe what you see in this video frame"));
}

#[test]
fn describe_request_pads_base64() {
    let req = describe_request(&vec![b'M', b'a']);
    assert_eq!(req.image_base64, "TWE=");
    let req2 = describe_request(&Vec::new());
    assert_eq!(req2.image_base64, "");
}
