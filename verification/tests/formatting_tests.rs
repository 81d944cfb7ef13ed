use frameselect::text::{dec_string, pad3_string, frame_path, ts_text};
use frameselect::summary::{plan_summary, SummaryPlan};
use frameselect::config::{concurrency_setting, resolve_model, ModelChoice};
use frameselect::errors::PipelineError;
use frameselect::records::FrameRecord;

#[test]
fn decimal_rendering_is_exact() {
    assert_eq!(dec_string(0), "0");
    assert_eq!(dec_string(7), "7");
    assert_eq!(dec_string(10), "10");
    assert_eq!(dec_string(305), "305");
    assert_eq!(dec_string(u64::MAX), "18446744073709551615");
}

#[test]
fn padding_to_three_digits() {
    assert_eq!(pad3_string(0), "000");
    assert_eq!(pad3_string(7), "007");
    assert_eq!(pad3_string(42), "042");
    assert_eq!(pad3_string(305), "305");
    assert_eq!(pad3_string(1234), "1234");
}

#[test]
fn frame_paths_match_the_storage_layout() {
    assert_eq!(frame_path("1761542252139_crashDemo", 3), "data/1761542252139_crashDemo_frame_003.jpg");
    assert_eq!(frame_path("v", 120), "data/v_frame_120.jpg");
}

#[test]
fn timestamps_render_with_one_decimal() {
    assert_eq!(ts_text(0), "0.0");
    assert_eq!(ts_text(250), "0.2");
    assert_eq!(ts_text(1250), "1.2");
    assert_eq!(ts_text(999), "0.9");
    assert_eq!(ts_text(10500), "10.5");
}

fn rec(id: u64, ts_ms: u64, text: &str) -> FrameRecord {
    FrameRecord {
        frame_id: id,
        timestamp_ms: ts_ms,
        description: text.to_string(),
        path: String::new(),
        jpeg_bytes: None,
    }
}

#[test]
fn empty_batch_summary_is_answered_directly() {
    let records: Vec<FrameRecord> = Vec::new();
    match plan_summary(&records) {
        SummaryPlan::Done(s) => assert_eq!(s, "No frames processed; nothing to summarize."),
        SummaryPlan::Ask(_) => panic!("an empty batch must not ask the capability"),
    }
}

#[test]
fn transcript_has_one_line_per_record() {
    let records = vec![rec(0, 0, "a dark room"), rec(1, 1250, "a bright hall")];
    let header = "Summarize the video in detail description, should be 3-5 sentences.\n\nFrames:\n. Based on all the frmaes, try to keep a story line and explain what happened in the video. Describe the story not the specific details.";
    let expected = format!("{}- [0.0s] a dark room\n- [1.2s] a bright hall\n", header);
    match plan_summary(&records) {
        SummaryPlan::Ask(prompt) => assert_eq!(prompt, expected),
        SummaryPlan::Done(_) => panic!("a nonempty batch must ask the capability"),
    }
}

#[test]
fn concurrency_setting_parses_positive_values() {
    assert_eq!(concurrency_setting(None), 100);
    assert_eq!(concurrency_setting(Some(&"50".to_string())), 50);
    assert_eq!(concurrency_setting(Some(&"+7".to_string())), 7);
    assert_eq!(concurrency_setting(Some(&"1".to_string())), 1);
}

#[test]
fn concurrency_setting_falls_back_on_bad_values() {
    assert_eq!(concurrency_setting(Some(&"0".to_string())), 100);
    assert_eq!(concurrency_setting(Some(&"".to_string())), 100);
    assert_eq!(concurrency_setting(Some(&"abc".to_string())), 100);
    assert_eq!(concurrency_setting(Some(&"-3".to_string())), 100);
    assert_eq!(concurrency_setting(Some(&"12x".to_string())), 100);
    assert_eq!(concurrency_setting(Some(&"+".to_string())), 100);
    assert_eq!(concurrency_setting(Some(&"99999999999999999999999999".to_string())), 100);
}

#[test]
fn model_names_resolve_as_spelled() {
    assert_eq!(resolve_model(Some(&"Gemini25Flash".to_string())), ModelChoice::Gemini25Flash);
    assert_eq!(resolve_model(Some(&"Gemini25Pro".to_string())), ModelChoice::Gemini25Pro);
    assert_eq!(resolve_model(Some(&"TextEmbedding004".to_string())), ModelChoice::TextEmbedding004);
    assert_eq!(resolve_model(Some(&"Gemini25FlashLite".to_string())), ModelChoice::Gemini25FlashLite);
    assert_eq!(resolve_model(Some(&"something-else".to_string())), ModelChoice::Gemini25FlashLite);
    assert_eq!(resolve_model(None), ModelChoice::Gemini25FlashLite);
}

#[test]
fn error_messages_name_their_stage() {
    assert_eq!(PipelineError::NoVideoStream.message(), "no video stream found");
    assert_eq!(PipelineError::DecodeFailed.message(), "failed to decode video");
    assert_eq!(PipelineError::FeatureGeometry.message(), "frame plane geometry is invalid");
    assert_eq!(PipelineError::EncodeFailed.message(), "failed to encode frame image");
    assert_eq!(PipelineError::AnnotationFailed.message(), "frame description request failed");
    assert_eq!(PipelineError::PersistFailed.message(), "failed to persist frame image");
}
