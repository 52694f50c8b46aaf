use kiri::recording::{gif_finalize_step, mp4_fallback_outcome, GifFinalizeStep, RecordingFinalizeOutcome};
use kiri::asset::CaptureKind;
use kiri::policy::{RecordingOutputFormat, RecordingPolicy};
use kiri::recording_session::{
    begin_decision, begin_pause, completion_title, encoder_finish_result, finalizing, finish_pause,
    pause_failure_error, processing_preview, recording_blocks_capture, recorder_stop_failure, resume_decision, resumed,
    segment_failure_message, stop_decision, BeginDecision, RecordingFlags, ResumeDecision, SegmentFailureStage,
    StepOutcome, StopDecision, ENCODER_MISSING_ERROR, MISSING_CONFIGURATION_ERROR, RECORDER_MISSING_ERROR,
};

const IDLE: RecordingFlags = RecordingFlags {
    is_starting: false,
    is_recording: false,
    is_paused: false,
    is_transitioning: false,
    is_finalizing: false,
};

fn recording() -> RecordingFlags {
    RecordingFlags {
        is_recording: true,
        ..IDLE
    }
}

#[test]
fn pause_then_resume_round_trip() {
    let pausing = begin_pause(recording()).unwrap();
    assert!(!pausing.is_recording && pausing.is_transitioning);
    assert_eq!(begin_pause(pausing), None);
    assert_eq!(resume_decision(pausing, false, true), ResumeDecision::Ignore);
    let paused = finish_pause(pausing);
    assert!(paused.is_paused && !paused.is_transitioning && !paused.is_recording);
    assert_eq!(begin_pause(paused), None);
    assert_eq!(resume_decision(paused, true, true), ResumeDecision::ResumeNative);
    assert_eq!(resume_decision(paused, false, true), ResumeDecision::StartSegment);
    assert_eq!(resume_decision(paused, false, false), ResumeDecision::MissingConfiguration);
    assert_eq!(resumed(paused), recording());
}

#[test]
fn stop_requests_follow_the_session_state() {
    let starting = RecordingFlags {
        is_starting: true,
        ..IDLE
    };
    assert_eq!(stop_decision(starting), StopDecision::AbandonStartup);
    assert_eq!(stop_decision(IDLE), StopDecision::Ignore);
    assert_eq!(
        stop_decision(recording()),
        StopDecision::Finalize {
            needs_active_segment: true
        }
    );
    let paused = finish_pause(begin_pause(recording()).unwrap());
    assert_eq!(
        stop_decision(paused),
        StopDecision::Finalize {
            needs_active_segment: false
        }
    );
    let transitioning = begin_pause(recording()).unwrap();
    assert_eq!(stop_decision(transitioning), StopDecision::Ignore);
    let saving = finalizing(recording());
    assert!(saving.is_finalizing && !saving.is_recording && !saving.is_paused);
    assert_eq!(stop_decision(saving), StopDecision::Ignore);
}

#[test]
fn missing_parts_fail_only_while_a_segment_is_captured() {
    assert_eq!(recorder_stop_failure(StepOutcome::Done(()), true), None);
    assert_eq!(
        recorder_stop_failure(StepOutcome::Failed("stream died".into()), false),
        Some("stream died".to_string())
    );
    assert_eq!(
        recorder_stop_failure(StepOutcome::Missing, true),
        Some(RECORDER_MISSING_ERROR.to_string())
    );
    assert_eq!(recorder_stop_failure(StepOutcome::Missing, false), None);

    assert_eq!(encoder_finish_result(StepOutcome::Done("a.mp4"), true), Ok(Some("a.mp4")));
    assert_eq!(
        encoder_finish_result::<&str>(StepOutcome::Failed("flush".into()), false),
        Err("flush".to_string())
    );
    assert_eq!(
        encoder_finish_result::<&str>(StepOutcome::Missing, true),
        Err(ENCODER_MISSING_ERROR.to_string())
    );
    assert_eq!(encoder_finish_result::<&str>(StepOutcome::Missing, false), Ok(None));
}

#[test]
fn segment_failures_report_what_was_kept() {
    assert_eq!(
        segment_failure_message(SegmentFailureStage::Pausing, &Ok(false)),
        "Could not pause screen recording."
    );
    assert_eq!(
        segment_failure_message(SegmentFailureStage::Stopping, &Ok(true)),
        "Screen recording stopped unexpectedly. Earlier completed sections were saved as a partial recording."
    );
    assert_eq!(
        segment_failure_message(SegmentFailureStage::Stopping, &Err("disk".into())),
        "Could not save the recording. Kiri kept the completed sections so they are not lost."
    );
    assert_eq!(
        pause_failure_error("encoder failed".into(), Err("disk full".into())),
        "encoder failed; partial recording recovery failed: disk full"
    );
    assert_eq!(pause_failure_error("encoder failed".into(), Ok(true)), "encoder failed");
}

#[test]
fn completion_previews_name_the_output() {
    assert_eq!(
        processing_preview(RecordingOutputFormat::Gif),
        ("gif", "Creating GIF", "12 fps · 720 px long edge")
    );
    assert_eq!(
        processing_preview(RecordingOutputFormat::Mp4),
        ("video", "Saving Recording", "MP4")
    );
    assert_eq!(completion_title(true, CaptureKind::Video), "GIF Failed — Recording Saved as MP4");
    assert_eq!(completion_title(false, CaptureKind::Gif), "GIF Created");
    assert_eq!(completion_title(false, CaptureKind::Video), "Recording Saved");
}

#[test]
fn elapsed_labels_format_like_swift() {
    assert_eq!(RecordingPolicy::elapsed_label_from_seconds(0), "00:00");
    assert_eq!(RecordingPolicy::elapsed_label_from_seconds(65), "01:05");
    assert_eq!(RecordingPolicy::elapsed_label_from_seconds(3600), "1:00:00");
    assert_eq!(RecordingPolicy::elapsed_label_from_seconds(36_005), "10:00:05");
    assert_eq!(RecordingPolicy::elapsed_label_from_seconds(3599), "59:59");
}

#[test]
fn captures_wait_for_any_recording_activity() {
    assert!(!recording_blocks_capture(IDLE));
    assert!(recording_blocks_capture(recording()));
    for flags in [
        RecordingFlags { is_starting: true, ..IDLE },
        RecordingFlags { is_paused: true, ..IDLE },
        RecordingFlags { is_transitioning: true, ..IDLE },
        RecordingFlags { is_finalizing: true, ..IDLE },
    ] {
        assert!(recording_blocks_capture(flags));
    }
}

#[test]
fn failed_gif_finalization_keeps_the_mp4() {
    assert_eq!(
        gif_finalize_step::<u8>(Ok(7)),
        GifFinalizeStep::Done(RecordingFinalizeOutcome { asset: 7, gif_fallback: false })
    );
    assert_eq!(gif_finalize_step::<u8>(Err("encoder".into())), GifFinalizeStep::ImportMp4("encoder".into()));
    assert_eq!(
        mp4_fallback_outcome::<u8>("encoder".into(), Ok(9)),
        Ok(RecordingFinalizeOutcome { asset: 9, gif_fallback: true })
    );
    assert_eq!(
        mp4_fallback_outcome::<u8>("encoder".into(), Err("disk full".into())).unwrap_err(),
        "GIF finalization failed: encoder; MP4 fallback failed: disk full"
    );
}

#[test]
fn begin_requests_claim_only_an_idle_configured_session() {
    assert_eq!(begin_decision(IDLE, true), BeginDecision::Claim);
    assert_eq!(begin_decision(IDLE, false), BeginDecision::MissingConfiguration);
    assert_eq!(begin_decision(recording(), true), BeginDecision::Ignore);
    let paused = RecordingFlags { is_paused: true, ..IDLE };
    assert_eq!(begin_decision(paused, false), BeginDecision::Ignore);
    let starting = RecordingFlags { is_starting: true, ..IDLE };
    assert_eq!(begin_decision(starting, true), BeginDecision::Claim);
    assert_eq!(MISSING_CONFIGURATION_ERROR, "No recording configuration.");
}
