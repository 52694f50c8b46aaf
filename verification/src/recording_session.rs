//! Decisions of the recording session as the control panel drives it: when a
//! begin, pause, resume or stop request is acted on, how the session flags change,
//! what a failed shutdown of the active segment reports, and what the
//! completion preview says.

use vstd::prelude::*;

use crate::asset::CaptureKind;
use crate::policy::RecordingOutputFormat;

verus! {

/// The flags of the recording session.
#[derive(Debug, Clone, Copy, PartialEq, Eq, Structural)]
pub struct RecordingFlags {
    /// A recording was requested and its countdown or setup is running.
    pub is_starting: bool,
    /// A segment is being captured.
    pub is_recording: bool,
    /// Capture is paused between segments.
    pub is_paused: bool,
    /// A pause or resume is being carried out.
    pub is_transitioning: bool,
    /// The recording is being saved.
    pub is_finalizing: bool,
}

/// The flags while a pause is carried out: capture has ended and a
/// transition runs.
pub open spec fn spec_pausing(flags: RecordingFlags) -> RecordingFlags {
    RecordingFlags { is_recording: false, is_transitioning: true, ..flags }
}

/// Starts a pause: only a recording session that is not already changing
/// state is paused; otherwise the request is ignored.
pub fn begin_pause(flags: RecordingFlags) -> (next: Option<RecordingFlags>)
    ensures
        (flags.is_recording && !flags.is_transitioning) ==> next == Some(spec_pausing(flags)),
        !(flags.is_recording && !flags.is_transitioning) ==> next is None,
{
    if !flags.is_recording || flags.is_transitioning {
        None
    } else {
        Some(RecordingFlags { is_recording: false, is_transitioning: true, ..flags })
    }
}

/// The flags once a pause or a restart took effect.
pub open spec fn spec_settled(flags: RecordingFlags, paused: bool) -> RecordingFlags {
    RecordingFlags { is_paused: paused, is_recording: !paused, is_transitioning: false, ..flags }
}

/// Concludes a pause: the session is paused and no longer transitioning.
pub fn finish_pause(flags: RecordingFlags) -> (next: RecordingFlags)
    ensures
        next == (RecordingFlags { is_paused: true, is_transitioning: false, ..flags }),
{
    RecordingFlags { is_paused: true, is_transitioning: false, ..flags }
}

/// What a resume request does.
#[derive(Debug, Clone, Copy, PartialEq, Eq, Structural)]
pub enum ResumeDecision {
    /// Resume the native recorder that kept its encoder open.
    ResumeNative,
    /// Start a new segment with the saved configuration.
    StartSegment,
    /// Nothing is paused, or a transition runs: ignore the request.
    Ignore,
    /// The session lost its configuration and cannot resume.
    MissingConfiguration,
}

/// Decides a resume: a paused, settled session resumes in place when its
/// encoder is the native one, otherwise starts a new segment if it still has
/// its configuration.
pub open spec fn spec_resume_decision(flags: RecordingFlags, native_encoder: bool, has_configuration: bool) -> ResumeDecision {
    if !flags.is_paused || flags.is_transitioning {
        ResumeDecision::Ignore
    } else if native_encoder {
        ResumeDecision::ResumeNative
    } else if !has_configuration {
        ResumeDecision::MissingConfiguration
    } else {
        ResumeDecision::StartSegment
    }
}

/// Decides what a resume request does.
pub fn resume_decision(flags: RecordingFlags, native_encoder: bool, has_configuration: bool) -> (decision: ResumeDecision)
    ensures
        decision == spec_resume_decision(flags, native_encoder, has_configuration),
{
    if !flags.is_paused || flags.is_transitioning {
        ResumeDecision::Ignore
    } else if native_encoder {
        ResumeDecision::ResumeNative
    } else if !has_configuration {
        ResumeDecision::MissingConfiguration
    } else {
        ResumeDecision::StartSegment
    }
}

/// Message for a start request of a session without a configuration.
pub const MISSING_CONFIGURATION_ERROR: &'static str = "No recording configuration.";

/// What a request to begin recording does before it claims the startup.
#[derive(Debug, Clone, Copy, PartialEq, Eq, Structural)]
pub enum BeginDecision {
    /// A segment is already recording or paused: the request is ignored.
    Ignore,
    /// No configuration was prepared: the request fails.
    MissingConfiguration,
    /// Claim the startup of the configured session.
    Claim,
}

/// Decides a begin request: a session that records or is paused ignores
/// it; otherwise it needs a configuration to claim the startup.
pub open spec fn spec_begin_decision(flags: RecordingFlags, has_configuration: bool) -> BeginDecision {
    if flags.is_recording || flags.is_paused {
        BeginDecision::Ignore
    } else if !has_configuration {
        BeginDecision::MissingConfiguration
    } else {
        BeginDecision::Claim
    }
}

/// Decides what a begin request does.
pub fn begin_decision(flags: RecordingFlags, has_configuration: bool) -> (decision: BeginDecision)
    ensures
        decision == spec_begin_decision(flags, has_configuration),
{
    if flags.is_recording || flags.is_paused {
        BeginDecision::Ignore
    } else if !has_configuration {
        BeginDecision::MissingConfiguration
    } else {
        BeginDecision::Claim
    }
}

/// The flags once capture runs again.
pub fn resumed(flags: RecordingFlags) -> (next: RecordingFlags)
    ensures
        next == spec_settled(flags, false),
{
    RecordingFlags { is_paused: false, is_recording: true, is_transitioning: false, ..flags }
}

/// What a stop request does.
#[derive(Debug, Clone, Copy, PartialEq, Eq, Structural)]
pub enum StopDecision {
    /// The recording never started: discard its setup.
    AbandonStartup,
    /// Nothing is recording or paused, or a transition runs: ignore.
    Ignore,
    /// Stop and save; a segment is still being captured when
    /// `needs_active_segment` holds.
    Finalize { needs_active_segment: bool },
}

/// Decides a stop request.
pub open spec fn spec_stop_decision(flags: RecordingFlags) -> StopDecision {
    if flags.is_starting && !flags.is_recording && !flags.is_paused {
        StopDecision::AbandonStartup
    } else if !(flags.is_recording || flags.is_paused) || flags.is_transitioning {
        StopDecision::Ignore
    } else {
        StopDecision::Finalize { needs_active_segment: flags.is_recording }
    }
}

/// Decides what a stop request does.
pub fn stop_decision(flags: RecordingFlags) -> (decision: StopDecision)
    ensures
        decision == spec_stop_decision(flags),
{
    if flags.is_starting && !flags.is_recording && !flags.is_paused {
        StopDecision::AbandonStartup
    } else if !(flags.is_recording || flags.is_paused) || flags.is_transitioning {
        StopDecision::Ignore
    } else {
        StopDecision::Finalize { needs_active_segment: flags.is_recording }
    }
}

/// The flags while a stopped recording is saved.
pub fn finalizing(flags: RecordingFlags) -> (next: RecordingFlags)
    ensures
        next == (RecordingFlags { is_recording: false, is_paused: false, is_finalizing: true, ..flags }),
{
    RecordingFlags { is_recording: false, is_paused: false, is_finalizing: true, ..flags }
}

/// Whether a screen capture must be refused because a recording session is
/// starting, running, paused, changing state or being saved.
pub fn recording_blocks_capture(flags: RecordingFlags) -> (blocked: bool)
    ensures
        blocked == (flags.is_recording || flags.is_paused || flags.is_transitioning || flags.is_finalizing
            || flags.is_starting),
{
    flags.is_recording || flags.is_paused || flags.is_transitioning || flags.is_finalizing || flags.is_starting
}

/// Message while a capture blocks moving the library.
pub const CAPTURE_BUSY_ERROR: &'static str = "Finish the current capture before moving the library.";
/// Message while a recording blocks moving the library.
pub const RECORDING_BUSY_ERROR: &'static str = "Finish the current recording before moving the library.";

/// Allows moving or switching the library only while no capture session is
/// open and no recording is starting, running, paused, changing state or
/// being saved.
pub fn library_change_allowed(capture_active: bool, flags: RecordingFlags) -> (result: Result<(), String>)
    ensures
        capture_active ==> (result matches Err(message) && message@ == CAPTURE_BUSY_ERROR@),
        !capture_active && (flags.is_starting || flags.is_recording || flags.is_paused || flags.is_transitioning
            || flags.is_finalizing) ==> (result matches Err(message) && message@ == RECORDING_BUSY_ERROR@),
        !capture_active && !(flags.is_starting || flags.is_recording || flags.is_paused || flags.is_transitioning
            || flags.is_finalizing) ==> result is Ok,
{
    if capture_active {
        return Err(String::from_str(CAPTURE_BUSY_ERROR));
    }
    if recording_blocks_capture(flags) {
        return Err(String::from_str(RECORDING_BUSY_ERROR));
    }
    Ok(())
}

/// A stop that is acted on ends capture for good: neither recording nor
/// paused, and saving.
pub proof fn lemma_stop_ends_capture(flags: RecordingFlags)
    requires
        spec_stop_decision(flags) is Finalize,
    ensures
        (flags.is_recording || flags.is_paused) && !flags.is_transitioning,
{
}

/// A pause is only acted on while recording, and a resume only while paused:
/// the two never apply to the same settled flags.
pub proof fn lemma_pause_and_resume_exclude(flags: RecordingFlags, native_encoder: bool, has_configuration: bool)
    requires
        !(flags.is_recording && flags.is_paused),
    ensures
        (flags.is_recording && !flags.is_transitioning)
            ==> spec_resume_decision(flags, native_encoder, has_configuration) == ResumeDecision::Ignore,
        !(spec_resume_decision(flags, native_encoder, has_configuration) is Ignore) ==> !flags.is_recording,
{
}

/// How one shutdown step of the active segment went.
pub enum StepOutcome<T> {
    Done(T),
    Failed(String),
    /// The recorder or encoder was not there.
    Missing,
}

/// Message for a missing native recorder.
pub const RECORDER_MISSING_ERROR: &'static str = "The native recorder is unavailable.";
/// Message for a missing video encoder.
pub const ENCODER_MISSING_ERROR: &'static str = "The video encoder is unavailable.";
/// Message for a missing active recording.
pub const SESSION_MISSING_ERROR: &'static str = "The active recording session is unavailable.";

/// The failure, if any, after stopping the recorder; a missing recorder is a
/// failure only while a segment was being captured.
pub fn recorder_stop_failure(outcome: StepOutcome<()>, needs_active_segment: bool) -> (failure: Option<String>)
    ensures
        match outcome {
            StepOutcome::Done(_) => failure is None,
            StepOutcome::Failed(error) => failure == Some(error),
            StepOutcome::Missing => if needs_active_segment {
                failure matches Some(message) && message@ == RECORDER_MISSING_ERROR@
            } else {
                failure is None
            },
        },
{
    match outcome {
        StepOutcome::Done(_) => None,
        StepOutcome::Failed(error) => Some(error),
        StepOutcome::Missing => if needs_active_segment {
            Some(String::from_str(RECORDER_MISSING_ERROR))
        } else {
            None
        },
    }
}

/// The finished segment, or the failure, after finishing the encoder; a
/// missing encoder is a failure only while a segment was being captured.
pub fn encoder_finish_result<P>(outcome: StepOutcome<P>, needs_active_segment: bool) -> (result: Result<Option<P>, String>)
    ensures
        match outcome {
            StepOutcome::Done(segment) => result == Ok::<Option<P>, String>(Some(segment)),
            StepOutcome::Failed(error) => result == Err::<Option<P>, String>(error),
            StepOutcome::Missing => if needs_active_segment {
                result matches Err(message) && message@ == ENCODER_MISSING_ERROR@
            } else {
                result == Ok::<Option<P>, String>(None)
            },
        },
{
    match outcome {
        StepOutcome::Done(segment) => Ok(Some(segment)),
        StepOutcome::Failed(error) => Err(error),
        StepOutcome::Missing => if needs_active_segment {
            Err(String::from_str(ENCODER_MISSING_ERROR))
        } else {
            Ok(None)
        },
    }
}

/// The operation during which the active segment failed.
#[derive(Debug, Clone, Copy, PartialEq, Eq, Structural)]
pub enum SegmentFailureStage {
    Pausing,
    Stopping,
}

/// The message shown after the active segment failed and the completed
/// segments were (or were not) saved as a partial recording.
pub open spec fn spec_segment_failure_message(stage: SegmentFailureStage, recovery: Result<bool, String>) -> Seq<char> {
    match (stage, recovery) {
        (SegmentFailureStage::Pausing, Ok(true)) =>
            "The current recording section failed. Earlier completed sections were saved as a partial recording."@,
        (SegmentFailureStage::Pausing, Ok(false)) => "Could not pause screen recording."@,
        (SegmentFailureStage::Pausing, Err(_)) =>
            "Could not pause screen recording. Kiri kept the completed sections so they are not lost."@,
        (SegmentFailureStage::Stopping, Ok(true)) =>
            "Screen recording stopped unexpectedly. Earlier completed sections were saved as a partial recording."@,
        (SegmentFailureStage::Stopping, Ok(false)) => "Could not save the recording."@,
        (SegmentFailureStage::Stopping, Err(_)) =>
            "Could not save the recording. Kiri kept the completed sections so they are not lost."@,
    }
}

/// The message for a failed segment, given how saving the completed
/// sections went.
pub fn segment_failure_message(stage: SegmentFailureStage, recovery: &Result<bool, String>) -> (message: &'static str)
    ensures
        message@ == spec_segment_failure_message(stage, *recovery),
{
    match (stage, recovery) {
        (SegmentFailureStage::Pausing, Ok(true)) =>
            "The current recording section failed. Earlier completed sections were saved as a partial recording.",
        (SegmentFailureStage::Pausing, Ok(false)) => "Could not pause screen recording.",
        (SegmentFailureStage::Pausing, Err(_)) =>
            "Could not pause screen recording. Kiri kept the completed sections so they are not lost.",
        (SegmentFailureStage::Stopping, Ok(true)) =>
            "Screen recording stopped unexpectedly. Earlier completed sections were saved as a partial recording.",
        (SegmentFailureStage::Stopping, Ok(false)) => "Could not save the recording.",
        (SegmentFailureStage::Stopping, Err(_)) =>
            "Could not save the recording. Kiri kept the completed sections so they are not lost.",
    }
}

/// The error a failed pause returns: the segment's error, followed by the
/// recovery error when saving the completed sections failed too.
pub fn pause_failure_error(error: String, recovery: Result<bool, String>) -> (returned: String)
    ensures
        match recovery {
            Err(recovery_error) => returned@ == error@ + "; partial recording recovery failed: "@ + recovery_error@,
            Ok(_) => returned@ == error@,
        },
{
    match recovery {
        Err(recovery_error) => {
            let mut returned = error;
            returned.append("; partial recording recovery failed: ");
            returned.append(recovery_error.as_str());
            returned
        },
        Ok(_) => error,
    }
}

/// Kind, title and detail of the preview shown while a recording is saved.
pub open spec fn spec_processing_preview(format: RecordingOutputFormat) -> (Seq<char>, Seq<char>, Seq<char>) {
    match format {
        RecordingOutputFormat::Mp4 => ("video"@, "Saving Recording"@, "MP4"@),
        RecordingOutputFormat::Gif => ("gif"@, "Creating GIF"@, "12 fps · 720 px long edge"@),
    }
}

/// The preview shown while a recording in `format` is saved.
pub fn processing_preview(format: RecordingOutputFormat) -> (preview: (&'static str, &'static str, &'static str))
    ensures
        (preview.0@, preview.1@, preview.2@) == spec_processing_preview(format),
{
    match format {
        RecordingOutputFormat::Mp4 => ("video", "Saving Recording", "MP4"),
        RecordingOutputFormat::Gif => ("gif", "Creating GIF", "12 fps · 720 px long edge"),
    }
}

/// The title of the preview of a saved recording.
pub fn completion_title(gif_fallback: bool, kind: CaptureKind) -> (title: &'static str)
    ensures
        title@ == if gif_fallback {
            "GIF Failed — Recording Saved as MP4"@
        } else if kind == CaptureKind::Gif {
            "GIF Created"@
        } else {
            "Recording Saved"@
        },
{
    if gif_fallback {
        "GIF Failed — Recording Saved as MP4"
    } else if kind == CaptureKind::Gif {
        "GIF Created"
    } else {
        "Recording Saved"
    }
}

} // verus!
