//! The channels between a recorder's native callbacks and the encoder, the
//! platform recorder, and the outcome of finishing a recording.

use std::sync::mpsc::{Receiver, SyncSender};
use vstd::prelude::*;

use crate::capture::VIDEO_FRAME_QUEUE_CAPACITY;
use crate::policy::RecordingOptions;

verus! {

#[verifier::external_type_specification]
#[verifier::external_body]
#[verifier::reject_recursive_types(T)]
pub struct ExSyncSender<T>(SyncSender<T>);

/// `std::sync::mpsc::sync_channel`: a channel that holds at most `bound`
/// queued messages. Nothing is stated of the two ends, which Verus cannot see
/// into.
#[verifier::external_body]
fn bounded_channel<T>(bound: usize) -> (SyncSender<T>, Receiver<T>) {
    std::sync::mpsc::sync_channel(bound)
}

/// The sending ends handed to the native recorder; audio ends exist only for
/// the audio sources being captured.
pub struct RecorderSenders<S> {
    pub video: SyncSender<Vec<u8>>,
    pub system_audio: Option<S>,
    pub microphone: Option<S>,
}

/// The receiving ends read by the encoder.
pub struct EncoderReceivers<R> {
    pub video: Receiver<Vec<u8>>,
    pub system_audio: Option<R>,
    pub microphone: Option<R>,
}

/// Opens the recording channels: a video queue of
/// `VIDEO_FRAME_QUEUE_CAPACITY` frames, and one audio channel made by
/// `audio_channel` for each audio source that `options` captures.
pub fn recording_channels<S, R, F: Fn() -> (S, R)>(
    options: RecordingOptions,
    audio_channel: F,
) -> (channels: (RecorderSenders<S>, EncoderReceivers<R>))
    requires
        audio_channel.requires(()),
    ensures
        channels.0.system_audio is Some <==> options.captures_system_audio,
        channels.1.system_audio is Some <==> options.captures_system_audio,
        channels.0.microphone is Some <==> options.captures_microphone,
        channels.1.microphone is Some <==> options.captures_microphone,
        options.captures_system_audio ==> exists|pair: (S, R)| #![trigger audio_channel.ensures((), pair)]
            audio_channel.ensures((), pair) && channels.0.system_audio == Some(pair.0)
                && channels.1.system_audio == Some(pair.1),
        options.captures_microphone ==> exists|pair: (S, R)| #![trigger audio_channel.ensures((), pair)]
            audio_channel.ensures((), pair) && channels.0.microphone == Some(pair.0)
                && channels.1.microphone == Some(pair.1),
{
    let (video_tx, video_rx) = bounded_channel(VIDEO_FRAME_QUEUE_CAPACITY);
    let (audio_tx, audio_rx) = if options.captures_system_audio {
        let (tx, rx) = audio_channel();
        (Some(tx), Some(rx))
    } else {
        (None, None)
    };
    let (mic_tx, mic_rx) = if options.captures_microphone {
        let (tx, rx) = audio_channel();
        (Some(tx), Some(rx))
    } else {
        (None, None)
    };
    (
        RecorderSenders { video: video_tx, system_audio: audio_tx, microphone: mic_tx },
        EncoderReceivers { video: video_rx, system_audio: audio_rx, microphone: mic_rx },
    )
}

/// `anyhow::Error::msg`: an error carrying `message`. Nothing is stated of the
/// error value, which Verus cannot see into.
#[verifier::external_body]
fn error_with_message(message: &'static str) -> anyhow::Error {
    anyhow::Error::msg(message)
}

/// A running platform recording session (screen capture with its audio
/// sources). Backends that cannot pause in place keep the provided `pause`
/// and `resume`, which refuse.
pub trait PlatformRecorder: Send {
    /// Stops the session and flushes what was captured.
    fn stop(&mut self) -> Result<(), anyhow::Error>;

    /// Pauses capture while keeping the encoder open. The provided method
    /// refuses.
    fn pause(&mut self) -> (result: Result<(), anyhow::Error>)
        default_ensures
            result is Err,
    {
        Err(error_with_message("This capture backend does not support in-place pause."))
    }

    /// Resumes a paused capture. The provided method refuses.
    fn resume(&mut self) -> (result: Result<(), anyhow::Error>)
        default_ensures
            result is Err,
    {
        Err(error_with_message("This capture backend does not support in-place resume."))
    }
}

/// Why a finished recording did not reach the library.
#[derive(Debug, PartialEq, Eq)]
pub enum RecordingFinalizeError {
    /// The import failed, but the recording is kept for a later retry.
    Queued(String),
    /// The import failed and nothing was kept.
    Failed(String),
}

impl RecordingFinalizeError {
    /// Whether the recording waits for a retry.
    pub fn is_queued(&self) -> (queued: bool)
        ensures
            queued == (self is Queued),
    {
        match self {
            RecordingFinalizeError::Queued(_) => true,
            RecordingFinalizeError::Failed(_) => false,
        }
    }

    /// The message shown for this failure.
    pub fn to_string(&self) -> (message: String)
        ensures
            match self {
                RecordingFinalizeError::Queued(m) => message@ == m@,
                RecordingFinalizeError::Failed(m) => message@ == m@,
            },
    {
        match self {
            RecordingFinalizeError::Queued(m) => m.clone(),
            RecordingFinalizeError::Failed(m) => m.clone(),
        }
    }
}

/// The outcome of finishing a recording: the import's own result, with a
/// failure reported as queued when the recovery copy was kept.
pub fn finalize_outcome<T>(result: Result<T, String>, recovery_kept: bool) -> (outcome: Result<T, RecordingFinalizeError>)
    ensures
        match result {
            Ok(value) => outcome == Ok::<T, RecordingFinalizeError>(value),
            Err(error) => if recovery_kept {
                outcome == Err::<T, RecordingFinalizeError>(RecordingFinalizeError::Queued(error))
            } else {
                outcome == Err::<T, RecordingFinalizeError>(RecordingFinalizeError::Failed(error))
            },
        },
{
    match result {
        Ok(value) => Ok(value),
        Err(error) => if recovery_kept {
            Err(RecordingFinalizeError::Queued(error))
        } else {
            Err(RecordingFinalizeError::Failed(error))
        },
    }
}

/// Which temporary files of a finished recording are removed.
#[derive(Debug, Clone, Copy, PartialEq, Eq, Structural)]
pub struct FinalizationCleanup {
    /// The recorded segments.
    pub remove_segments: bool,
    /// The merged output.
    pub remove_merged: bool,
}

/// Once the recording is durably kept (imported, or held for recovery), every
/// temporary file goes; otherwise the segments stay for a retry and only an
/// unfinished merge output is removed.
pub fn finalization_cleanup(merge_completed: bool, durably_kept: bool) -> (cleanup: FinalizationCleanup)
    ensures
        cleanup.remove_segments == durably_kept,
        cleanup.remove_merged == (durably_kept || !merge_completed),
{
    if durably_kept {
        FinalizationCleanup { remove_segments: true, remove_merged: true }
    } else {
        FinalizationCleanup { remove_segments: false, remove_merged: !merge_completed }
    }
}

/// A finished recording as imported: the asset, and whether it is the MP4
/// kept because the GIF could not be finalized.
#[derive(Debug, PartialEq, Eq)]
pub struct RecordingFinalizeOutcome<A> {
    pub asset: A,
    pub gif_fallback: bool,
}

/// What follows the attempt to finalize a GIF recording.
#[derive(Debug, PartialEq, Eq)]
pub enum GifFinalizeStep<A> {
    /// The GIF was imported.
    Done(RecordingFinalizeOutcome<A>),
    /// The GIF failed with this error; the MP4 is imported instead.
    ImportMp4(String),
}

/// After the GIF attempt: an imported GIF finishes the recording; a failure
/// keeps the MP4 as the fallback.
pub fn gif_finalize_step<A>(gif_result: Result<A, String>) -> (step: GifFinalizeStep<A>)
    ensures
        match gif_result {
            Ok(asset) => step == GifFinalizeStep::Done(RecordingFinalizeOutcome { asset, gif_fallback: false }),
            Err(error) => step == GifFinalizeStep::<A>::ImportMp4(error),
        },
{
    match gif_result {
        Ok(asset) => GifFinalizeStep::Done(RecordingFinalizeOutcome { asset, gif_fallback: false }),
        Err(error) => GifFinalizeStep::ImportMp4(error),
    }
}

/// The message when both the GIF and its MP4 fallback failed.
pub open spec fn both_failed_message(gif_error: Seq<char>, fallback_error: Seq<char>) -> Seq<char> {
    "GIF finalization failed: "@ + gif_error + "; MP4 fallback failed: "@ + fallback_error
}

/// The outcome of importing the MP4 fallback after the GIF failed with
/// `gif_error`: the MP4, marked as the fallback, or both failures in one
/// message.
pub fn mp4_fallback_outcome<A>(gif_error: String, fallback: Result<A, String>) -> (outcome: Result<RecordingFinalizeOutcome<A>, String>)
    ensures
        match fallback {
            Ok(asset) => outcome == Ok::<RecordingFinalizeOutcome<A>, String>(RecordingFinalizeOutcome { asset, gif_fallback: true }),
            Err(fallback_error) => outcome matches Err(message) && message@ == both_failed_message(gif_error@, fallback_error@),
        },
{
    match fallback {
        Ok(asset) => Ok(RecordingFinalizeOutcome { asset, gif_fallback: true }),
        Err(fallback_error) => {
            let mut message = String::from_str("GIF finalization failed: ");
            message.append(gif_error.as_str());
            message.append("; MP4 fallback failed: ");
            message.append(fallback_error.as_str());
            Err(message)
        },
    }
}

} // verus!
