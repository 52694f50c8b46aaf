//! Waiting for a frozen display capture that a worker thread produces: the
//! first native frame must arrive in time, post-processing may take longer.

use std::sync::mpsc::Receiver;
use std::time::Duration;
use vstd::prelude::*;

use crate::text::{push_decimal, spec_decimal};

verus! {

#[verifier::external_type_specification]
#[verifier::external_body]
pub struct ExAnyhowError(anyhow::Error);

#[verifier::external_type_specification]
#[verifier::external_body]
#[verifier::reject_recursive_types(T)]
pub struct ExReceiver<T>(Receiver<T>);

/// Progress reports of the capture worker.
pub enum FrozenCaptureMessage<T> {
    /// The operating system returned the frame; post-processing has started.
    NativeFrameReady,
    /// The worker finished, successfully or not.
    Finished(Result<T, anyhow::Error>),
}

/// What one wait on the worker's channel produced; a timeout carries the
/// deadline, in milliseconds, that the wait was given.
pub enum WaitEvent<T> {
    Received(T),
    TimedOut { after_ms: u64 },
    Disconnected,
}

/// Why waiting for a frozen capture failed.
#[derive(Debug)]
pub enum CaptureWaitError {
    /// No frame arrived within the given number of seconds.
    NoFirstFrame(u64),
    /// The worker went away without a result.
    WorkerStopped,
    /// The worker reported its first frame twice.
    RepeatedFirstFrame,
    /// The worker's own failure.
    Worker(anyhow::Error),
}

/// `Receiver::recv_timeout` for `timeout_ms` milliseconds, its outcome
/// mapped one for one.
#[verifier::external_body]
fn receive_within<T>(receiver: &Receiver<T>, timeout_ms: u64) -> (event: WaitEvent<T>)
    ensures
        event matches WaitEvent::TimedOut { after_ms } ==> after_ms == timeout_ms,
{
    match receiver.recv_timeout(Duration::from_millis(timeout_ms)) {
        Ok(value) => WaitEvent::Received(value),
        Err(std::sync::mpsc::RecvTimeoutError::Timeout) => WaitEvent::TimedOut { after_ms: timeout_ms },
        Err(std::sync::mpsc::RecvTimeoutError::Disconnected) => WaitEvent::Disconnected,
    }
}

/// `Receiver::recv`, which blocks until a message or disconnection and so
/// never times out.
#[verifier::external_body]
fn receive_blocking<T>(receiver: &Receiver<T>) -> (event: WaitEvent<T>)
    ensures
        !(event is TimedOut),
{
    match receiver.recv() {
        Ok(value) => WaitEvent::Received(value),
        Err(_) => WaitEvent::Disconnected,
    }
}

/// `Display` of an `anyhow::Error`.
#[verifier::external_body]
fn worker_error_message(error: &anyhow::Error) -> String {
    format!("{error}")
}

/// How far the wait has come.
#[derive(Debug, Clone, Copy, PartialEq, Eq, Structural)]
pub enum FrozenWaitStage {
    /// Waiting, with a deadline, for the native frame.
    FirstFrame,
    /// Waiting, up to the slow-post-processing warning, for the result.
    PostProcessing,
    /// Past the warning: waiting without a deadline for the result.
    Draining,
}

/// What to do after one event.
pub enum FrozenWaitStep<T> {
    Done(Result<T, CaptureWaitError>),
    Wait(FrozenWaitStage),
}

/// Whole seconds in `ms` milliseconds.
pub open spec fn whole_seconds(ms: u64) -> u64 {
    ms / 1000
}

/// How long the wait at `stage` may take, in milliseconds: the native-frame
/// deadline first, then the slow-post-processing warning; no deadline after it.
pub open spec fn spec_frozen_wait_timeout(stage: FrozenWaitStage, native_frame_timeout_ms: u64, postprocess_slow_warning_ms: u64) -> Option<u64> {
    match stage {
        FrozenWaitStage::FirstFrame => Some(native_frame_timeout_ms),
        FrozenWaitStage::PostProcessing => Some(postprocess_slow_warning_ms),
        FrozenWaitStage::Draining => None,
    }
}

/// The deadline of the wait at `stage`, in milliseconds; none for a wait
/// without one.
pub fn frozen_wait_timeout(stage: FrozenWaitStage, native_frame_timeout_ms: u64, postprocess_slow_warning_ms: u64) -> (timeout: Option<u64>)
    ensures
        timeout == spec_frozen_wait_timeout(stage, native_frame_timeout_ms, postprocess_slow_warning_ms),
{
    match stage {
        FrozenWaitStage::FirstFrame => Some(native_frame_timeout_ms),
        FrozenWaitStage::PostProcessing => Some(postprocess_slow_warning_ms),
        FrozenWaitStage::Draining => None,
    }
}

/// Whether `event`, observed at `stage`, kept the stage's deadline: a
/// timeout happens only after exactly that deadline, never in a wait without
/// one.
pub open spec fn kept_deadline<T>(
    event: WaitEvent<T>,
    stage: FrozenWaitStage,
    native_frame_timeout_ms: u64,
    postprocess_slow_warning_ms: u64,
) -> bool {
    event matches WaitEvent::TimedOut { after_ms } ==> spec_frozen_wait_timeout(stage, native_frame_timeout_ms, postprocess_slow_warning_ms)
        == Some(after_ms)
}

/// Waits once at `stage`: with the stage's deadline, or without one.
fn wait_at<T>(receiver: &Receiver<T>, stage: FrozenWaitStage, native_frame_timeout_ms: u64, postprocess_slow_warning_ms: u64) -> (event: WaitEvent<T>)
    ensures
        kept_deadline(event, stage, native_frame_timeout_ms, postprocess_slow_warning_ms),
{
    match frozen_wait_timeout(stage, native_frame_timeout_ms, postprocess_slow_warning_ms) {
        Some(timeout_ms) => receive_within(receiver, timeout_ms),
        None => receive_blocking(receiver),
    }
}

/// The caller's result for the worker's final message.
pub open spec fn finished_result<T>(result: Result<T, anyhow::Error>) -> Result<T, CaptureWaitError> {
    match result {
        Ok(value) => Ok(value),
        Err(error) => Err(CaptureWaitError::Worker(error)),
    }
}

/// The decision for `event` in `stage`; `first_frame_seconds` is the deadline
/// reported when no frame arrives.
pub open spec fn spec_frozen_step<T>(
    stage: FrozenWaitStage,
    event: WaitEvent<FrozenCaptureMessage<T>>,
    first_frame_seconds: u64,
) -> FrozenWaitStep<T> {
    match event {
        WaitEvent::Received(FrozenCaptureMessage::Finished(result)) => FrozenWaitStep::Done(finished_result(result)),
        WaitEvent::Received(FrozenCaptureMessage::NativeFrameReady) => match stage {
            FrozenWaitStage::FirstFrame => FrozenWaitStep::Wait(FrozenWaitStage::PostProcessing),
            _ => FrozenWaitStep::Done(Err(CaptureWaitError::RepeatedFirstFrame)),
        },
        WaitEvent::TimedOut { .. } => match stage {
            FrozenWaitStage::FirstFrame => FrozenWaitStep::Done(Err(CaptureWaitError::NoFirstFrame(first_frame_seconds))),
            FrozenWaitStage::PostProcessing => FrozenWaitStep::Wait(FrozenWaitStage::Draining),
            FrozenWaitStage::Draining => FrozenWaitStep::Done(Err(CaptureWaitError::WorkerStopped)),
        },
        WaitEvent::Disconnected => FrozenWaitStep::Done(Err(CaptureWaitError::WorkerStopped)),
    }
}

/// The outcome of the whole wait for the events the three waits produced.
pub open spec fn spec_frozen_run<T>(
    first: WaitEvent<FrozenCaptureMessage<T>>,
    second: WaitEvent<FrozenCaptureMessage<T>>,
    third: WaitEvent<FrozenCaptureMessage<T>>,
    first_frame_seconds: u64,
) -> Result<T, CaptureWaitError> {
    match spec_frozen_step(FrozenWaitStage::FirstFrame, first, first_frame_seconds) {
        FrozenWaitStep::Done(result) => result,
        FrozenWaitStep::Wait(stage) => match spec_frozen_step(stage, second, first_frame_seconds) {
            FrozenWaitStep::Done(result) => result,
            FrozenWaitStep::Wait(stage) => match spec_frozen_step(stage, third, first_frame_seconds) {
                FrozenWaitStep::Done(result) => result,
                FrozenWaitStep::Wait(_) => Err(CaptureWaitError::WorkerStopped),
            },
        },
    }
}

/// Decides what one event means at `stage`.
pub fn frozen_capture_step<T>(
    stage: FrozenWaitStage,
    event: WaitEvent<FrozenCaptureMessage<T>>,
    first_frame_seconds: u64,
) -> (step: FrozenWaitStep<T>)
    ensures
        step == spec_frozen_step(stage, event, first_frame_seconds),
{
    match event {
        WaitEvent::Received(FrozenCaptureMessage::Finished(result)) => match result {
            Ok(value) => FrozenWaitStep::Done(Ok(value)),
            Err(error) => FrozenWaitStep::Done(Err(CaptureWaitError::Worker(error))),
        },
        WaitEvent::Received(FrozenCaptureMessage::NativeFrameReady) => match stage {
            FrozenWaitStage::FirstFrame => FrozenWaitStep::Wait(FrozenWaitStage::PostProcessing),
            _ => FrozenWaitStep::Done(Err(CaptureWaitError::RepeatedFirstFrame)),
        },
        WaitEvent::TimedOut { .. } => match stage {
            FrozenWaitStage::FirstFrame => FrozenWaitStep::Done(Err(CaptureWaitError::NoFirstFrame(first_frame_seconds))),
            FrozenWaitStage::PostProcessing => FrozenWaitStep::Wait(FrozenWaitStage::Draining),
            FrozenWaitStage::Draining => FrozenWaitStep::Done(Err(CaptureWaitError::WorkerStopped)),
        },
        WaitEvent::Disconnected => FrozenWaitStep::Done(Err(CaptureWaitError::WorkerStopped)),
    }
}

/// Waits for the worker: the native frame must arrive within
/// `native_frame_timeout_ms` milliseconds; after it, the result is awaited for
/// `postprocess_slow_warning_ms` and then without a deadline (each wait's
/// deadline is `frozen_wait_timeout` of its stage). The outcome is the one
/// that `spec_frozen_run` gives for the events the waits observed, each of
/// which kept its stage's deadline (so the last never times out), with the
/// native deadline reported in whole seconds.
pub fn receive_frozen_capture<T>(
    receiver: Receiver<FrozenCaptureMessage<T>>,
    native_frame_timeout_ms: u64,
    postprocess_slow_warning_ms: u64,
) -> (result: Result<T, CaptureWaitError>)
    ensures
        exists|first: WaitEvent<FrozenCaptureMessage<T>>, second: WaitEvent<FrozenCaptureMessage<T>>, third: WaitEvent<FrozenCaptureMessage<T>>|
            kept_deadline(first, FrozenWaitStage::FirstFrame, native_frame_timeout_ms, postprocess_slow_warning_ms)
                && kept_deadline(second, FrozenWaitStage::PostProcessing, native_frame_timeout_ms, postprocess_slow_warning_ms)
                && kept_deadline(third, FrozenWaitStage::Draining, native_frame_timeout_ms, postprocess_slow_warning_ms)
                && result == #[trigger] spec_frozen_run(first, second, third, whole_seconds(native_frame_timeout_ms)),
{
    let seconds = native_frame_timeout_ms / 1000;
    assert(seconds == whole_seconds(native_frame_timeout_ms));
    let first = wait_at(&receiver, FrozenWaitStage::FirstFrame, native_frame_timeout_ms, postprocess_slow_warning_ms);
    let ghost first_event = first;
    match frozen_capture_step(FrozenWaitStage::FirstFrame, first, seconds) {
        FrozenWaitStep::Done(result) => {
            assert(spec_frozen_run(first_event, WaitEvent::Disconnected, WaitEvent::Disconnected, seconds) == result);
            result
        },
        FrozenWaitStep::Wait(stage) => {
            let second = wait_at(&receiver, stage, native_frame_timeout_ms, postprocess_slow_warning_ms);
            let ghost second_event = second;
            match frozen_capture_step(stage, second, seconds) {
                FrozenWaitStep::Done(result) => {
                    assert(spec_frozen_run(first_event, second_event, WaitEvent::Disconnected, seconds) == result);
                    result
                },
                FrozenWaitStep::Wait(stage) => {
                    let third = wait_at(&receiver, stage, native_frame_timeout_ms, postprocess_slow_warning_ms);
                    let ghost third_event = third;
                    match frozen_capture_step(stage, third, seconds) {
                        FrozenWaitStep::Done(result) => {
                            assert(spec_frozen_run(first_event, second_event, third_event, seconds) == result);
                            result
                        },
                        FrozenWaitStep::Wait(_) => {
                            assert(spec_frozen_run(first_event, second_event, third_event, seconds) == Err::<T, CaptureWaitError>(CaptureWaitError::WorkerStopped));
                            Err(CaptureWaitError::WorkerStopped)
                        },
                    }
                },
            }
        },
    }
}

impl CaptureWaitError {
    /// The message shown for this failure.
    pub fn to_string(&self) -> (message: String)
        ensures
            self matches CaptureWaitError::NoFirstFrame(seconds) ==> message@
                == "Windows screen capture did not return a frame within "@ + spec_decimal(seconds as nat)
                + " seconds. Restart Kiri if capture remains unavailable."@,
            self is WorkerStopped ==> message@ == "The Windows screen capture worker stopped unexpectedly."@,
            self is RepeatedFirstFrame ==> message@
                == "The Windows screen capture worker reported its first frame more than once."@,
    {
        match self {
            CaptureWaitError::NoFirstFrame(seconds) => {
                let mut message = String::from_str("Windows screen capture did not return a frame within ");
                push_decimal(&mut message, *seconds);
                message.append(" seconds. Restart Kiri if capture remains unavailable.");
                message
            },
            CaptureWaitError::WorkerStopped => String::from_str("The Windows screen capture worker stopped unexpectedly."),
            CaptureWaitError::RepeatedFirstFrame => String::from_str(
                "The Windows screen capture worker reported its first frame more than once.",
            ),
            CaptureWaitError::Worker(error) => worker_error_message(error),
        }
    }
}

} // verus!
