//! Platform-independent recording policy and option validation.
//! Values define the stable recording/export contract across platforms.

use vstd::prelude::*;

use crate::text::{digit_char, push_char, push_decimal, spec_decimal};

verus! {

/// Container produced by a finished recording.
#[derive(Debug, Clone, Copy, PartialEq, Eq, Structural)]
pub enum RecordingOutputFormat {
    Mp4,
    Gif,
}

impl Default for RecordingOutputFormat {
    fn default() -> (format: Self)
        ensures
            format == RecordingOutputFormat::Mp4,
    {
        RecordingOutputFormat::Mp4
    }
}

/// Options chosen before a recording starts.
#[derive(Debug, Clone, Copy, PartialEq, Eq, Structural)]
pub struct RecordingOptions {
    pub output_format: RecordingOutputFormat,
    pub uses_countdown: bool,
    pub captures_system_audio: bool,
    pub captures_microphone: bool,
    pub shows_cursor: bool,
    pub highlights_clicks: bool,
}

/// The options used when nothing was saved: an MP4 with a countdown and a
/// visible cursor, without audio or click highlights.
pub open spec fn default_recording_options() -> RecordingOptions {
    RecordingOptions {
        output_format: RecordingOutputFormat::Mp4,
        uses_countdown: true,
        captures_system_audio: false,
        captures_microphone: false,
        shows_cursor: true,
        highlights_clicks: false,
    }
}

impl Default for RecordingOptions {
    fn default() -> (options: Self)
        ensures
            options == default_recording_options(),
    {
        RecordingOptions {
            output_format: RecordingOutputFormat::Mp4,
            uses_countdown: true,
            captures_system_audio: false,
            captures_microphone: false,
            shows_cursor: true,
            highlights_clicks: false,
        }
    }
}

/// Options after normalization: a hidden cursor cannot have highlighted clicks.
pub open spec fn normalized_options(options: RecordingOptions) -> RecordingOptions {
    if options.shows_cursor {
        options
    } else {
        RecordingOptions { highlights_clicks: false, ..options }
    }
}

/// The options one capture session uses: the normalized options, with audio
/// off for a GIF, which has no audio track. The saved options keep their
/// audio choices.
pub open spec fn session_options(options: RecordingOptions) -> RecordingOptions {
    let normalized = normalized_options(options);
    if normalized.output_format == RecordingOutputFormat::Gif {
        RecordingOptions { captures_system_audio: false, captures_microphone: false, ..normalized }
    } else {
        normalized
    }
}

impl RecordingOptions {
    /// The options of one capture session started from these saved options.
    pub fn for_session(self) -> (options: Self)
        ensures
            options == session_options(self),
    {
        let mut options = self.normalized();
        if options.output_format == RecordingOutputFormat::Gif {
            options.captures_system_audio = false;
            options.captures_microphone = false;
        }
        options
    }

    /// Disabling the cursor also disables the click highlight; every other
    /// option is kept as it was.
    pub fn normalized(self) -> (normalized: Self)
        ensures
            normalized == normalized_options(self),
    {
        let mut options = self;
        if !options.shows_cursor {
            options.highlights_clicks = false;
        }
        options
    }
}

/// Frame rates, size limits and bit-rate rules shared by every recorder.
pub struct RecordingPolicy;

/// An even encoder dimension of at least two: odd values are floored.
pub open spec fn spec_even_dimension(value: int) -> int {
    let positive = if value < 2 { 2 } else { value };
    if positive % 2 == 0 { positive } else { positive - 1 }
}

/// Eight bits per pixel, clamped to the range of four to forty megabits.
pub open spec fn spec_high_quality_bit_rate(width: int, height: int) -> int {
    let w = if width < 1 { 1 } else { width };
    let h = if height < 1 { 1 } else { height };
    let rate = w * h * 8;
    if rate < 4_000_000 {
        4_000_000
    } else if rate > 40_000_000 {
        40_000_000
    } else {
        rate
    }
}

impl RecordingPolicy {
    pub const FRAMES_PER_SECOND: u32 = 30;
    pub const GIF_FRAMES_PER_SECOND: u32 = 12;
    pub const MAXIMUM_GIF_LONG_EDGE: u32 = 720;

    /// The largest even value not above `value`, and never less than two.
    pub fn even_dimension(value: i64) -> (dimension: i64)
        ensures
            dimension == spec_even_dimension(value as int),
    {
        let positive = if value < 2 { 2 } else { value };
        if positive % 2 == 0 {
            positive
        } else {
            positive - 1
        }
    }

    /// Eight bits per pixel of the (at least one by one) frame, clamped to
    /// `4_000_000..=40_000_000`.
    pub fn high_quality_bit_rate(width: i64, height: i64) -> (rate: i64)
        ensures
            rate == spec_high_quality_bit_rate(width as int, height as int),
    {
        let w = if width < 1 { 1 } else { width };
        let h = if height < 1 { 1 } else { height };
        // Past this width even a one-pixel-high frame exceeds the ceiling.
        if w > 5_000_000 || h > 5_000_000 {
            assert(w * h * 8 > 40_000_000) by (nonlinear_arith)
                requires w >= 1, h >= 1, w > 5_000_000 || h > 5_000_000;
            return 40_000_000;
        }
        assert(w * h <= 25_000_000_000_000) by (nonlinear_arith)
            requires 1 <= w <= 5_000_000, 1 <= h <= 5_000_000;
        let rate = w * h * 8;
        if rate < 4_000_000 {
            4_000_000
        } else if rate > 40_000_000 {
            40_000_000
        } else {
            rate
        }
    }
}

/// `n` written with two digits, for `n < 100`.
pub open spec fn two_digits(n: nat) -> Seq<char> {
    seq![digit_char(n / 10), digit_char(n % 10)]
}

/// The elapsed-time label for a whole number of seconds: `mm:ss` below an
/// hour, `h:mm:ss` from an hour on.
pub open spec fn spec_elapsed_label(total_seconds: nat) -> Seq<char> {
    let hours = total_seconds / 3600;
    let minutes = (total_seconds % 3600) / 60;
    let seconds = total_seconds % 60;
    if hours > 0 {
        spec_decimal(hours) + seq![':'] + two_digits(minutes) + seq![':'] + two_digits(seconds)
    } else {
        two_digits(minutes) + seq![':'] + two_digits(seconds)
    }
}

fn push_two_digits(s: &mut String, n: u64)
    requires
        n < 100,
    ensures
        final(s)@ == old(s)@ + two_digits(n as nat),
{
    let tens = (n / 10) as u8;
    let ones = (n % 10) as u8;
    let first = (48u8 + tens) as char;
    let second = (48u8 + ones) as char;
    assert(first == digit_char((n / 10) as nat));
    assert(second == digit_char((n % 10) as nat));
    push_char(s, first);
    push_char(s, second);
    assert(final(s)@ =~= old(s)@ + two_digits(n as nat));
}

impl RecordingPolicy {
    /// The recording clock's label for `total_seconds` elapsed seconds.
    pub fn elapsed_label_from_seconds(total_seconds: u64) -> (label: String)
        ensures
            label@ == spec_elapsed_label(total_seconds as nat),
    {
        let hours = total_seconds / 3600;
        let minutes = (total_seconds % 3600) / 60;
        let seconds = total_seconds % 60;
        let mut label = String::new();
        if hours > 0 {
            push_decimal(&mut label, hours);
            push_char(&mut label, ':');
        }
        push_two_digits(&mut label, minutes);
        push_char(&mut label, ':');
        push_two_digits(&mut label, seconds);
        proof {
            if hours > 0 {
                assert(label@ =~= spec_elapsed_label(total_seconds as nat));
            } else {
                assert(label@ =~= spec_elapsed_label(total_seconds as nat));
            }
        }
        label
    }
}

/// After normalization no click highlight remains without a visible cursor,
/// the audio, countdown and format choices are kept, and normalizing twice
/// changes nothing more.
pub proof fn lemma_normalized_options(options: RecordingOptions)
    ensures
        normalized_options(options).highlights_clicks ==> normalized_options(options).shows_cursor,
        normalized_options(options).output_format == options.output_format,
        normalized_options(options).uses_countdown == options.uses_countdown,
        normalized_options(options).captures_system_audio == options.captures_system_audio,
        normalized_options(options).captures_microphone == options.captures_microphone,
        normalized_options(options).shows_cursor == options.shows_cursor,
        normalized_options(normalized_options(options)) == normalized_options(options),
{
}

/// Even dimensions are at least two, even, never above the input when the
/// input is at least two, and fixed points of the rounding.
pub proof fn lemma_even_dimension(value: int)
    ensures
        spec_even_dimension(value) >= 2,
        spec_even_dimension(value) % 2 == 0,
        value >= 2 ==> spec_even_dimension(value) <= value && value - spec_even_dimension(value) <= 1,
        spec_even_dimension(spec_even_dimension(value)) == spec_even_dimension(value),
{
}

/// The bit rate always lies between four and forty megabits per second and
/// never decreases when the frame grows.
pub proof fn lemma_high_quality_bit_rate(width: int, height: int, wider: int, taller: int)
    requires
        width <= wider,
        height <= taller,
    ensures
        4_000_000 <= spec_high_quality_bit_rate(width, height) <= 40_000_000,
        spec_high_quality_bit_rate(width, height) <= spec_high_quality_bit_rate(wider, taller),
{
    let w = if width < 1 { 1 } else { width };
    let h = if height < 1 { 1 } else { height };
    let w2 = if wider < 1 { 1 } else { wider };
    let h2 = if taller < 1 { 1 } else { taller };
    assert(w * h * 8 <= w2 * h2 * 8) by (nonlinear_arith)
        requires 1 <= w <= w2, 1 <= h <= h2;
}

} // verus!
