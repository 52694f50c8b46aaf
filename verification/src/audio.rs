//! Audio capture: choosing a device's stream configuration, and rearranging
//! the sample buffers it delivers into the interleaved layout the encoder
//! expects.

use vstd::prelude::*;

verus! {

/// The layout of the samples in a captured audio buffer.
#[derive(Debug, Clone, Copy, PartialEq, Eq, Structural)]
pub struct AudioFormat {
    pub channels: u32,
    pub is_float: bool,
    pub is_non_interleaved: bool,
}

/// Number of whole four-byte frames per channel in a planar buffer of `len`
/// bytes holding `channels` channels.
pub open spec fn planar_frame_count(len: int, channels: int) -> int {
    len / (4 * channels)
}

/// The planar byte that lands at byte `i` of the interleaved buffer: sample
/// `i / 4` there is frame `(i / 4) / channels` of channel `(i / 4) % channels`.
pub open spec fn interleaved_source(i: int, channels: int, frames: int) -> int {
    let sample = i / 4;
    ((sample % channels) * frames + sample / channels) * 4 + i % 4
}

/// The interleaved form of a planar buffer of 32-bit samples: for every frame
/// in turn, one sample of each channel. Bytes past the last whole frame of
/// the planar buffer are dropped.
pub open spec fn spec_deinterleave(planar: Seq<u8>, channels: int) -> Seq<u8> {
    let frames = planar_frame_count(planar.len() as int, channels);
    Seq::new((frames * channels * 4) as nat, |i: int| planar[interleaved_source(i, channels, frames)])
}

proof fn lemma_interleaved_position(frame: int, channel: int, byte: int, channels: int, frames: int)
    requires
        0 <= frame < frames,
        0 <= channel < channels,
        0 <= byte < 4,
    ensures
        interleaved_source((frame * channels + channel) * 4 + byte, channels, frames) == (channel * frames + frame) * 4 + byte,
        (frame * channels + channel) * 4 + byte < frames * channels * 4,
        (channel * frames + frame) * 4 + byte < frames * channels * 4,
{
    let sample = frame * channels + channel;
    let i = sample * 4 + byte;
    vstd::arithmetic::div_mod::lemma_fundamental_div_mod_converse(i, 4, sample, byte);
    vstd::arithmetic::div_mod::lemma_fundamental_div_mod_converse(sample, channels, frame, channel);
    assert(sample < frames * channels) by (nonlinear_arith)
        requires sample == frame * channels + channel, 0 <= frame < frames, 0 <= channel < channels;
    assert(channel * frames + frame < frames * channels) by (nonlinear_arith)
        requires 0 <= frame < frames, 0 <= channel < channels;
}

proof fn lemma_frames_fit(len: int, channels: int)
    requires
        0 <= len,
        0 < channels,
    ensures
        0 <= planar_frame_count(len, channels),
        planar_frame_count(len, channels) * channels * 4 <= len,
{
    let frames = planar_frame_count(len, channels);
    vstd::arithmetic::div_mod::lemma_fundamental_div_mod(len, 4 * channels);
    assert(frames * channels * 4 == (4 * channels) * frames) by (nonlinear_arith);
    assert(0 <= frames) by (nonlinear_arith)
        requires frames == len / (4 * channels), 0 <= len, 0 < channels;
}

/// Rearranges a non-interleaved buffer of 32-bit float samples, one plane per
/// channel, into interleaved frames.
pub fn deinterleave_f32(planar: &[u8], channels: u32, _format: AudioFormat) -> (interleaved: Vec<u8>)
    requires
        channels > 0,
    ensures
        interleaved@ == spec_deinterleave(planar@, channels as int),
{
    let ghost ch = channels as int;
    let ghost len = planar@.len() as int;
    let frames_wide: u64 = (planar.len() as u64) / (4 * (channels as u64));
    proof {
        lemma_frames_fit(len, ch);
    }
    assert(planar_frame_count(len, ch) <= len) by (nonlinear_arith)
        requires
            planar_frame_count(len, ch) * ch * 4 <= len,
            0 <= planar_frame_count(len, ch),
            ch > 0;
    let frames = frames_wide as usize;
    let ghost total = frames * ch * 4;
    let ghost spec = spec_deinterleave(planar@, ch);
    assert(spec.len() == total);
    assert(len <= usize::MAX);
    let mut interleaved: Vec<u8> = Vec::new();
    let mut frame: usize = 0;
    while frame < frames
        invariant
            frames == planar_frame_count(len, ch),
            len == planar@.len(),
            ch == channels as int,
            ch > 0,
            total == frames * ch * 4,
            total <= len,
            len <= usize::MAX,
            spec == spec_deinterleave(planar@, ch),
            spec.len() == total,
            frame <= frames,
            interleaved@ == spec.take(frame * ch * 4),
        decreases frames - frame,
    {
        let mut channel: usize = 0;
        while channel < channels as usize
            invariant
                frames == planar_frame_count(len, ch),
                len == planar@.len(),
                ch == channels as int,
                ch > 0,
                total == frames * ch * 4,
                total <= len,
            len <= usize::MAX,
                spec == spec_deinterleave(planar@, ch),
                spec.len() == total,
                frame < frames,
                channel <= ch,
                interleaved@ == spec.take((frame * ch + channel) * 4),
            decreases ch - channel,
        {
            let mut byte: usize = 0;
            while byte < 4
                invariant
                    frames == planar_frame_count(len, ch),
                    len == planar@.len(),
                    ch == channels as int,
                    total == frames * ch * 4,
                    total <= len,
            len <= usize::MAX,
                    spec == spec_deinterleave(planar@, ch),
                    spec.len() == total,
                    frame < frames,
                    channel < ch,
                    byte <= 4,
                    interleaved@ == spec.take((frame * ch + channel) * 4 + byte),
                decreases 4 - byte,
            {
                proof {
                    lemma_interleaved_position(frame as int, channel as int, byte as int, ch, frames as int);
                }
                let ghost target = (frame * ch + channel) * 4 + byte;
                let offset = (channel * frames + frame) * 4 + byte;
                assert(spec[target] == planar@[offset as int]);
                interleaved.push(planar[offset]);
                assert(interleaved@ =~= spec.take(target + 1));
                byte = byte + 1;
            }
            assert((frame * ch + channel) * 4 + 4 == (frame * ch + (channel + 1)) * 4);
            channel = channel + 1;
        }
        assert((frame * ch + ch) * 4 == (frame + 1) * ch * 4) by (nonlinear_arith);
        frame = frame + 1;
    }
    assert(interleaved@ =~= spec);
    interleaved
}

/// The bytes handed to the encoder for one captured audio buffer: float
/// samples stored one plane per channel are interleaved, anything else is
/// passed on as it came.
pub fn audio_payload(format: AudioFormat, bytes: Vec<u8>) -> (payload: Vec<u8>)
    requires
        format.is_float && format.is_non_interleaved ==> format.channels > 0,
    ensures
        payload@ == if format.is_float && format.is_non_interleaved {
            spec_deinterleave(bytes@, format.channels as int)
        } else {
            bytes@
        },
{
    if format.is_float && format.is_non_interleaved {
        deinterleave_f32(bytes.as_slice(), format.channels, format)
    } else {
        bytes
    }
}

/// Sample encodings an audio device may offer.
#[derive(Debug, Clone, Copy, PartialEq, Eq, Structural)]
pub enum AudioSampleFormat {
    F32,
    I16,
    U16,
    /// Any other encoding, which the encoder cannot take.
    Other,
}

/// Whether the encoder accepts samples in `format`.
pub open spec fn spec_supported_sample_format(format: AudioSampleFormat) -> bool {
    format != AudioSampleFormat::Other
}

/// Whether the encoder accepts samples in `format`.
pub fn supported_sample_format(format: AudioSampleFormat) -> (supported: bool)
    ensures
        supported == spec_supported_sample_format(format),
{
    match format {
        AudioSampleFormat::Other => false,
        _ => true,
    }
}

/// One stream configuration of an audio device.
#[derive(Debug, Clone, Copy, PartialEq, Eq, Structural)]
pub struct AudioStreamConfig {
    pub channels: u16,
    pub format: AudioSampleFormat,
    pub sample_rate: u32,
}

/// A family of configurations a device supports: one channel count and
/// encoding over a range of sample rates.
#[derive(Debug, Clone, Copy, PartialEq, Eq, Structural)]
pub struct AudioConfigRange {
    pub channels: u16,
    pub format: AudioSampleFormat,
    pub min_sample_rate: u32,
    pub max_sample_rate: u32,
}

/// The preference key of a configuration, smaller first: stereo, then mono,
/// then more channels; float, then signed, then unsigned 16-bit samples; and
/// the sample rate closest to 48 kHz.
pub open spec fn spec_audio_config_rank(config: AudioStreamConfig) -> (u8, u8, u32) {
    let channels: u8 = if config.channels == 2 {
        0
    } else if config.channels == 1 {
        1
    } else if config.channels >= 253 {
        255
    } else {
        (config.channels + 2) as u8
    };
    let format: u8 = match config.format {
        AudioSampleFormat::F32 => 0,
        AudioSampleFormat::I16 => 1,
        AudioSampleFormat::U16 => 2,
        AudioSampleFormat::Other => 255,
    };
    let distance: u32 = if config.sample_rate >= 48_000 {
        (config.sample_rate - 48_000) as u32
    } else {
        (48_000 - config.sample_rate) as u32
    };
    (channels, format, distance)
}

/// The preference key of `config`.
pub fn audio_config_rank(config: &AudioStreamConfig) -> (rank: (u8, u8, u32))
    ensures
        rank == spec_audio_config_rank(*config),
{
    let channels: u8 = if config.channels == 2 {
        0
    } else if config.channels == 1 {
        1
    } else if config.channels >= 253 {
        255
    } else {
        (config.channels + 2) as u8
    };
    let format: u8 = match config.format {
        AudioSampleFormat::F32 => 0,
        AudioSampleFormat::I16 => 1,
        AudioSampleFormat::U16 => 2,
        AudioSampleFormat::Other => 255,
    };
    let distance: u32 = if config.sample_rate >= 48_000 {
        config.sample_rate - 48_000
    } else {
        48_000 - config.sample_rate
    };
    (channels, format, distance)
}

/// Lexicographic order of preference keys.
pub open spec fn rank_before(a: (u8, u8, u32), b: (u8, u8, u32)) -> bool {
    a.0 < b.0 || (a.0 == b.0 && (a.1 < b.1 || (a.1 == b.1 && a.2 < b.2)))
}

fn is_rank_before(a: (u8, u8, u32), b: (u8, u8, u32)) -> (before: bool)
    ensures
        before == rank_before(a, b),
{
    a.0 < b.0 || (a.0 == b.0 && (a.1 < b.1 || (a.1 == b.1 && a.2 < b.2)))
}

/// The configuration tried from `range`: 48 kHz clamped into its rates.
pub open spec fn range_candidate(range: AudioConfigRange) -> AudioStreamConfig {
    AudioStreamConfig {
        channels: range.channels,
        format: range.format,
        sample_rate: if 48_000 < range.min_sample_rate {
            range.min_sample_rate
        } else if 48_000 > range.max_sample_rate {
            range.max_sample_rate
        } else {
            48_000
        },
    }
}

/// Whether range `i` offers a usable encoding.
pub open spec fn usable_range(ranges: Seq<AudioConfigRange>, i: int) -> bool {
    0 <= i < ranges.len() && spec_supported_sample_format(ranges[i].format)
}

/// Whether `config` is the candidate of usable range `i`, no usable range
/// ranks before it, and every earlier usable range ranks after it.
pub open spec fn is_preferred_choice(ranges: Seq<AudioConfigRange>, i: int, config: AudioStreamConfig) -> bool {
    &&& usable_range(ranges, i)
    &&& config == range_candidate(ranges[i])
    &&& forall|j: int| #[trigger] usable_range(ranges, j)
        ==> !rank_before(spec_audio_config_rank(range_candidate(ranges[j])), spec_audio_config_rank(config))
    &&& forall|j: int| 0 <= j < i && #[trigger] usable_range(ranges, j)
        ==> rank_before(spec_audio_config_rank(config), spec_audio_config_rank(range_candidate(ranges[j])))
}

/// The device configuration to record with: among the ranges with a usable
/// encoding, the first whose candidate ranks best; none when no range is
/// usable.
pub fn preferred_audio_config(ranges: &Vec<AudioConfigRange>) -> (choice: Option<AudioStreamConfig>)
    requires
        forall|i: int| 0 <= i < ranges@.len() ==> (#[trigger] ranges@[i]).min_sample_rate <= ranges@[i].max_sample_rate,
    ensures
        match choice {
            Some(config) => exists|i: int| is_preferred_choice(ranges@, i, config),
            None => forall|i: int| !usable_range(ranges@, i),
        },
{
    let mut best: Option<AudioStreamConfig> = None;
    let ghost mut best_index: int = -1;
    let mut i: usize = 0;
    while i < ranges.len()
        invariant
            i <= ranges@.len(),
            best is None ==> forall|j: int| 0 <= j < i ==> !usable_range(ranges@, j),
            best is Some ==> 0 <= best_index < i && usable_range(ranges@, best_index)
                && best->0 == range_candidate(ranges@[best_index]),
            best is Some ==> forall|j: int| 0 <= j < i && #[trigger] usable_range(ranges@, j)
                ==> !rank_before(spec_audio_config_rank(range_candidate(ranges@[j])), spec_audio_config_rank(best->0)),
            best is Some ==> forall|j: int| 0 <= j < best_index && #[trigger] usable_range(ranges@, j)
                ==> rank_before(spec_audio_config_rank(best->0), spec_audio_config_rank(range_candidate(ranges@[j]))),
        decreases ranges@.len() - i,
    {
        let range = ranges[i];
        if supported_sample_format(range.format) {
            let sample_rate = if 48_000 < range.min_sample_rate {
                range.min_sample_rate
            } else if 48_000 > range.max_sample_rate {
                range.max_sample_rate
            } else {
                48_000
            };
            let candidate = AudioStreamConfig { channels: range.channels, format: range.format, sample_rate };
            assert(candidate == range_candidate(ranges@[i as int]));
            let rank = audio_config_rank(&candidate);
            match best {
                None => {
                    best = Some(candidate);
                    proof {
                        best_index = i as int;
                    }
                },
                Some(current) => {
                    let current_rank = audio_config_rank(&current);
                    if is_rank_before(rank, current_rank) {
                        best = Some(candidate);
                        proof {
                            best_index = i as int;
                        }
                    }
                },
            }
        }
        i = i + 1;
    }
    match best {
        Some(config) => {
            assert(is_preferred_choice(ranges@, best_index, config));
        },
        None => {
            assert forall|j: int| !usable_range(ranges@, j) by {}
        },
    }
    best
}

} // verus!
