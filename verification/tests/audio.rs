use kiri::audio::{audio_payload, deinterleave_f32, AudioFormat};

const PLANAR: AudioFormat = AudioFormat {
    channels: 2,
    is_float: true,
    is_non_interleaved: true,
};

#[test]
fn planar_stereo_samples_are_interleaved_frame_by_frame() {
    // Left plane: samples L0 L1; right plane: samples R0 R1.
    let planar = [
        1, 1, 1, 1, 2, 2, 2, 2, // left
        3, 3, 3, 3, 4, 4, 4, 4, // right
    ];
    let interleaved = deinterleave_f32(&planar, 2, PLANAR);
    assert_eq!(
        interleaved,
        [1, 1, 1, 1, 3, 3, 3, 3, 2, 2, 2, 2, 4, 4, 4, 4]
    );
}

#[test]
fn partial_frames_are_dropped() {
    let planar = [1, 2, 3, 4, 5, 6, 7, 8, 9, 10];
    assert_eq!(deinterleave_f32(&planar, 2, PLANAR), [1, 2, 3, 4, 5, 6, 7, 8]);
    assert!(deinterleave_f32(&planar[..7], 2, PLANAR).is_empty());
}

#[test]
fn a_single_channel_is_unchanged() {
    let planar = [9, 8, 7, 6, 5, 4, 3, 2];
    assert_eq!(deinterleave_f32(&planar, 1, PLANAR), planar);
}

#[test]
fn three_channels_keep_channel_order_inside_each_frame() {
    let mut planar = Vec::new();
    for channel in 0..3u8 {
        for frame in 0..2u8 {
            planar.extend_from_slice(&[channel * 10 + frame; 4]);
        }
    }
    let interleaved = deinterleave_f32(&planar, 3, PLANAR);
    let samples: Vec<u8> = interleaved.chunks(4).map(|sample| sample[0]).collect();
    assert_eq!(samples, [0, 10, 20, 1, 11, 21]);
}

#[test]
fn only_planar_float_buffers_are_rearranged() {
    let bytes = vec![1, 1, 1, 1, 2, 2, 2, 2, 3, 3, 3, 3, 4, 4, 4, 4];
    assert_eq!(
        audio_payload(PLANAR, bytes.clone()),
        [1, 1, 1, 1, 3, 3, 3, 3, 2, 2, 2, 2, 4, 4, 4, 4]
    );
    let interleaved = AudioFormat {
        is_non_interleaved: false,
        ..PLANAR
    };
    assert_eq!(audio_payload(interleaved, bytes.clone()), bytes);
    let integer = AudioFormat {
        is_float: false,
        ..PLANAR
    };
    assert_eq!(audio_payload(integer, bytes.clone()), bytes);
}

use kiri::audio::{
    audio_config_rank, preferred_audio_config, supported_sample_format, AudioConfigRange,
    AudioSampleFormat, AudioStreamConfig,
};

fn config(channels: u16, format: AudioSampleFormat, sample_rate: u32) -> AudioStreamConfig {
    AudioStreamConfig {
        channels,
        format,
        sample_rate,
    }
}

#[test]
fn audio_config_rank_prefers_stereo_float_at_48khz() {
    let ideal = config(2, AudioSampleFormat::F32, 48_000);
    let mono = config(1, AudioSampleFormat::F32, 48_000);
    let integer = config(2, AudioSampleFormat::I16, 48_000);
    let wrong_rate = config(2, AudioSampleFormat::F32, 44_100);

    assert!(audio_config_rank(&ideal) < audio_config_rank(&mono));
    assert!(audio_config_rank(&ideal) < audio_config_rank(&integer));
    assert!(audio_config_rank(&ideal) < audio_config_rank(&wrong_rate));
}

#[test]
fn audio_config_rank_values() {
    assert_eq!(audio_config_rank(&config(2, AudioSampleFormat::F32, 48_000)), (0, 0, 0));
    assert_eq!(audio_config_rank(&config(6, AudioSampleFormat::U16, 96_000)), (8, 2, 48_000));
    assert_eq!(audio_config_rank(&config(0, AudioSampleFormat::Other, 0)), (2, 255, 48_000));
    assert_eq!(audio_config_rank(&config(400, AudioSampleFormat::I16, 44_100)), (255, 1, 3_900));
    assert!(supported_sample_format(AudioSampleFormat::U16));
    assert!(!supported_sample_format(AudioSampleFormat::Other));
}

fn range(channels: u16, format: AudioSampleFormat, min: u32, max: u32) -> AudioConfigRange {
    AudioConfigRange {
        channels,
        format,
        min_sample_rate: min,
        max_sample_rate: max,
    }
}

#[test]
fn preferred_config_clamps_48khz_into_each_range_and_takes_the_best() {
    let ranges = vec![
        range(1, AudioSampleFormat::F32, 8_000, 192_000),
        range(2, AudioSampleFormat::Other, 48_000, 48_000),
        range(2, AudioSampleFormat::I16, 96_000, 192_000),
        range(2, AudioSampleFormat::I16, 8_000, 44_100),
    ];
    assert_eq!(
        preferred_audio_config(&ranges),
        Some(config(2, AudioSampleFormat::I16, 44_100))
    );
}

#[test]
fn preferred_config_keeps_the_first_of_equal_ranks() {
    let ranges = vec![
        range(2, AudioSampleFormat::F32, 44_100, 44_100),
        range(2, AudioSampleFormat::F32, 52_000, 52_000),
    ];
    assert_eq!(
        preferred_audio_config(&ranges),
        Some(config(2, AudioSampleFormat::F32, 44_100))
    );
}

#[test]
fn no_usable_range_gives_no_config() {
    assert_eq!(preferred_audio_config(&Vec::new()), None);
    let ranges = vec![range(2, AudioSampleFormat::Other, 48_000, 48_000)];
    assert_eq!(preferred_audio_config(&ranges), None);
}
