use ddb_pipewire::format::{
    create_audio_format_info, db_format_to_pipewire, get_default_waveformat, make_channel_map,
    print_db_format, print_pipewire_format, AudioFormat, ChannelPosition, WaveFormat,
};
use ddb_pipewire::text::decimal_text;

fn fmt(samplerate: u32, bps: u8, channels: u8) -> WaveFormat {
    WaveFormat { samplerate, bps, channels, channelmask: 3, is_float: false, is_bigendian: false }
}

fn expected_map(positions: &[ChannelPosition]) -> [ChannelPosition; 64] {
    let mut map = [ChannelPosition::Unknown; 64];
    for (slot, position) in positions.iter().enumerate() {
        map[slot] = *position;
    }
    map
}

#[test]
fn default_format_is_cd_stereo() {
    let d = get_default_waveformat();
    assert_eq!(d.samplerate, 44100);
    assert_eq!(d.bps, 16);
    assert_eq!(d.channels, 2);
    assert_eq!(d.channelmask, 3);
    assert!(!d.is_float);
    assert!(!d.is_bigendian);
    assert!(d.check_valid());
}

#[test]
fn wave_format_equality_is_structural() {
    let a = fmt(44100, 16, 2);
    assert_eq!(a, fmt(44100, 16, 2));
    assert_ne!(a, fmt(48000, 16, 2));
    assert_ne!(a, fmt(44100, 24, 2));
    assert_ne!(a, fmt(44100, 16, 1));
    assert_ne!(a, WaveFormat { channelmask: 4, ..a });
    assert_ne!(a, WaveFormat { is_float: true, ..a });
    assert_ne!(a, WaveFormat { is_bigendian: true, ..a });
}

#[test]
fn encoding_for_the_four_depths() {
    assert_eq!(db_format_to_pipewire(fmt(44100, 8, 2)), AudioFormat::S8);
    assert_eq!(db_format_to_pipewire(fmt(44100, 16, 2)), AudioFormat::S16LE);
    assert_eq!(db_format_to_pipewire(fmt(44100, 24, 2)), AudioFormat::S24LE);
    assert_eq!(db_format_to_pipewire(fmt(44100, 32, 2)), AudioFormat::S32LE);
    let float = WaveFormat { is_float: true, ..fmt(44100, 32, 2) };
    assert_eq!(db_format_to_pipewire(float), AudioFormat::F32LE);
}

#[test]
fn float_flag_counts_only_at_32_bits() {
    let float16 = WaveFormat { is_float: true, ..fmt(44100, 16, 2) };
    assert_eq!(db_format_to_pipewire(float16), AudioFormat::S16LE);
}

#[test]
fn every_other_depth_is_unknown() {
    for bps in 0..=255u8 {
        let got = db_format_to_pipewire(fmt(44100, bps, 2));
        if bps == 8 || bps == 16 || bps == 24 || bps == 32 {
            assert_ne!(got, AudioFormat::Unknown);
        } else {
            assert_eq!(got, AudioFormat::Unknown);
        }
    }
}

#[test]
fn validity_needs_depth_and_channels() {
    assert!(fmt(44100, 16, 2).check_valid());
    assert!(fmt(44100, 8, 1).check_valid());
    assert!(!fmt(44100, 16, 0).check_valid());
    assert!(!fmt(44100, 12, 2).check_valid());
    assert!(!fmt(44100, 0, 2).check_valid());
}

#[test]
fn stride_is_channels_times_sample_bytes() {
    assert_eq!(fmt(44100, 16, 2).stride(), 4);
    assert_eq!(fmt(44100, 24, 6).stride(), 18);
    assert_eq!(fmt(44100, 8, 1).stride(), 1);
    assert_eq!(fmt(44100, 32, 8).stride(), 32);
    assert_eq!(fmt(44100, 16, 0).stride(), 0);
    assert_eq!(fmt(44100, 7, 2).stride(), 0);
    assert_eq!(fmt(44100, 255, 255).stride(), 255 * 31);
}

#[test]
fn channel_map_of_no_channels_is_unknown() {
    assert_eq!(make_channel_map(0), [ChannelPosition::Unknown; 64]);
}

#[test]
fn channel_map_mono() {
    assert_eq!(make_channel_map(1), expected_map(&[ChannelPosition::Mono]));
}

#[test]
fn channel_map_stereo() {
    assert_eq!(make_channel_map(2), expected_map(&[ChannelPosition::FL, ChannelPosition::FR]));
}

#[test]
fn channel_map_grows_by_the_surround_table() {
    let layout = [
        ChannelPosition::FL,
        ChannelPosition::FR,
        ChannelPosition::FC,
        ChannelPosition::LFE,
        ChannelPosition::RL,
        ChannelPosition::RR,
        ChannelPosition::FLC,
        ChannelPosition::FRC,
        ChannelPosition::RC,
        ChannelPosition::SL,
        ChannelPosition::SR,
        ChannelPosition::TC,
        ChannelPosition::TFL,
        ChannelPosition::TFC,
        ChannelPosition::TFR,
        ChannelPosition::TRL,
        ChannelPosition::TRC,
        ChannelPosition::TRR,
    ];
    let assigned = [
        (2u32, 2usize),
        (3, 3),
        (4, 4),
        (5, 4),
        (6, 6),
        (7, 6),
        (8, 8),
        (9, 9),
        (10, 9),
        (11, 11),
        (12, 12),
        (13, 12),
        (14, 12),
        (15, 15),
        (16, 15),
        (17, 15),
        (18, 18),
        (19, 18),
        (64, 18),
        (1000, 18),
    ];
    for (channels, count) in assigned {
        assert_eq!(make_channel_map(channels), expected_map(&layout[..count]), "{channels}");
    }
}

#[test]
fn channel_map_five_channels_leaves_rear_pair_out() {
    let map = make_channel_map(5);
    assert_eq!(map[3], ChannelPosition::LFE);
    assert_eq!(map[4], ChannelPosition::Unknown);
    assert_eq!(map[5], ChannelPosition::Unknown);
}

#[test]
fn audio_info_carries_format_rate_channels_and_map() {
    let info = create_audio_format_info(AudioFormat::S16LE, 2, 48000);
    assert_eq!(info.format, AudioFormat::S16LE);
    assert_eq!(info.rate, 48000);
    assert_eq!(info.channels, 2);
    assert_eq!(info.position, make_channel_map(2));
}

#[test]
fn db_format_line_text() {
    assert_eq!(print_db_format(fmt(44100, 16, 2)), "db format: 16 bps, 2 channels, 44100 kHz");
    let float = WaveFormat { is_float: true, ..fmt(96000, 32, 6) };
    assert_eq!(print_db_format(float), "db format: 32 bps float, 6 channels, 96000 kHz");
}

#[test]
fn pipewire_format_line_text() {
    assert_eq!(
        print_pipewire_format(AudioFormat::S16LE, 2, 44100),
        "pw format: 16 bps, 2 channels, 44100 kHz"
    );
    assert_eq!(
        print_pipewire_format(AudioFormat::F32LE, 6, 96000),
        "pw format: 32 bps float, 6 channels, 96000 kHz"
    );
    assert_eq!(
        print_pipewire_format(AudioFormat::S8, 1, 8000),
        "pw format: 8 bps, 1 channels, 8000 kHz"
    );
    assert_eq!(
        print_pipewire_format(AudioFormat::S24LE, 2, 0),
        "pw format: 24 bps, 2 channels, 0 kHz"
    );
    assert_eq!(
        print_pipewire_format(AudioFormat::S32LE, 2, 1),
        "pw format: 32 bps, 2 channels, 1 kHz"
    );
    assert_eq!(
        print_pipewire_format(AudioFormat::Unknown, 2, 44100),
        "pw format: unknown bps, 2 channels, 44100 kHz"
    );
}

#[test]
fn decimal_text_matches_display() {
    for n in [0u32, 1, 9, 10, 11, 99, 100, 101, 1000, 44100, 48000, 192000, 4294967295] {
        assert_eq!(decimal_text(n), format!("{}", n));
    }
}
