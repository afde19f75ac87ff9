use ddb_pipewire::format::WaveFormat;
use ddb_pipewire::pull::{finish_pull, plan_pull, Chunk, PullPlan};

fn stereo16(samplerate: u32) -> WaveFormat {
    WaveFormat {
        samplerate,
        bps: 16,
        channels: 2,
        channelmask: 3,
        is_float: false,
        is_bigendian: false,
    }
}

#[test]
fn plan_follows_the_requested_frames() {
    let plan = plan_pull(stereo16(44100), 256, 8192);
    assert_eq!(plan, PullPlan { len: 1024, stride: 4 });
}

#[test]
fn plan_caps_the_request_at_whole_frames_of_the_buffer() {
    let plan = plan_pull(stereo16(44100), 4096, 8190);
    assert_eq!(plan, PullPlan { len: 8188, stride: 4 });
}

#[test]
fn plan_falls_back_to_25_milliseconds() {
    // 25 ms at 44100 Hz are 1102 frames of 4 bytes.
    let plan = plan_pull(stereo16(44100), 0, 65536);
    assert_eq!(plan, PullPlan { len: 4408, stride: 4 });
    let plan = plan_pull(stereo16(48000), 0, 65536);
    assert_eq!(plan, PullPlan { len: 4800, stride: 4 });
}

#[test]
fn plan_fallback_is_capped_by_the_buffer() {
    let plan = plan_pull(stereo16(44100), 0, 4096);
    assert_eq!(plan, PullPlan { len: 4096, stride: 4 });
    let plan = plan_pull(stereo16(44100), 0, 3);
    assert_eq!(plan, PullPlan { len: 0, stride: 4 });
}

#[test]
fn plan_for_a_format_without_frame_bytes_is_empty() {
    let broken = WaveFormat { channels: 0, ..stereo16(44100) };
    assert_eq!(plan_pull(broken, 256, 8192), PullPlan { len: 0, stride: 0 });
    let broken = WaveFormat { bps: 4, ..stereo16(44100) };
    assert_eq!(plan_pull(broken, 0, 8192), PullPlan { len: 0, stride: 0 });
}

#[test]
fn plan_survives_the_largest_inputs() {
    let big = WaveFormat { samplerate: u32::MAX, bps: 255, channels: 255, ..stereo16(0) };
    let plan = plan_pull(big, u64::MAX, u32::MAX);
    assert_eq!(plan.stride, 255 * 31);
    assert_eq!(plan.len, (u32::MAX / (255 * 31)) * (255 * 31));
    let plan = plan_pull(big, 0, u32::MAX);
    assert_eq!(plan.len as u64, (25 * (u32::MAX as u64) / 1000).min((u32::MAX / 7905) as u64) * 7905);
}

#[test]
fn bytes_to_read_depends_on_the_hosts_answer() {
    let plan = PullPlan { len: 1024, stride: 4 };
    assert_eq!(plan.bytes_to_read(1), 1024);
    assert_eq!(plan.bytes_to_read(i32::MAX), 1024);
    assert_eq!(plan.bytes_to_read(0), 0);
    assert_eq!(plan.bytes_to_read(-1), 0);
}

#[test]
fn full_delivery_keeps_the_hosts_bytes() {
    let mut data = vec![7u8; 16];
    let chunk = finish_pull(PullPlan { len: 8, stride: 4 }, &mut data, 8);
    assert_eq!(chunk, Chunk { size: 8, offset: 0, stride: 4 });
    assert_eq!(data, vec![7u8; 16]);
}

#[test]
fn underrun_is_filled_with_silence() {
    let mut data: Vec<u8> = (1..=16).collect();
    let chunk = finish_pull(PullPlan { len: 12, stride: 4 }, &mut data, 5);
    assert_eq!(chunk, Chunk { size: 12, offset: 0, stride: 4 });
    assert_eq!(data, vec![1, 2, 3, 4, 5, 0, 0, 0, 0, 0, 0, 0, 13, 14, 15, 16]);
}

#[test]
fn nothing_supplied_is_all_silence() {
    let mut data = vec![9u8; 8];
    let chunk = finish_pull(PullPlan { len: 8, stride: 2 }, &mut data, 0);
    assert_eq!(chunk, Chunk { size: 8, offset: 0, stride: 2 });
    assert_eq!(data, vec![0u8; 8]);
}

#[test]
fn negative_supply_counts_as_none() {
    let mut data = vec![9u8; 6];
    let chunk = finish_pull(PullPlan { len: 4, stride: 2 }, &mut data, -1);
    assert_eq!(chunk, Chunk { size: 4, offset: 0, stride: 2 });
    assert_eq!(data, vec![0, 0, 0, 0, 9, 9]);
}

#[test]
fn supply_beyond_the_plan_is_cut_to_the_plan() {
    let mut data = vec![9u8; 6];
    let chunk = finish_pull(PullPlan { len: 4, stride: 2 }, &mut data, 100);
    assert_eq!(chunk, Chunk { size: 4, offset: 0, stride: 2 });
    assert_eq!(data, vec![9u8; 6]);
}

#[test]
fn plan_longer_than_the_buffer_delivers_the_buffer() {
    let mut data = vec![9u8; 4];
    let chunk = finish_pull(PullPlan { len: 8, stride: 2 }, &mut data, 1);
    assert_eq!(chunk, Chunk { size: 4, offset: 0, stride: 2 });
    assert_eq!(data, vec![9, 0, 0, 0]);
}

#[test]
fn empty_plan_touches_nothing() {
    let mut data = vec![9u8; 4];
    let chunk = finish_pull(PullPlan { len: 0, stride: 4 }, &mut data, 3);
    assert_eq!(chunk, Chunk { size: 0, offset: 0, stride: 4 });
    assert_eq!(data, vec![9u8; 4]);
}

#[test]
fn pull_property_for_all_small_lengths() {
    for len in 0..=12u32 {
        for avail in 0..=14i32 {
            let mut data: Vec<u8> = (1..=12).collect();
            let chunk = finish_pull(PullPlan { len, stride: 1 }, &mut data, avail);
            let real = (len as usize).min(avail as usize);
            assert_eq!(chunk, Chunk { size: len, offset: 0, stride: 1 });
            for (i, byte) in data.iter().enumerate() {
                if i < real || i >= len as usize {
                    assert_eq!(*byte, i as u8 + 1);
                } else {
                    assert_eq!(*byte, 0);
                }
            }
        }
    }
}
