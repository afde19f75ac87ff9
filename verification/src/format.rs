//! PCM wave formats, and what the audio server is told about them: the
//! sample encoding and the position of every channel.

use crate::text::{decimal, decimal_text};
use vstd::prelude::*;
use vstd::string::*;

verus! {

/// Layout of a PCM stream. Equality is structural on all fields.
#[derive(Clone, Copy, Debug, PartialEq, Eq, Structural)]
pub struct WaveFormat {
    pub samplerate: u32,
    pub bps: u8,
    pub channels: u8,
    pub channelmask: u32,
    pub is_float: bool,
    pub is_bigendian: bool,
}

impl WaveFormat {
    /// A format the output can play: a supported bit depth and at least one channel.
    pub open spec fn is_valid(self) -> bool {
        &&& self.bps == 8 || self.bps == 16 || self.bps == 24 || self.bps == 32
        &&& self.channels >= 1
    }

    /// Bytes per frame: one sample for every channel.
    pub open spec fn spec_stride(self) -> nat {
        (self.channels as nat) * ((self.bps / 8) as nat)
    }

    /// Bytes per frame: one sample for every channel.
    pub fn stride(self) -> (stride: u32)
        ensures
            stride == self.spec_stride(),
            stride <= 255 * 31,
            self.is_valid() ==> stride >= 1,
    {
        let channels: u32 = self.channels as u32;
        let sample: u32 = (self.bps / 8) as u32;
        assert(channels * sample <= 255 * 31) by (nonlinear_arith)
            requires
                channels <= 255,
                sample <= 31,
        ;
        assert(self.is_valid() ==> channels * sample >= 1) by (nonlinear_arith)
            requires
                self.is_valid() ==> channels >= 1 && sample >= 1,
        ;
        channels * sample
    }

    /// Executable form of [`WaveFormat::is_valid`].
    pub fn check_valid(self) -> (valid: bool)
        ensures
            valid == self.is_valid(),
    {
        (self.bps == 8 || self.bps == 16 || self.bps == 24 || self.bps == 32) && self.channels >= 1
    }
}

/// The format adopted when the host has not asked for one: CD-quality stereo.
pub open spec fn default_waveformat() -> WaveFormat {
    WaveFormat {
        samplerate: 44100,
        bps: 16,
        channels: 2,
        channelmask: 3,
        is_float: false,
        is_bigendian: false,
    }
}

/// The format adopted when the host has not asked for one: CD-quality stereo.
pub fn get_default_waveformat() -> (fmt: WaveFormat)
    ensures
        fmt == default_waveformat(),
        fmt.is_valid(),
{
    WaveFormat {
        samplerate: 44100,
        bps: 16,
        channels: 2,
        channelmask: 3,
        is_float: false,
        is_bigendian: false,
    }
}

/// Sample encodings the audio server is asked for. `Unknown` is the sentinel
/// for a bit depth that has no encoding; a connection must not be attempted
/// with it.
#[derive(Clone, Copy, Debug, PartialEq, Eq, Structural)]
pub enum AudioFormat {
    Unknown,
    S8,
    S16LE,
    S24LE,
    S32LE,
    F32LE,
}

/// The sample encoding that carries `input`.
pub open spec fn audio_format_of(input: WaveFormat) -> AudioFormat {
    if input.bps == 8 {
        AudioFormat::S8
    } else if input.bps == 16 {
        AudioFormat::S16LE
    } else if input.bps == 24 {
        AudioFormat::S24LE
    } else if input.bps == 32 {
        if input.is_float {
            AudioFormat::F32LE
        } else {
            AudioFormat::S32LE
        }
    } else {
        AudioFormat::Unknown
    }
}

/// Picks the audio server's sample encoding for a wave format.
pub fn db_format_to_pipewire(input: WaveFormat) -> (format: AudioFormat)
    ensures
        format == audio_format_of(input),
{
    match input.bps {
        8 => AudioFormat::S8,
        16 => AudioFormat::S16LE,
        24 => AudioFormat::S24LE,
        32 => match input.is_float {
            true => AudioFormat::F32LE,
            false => AudioFormat::S32LE,
        },
        _ => AudioFormat::Unknown,
    }
}

/// Every bit depth other than 8, 16, 24 and 32 gets the `Unknown` sentinel,
/// and those four never do.
pub proof fn unsupported_depth_is_unknown(input: WaveFormat)
    ensures
        audio_format_of(input) == AudioFormat::Unknown <==> !(input.bps == 8 || input.bps == 16
            || input.bps == 24 || input.bps == 32),
        input.is_valid() ==> audio_format_of(input) != AudioFormat::Unknown,
{
}

/// Speaker positions of the conventional surround layout.
#[derive(Clone, Copy, Debug, PartialEq, Eq, Structural)]
pub enum ChannelPosition {
    Unknown,
    Mono,
    FL,
    FR,
    FC,
    LFE,
    RL,
    RR,
    FLC,
    FRC,
    RC,
    SL,
    SR,
    TC,
    TFL,
    TFC,
    TFR,
    TRL,
    TRC,
    TRR,
}

/// Number of slots in a channel map.
pub const CHANNEL_MAP_LEN: usize = 64;

/// The surround layout for two channels and more: the speaker of each of its
/// 18 slots.
pub open spec fn surround_layout(slot: int) -> ChannelPosition {
    if slot == 0 {
        ChannelPosition::FL
    } else if slot == 1 {
        ChannelPosition::FR
    } else if slot == 2 {
        ChannelPosition::FC
    } else if slot == 3 {
        ChannelPosition::LFE
    } else if slot == 4 {
        ChannelPosition::RL
    } else if slot == 5 {
        ChannelPosition::RR
    } else if slot == 6 {
        ChannelPosition::FLC
    } else if slot == 7 {
        ChannelPosition::FRC
    } else if slot == 8 {
        ChannelPosition::RC
    } else if slot == 9 {
        ChannelPosition::SL
    } else if slot == 10 {
        ChannelPosition::SR
    } else if slot == 11 {
        ChannelPosition::TC
    } else if slot == 12 {
        ChannelPosition::TFL
    } else if slot == 13 {
        ChannelPosition::TFC
    } else if slot == 14 {
        ChannelPosition::TFR
    } else if slot == 15 {
        ChannelPosition::TRL
    } else if slot == 16 {
        ChannelPosition::TRC
    } else if slot == 17 {
        ChannelPosition::TRR
    } else {
        ChannelPosition::Unknown
    }
}

/// The smallest channel count at which `slot` of the surround layout is in
/// use. Speakers that come in groups (rear pair, top front trio, ...) are
/// assigned together, once the count covers the whole group.
pub open spec fn slot_threshold(slot: int) -> int {
    if slot < 2 {
        2
    } else if slot < 3 {
        3
    } else if slot < 4 {
        4
    } else if slot < 6 {
        6
    } else if slot < 8 {
        8
    } else if slot < 9 {
        9
    } else if slot < 11 {
        11
    } else if slot < 12 {
        12
    } else if slot < 15 {
        15
    } else {
        18
    }
}

/// The position that a stream of `channels` channels has in `slot`.
pub open spec fn channel_position(channels: int, slot: int) -> ChannelPosition {
    if channels == 1 {
        if slot == 0 {
            ChannelPosition::Mono
        } else {
            ChannelPosition::Unknown
        }
    } else if 0 <= slot < 18 && channels >= slot_threshold(slot) {
        surround_layout(slot)
    } else {
        ChannelPosition::Unknown
    }
}

/// Assigns a speaker position to every slot of the channel map, by channel
/// count alone. Slots that the count does not reach stay `Unknown`.
pub fn make_channel_map(channels: u32) -> (position: [ChannelPosition; 64])
    ensures
        forall|slot: int|
            0 <= slot < 64 ==> #[trigger] position[slot] == channel_position(channels as int, slot),
{
    let mut position = [ChannelPosition::Unknown;64];
    if channels == 1 {
        position[0] = ChannelPosition::Mono;
    }
    if channels >= 2 {
        position[0] = ChannelPosition::FL;
        position[1] = ChannelPosition::FR;
    }
    if channels >= 3 {
        position[2] = ChannelPosition::FC;
    }
    if channels >= 4 {
        position[3] = ChannelPosition::LFE;
    }
    if channels >= 6 {
        position[4] = ChannelPosition::RL;
        position[5] = ChannelPosition::RR;
    }
    if channels >= 8 {
        position[6] = ChannelPosition::FLC;
        position[7] = ChannelPosition::FRC;
    }
    if channels >= 9 {
        position[8] = ChannelPosition::RC;
    }
    if channels >= 11 {
        position[9] = ChannelPosition::SL;
        position[10] = ChannelPosition::SR;
    }
    if channels >= 12 {
        position[11] = ChannelPosition::TC;
    }
    if channels >= 15 {
        position[12] = ChannelPosition::TFL;
        position[13] = ChannelPosition::TFC;
        position[14] = ChannelPosition::TFR;
    }
    if channels >= 18 {
        position[15] = ChannelPosition::TRL;
        position[16] = ChannelPosition::TRC;
        position[17] = ChannelPosition::TRR;
    }
    position
}

/// What the audio server is told about a raw audio stream; the format
/// descriptor of a connection is built from it.
#[derive(Clone, Copy, Debug, PartialEq, Eq)]
pub struct AudioInfoRaw {
    pub format: AudioFormat,
    pub rate: u32,
    pub channels: u32,
    pub position: [ChannelPosition; 64],
}

/// Collects encoding, rate, channel count and the channel map for that count.
pub fn create_audio_format_info(format: AudioFormat, channels: u32, rate: u32) -> (info:
    AudioInfoRaw)
    ensures
        info.format == format,
        info.rate == rate,
        info.channels == channels,
        forall|slot: int|
            0 <= slot < 64 ==> #[trigger] info.position[slot] == channel_position(
                channels as int,
                slot,
            ),
{
    AudioInfoRaw { format, rate, channels, position: make_channel_map(channels) }
}

/// The line that describes a wave format.
pub open spec fn db_format_line(input: WaveFormat) -> Seq<char> {
    "db format: "@ + decimal(input.bps as nat) + " bps"@ + (if input.is_float {
        " float"@
    } else {
        ""@
    }) + ", "@ + decimal(input.channels as nat) + " channels, "@ + decimal(input.samplerate as nat)
        + " kHz"@
}

/// Writes the line that describes a wave format, for the caller to print.
pub fn print_db_format(input: WaveFormat) -> (line: String)
    ensures
        line@ == db_format_line(input),
{
    let bps = decimal_text(input.bps as u32);
    let channels = decimal_text(input.channels as u32);
    let rate = decimal_text(input.samplerate);
    let float = if input.is_float {
        " float"
    } else {
        ""
    };
    "db format: ".to_owned().concat(bps.as_str()).concat(" bps").concat(float).concat(", ").concat(
        channels.as_str(),
    ).concat(" channels, ").concat(rate.as_str()).concat(" kHz")
}

/// What a sample encoding is called in a description.
pub open spec fn format_label(format: AudioFormat) -> Seq<char> {
    match format {
        AudioFormat::S8 => "8 bps"@,
        AudioFormat::S16LE => "16 bps"@,
        AudioFormat::S24LE => "24 bps"@,
        AudioFormat::F32LE => "32 bps float"@,
        AudioFormat::S32LE => "32 bps"@,
        AudioFormat::Unknown => "unknown bps"@,
    }
}

/// The line that describes what the audio server is asked for.
pub open spec fn pipewire_format_line(format: AudioFormat, channels: u32, rate: u32) -> Seq<char> {
    "pw format: "@ + format_label(format) + ", "@ + decimal(channels as nat) + " channels, "@
        + decimal(rate as nat) + " kHz"@
}

/// Writes the line that describes what the audio server is asked for, for
/// the caller to print.
pub fn print_pipewire_format(format: AudioFormat, channels: u32, rate: u32) -> (line: String)
    ensures
        line@ == pipewire_format_line(format, channels, rate),
{
    let label = match format {
        AudioFormat::S8 => "8 bps",
        AudioFormat::S16LE => "16 bps",
        AudioFormat::S24LE => "24 bps",
        AudioFormat::F32LE => "32 bps float",
        AudioFormat::S32LE => "32 bps",
        AudioFormat::Unknown => "unknown bps",
    };
    let channels = decimal_text(channels);
    let rate = decimal_text(rate);
    "pw format: ".to_owned().concat(label).concat(", ").concat(channels.as_str()).concat(
        " channels, ",
    ).concat(rate.as_str()).concat(" kHz")
}

} // verus!
