//! The pull protocol: how many bytes one data-ready callback delivers, and
//! what the buffer and its chunk record hold afterwards.

use crate::format::WaveFormat;
use vstd::prelude::*;

verus! {

/// Length in milliseconds of the data delivered when the audio server names
/// no frame count.
pub const FALLBACK_MILLIS: u64 = 25;

/// Frames wanted from one callback: the server's count if it gave one, else
/// what plays in [`FALLBACK_MILLIS`].
pub open spec fn wanted_frames(fmt: WaveFormat, requested: u64) -> int {
    if requested > 0 {
        requested as int
    } else {
        FALLBACK_MILLIS as int * fmt.samplerate as int / 1000
    }
}

/// Bytes to deliver in one callback: the wanted frames, but no more whole
/// frames than the buffer holds. Nothing at all for a format whose frames
/// have no bytes.
pub open spec fn pull_len(fmt: WaveFormat, requested: u64, capacity: u32) -> int {
    let stride = fmt.spec_stride() as int;
    if stride == 0 {
        0
    } else {
        let room = capacity as int / stride;
        let wanted = wanted_frames(fmt, requested);
        if wanted <= room {
            wanted * stride
        } else {
            room * stride
        }
    }
}

/// What one callback is to deliver.
#[derive(Clone, Copy, Debug, PartialEq, Eq, Structural)]
pub struct PullPlan {
    /// Bytes to write at the start of the buffer.
    pub len: u32,
    /// Bytes per frame.
    pub stride: u32,
}

/// The chunk record published with a filled buffer.
#[derive(Clone, Copy, Debug, PartialEq, Eq, Structural)]
pub struct Chunk {
    pub size: u32,
    pub offset: u32,
    pub stride: u32,
}

/// Plans one callback for a stream of format `fmt`, a server request of
/// `requested` frames (0: none given) and a buffer of `capacity` bytes.
pub fn plan_pull(fmt: WaveFormat, requested: u64, capacity: u32) -> (plan: PullPlan)
    ensures
        plan.len == pull_len(fmt, requested, capacity),
        plan.stride == fmt.spec_stride(),
        plan.len <= capacity,
        plan.stride > 0 ==> plan.len as int % plan.stride as int == 0,
{
    let stride: u32 = fmt.stride();
    if stride == 0 {
        return PullPlan { len: 0, stride };
    }
    let room: u32 = capacity / stride;
    let wanted: u64 = if requested > 0 {
        requested
    } else {
        FALLBACK_MILLIS * (fmt.samplerate as u64) / 1000
    };
    let frames: u32 = if wanted <= room as u64 {
        wanted as u32
    } else {
        room
    };
    assert(frames * stride <= capacity && (frames * stride) % (stride as int) == 0) by (nonlinear_arith)
        requires
            frames <= capacity / stride,
            stride > 0,
    ;
    PullPlan { len: frames * stride, stride }
}

impl PullPlan {
    /// Bytes to ask the host for, given its answer to "may I read?": the
    /// whole length if it said yes (a positive answer), nothing otherwise.
    pub fn bytes_to_read(&self, ok_to_read: i32) -> (bytes: u32)
        ensures
            bytes == if ok_to_read > 0 {
                self.len
            } else {
                0
            },
    {
        if ok_to_read > 0 {
            self.len
        } else {
            0
        }
    }
}

/// `count` zero bytes.
pub open spec fn silence(count: int) -> Seq<u8> {
    Seq::new(count as nat, |i: int| 0u8)
}

/// Bytes of the delivery that are real samples: what the host supplied, as
/// far as it fits the delivery.
pub open spec fn real_bytes(len: int, supplied: int) -> int {
    if supplied <= 0 {
        0
    } else if supplied <= len {
        supplied
    } else {
        len
    }
}

/// Bytes delivered through a buffer of `room` bytes when `len` are planned.
pub open spec fn delivered_len(room: int, len: int) -> int {
    if len <= room {
        len
    } else {
        room
    }
}

/// The buffer after a delivery of `len` bytes of which the host supplied
/// `supplied`: the host's bytes stay, the rest of the delivery is silence,
/// and what lies behind the delivery is untouched.
pub open spec fn delivered(before: Seq<u8>, len: int, supplied: int) -> Seq<u8> {
    let total = delivered_len(before.len() as int, len);
    let kept = real_bytes(total, supplied);
    before.subrange(0, kept) + silence(total - kept) + before.subrange(total, before.len() as int)
}

/// The chunk record of a delivery through a buffer of `room` bytes: its size
/// is the whole delivery, silence included; it starts at offset 0; its
/// stride is that of the plan.
pub open spec fn delivery_chunk(plan: PullPlan, room: int) -> Chunk {
    Chunk { size: delivered_len(room, plan.len as int) as u32, offset: 0, stride: plan.stride }
}

/// Completes a delivery. The host has written `supplied` bytes to the start
/// of `data` (a count that is not positive means none); the rest of the
/// planned length is filled with silence, and the chunk record for the whole
/// delivery is returned.
pub fn finish_pull(plan: PullPlan, data: &mut [u8], supplied: i32) -> (chunk: Chunk)
    ensures
        final(data)@ == delivered(old(data)@, plan.len as int, supplied as int),
        chunk == delivery_chunk(plan, old(data)@.len() as int),
{
    let room: usize = data.len();
    let total: usize = if plan.len as usize <= room {
        plan.len as usize
    } else {
        room
    };
    let kept: usize = if supplied <= 0 {
        0
    } else if supplied as usize <= total {
        supplied as usize
    } else {
        total
    };
    let mut at: usize = kept;
    while at < total
        invariant
            kept <= at <= total <= data@.len(),
            data@.len() == old(data)@.len(),
            forall|i: int| kept <= i < at ==> data@[i] == 0u8,
            forall|i: int| 0 <= i < kept || at <= i < data@.len() ==> data@[i] == old(data)@[i],
        decreases total - at,
    {
        data[at] = 0;
        at += 1;
    }
    assert(data@ =~= delivered(old(data)@, plan.len as int, supplied as int));
    Chunk { size: total as u32, offset: 0, stride: plan.stride }
}

/// A delivery is as long as planned whenever the buffer has room for it, it
/// starts with the host's bytes, and every byte after them is zero.
pub proof fn delivery_is_samples_then_silence(before: Seq<u8>, len: int, supplied: int)
    requires
        0 <= len <= before.len(),
    ensures
        ({
            let after = delivered(before, len, supplied);
            let kept = real_bytes(len, supplied);
            &&& after.len() == before.len()
            &&& 0 <= kept <= len
            &&& supplied >= 0 ==> kept == if len <= supplied {
                len
            } else {
                supplied
            }
            &&& forall|i: int| 0 <= i < kept ==> after[i] == before[i]
            &&& forall|i: int| kept <= i < len ==> after[i] == 0u8
            &&& forall|i: int| len <= i < before.len() ==> after[i] == before[i]
        }),
{
}

/// What a callback delivers for a stream of format `fmt`, when the server
/// asks for `requested` frames and the buffer `before` is all it offers:
/// the planned length fits the buffer and is a whole number of frames; the
/// chunk record gives that length as its size, offset 0 and the format's
/// bytes per frame as its stride; and the buffer holds the host's bytes
/// followed by zeros up to that length.
pub proof fn pull_delivers_whole_chunk(
    fmt: WaveFormat,
    requested: u64,
    before: Seq<u8>,
    supplied: int,
)
    requires
        before.len() <= u32::MAX,
    ensures
        ({
            let len = pull_len(fmt, requested, before.len() as u32);
            let plan = PullPlan { len: len as u32, stride: fmt.spec_stride() as u32 };
            let chunk = delivery_chunk(plan, before.len() as int);
            let after = delivered(before, len, supplied);
            let kept = real_bytes(len, supplied);
            &&& 0 <= len <= before.len()
            &&& fmt.spec_stride() > 0 ==> len % (fmt.spec_stride() as int) == 0
            &&& chunk.size == len
            &&& chunk.offset == 0
            &&& chunk.stride == fmt.channels as int * (fmt.bps as int / 8)
            &&& after.len() == before.len()
            &&& after.subrange(0, kept) == before.subrange(0, kept)
            &&& after.subrange(kept, len) == silence(len - kept)
            &&& after.subrange(len, before.len() as int) == before.subrange(
                len,
                before.len() as int,
            )
        }),
{
    let stride = fmt.spec_stride() as int;
    let capacity = before.len() as int;
    let len = pull_len(fmt, requested, before.len() as u32);
    assert(stride <= 255 * 31) by (nonlinear_arith)
        requires
            stride == (fmt.channels as int) * ((fmt.bps / 8) as int),
            fmt.channels <= 255,
            fmt.bps / 8 <= 31,
    ;
    if stride > 0 {
        let room = capacity / stride;
        let wanted = wanted_frames(fmt, requested);
        let frames = if wanted <= room {
            wanted
        } else {
            room
        };
        assert(0 <= frames * stride <= capacity && (frames * stride) % stride == 0)
            by (nonlinear_arith)
            requires
                0 <= frames <= capacity / stride,
                stride > 0,
        ;
    }
    delivery_is_samples_then_silence(before, len, supplied);
    let after = delivered(before, len, supplied);
    let kept = real_bytes(len, supplied);
    assert(after.subrange(0, kept) =~= before.subrange(0, kept));
    assert(after.subrange(kept, len) =~= silence(len - kept));
    assert(after.subrange(len, before.len() as int) =~= before.subrange(len, before.len() as int));
}

} // verus!
