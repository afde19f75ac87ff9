//! Linear volume as it travels between host, session and hardware.

use vstd::prelude::*;

verus! {

/// A single-precision amplitude, held by its IEEE-754 bit pattern.
#[derive(Clone, Copy, Debug, PartialEq, Eq, Structural)]
pub struct Amplitude {
    pub bits: u32,
}

impl Amplitude {
    /// The bit pattern without its sign bit.
    pub open spec fn magnitude(self) -> int {
        self.bits as int % 0x8000_0000
    }

    /// Not a number: the exponent is all ones and the fraction is not zero.
    pub open spec fn is_nan(self) -> bool {
        self.magnitude() > 0x7f80_0000
    }

    /// Positive or negative zero.
    pub open spec fn is_zero(self) -> bool {
        self.magnitude() == 0
    }

    /// Numeric equality of the two amplitudes: no NaN equals anything, the
    /// two zeros equal each other, and every other value equals only itself.
    pub open spec fn spec_same_value(self, other: Amplitude) -> bool {
        &&& !self.is_nan()
        &&& !other.is_nan()
        &&& (self.bits == other.bits || (self.is_zero() && other.is_zero()))
    }

    /// Wraps a bit pattern.
    pub fn from_bits(bits: u32) -> (amp: Amplitude)
        ensures
            amp.bits == bits,
    {
        Amplitude { bits }
    }

    /// The bit pattern.
    pub fn to_bits(self) -> (bits: u32)
        ensures
            bits == self.bits,
    {
        self.bits
    }

    /// Whether the two amplitudes are numerically equal.
    pub fn same_value(self, other: Amplitude) -> (same: bool)
        ensures
            same == self.spec_same_value(other),
    {
        let mine: u32 = self.bits % 0x8000_0000;
        let theirs: u32 = other.bits % 0x8000_0000;
        mine <= 0x7f80_0000 && theirs <= 0x7f80_0000 && (self.bits == other.bits || (mine == 0
            && theirs == 0))
    }
}

/// Numeric equality is symmetric, and an amplitude equals itself unless it
/// is NaN.
pub proof fn same_value_laws(a: Amplitude, b: Amplitude)
    ensures
        a.spec_same_value(b) == b.spec_same_value(a),
        a.spec_same_value(a) == !a.is_nan(),
{
}

/// The first of the reported `values` that is not numerically equal to
/// `host`; `None` if every one of them equals it.
pub open spec fn first_change(values: Seq<Amplitude>, host: Amplitude) -> Option<Amplitude>
    decreases values.len(),
{
    if values.len() == 0 {
        None
    } else if !values[0].spec_same_value(host) {
        Some(values[0])
    } else {
        first_change(values.subrange(1, values.len() as int), host)
    }
}

/// What `first_change` finds: `Some` exactly when a value differs from
/// `host`, and then the one with the smallest index.
pub proof fn first_change_is_first(values: Seq<Amplitude>, host: Amplitude)
    ensures
        match first_change(values, host) {
            Some(value) => exists|index: int|
                {
                    &&& 0 <= index < values.len()
                    &&& value == #[trigger] values[index]
                    &&& !value.spec_same_value(host)
                    &&& forall|i: int| 0 <= i < index ==> values[i].spec_same_value(host)
                },
            None => forall|i: int| 0 <= i < values.len() ==> values[i].spec_same_value(host),
        },
    decreases values.len(),
{
    if values.len() > 0 {
        if values[0].spec_same_value(host) {
            let rest = values.subrange(1, values.len() as int);
            first_change_is_first(rest, host);
            match first_change(rest, host) {
                Some(value) => {
                    let index = choose|index: int|
                        {
                            &&& 0 <= index < rest.len()
                            &&& value == #[trigger] rest[index]
                            &&& !value.spec_same_value(host)
                            &&& forall|i: int| 0 <= i < index ==> rest[i].spec_same_value(host)
                        };
                    assert forall|i: int| 0 <= i < index + 1 implies values[i].spec_same_value(
                        host,
                    ) by {
                        if i > 0 {
                            assert(values[i] == rest[i - 1]);
                        }
                    }
                    assert(value == values[index + 1]);
                },
                None => {
                    assert forall|i: int| 0 <= i < values.len() implies values[i].spec_same_value(
                        host,
                    ) by {
                        if i > 0 {
                            assert(values[i] == rest[i - 1]);
                        }
                    }
                },
            }
        } else {
            assert(values[0] == values[0]);
        }
    }
}

/// The volume to push to the host after the hardware reported a control
/// change. Only the channel volumes count; of those, the first value that
/// differs from the volume the host already has is pushed. Values equal to
/// the host's are never pushed back, so the two sides cannot echo each other.
pub open spec fn volume_to_push(
    channel_volumes: bool,
    values: Seq<Amplitude>,
    host: Amplitude,
) -> Option<Amplitude> {
    if !channel_volumes {
        None
    } else {
        first_change(values, host)
    }
}

/// Decides what to push to the host after a control change reported by the
/// hardware: `channel_volumes` says whether the control is the channel
/// volumes, `values` are the reported values and `host` is the volume the
/// host has now.
pub fn hardware_volume(channel_volumes: bool, values: &[Amplitude], host: Amplitude) -> (push:
    Option<Amplitude>)
    ensures
        push == volume_to_push(channel_volumes, values@, host),
        push matches Some(value) ==> !value.spec_same_value(host),
        push is None && channel_volumes ==> forall|i: int|
            0 <= i < values@.len() ==> values@[i].spec_same_value(host),
{
    proof {
        first_change_is_first(values@, host);
    }
    if !channel_volumes {
        return None;
    }
    let mut at: usize = 0;
    assert(values@.subrange(0, values@.len() as int) =~= values@);
    while at < values.len()
        invariant
            channel_volumes,
            at <= values@.len(),
            first_change(values@, host) == first_change(
                values@.subrange(at as int, values@.len() as int),
                host,
            ),
        decreases values@.len() - at,
    {
        let value = values[at];
        let ghost tail = values@.subrange(at as int, values@.len() as int);
        assert(tail[0] == value);
        if !value.same_value(host) {
            return Some(value);
        }
        assert(tail.subrange(1, tail.len() as int) =~= values@.subrange(
            at as int + 1,
            values@.len() as int,
        ));
        at += 1;
    }
    None
}

} // verus!
