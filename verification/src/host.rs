//! Plain-value forms of what crosses the boundary to the host player:
//! playback states, track handles, host errors and log layers.

use crate::cstr::{buffer_text, nul_position, utf8_lossy};
use vstd::prelude::*;
use vstd::utf8::{decode_utf8, valid_utf8};

verus! {

/// Raw value the host uses for "stopped".
pub const PLAYBACK_STATE_STOPPED: u32 = 0;

/// Raw value the host uses for "playing".
pub const PLAYBACK_STATE_PLAYING: u32 = 1;

/// Raw value the host uses for "paused".
pub const PLAYBACK_STATE_PAUSED: u32 = 2;

/// Playback state as the host encodes it. Equality is equality of the raw
/// value, so a state the host reports but this crate has no name for is kept
/// as it came.
#[derive(Clone, Copy, Debug, PartialEq, Eq, Structural)]
pub struct PlaybackState(pub u32);

impl PlaybackState {
    /// The state "stopped".
    pub open spec fn spec_stopped() -> PlaybackState {
        PlaybackState(PLAYBACK_STATE_STOPPED)
    }

    /// The state "playing".
    pub open spec fn spec_playing() -> PlaybackState {
        PlaybackState(PLAYBACK_STATE_PLAYING)
    }

    /// The state "paused".
    pub open spec fn spec_paused() -> PlaybackState {
        PlaybackState(PLAYBACK_STATE_PAUSED)
    }

    /// No session is active, or it is idle.
    #[verifier::when_used_as_spec(spec_stopped)]
    pub fn stopped() -> (state: PlaybackState)
        ensures
            state == PlaybackState::spec_stopped(),
    {
        PlaybackState(PLAYBACK_STATE_STOPPED)
    }

    /// Audio is being delivered.
    #[verifier::when_used_as_spec(spec_playing)]
    pub fn playing() -> (state: PlaybackState)
        ensures
            state == PlaybackState::spec_playing(),
    {
        PlaybackState(PLAYBACK_STATE_PLAYING)
    }

    /// The stream is held inactive.
    #[verifier::when_used_as_spec(spec_paused)]
    pub fn paused() -> (state: PlaybackState)
        ensures
            state == PlaybackState::spec_paused(),
    {
        PlaybackState(PLAYBACK_STATE_PAUSED)
    }

    /// Wraps a raw state value of the host.
    pub fn from_raw(raw: u32) -> (state: PlaybackState)
        ensures
            state == PlaybackState(raw),
    {
        PlaybackState(raw)
    }

    /// The raw state value for the host.
    pub fn as_raw(&self) -> (raw: u32)
        ensures
            raw == self.0,
    {
        self.0
    }

    /// The name of the state, for diagnostics.
    pub open spec fn spec_name(self) -> Seq<char> {
        if self == PlaybackState::spec_playing() {
            "PlaybackState::Playing"@
        } else if self == PlaybackState::spec_paused() {
            "PlaybackState::Paused"@
        } else if self == PlaybackState::spec_stopped() {
            "PlaybackState::Stopped"@
        } else {
            "PlaybackState::Unknown"@
        }
    }

    /// The name of the state, for diagnostics; `PlaybackState::Unknown` for a
    /// raw value that is none of the three states.
    pub fn name(&self) -> (name: &'static str)
        ensures
            name@ == self.spec_name(),
    {
        if self.0 == PLAYBACK_STATE_PLAYING {
            "PlaybackState::Playing"
        } else if self.0 == PLAYBACK_STATE_PAUSED {
            "PlaybackState::Paused"
        } else if self.0 == PLAYBACK_STATE_STOPPED {
            "PlaybackState::Stopped"
        } else {
            "PlaybackState::Unknown"
        }
    }
}

/// Wrapping and unwrapping a raw state value lose nothing, in either order.
pub proof fn raw_state_round_trip(raw: u32, state: PlaybackState)
    ensures
        PlaybackState(raw).0 == raw,
        PlaybackState(state.0) == state,
{
}

/// Failure to obtain an object from the host.
#[allow(non_camel_case_types)]
#[derive(Clone, Copy, Debug, PartialEq, Eq, Structural)]
pub enum DB_Error {
    CreationFailed,
    NoMemory,
}

impl DB_Error {
    /// The text shown for this error.
    pub open spec fn spec_message(self) -> Seq<char> {
        match self {
            DB_Error::CreationFailed => "Creation failed"@,
            DB_Error::NoMemory => "No memory"@,
        }
    }

    /// The text shown for this error.
    pub fn to_string(&self) -> (text: String)
        ensures
            text@ == self.spec_message(),
    {
        match self {
            DB_Error::CreationFailed => "Creation failed".to_owned(),
            DB_Error::NoMemory => "No memory".to_owned(),
        }
    }
}

/// Failure to format a title.
#[allow(non_camel_case_types)]
#[derive(Clone, Copy, Debug, PartialEq, Eq, Structural)]
pub enum DB_TF_Error {
    CompileError,
    EvalError,
    DBError(DB_Error),
}

impl DB_TF_Error {
    /// The text shown for this error; a host error shows as itself.
    pub open spec fn spec_message(self) -> Seq<char> {
        match self {
            DB_TF_Error::CompileError => "Compile error"@,
            DB_TF_Error::EvalError => "Evaluation error"@,
            DB_TF_Error::DBError(inner) => inner.spec_message(),
        }
    }

    /// The text shown for this error; a host error shows as itself.
    pub fn to_string(&self) -> (text: String)
        ensures
            text@ == self.spec_message(),
    {
        match self {
            DB_TF_Error::CompileError => "Compile error".to_owned(),
            DB_TF_Error::EvalError => "Evaluation error".to_owned(),
            DB_TF_Error::DBError(inner) => inner.to_string(),
        }
    }
}

impl From<DB_Error> for DB_TF_Error {
    fn from(source: DB_Error) -> (error: DB_TF_Error) {
        DB_TF_Error::DBError(source)
    }
}

impl vstd::std_specs::convert::FromSpecImpl<DB_Error> for DB_TF_Error {
    open spec fn obeys_from_spec() -> bool {
        true
    }

    open spec fn from_spec(source: DB_Error) -> DB_TF_Error {
        DB_TF_Error::DBError(source)
    }
}

/// Handle of a playlist item that the host has handed out: its address, never
/// null.
pub struct PlItem {
    ptr: usize,
}

impl PlItem {
    #[verifier::type_invariant]
    spec fn non_null(self) -> bool {
        self.ptr != 0
    }

    /// The address the handle holds.
    pub closed spec fn spec_ptr(self) -> usize {
        self.ptr
    }

    /// Takes the handle the host returned. The null address is the host's way
    /// to say that there is no item.
    pub fn from_raw(fromptr: usize) -> (item: Result<PlItem, DB_Error>)
        ensures
            fromptr == 0 ==> item == Err::<PlItem, DB_Error>(DB_Error::CreationFailed),
            fromptr != 0 ==> item is Ok && item->Ok_0.spec_ptr() == fromptr,
    {
        if fromptr == 0 {
            Err(DB_Error::CreationFailed)
        } else {
            Ok(PlItem { ptr: fromptr })
        }
    }

    /// The address to hand back to the host.
    pub fn as_ptr(&self) -> (ptr: usize)
        ensures
            ptr == self.spec_ptr(),
            ptr != 0,
    {
        proof {
            use_type_invariant(self);
        }
        self.ptr
    }
}

/// Log layers of the host.
#[derive(Clone, Copy, Debug, PartialEq, Eq, Structural)]
pub enum LogLayer {
    Default,
    Info,
}

/// Host events the output reacts to; every other event is `Other`.
#[derive(Clone, Copy, Debug, PartialEq, Eq, Structural)]
pub enum HostEvent {
    VolumeChanged,
    SongChanged,
    Other,
}

/// Size of the buffers that the host fills with text.
pub const TEXT_BUFFER_LEN: usize = 4096;

/// The text before the first NUL of `buffer`, if the lossy decoder makes
/// `text` of it.
pub open spec fn holds_text(buffer: Seq<u8>, text: Seq<char>) -> bool {
    let bytes = buffer.subrange(0, nul_position(buffer));
    &&& text == utf8_lossy(bytes)
    &&& valid_utf8(bytes) ==> text == decode_utf8(bytes)
}

/// What to make of the answers of the host player's functions.
pub struct DeadBeef;

impl DeadBeef {
    /// The title for the track that is playing. `track` is what asking the
    /// host for that track gave; if it gave one, `format_item` formats it,
    /// else the host's error is passed on and nothing is formatted.
    pub fn titleformat<F: FnOnce(&PlItem) -> Result<String, DB_TF_Error>>(
        track: Result<PlItem, DB_Error>,
        format_item: F,
    ) -> (title: Result<String, DB_TF_Error>)
        requires
            track matches Ok(item) ==> format_item.requires((&item,)),
        ensures
            track matches Err(error) ==> title == Err::<String, DB_TF_Error>(
                DB_TF_Error::DBError(error),
            ),
            track matches Ok(item) ==> format_item.ensures((&item,), title),
    {
        match track {
            Ok(item) => format_item(&item),
            Err(error) => Err(DB_TF_Error::from(error)),
        }
    }

    /// The title that the host's formatter produced for an item. `compiled`
    /// says whether the template compiled, `evaluated` is what evaluating it
    /// returned (positive when it went well), and `buffer` is where the
    /// title was written as a NUL-terminated string. `None` stands for a
    /// buffer without a NUL after an evaluation that went well.
    pub fn titleformat_for_item(compiled: bool, evaluated: i32, buffer: &[u8]) -> (title: Option<
        Result<String, DB_TF_Error>,
    >)
        ensures
            !compiled ==> title == Some(Err::<String, DB_TF_Error>(DB_TF_Error::CompileError)),
            compiled && evaluated <= 0 ==> title == Some(
                Err::<String, DB_TF_Error>(DB_TF_Error::EvalError),
            ),
            compiled && evaluated > 0 ==> match title {
                Some(Ok(text)) => nul_position(buffer@) < buffer@.len() && holds_text(
                    buffer@,
                    text@,
                ),
                Some(Err(_)) => false,
                None => nul_position(buffer@) >= buffer@.len(),
            },
    {
        if !compiled {
            return Some(Err(DB_TF_Error::CompileError));
        }
        if evaluated <= 0 {
            return Some(Err(DB_TF_Error::EvalError));
        }
        match buffer_text(buffer) {
            Some(text) => Some(Ok(text)),
            None => None,
        }
    }

    /// The configuration value that the host wrote to `buffer` as a
    /// NUL-terminated string; `None` if the buffer holds no NUL.
    pub fn conf_get_str(buffer: &[u8]) -> (value: Option<String>)
        ensures
            value is Some <==> nul_position(buffer@) < buffer@.len(),
            value matches Some(text) ==> holds_text(buffer@, text@),
    {
        buffer_text(buffer)
    }
}

} // verus!
