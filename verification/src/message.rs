//! Messages from the control thread to the streaming session.

use crate::format::WaveFormat;
use crate::host::PlaybackState;
use crate::volume::Amplitude;
use vstd::prelude::*;

verus! {

/// What the control plane can ask of a running session. Messages are
/// delivered in the order they were sent.
#[derive(Clone, Debug, PartialEq, Eq)]
pub enum PwThreadMessage {
    /// Leave the event loop; the session ends.
    Terminate,
    /// Hold the stream inactive.
    Pause,
    /// Make the stream active again.
    Unpause,
    /// Reconnect with another format; `state` is the playback state at the
    /// time of the request.
    SetFmt { format: WaveFormat, state: PlaybackState },
    /// Apply a volume to the stream.
    SetVol { newvol: Amplitude },
    /// Show another title for the stream.
    SetTitle(String),
}

/// A message with its text as a sequence of characters.
pub enum MessageView {
    Terminate,
    Pause,
    Unpause,
    SetFmt { format: WaveFormat, state: PlaybackState },
    SetVol { newvol: Amplitude },
    SetTitle(Seq<char>),
}

impl View for PwThreadMessage {
    type V = MessageView;

    open spec fn view(&self) -> MessageView {
        match *self {
            PwThreadMessage::Terminate => MessageView::Terminate,
            PwThreadMessage::Pause => MessageView::Pause,
            PwThreadMessage::Unpause => MessageView::Unpause,
            PwThreadMessage::SetFmt { format, state } => MessageView::SetFmt { format, state },
            PwThreadMessage::SetVol { newvol } => MessageView::SetVol { newvol },
            PwThreadMessage::SetTitle(title) => MessageView::SetTitle(title@),
        }
    }
}

impl DeepView for PwThreadMessage {
    type V = MessageView;

    open spec fn deep_view(&self) -> MessageView {
        self.view()
    }
}

} // verus!
