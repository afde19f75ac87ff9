//! Laws of the protocol between the two threads: what a message that the
//! control plane queues does once the session handles it.

use crate::format::{audio_format_of, AudioFormat, WaveFormat};
use crate::host::PlaybackState;
use crate::message::MessageView;
use crate::plugin::{CommandView, PluginView};
use crate::session::{connect_request, ActionView, SessionView};
use vstd::prelude::*;

verus! {

/// The message that the last queued command sends, if that command sends
/// one.
pub open spec fn last_message(plugin: PluginView) -> Option<MessageView> {
    if plugin.commands.len() > 0 {
        match plugin.commands.last() {
            CommandView::Send(msg) => Some(msg),
            _ => None,
        }
    } else {
        None
    }
}

/// A format change reaches the session. When the control plane with a
/// session is given a format other than the one in force, it queues one
/// message; a session that handles it and whose disconnect goes well holds
/// the format that the control plane has put in force, and, if that format
/// has a sample encoding, asks for a connection with it that starts
/// inactive exactly when the control plane was not playing.
pub proof fn format_change_reaches_session(
    plugin: PluginView,
    session: SessionView,
    fmt: WaveFormat,
)
    requires
        plugin.thread,
        fmt != plugin.fmt,
    ensures
        ({
            let after = plugin.setformat(fmt);
            &&& last_message(after) matches Some(msg)
            &&& ({
                let reconnect = session.message(msg).0.disconnected(true);
                &&& reconnect.0.fmt == after.fmt
                &&& audio_format_of(after.fmt) != AudioFormat::Unknown ==> reconnect.1 == seq![
                    ActionView::Connect(
                        connect_request(after.fmt, plugin.state != PlaybackState::spec_playing()),
                    ),
                ]
            })
        }),
{
}

/// Pausing and resuming reach the session as a switch of the stream, and
/// stopping reaches it as the request to leave its loop.
pub proof fn transport_reaches_session(plugin: PluginView, session: SessionView)
    requires
        plugin.thread,
    ensures
        ({
            &&& last_message(plugin.pause()) matches Some(msg)
            &&& session.message(msg) == (session, seq![ActionView::SetActive(false)])
        }),
        plugin.state == PlaybackState::spec_paused() ==> ({
            &&& last_message(plugin.unpause()) matches Some(msg)
            &&& session.message(msg) == (session, seq![ActionView::SetActive(true)])
        }),
        ({
            let stopping = plugin.stop();
            &&& stopping.commands.len() >= 2
            &&& stopping.commands[stopping.commands.len() - 2] matches CommandView::Send(msg)
            &&& session.message(msg).1 == seq![ActionView::Quit]
            &&& stopping.commands.last() == CommandView::Join
        }),
{
}

} // verus!
