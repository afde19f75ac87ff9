//! The streaming session: what the thread that owns the audio-server
//! connection decides when a message, a stream event or the outcome of one of
//! its own requests arrives. Every decision is a step from the session's
//! state and the event to the next state and the actions to perform, in
//! order; the caller performs them and reports their outcomes back.

use crate::format::{audio_format_of, db_format_to_pipewire, AudioFormat, WaveFormat};
use crate::host::{LogLayer, PlaybackState};
use crate::message::{MessageView, PwThreadMessage};
use crate::props::{
    rate_properties, spec_rate_properties, spec_title_properties, title_properties, Property,
    PropertyView,
};
use crate::pull::{plan_pull, pull_len, PullPlan};
use crate::volume::Amplitude;
use vstd::prelude::*;
use vstd::string::*;

verus! {

/// States the audio server reports for a stream.
#[derive(Clone, Debug, PartialEq, Eq)]
pub enum StreamState {
    Error(String),
    Unconnected,
    Connecting,
    Paused,
    Streaming,
}

/// A stream state with its text as a sequence of characters.
pub enum StreamStateView {
    Error(Seq<char>),
    Unconnected,
    Connecting,
    Paused,
    Streaming,
}

impl View for StreamState {
    type V = StreamStateView;

    open spec fn view(&self) -> StreamStateView {
        match *self {
            StreamState::Error(text) => StreamStateView::Error(text@),
            StreamState::Unconnected => StreamStateView::Unconnected,
            StreamState::Connecting => StreamStateView::Connecting,
            StreamState::Paused => StreamStateView::Paused,
            StreamState::Streaming => StreamStateView::Streaming,
        }
    }
}

/// How a stream is connected.
#[derive(Clone, Copy, Debug, PartialEq, Eq, Structural)]
pub struct StreamFlags {
    /// Let the audio server pick and link the sink.
    pub autoconnect: bool,
    /// Have buffers mapped into memory.
    pub map_buffers: bool,
    /// Run the data-ready callback on the real-time thread.
    pub rt_process: bool,
    /// Start without being active.
    pub inactive: bool,
}

/// A connection to ask the audio server for.
#[derive(Clone, Copy, Debug, PartialEq, Eq, Structural)]
pub struct ConnectRequest {
    pub format: AudioFormat,
    pub channels: u32,
    pub rate: u32,
    pub flags: StreamFlags,
}

/// What the session asks its caller to do.
#[derive(Clone, Debug, PartialEq, Eq)]
pub enum SessionAction {
    /// Write a line to the host's log.
    Log { layer: LogLayer, text: String },
    /// Tell the host to stop playback.
    NotifyStop,
    /// Leave the event loop; the session is over.
    Quit,
    /// Make the stream active or inactive.
    SetActive(bool),
    /// Disconnect the stream, then report through [`Session::disconnected`].
    Disconnect,
    /// Connect the stream, then report through [`Session::connected`].
    Connect(ConnectRequest),
    /// Update properties of the stream.
    UpdateProperties(Vec<Property>),
    /// Set the volume of each of the stream's `channels` channels to `amp`.
    SetVolume { amp: Amplitude, channels: u8 },
}

/// An action with its texts as sequences of characters.
pub enum ActionView {
    Log { layer: LogLayer, text: Seq<char> },
    NotifyStop,
    Quit,
    SetActive(bool),
    Disconnect,
    Connect(ConnectRequest),
    UpdateProperties(Seq<PropertyView>),
    SetVolume { amp: Amplitude, channels: u8 },
}

impl View for SessionAction {
    type V = ActionView;

    open spec fn view(&self) -> ActionView {
        match *self {
            SessionAction::Log { layer, text } => ActionView::Log { layer, text: text@ },
            SessionAction::NotifyStop => ActionView::NotifyStop,
            SessionAction::Quit => ActionView::Quit,
            SessionAction::SetActive(active) => ActionView::SetActive(active),
            SessionAction::Disconnect => ActionView::Disconnect,
            SessionAction::Connect(request) => ActionView::Connect(request),
            SessionAction::UpdateProperties(props) => ActionView::UpdateProperties(
                props.deep_view(),
            ),
            SessionAction::SetVolume { amp, channels } => ActionView::SetVolume { amp, channels },
        }
    }
}

impl DeepView for SessionAction {
    type V = ActionView;

    open spec fn deep_view(&self) -> ActionView {
        self.view()
    }
}

/// A request of the session's own whose outcome it is waiting for.
#[derive(Clone, Copy, Debug, PartialEq, Eq, Structural)]
pub enum Pending {
    /// Nothing is outstanding.
    Nothing,
    /// The first connection of the stream.
    InitialConnect,
    /// The disconnect that opens a format change.
    Disconnect { format: WaveFormat, state: PlaybackState },
    /// The connect that closes a format change to `samplerate`.
    Reconnect { samplerate: u32 },
}

/// State of a streaming session as contracts see it.
pub struct SessionView {
    /// The format the stream was last asked to carry.
    pub fmt: WaveFormat,
    /// A disconnect of the session's own making is under way: disconnects are
    /// not reported and no data is delivered.
    pub ourdisconnect: bool,
    /// The request whose outcome is outstanding.
    pub pending: Pending,
}

/// The connection request for `fmt`, inactive or not.
pub open spec fn connect_request(fmt: WaveFormat, inactive: bool) -> ConnectRequest {
    ConnectRequest {
        format: audio_format_of(fmt),
        channels: fmt.channels as u32,
        rate: fmt.samplerate,
        flags: StreamFlags { autoconnect: true, map_buffers: true, rt_process: true, inactive },
    }
}

/// The two actions that report a failure: a line in the log, then the
/// request to stop playback.
pub open spec fn failure_report(text: Seq<char>) -> Seq<ActionView> {
    seq![ActionView::Log { layer: LogLayer::Default, text }, ActionView::NotifyStop]
}

/// Reason given when a format has no sample encoding.
pub const UNSUPPORTED_FORMAT: &'static str = "unsupported sample format";

/// Log line for a stream that could not be created.
pub open spec fn create_failure_text(reason: Seq<char>) -> Seq<char> {
    "Pipewire: Unable to create stream, "@ + reason + "\n"@
}

/// Log line for a first connection that failed.
pub open spec fn connect_failure_text(reason: Seq<char>) -> Seq<char> {
    "Pipewire: Unable to connect stream, "@ + reason + "\n"@
}

/// Log line for a connection that failed in the middle of a format change.
pub open spec fn reconnect_failure_text() -> Seq<char> {
    "Pipewire: Unable to connect stream, terminating\n"@
}

/// Log line for a stream in the error state.
pub open spec fn stream_error_text(reason: Seq<char>) -> Seq<char> {
    "Pipewire playback error: "@ + reason
}

/// Log line for a disconnect that nobody asked for.
pub open spec fn disconnect_text() -> Seq<char> {
    "Pipewire disconnected."@
}

impl SessionView {
    /// A session that is to stream `init_fmt`.
    pub open spec fn new(init_fmt: WaveFormat) -> SessionView {
        SessionView { fmt: init_fmt, ourdisconnect: false, pending: Pending::Nothing }
    }

    /// The stream could not be created: report it and end the session.
    pub open spec fn stream_create_failed(self, reason: Seq<char>) -> (SessionView, Seq<
        ActionView,
    >) {
        (self, failure_report(create_failure_text(reason)).push(ActionView::Quit))
    }

    /// The stream exists: connect it with the session's format. A format
    /// without a sample encoding is a failed connection.
    pub open spec fn start(self) -> (SessionView, Seq<ActionView>) {
        if audio_format_of(self.fmt) == AudioFormat::Unknown {
            (
                SessionView { pending: Pending::Nothing, ..self },
                failure_report(connect_failure_text(UNSUPPORTED_FORMAT@)).push(ActionView::Quit),
            )
        } else {
            (
                SessionView { pending: Pending::InitialConnect, ..self },
                seq![ActionView::Connect(connect_request(self.fmt, false))],
            )
        }
    }

    /// A connect request has ended, with the reason if it failed.
    pub open spec fn connected(self, failure: Option<Seq<char>>) -> (SessionView, Seq<
        ActionView,
    >) {
        let settled = SessionView { pending: Pending::Nothing, ..self };
        match self.pending {
            Pending::InitialConnect => match failure {
                None => (settled, Seq::empty()),
                Some(reason) => (
                    settled,
                    failure_report(connect_failure_text(reason)).push(ActionView::Quit),
                ),
            },
            Pending::Reconnect { samplerate } => match failure {
                None => (
                    settled,
                    seq![ActionView::UpdateProperties(spec_rate_properties(samplerate))],
                ),
                Some(_) => (settled, failure_report(reconnect_failure_text())),
            },
            _ => (self, Seq::empty()),
        }
    }

    /// A disconnect request has ended. If it opened a format change and went
    /// well, the new format is adopted and the stream is connected again,
    /// inactive unless playback is under way.
    pub open spec fn disconnected(self, ok: bool) -> (SessionView, Seq<ActionView>) {
        match self.pending {
            Pending::Disconnect { format, state } => if !ok {
                (SessionView { pending: Pending::Nothing, ..self }, Seq::empty())
            } else if audio_format_of(format) == AudioFormat::Unknown {
                (
                    SessionView { fmt: format, pending: Pending::Nothing, ..self },
                    failure_report(reconnect_failure_text()),
                )
            } else {
                (
                    SessionView {
                        fmt: format,
                        pending: Pending::Reconnect { samplerate: format.samplerate },
                        ..self
                    },
                    seq![
                        ActionView::Connect(
                            connect_request(format, state != PlaybackState::spec_playing()),
                        ),
                    ],
                )
            },
            _ => (self, Seq::empty()),
        }
    }

    /// A message from the control thread has arrived.
    pub open spec fn message(self, msg: MessageView) -> (SessionView, Seq<ActionView>) {
        match msg {
            MessageView::Terminate => (
                SessionView { ourdisconnect: true, ..self },
                seq![ActionView::Quit],
            ),
            MessageView::Pause => (self, seq![ActionView::SetActive(false)]),
            MessageView::Unpause => (self, seq![ActionView::SetActive(true)]),
            MessageView::SetFmt { format, state } => (
                SessionView {
                    ourdisconnect: true,
                    pending: Pending::Disconnect { format, state },
                    ..self
                },
                seq![ActionView::Disconnect],
            ),
            MessageView::SetVol { newvol } => (
                self,
                seq![ActionView::SetVolume { amp: newvol, channels: self.fmt.channels }],
            ),
            MessageView::SetTitle(title) => (
                self,
                seq![ActionView::UpdateProperties(spec_title_properties(title))],
            ),
        }
    }

    /// The audio server reports a new state of the stream.
    pub open spec fn state_changed(self, new: StreamStateView) -> (SessionView, Seq<ActionView>) {
        match new {
            StreamStateView::Error(reason) => (self, failure_report(stream_error_text(reason))),
            StreamStateView::Unconnected => if self.ourdisconnect {
                (self, Seq::empty())
            } else {
                (self, failure_report(disconnect_text()))
            },
            StreamStateView::Connecting => (
                SessionView { ourdisconnect: false, ..self },
                Seq::empty(),
            ),
            _ => (self, Seq::empty()),
        }
    }

    /// The delivery to make when the server asks for data: none while a
    /// disconnect of the session's own is under way.
    pub open spec fn pull(self, requested: u64, capacity: u32) -> Option<PullPlan> {
        if self.ourdisconnect {
            None
        } else {
            Some(
                PullPlan {
                    len: pull_len(self.fmt, requested, capacity) as u32,
                    stride: self.fmt.spec_stride() as u32,
                },
            )
        }
    }
}

/// The reason with which a request failed, if it did.
pub open spec fn failure_reason(outcome: Result<(), String>) -> Option<Seq<char>> {
    match outcome {
        Ok(_) => None,
        Err(reason) => Some(reason@),
    }
}

/// A streaming session.
pub struct Session {
    fmt: WaveFormat,
    ourdisconnect: bool,
    pending: Pending,
}

impl View for Session {
    type V = SessionView;

    closed spec fn view(&self) -> SessionView {
        SessionView { fmt: self.fmt, ourdisconnect: self.ourdisconnect, pending: self.pending }
    }
}

fn report_failure(actions: &mut Vec<SessionAction>, text: String)
    ensures
        final(actions).deep_view() == old(actions).deep_view() + failure_report(text@),
{
    actions.push(SessionAction::Log { layer: LogLayer::Default, text });
    actions.push(SessionAction::NotifyStop);
    assert(actions.deep_view() =~= old(actions).deep_view() + failure_report(text@));
}

fn request_for(fmt: WaveFormat, inactive: bool) -> (request: ConnectRequest)
    ensures
        request == connect_request(fmt, inactive),
{
    ConnectRequest {
        format: db_format_to_pipewire(fmt),
        channels: fmt.channels as u32,
        rate: fmt.samplerate,
        flags: StreamFlags { autoconnect: true, map_buffers: true, rt_process: true, inactive },
    }
}

impl Session {
    /// A session that is to stream `init_fmt`. Nothing is suppressed and
    /// nothing is outstanding.
    pub fn new(init_fmt: WaveFormat) -> (session: Session)
        ensures
            session@ == SessionView::new(init_fmt),
    {
        Session { fmt: init_fmt, ourdisconnect: false, pending: Pending::Nothing }
    }

    /// The format the stream was last asked to carry.
    pub fn format(&self) -> (fmt: WaveFormat)
        ensures
            fmt == self@.fmt,
    {
        self.fmt
    }

    /// Whether a disconnect of the session's own making is under way.
    pub fn suppressed(&self) -> (suppressed: bool)
        ensures
            suppressed == self@.ourdisconnect,
    {
        self.ourdisconnect
    }

    /// The request whose outcome is outstanding.
    pub fn pending(&self) -> (pending: Pending)
        ensures
            pending == self@.pending,
    {
        self.pending
    }

    /// The stream could not be created, for `reason`. The failure is logged,
    /// the host is told to stop, and the session ends.
    pub fn stream_create_failed(&mut self, reason: &str) -> (actions: Vec<SessionAction>)
        ensures
            (final(self)@, actions.deep_view()) == old(self)@.stream_create_failed(reason@),
    {
        let mut actions: Vec<SessionAction> = Vec::new();
        let text = "Pipewire: Unable to create stream, ".to_owned().concat(reason).concat("\n");
        report_failure(&mut actions, text);
        actions.push(SessionAction::Quit);
        assert(actions.deep_view() =~= old(self)@.stream_create_failed(reason@).1);
        actions
    }

    /// The stream exists and its listeners are in place: asks for the first
    /// connection. A format without a sample encoding is not connected; it is
    /// reported as a failed connection and the session ends.
    pub fn start(&mut self) -> (actions: Vec<SessionAction>)
        ensures
            (final(self)@, actions.deep_view()) == old(self)@.start(),
    {
        let mut actions: Vec<SessionAction> = Vec::new();
        match db_format_to_pipewire(self.fmt) {
            AudioFormat::Unknown => {
                self.pending = Pending::Nothing;
                let text = "Pipewire: Unable to connect stream, ".to_owned().concat(
                    UNSUPPORTED_FORMAT,
                ).concat("\n");
                report_failure(&mut actions, text);
                actions.push(SessionAction::Quit);
            },
            _ => {
                self.pending = Pending::InitialConnect;
                actions.push(SessionAction::Connect(request_for(self.fmt, false)));
            },
        }
        assert(actions.deep_view() =~= old(self)@.start().1);
        actions
    }

    /// The connect request has ended: `Ok`, or `Err` with the reason. A first
    /// connection that fails ends the session; one that fails in a format
    /// change is reported and the session goes on. After a format change
    /// that went well the rate hint is updated.
    pub fn connected(&mut self, outcome: Result<(), String>) -> (actions: Vec<SessionAction>)
        ensures
            (final(self)@, actions.deep_view()) == old(self)@.connected(failure_reason(outcome)),
    {
        let mut actions: Vec<SessionAction> = Vec::new();
        let ghost failure = failure_reason(outcome);
        match self.pending {
            Pending::InitialConnect => {
                self.pending = Pending::Nothing;
                match outcome {
                    Ok(_) => {},
                    Err(reason) => {
                        let text = "Pipewire: Unable to connect stream, ".to_owned().concat(
                            reason.as_str(),
                        ).concat("\n");
                        report_failure(&mut actions, text);
                        actions.push(SessionAction::Quit);
                    },
                }
            },
            Pending::Reconnect { samplerate } => {
                self.pending = Pending::Nothing;
                match outcome {
                    Ok(_) => {
                        actions.push(SessionAction::UpdateProperties(rate_properties(samplerate)));
                    },
                    Err(_) => {
                        report_failure(
                            &mut actions,
                            "Pipewire: Unable to connect stream, terminating\n".to_owned(),
                        );
                    },
                }
            },
            _ => {},
        }
        assert(actions.deep_view() =~= old(self)@.connected(failure).1);
        actions
    }

    /// The disconnect request has ended, well or not.
    pub fn disconnected(&mut self, ok: bool) -> (actions: Vec<SessionAction>)
        ensures
            (final(self)@, actions.deep_view()) == old(self)@.disconnected(ok),
    {
        let mut actions: Vec<SessionAction> = Vec::new();
        match self.pending {
            Pending::Disconnect { format, state } => {
                if !ok {
                    self.pending = Pending::Nothing;
                } else {
                    self.fmt = format;
                    match db_format_to_pipewire(format) {
                        AudioFormat::Unknown => {
                            self.pending = Pending::Nothing;
                            report_failure(
                                &mut actions,
                                "Pipewire: Unable to connect stream, terminating\n".to_owned(),
                            );
                        },
                        _ => {
                            self.pending = Pending::Reconnect { samplerate: format.samplerate };
                            let inactive = state.as_raw() != PlaybackState::playing().as_raw();
                            actions.push(SessionAction::Connect(request_for(format, inactive)));
                        },
                    }
                }
            },
            _ => {},
        }
        assert(actions.deep_view() =~= old(self)@.disconnected(ok).1);
        actions
    }

    /// Handles one message from the control thread.
    pub fn message(&mut self, msg: PwThreadMessage) -> (actions: Vec<SessionAction>)
        ensures
            (final(self)@, actions.deep_view()) == old(self)@.message(msg@),
    {
        let mut actions: Vec<SessionAction> = Vec::new();
        let ghost view = msg@;
        match msg {
            PwThreadMessage::Terminate => {
                self.ourdisconnect = true;
                actions.push(SessionAction::Quit);
            },
            PwThreadMessage::Pause => {
                actions.push(SessionAction::SetActive(false));
            },
            PwThreadMessage::Unpause => {
                actions.push(SessionAction::SetActive(true));
            },
            PwThreadMessage::SetFmt { format, state } => {
                self.ourdisconnect = true;
                self.pending = Pending::Disconnect { format, state };
                actions.push(SessionAction::Disconnect);
            },
            PwThreadMessage::SetVol { newvol } => {
                actions.push(SessionAction::SetVolume { amp: newvol, channels: self.fmt.channels });
            },
            PwThreadMessage::SetTitle(title) => {
                actions.push(SessionAction::UpdateProperties(title_properties(title)));
            },
        }
        assert(actions.deep_view() =~= old(self)@.message(view).1);
        actions
    }

    /// Handles a change of the stream's state. An error is reported. A
    /// disconnect is reported unless the session brought it about itself.
    /// `Connecting` closes such an episode: later disconnects count again.
    pub fn state_changed(&mut self, new: StreamState) -> (actions: Vec<SessionAction>)
        ensures
            (final(self)@, actions.deep_view()) == old(self)@.state_changed(new@),
    {
        let mut actions: Vec<SessionAction> = Vec::new();
        let ghost view = new@;
        match new {
            StreamState::Error(reason) => {
                let text = "Pipewire playback error: ".to_owned().concat(reason.as_str());
                report_failure(&mut actions, text);
            },
            StreamState::Unconnected => {
                if !self.ourdisconnect {
                    report_failure(&mut actions, "Pipewire disconnected.".to_owned());
                }
            },
            StreamState::Connecting => {
                self.ourdisconnect = false;
            },
            _ => {},
        }
        assert(actions.deep_view() =~= old(self)@.state_changed(view).1);
        actions
    }

    /// Plans the delivery for a data-ready callback in which the server asks
    /// for `requested` frames (0: it names none) and offers a buffer of
    /// `capacity` bytes. `None` while a disconnect of the session's own is
    /// under way: nothing is delivered then.
    pub fn pull(&self, requested: u64, capacity: u32) -> (plan: Option<PullPlan>)
        ensures
            plan == self@.pull(requested, capacity),
    {
        if self.ourdisconnect {
            None
        } else {
            Some(plan_pull(self.fmt, requested, capacity))
        }
    }
}

/// A format without a sample encoding is never connected. At the start of
/// a session it is reported as a failed connection and the session ends; in
/// a format change it is reported once the stream is disconnected. No
/// connect request is made either way.
pub proof fn unknown_format_is_not_connected(
    session: SessionView,
    format: WaveFormat,
    state: PlaybackState,
)
    requires
        !(format.bps == 8 || format.bps == 16 || format.bps == 24 || format.bps == 32),
    ensures
        SessionView::new(format).start().1 == failure_report(
            connect_failure_text(UNSUPPORTED_FORMAT@),
        ).push(ActionView::Quit),
        forall|i: int|
            0 <= i < SessionView::new(format).start().1.len() ==> !(
            #[trigger] SessionView::new(format).start().1[i] is Connect),
        ({
            let changing = session.message(MessageView::SetFmt { format, state }).0;
            &&& changing.disconnected(true).1 == failure_report(reconnect_failure_text())
            &&& changing.disconnected(false).1 == Seq::<ActionView>::empty()
        }),
{
}

/// A format with a sample encoding is connected with that encoding, its
/// channel count and its rate, with the server choosing the sink, mapped
/// buffers and real-time processing; a reconnect starts inactive exactly when
/// playback is not under way.
pub proof fn known_format_is_connected(session: SessionView, format: WaveFormat, state: PlaybackState)
    requires
        format.bps == 8 || format.bps == 16 || format.bps == 24 || format.bps == 32,
    ensures
        SessionView::new(format).start().1 == seq![
            ActionView::Connect(connect_request(format, false)),
        ],
        ({
            let changing = session.message(MessageView::SetFmt { format, state }).0;
            let reconnect = changing.disconnected(true);
            &&& reconnect.0.fmt == format
            &&& reconnect.1 == seq![
                ActionView::Connect(connect_request(format, state != PlaybackState::spec_playing())),
            ]
            &&& reconnect.0.connected(None).1 == seq![
                ActionView::UpdateProperties(spec_rate_properties(format.samplerate)),
            ]
            &&& reconnect.0.connected(None).0.fmt == format
        }),
{
}

/// From a format change until the stream is seen connecting, the session's
/// own disconnect is in force: a disconnect is not reported and no data is
/// delivered, before and after the reconnect is asked for. Once the stream
/// is seen connecting, a disconnect is reported again.
pub proof fn own_disconnect_is_not_reported(
    session: SessionView,
    format: WaveFormat,
    state: PlaybackState,
    requested: u64,
    capacity: u32,
)
    ensures
        ({
            let asked = session.message(MessageView::SetFmt { format, state });
            let changing = asked.0;
            let reconnecting = changing.disconnected(true).0;
            let reopened = reconnecting.state_changed(StreamStateView::Connecting).0;
            &&& asked.1 == seq![ActionView::Disconnect]
            &&& changing.ourdisconnect
            &&& changing.state_changed(StreamStateView::Unconnected) == (
                changing,
                Seq::<ActionView>::empty(),
            )
            &&& changing.pull(requested, capacity) is None
            &&& reconnecting.ourdisconnect
            &&& reconnecting.state_changed(StreamStateView::Unconnected) == (
                reconnecting,
                Seq::<ActionView>::empty(),
            )
            &&& !reopened.ourdisconnect
            &&& reopened.state_changed(StreamStateView::Unconnected).1 == failure_report(
                disconnect_text(),
            )
            &&& reopened.pull(requested, capacity) is Some
        }),
{
}

/// Pausing, resuming, a new volume and a new title touch neither the
/// session's state nor the connection: each is one action on the stream as
/// it is.
pub proof fn light_messages_keep_the_connection(
    session: SessionView,
    newvol: Amplitude,
    title: Seq<char>,
)
    ensures
        session.message(MessageView::Pause) == (session, seq![ActionView::SetActive(false)]),
        session.message(MessageView::Unpause) == (session, seq![ActionView::SetActive(true)]),
        session.message(MessageView::SetVol { newvol }) == (
            session,
            seq![ActionView::SetVolume { amp: newvol, channels: session.fmt.channels }],
        ),
        session.message(MessageView::SetTitle(title)) == (
            session,
            seq![ActionView::UpdateProperties(spec_title_properties(title))],
        ),
{
}

} // verus!
