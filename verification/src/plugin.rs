//! The control plane: the playback state machine that the host drives from
//! its own thread. An operation never touches the audio server itself; it
//! updates the state and queues commands (start a session, send it a
//! message, wait for it to end) that the caller performs in order.

use crate::devices::{sound_cards, RegistryEntry, SoundCard};
use crate::format::{default_waveformat, get_default_waveformat, WaveFormat};
use crate::host::{DB_TF_Error, HostEvent, LogLayer, PlaybackState};
use crate::message::{MessageView, PwThreadMessage};
use crate::volume::Amplitude;
use vstd::prelude::*;

verus! {

/// What the control plane asks its caller to do.
#[derive(Clone, Debug, PartialEq, Eq)]
pub enum Command {
    /// Bring up the audio server's client library.
    LibraryInit,
    /// Shut the audio server's client library down.
    LibraryDeinit,
    /// Start a streaming session with this format, on a thread of its own.
    Spawn(WaveFormat),
    /// Put a message into the session's queue.
    Send(PwThreadMessage),
    /// Wait until the session's thread has ended, then report through
    /// [`OutputPlugin::thread_joined`].
    Join,
    /// Read the host's volume, then report through
    /// [`OutputPlugin::volume_read`].
    QueryVolume,
    /// Have the host format the current title, then report through
    /// [`OutputPlugin::title_read`].
    QueryTitle,
    /// Write a line to the host's log.
    Log { layer: LogLayer, text: String },
}

/// A command with its texts as sequences of characters.
pub enum CommandView {
    LibraryInit,
    LibraryDeinit,
    Spawn(WaveFormat),
    Send(MessageView),
    Join,
    QueryVolume,
    QueryTitle,
    Log { layer: LogLayer, text: Seq<char> },
}

impl View for Command {
    type V = CommandView;

    open spec fn view(&self) -> CommandView {
        match *self {
            Command::LibraryInit => CommandView::LibraryInit,
            Command::LibraryDeinit => CommandView::LibraryDeinit,
            Command::Spawn(fmt) => CommandView::Spawn(fmt),
            Command::Send(msg) => CommandView::Send(msg@),
            Command::Join => CommandView::Join,
            Command::QueryVolume => CommandView::QueryVolume,
            Command::QueryTitle => CommandView::QueryTitle,
            Command::Log { layer, text } => CommandView::Log { layer, text: text@ },
        }
    }
}

impl DeepView for Command {
    type V = CommandView;

    open spec fn deep_view(&self) -> CommandView {
        self.view()
    }
}

/// Log line for a session thread that did not end in order.
pub open spec fn lingering_text() -> Seq<char> {
    "Playback thread lingering!"@
}

/// The title of a formatting outcome, if the host produced one.
pub open spec fn title_of(outcome: Result<String, DB_TF_Error>) -> Option<Seq<char>> {
    match outcome {
        Ok(title) => Some(title@),
        Err(_) => None,
    }
}

/// State of the control plane as contracts see it.
pub struct PluginView {
    /// The format in force.
    pub fmt: WaveFormat,
    /// The playback state reported to the host.
    pub state: PlaybackState,
    /// Whether a session exists.
    pub thread: bool,
    /// The format a new session starts with, once one was chosen.
    pub requested_fmt: Option<WaveFormat>,
    /// Commands queued for the caller, oldest first.
    pub commands: Seq<CommandView>,
}

impl PluginView {
    /// The control plane at load: stopped, no session, no format requested,
    /// nothing queued.
    pub open spec fn new(fmt: WaveFormat) -> PluginView {
        PluginView {
            fmt,
            state: PlaybackState::spec_stopped(),
            thread: false,
            requested_fmt: None,
            commands: Seq::empty(),
        }
    }

    /// A session exists whenever playback is not stopped.
    pub open spec fn wf(self) -> bool {
        self.state != PlaybackState::spec_stopped() ==> self.thread
    }

    /// Queues one command.
    pub open spec fn queue(self, command: CommandView) -> PluginView {
        PluginView { commands: self.commands.push(command), ..self }
    }

    /// Sends a message to the session, if there is one.
    pub open spec fn msgtothread(self, msg: MessageView) -> PluginView {
        if self.thread {
            self.queue(CommandView::Send(msg))
        } else {
            self
        }
    }

    /// Ends the session, if there is one: it is told to terminate and its
    /// thread is waited for.
    pub open spec fn end_session(self) -> PluginView {
        if self.thread {
            PluginView {
                thread: false,
                ..self.queue(CommandView::Send(MessageView::Terminate)).queue(CommandView::Join)
            }
        } else {
            self
        }
    }

    /// The format a new session starts with: the requested one, else the
    /// default.
    pub open spec fn start_format(self) -> WaveFormat {
        match self.requested_fmt {
            Some(fmt) => fmt,
            None => default_waveformat(),
        }
    }

    /// The client library of the audio server is to be brought up.
    pub open spec fn plugin_start(self) -> PluginView {
        self.queue(CommandView::LibraryInit)
    }

    /// The client library of the audio server is to be shut down.
    pub open spec fn plugin_stop(self) -> PluginView {
        self.queue(CommandView::LibraryDeinit)
    }

    /// A session is started with the start format, after any earlier one
    /// has ended; playback stays stopped.
    pub open spec fn init(self) -> PluginView {
        let fmt = self.start_format();
        PluginView {
            fmt,
            requested_fmt: Some(fmt),
            thread: true,
            state: PlaybackState::spec_stopped(),
            ..self.end_session().queue(CommandView::Spawn(fmt))
        }
    }

    /// A session is there, started now if need be.
    pub open spec fn ensure_session(self) -> PluginView {
        if self.thread {
            self
        } else {
            self.init()
        }
    }

    /// Playback is under way, with a session; no message is sent.
    pub open spec fn play(self) -> PluginView {
        PluginView { state: PlaybackState::spec_playing(), ..self.ensure_session() }
    }

    /// Playback is paused, with a session that was told so.
    pub open spec fn pause(self) -> PluginView {
        PluginView {
            state: PlaybackState::spec_paused(),
            ..self.ensure_session().msgtothread(MessageView::Pause)
        }
    }

    /// From paused, the session is told to resume and playback is under
    /// way; from any other state nothing changes.
    pub open spec fn unpause(self) -> PluginView {
        if self.state == PlaybackState::spec_paused() {
            PluginView {
                state: PlaybackState::spec_playing(),
                ..self.msgtothread(MessageView::Unpause)
            }
        } else {
            self
        }
    }

    /// The session is ended and playback is stopped.
    pub open spec fn stop(self) -> PluginView {
        PluginView { state: PlaybackState::spec_stopped(), ..self.end_session() }
    }

    /// The wait for the session's thread is over. If it did not end in
    /// order, that is logged; nothing else changes.
    pub open spec fn thread_joined(self, ok: bool) -> PluginView {
        if ok {
            self
        } else {
            self.queue(CommandView::Log { layer: LogLayer::Info, text: lingering_text() })
        }
    }

    /// The format that takes the place of `fmt`: the default one if `fmt` has
    /// no channels, else `fmt` itself.
    pub open spec fn effective_format(fmt: WaveFormat) -> WaveFormat {
        if fmt.channels == 0 {
            default_waveformat()
        } else {
            fmt
        }
    }

    /// The format in force becomes `fmt`, or the default if `fmt` has no
    /// channels, and the session is told to reconnect with it; nothing
    /// changes if `fmt` is the format in force.
    pub open spec fn setformat(self, fmt: WaveFormat) -> PluginView {
        if fmt == self.fmt {
            self
        } else {
            let adopted = PluginView::effective_format(fmt);
            PluginView { fmt: adopted, requested_fmt: Some(adopted), ..self }.msgtothread(
                MessageView::SetFmt { format: adopted, state: self.state },
            )
        }
    }

    /// A changed volume is to be read, a changed song is to have its title
    /// formatted; other events queue nothing.
    pub open spec fn message(self, event: HostEvent) -> PluginView {
        match event {
            HostEvent::VolumeChanged => self.queue(CommandView::QueryVolume),
            HostEvent::SongChanged => self.queue(CommandView::QueryTitle),
            HostEvent::Other => self,
        }
    }

    /// The volume that was read goes to the session.
    pub open spec fn volume_read(self, newvol: Amplitude) -> PluginView {
        self.msgtothread(MessageView::SetVol { newvol })
    }

    /// The title that was formatted goes to the session; without a title
    /// nothing happens.
    pub open spec fn title_read(self, title: Option<Seq<char>>) -> PluginView {
        match title {
            Some(text) => self.msgtothread(MessageView::SetTitle(text)),
            None => self,
        }
    }

    /// The queue is empty; nothing else has changed.
    pub open spec fn take_commands(self) -> PluginView {
        PluginView { commands: Seq::empty(), ..self }
    }
}

/// The control plane of the output. One exists per player; only the host's
/// control thread uses it.
pub struct OutputPlugin {
    fmt: WaveFormat,
    state: PlaybackState,
    thread: bool,
    requested_fmt: Option<WaveFormat>,
    commands: Vec<Command>,
}

impl View for OutputPlugin {
    type V = PluginView;

    closed spec fn view(&self) -> PluginView {
        PluginView {
            fmt: self.fmt,
            state: self.state,
            thread: self.thread,
            requested_fmt: self.requested_fmt,
            commands: self.commands.deep_view(),
        }
    }
}

impl OutputPlugin {
    /// The control plane at load, with the format the host's plugin record
    /// holds: stopped, no session, nothing queued.
    pub fn new(fmt: WaveFormat) -> (plugin: OutputPlugin)
        ensures
            plugin@ == PluginView::new(fmt),
    {
        let plugin = OutputPlugin {
            fmt,
            state: PlaybackState::stopped(),
            thread: false,
            requested_fmt: None,
            commands: Vec::new(),
        };
        assert(plugin.commands.deep_view() =~= Seq::empty());
        plugin
    }

    fn queue(&mut self, command: Command)
        ensures
            final(self)@ == old(self)@.queue(command@),
    {
        self.commands.push(command);
        assert(self.commands.deep_view() =~= old(self).commands.deep_view().push(command@));
    }

    fn msgtothread(&mut self, msg: PwThreadMessage)
        ensures
            final(self)@ == old(self)@.msgtothread(msg@),
    {
        if self.thread {
            self.queue(Command::Send(msg));
        }
    }

    fn end_session(&mut self)
        ensures
            final(self)@ == old(self)@.end_session(),
    {
        if self.thread {
            self.queue(Command::Send(PwThreadMessage::Terminate));
            self.queue(Command::Join);
            self.thread = false;
        }
    }

    /// The plugin was started: the audio server's client library is brought
    /// up.
    pub fn plugin_start(&mut self)
        ensures
            final(self)@ == old(self)@.plugin_start(),
    {
        self.queue(Command::LibraryInit);
    }

    /// The plugin was stopped: the audio server's client library is shut
    /// down.
    pub fn plugin_stop(&mut self)
        ensures
            final(self)@ == old(self)@.plugin_stop(),
    {
        self.queue(Command::LibraryDeinit);
    }

    /// Starts a session. It starts with the requested format, or with the
    /// default one if none was requested, which then counts as requested. A
    /// session that exists is ended first, so that there is never more than
    /// one. Playback is stopped afterwards: the session is ready, not
    /// playing. Returns the status 0.
    pub fn init(&mut self) -> (status: i32)
        ensures
            status == 0,
            final(self)@ == old(self)@.init(),
    {
        let fmt = match self.requested_fmt {
            Some(fmt) => fmt,
            None => get_default_waveformat(),
        };
        self.end_session();
        self.queue(Command::Spawn(fmt));
        self.requested_fmt = Some(fmt);
        self.fmt = fmt;
        self.thread = true;
        self.state = PlaybackState::stopped();
        0
    }

    /// Starts playback, and a session first if there is none. No message is
    /// sent: a new session starts active.
    pub fn play(&mut self)
        ensures
            final(self)@ == old(self)@.play(),
    {
        if !self.thread {
            self.init();
        }
        self.state = PlaybackState::playing();
    }

    /// Stops playback and ends the session: it is told to terminate and its
    /// thread is waited for. Afterwards playback is stopped and no session
    /// remains, however the wait ends.
    pub fn stop(&mut self)
        ensures
            final(self)@ == old(self)@.stop(),
            final(self)@.state == PlaybackState::spec_stopped(),
            !final(self)@.thread,
    {
        self.end_session();
        self.state = PlaybackState::stopped();
    }

    /// Reports how the wait for the session's thread ended. A thread that
    /// did not end in order is logged as lingering; state and session are
    /// as `stop` left them either way.
    pub fn thread_joined(&mut self, ok: bool)
        ensures
            final(self)@ == old(self)@.thread_joined(ok),
            final(self)@.state == old(self)@.state,
            final(self)@.thread == old(self)@.thread,
    {
        if !ok {
            self.queue(
                Command::Log { layer: LogLayer::Info, text: "Playback thread lingering!".to_owned() },
            );
        }
    }

    /// Releases the output: the same as `stop`.
    pub fn free(&mut self)
        ensures
            final(self)@ == old(self)@.stop(),
    {
        self.stop();
    }

    /// Pauses playback, starting a session first if there is none.
    pub fn pause(&mut self)
        ensures
            final(self)@ == old(self)@.pause(),
    {
        if !self.thread {
            self.init();
        }
        self.msgtothread(PwThreadMessage::Pause);
        self.state = PlaybackState::paused();
    }

    /// Resumes playback if it is paused; does nothing at all otherwise.
    pub fn unpause(&mut self)
        ensures
            final(self)@ == old(self)@.unpause(),
            old(self)@.state != PlaybackState::spec_paused() ==> final(self)@ == old(self)@,
    {
        if self.state.as_raw() == PlaybackState::paused().as_raw() {
            self.msgtothread(PwThreadMessage::Unpause);
            self.state = PlaybackState::playing();
        }
    }

    /// The playback state, as the raw value the host expects. Reads the
    /// state only; no session is involved.
    pub fn getstate(&self) -> (raw: u32)
        ensures
            raw == self@.state.0,
    {
        self.state.as_raw()
    }

    /// The playback state.
    pub fn state(&self) -> (state: PlaybackState)
        ensures
            state == self@.state,
    {
        self.state
    }

    /// The format in force.
    pub fn format(&self) -> (fmt: WaveFormat)
        ensures
            fmt == self@.fmt,
    {
        self.fmt
    }

    /// The format a new session starts with, once one was chosen.
    pub fn requested_format(&self) -> (fmt: Option<WaveFormat>)
        ensures
            fmt == self@.requested_fmt,
    {
        self.requested_fmt
    }

    /// Whether a session exists.
    pub fn has_thread(&self) -> (thread: bool)
        ensures
            thread == self@.thread,
    {
        self.thread
    }

    /// Changes the format. A format equal to the one in force changes
    /// nothing and sends nothing. Otherwise the format (the default one, if
    /// `fmt` has no channels) is put in force and kept for the next session,
    /// and a session that exists is told to reconnect with it; the message
    /// carries the playback state of this moment.
    pub fn setformat(&mut self, fmt: WaveFormat)
        ensures
            final(self)@ == old(self)@.setformat(fmt),
            fmt == old(self)@.fmt ==> final(self)@ == old(self)@,
    {
        if fmt == self.fmt {
            return ;
        }
        let adopted = if fmt.channels == 0 {
            get_default_waveformat()
        } else {
            fmt
        };
        self.fmt = adopted;
        self.requested_fmt = Some(adopted);
        self.msgtothread(PwThreadMessage::SetFmt { format: adopted, state: self.state });
    }

    /// Reacts to an event of the host. A changed volume is read from the
    /// host, a changed song has its title formatted; what was read comes back
    /// through `volume_read` and `title_read`. Every other event is passed
    /// over.
    #[allow(unused_variables)]
    pub fn message(&mut self, event: HostEvent, ctx: usize, p1: u32, p2: u32)
        ensures
            final(self)@ == old(self)@.message(event),
    {
        match event {
            HostEvent::VolumeChanged => self.queue(Command::QueryVolume),
            HostEvent::SongChanged => self.queue(Command::QueryTitle),
            HostEvent::Other => {},
        }
    }

    /// The host's volume was read: the session, if there is one, is told to
    /// apply it.
    pub fn volume_read(&mut self, newvol: Amplitude)
        ensures
            final(self)@ == old(self)@.volume_read(newvol),
    {
        self.msgtothread(PwThreadMessage::SetVol { newvol });
    }

    /// The host has formatted the title, or failed to. A title goes to the
    /// session, if there is one; a failure is passed over in silence.
    pub fn title_read(&mut self, title: Result<String, DB_TF_Error>)
        ensures
            final(self)@ == old(self)@.title_read(title_of(title)),
    {
        match title {
            Ok(text) => self.msgtothread(PwThreadMessage::SetTitle(text)),
            Err(_) => {},
        }
    }

    /// Hands out the queued commands, oldest first, and empties the queue.
    pub fn take_commands(&mut self) -> (commands: Vec<Command>)
        ensures
            commands.deep_view() == old(self)@.commands,
            final(self)@ == old(self)@.take_commands(),
    {
        let mut commands: Vec<Command> = Vec::new();
        std::mem::swap(&mut commands, &mut self.commands);
        assert(self.commands.deep_view() =~= Seq::empty());
        commands
    }

    /// The output devices to offer for the entries that a listing of the
    /// audio server's registry brought.
    pub fn enum_soundcards(&self, entries: &Vec<RegistryEntry>) -> (cards: Vec<SoundCard>)
        ensures
            cards.deep_view() == sound_cards(entries.deep_view()),
    {
        crate::devices::enum_soundcards(entries)
    }
}

/// Setting the format that is already in force changes nothing: no message
/// is sent and no state is touched, with or without a session.
pub proof fn setformat_of_current_format_is_idle(plugin: PluginView)
    ensures
        plugin.setformat(plugin.fmt) == plugin,
{
}

/// A format change that does take place sends exactly one message, and only
/// to a session that exists.
pub proof fn setformat_sends_one_message(plugin: PluginView, fmt: WaveFormat)
    requires
        fmt != plugin.fmt,
    ensures
        ({
            let after = plugin.setformat(fmt);
            let adopted = PluginView::effective_format(fmt);
            &&& after.fmt == adopted
            &&& after.requested_fmt == Some(adopted)
            &&& adopted.channels >= 1
            &&& after.state == plugin.state
            &&& after.thread == plugin.thread
            &&& plugin.thread ==> after.commands == plugin.commands.push(
                CommandView::Send(MessageView::SetFmt { format: adopted, state: plugin.state }),
            )
            &&& !plugin.thread ==> after.commands == plugin.commands
        }),
{
}

/// After `stop` playback is stopped and no session remains, and the report
/// of how the wait for the thread ended changes neither, whether the thread
/// ended in order or not.
pub proof fn stop_leaves_no_session(plugin: PluginView, ok: bool)
    ensures
        plugin.stop().state == PlaybackState::spec_stopped(),
        !plugin.stop().thread,
        plugin.stop().thread_joined(ok).state == PlaybackState::spec_stopped(),
        !plugin.stop().thread_joined(ok).thread,
{
}

/// `unpause` does nothing unless playback is paused: the state stays and no
/// message is sent. From paused it leads to playing.
pub proof fn unpause_acts_only_when_paused(plugin: PluginView)
    ensures
        plugin.state != PlaybackState::spec_paused() ==> plugin.unpause() == plugin,
        plugin.state == PlaybackState::spec_paused() ==> plugin.unpause().state
            == PlaybackState::spec_playing(),
{
}

/// On a control plane fresh from load, `play` starts a session with the
/// default format and queues nothing else.
pub proof fn first_play_starts_default_session(fmt: WaveFormat)
    ensures
        PluginView::new(fmt).play().commands == seq![CommandView::Spawn(default_waveformat())],
        PluginView::new(fmt).play().fmt == default_waveformat(),
        PluginView::new(fmt).play().state == PlaybackState::spec_playing(),
        PluginView::new(fmt).play().thread,
{
    assert(PluginView::new(fmt).play().commands =~= seq![
        CommandView::Spawn(default_waveformat()),
    ]);
}

/// Sessions alive once the commands have been performed, given how many
/// were alive before: a spawn adds one, a completed wait takes one away.
pub open spec fn sessions_after(alive: int, commands: Seq<CommandView>) -> int
    decreases commands.len(),
{
    if commands.len() == 0 {
        alive
    } else {
        let before = sessions_after(alive, commands.drop_last());
        match commands.last() {
            CommandView::Spawn(_) => before + 1,
            CommandView::Join => before - 1,
            _ => before,
        }
    }
}

/// The number of sessions alive that `plugin` accounts for.
pub open spec fn session_count(plugin: PluginView) -> int {
    if plugin.thread {
        1
    } else {
        0
    }
}

/// Whether performing `commands` from `alive` sessions never leaves more
/// than one alive, nor asks to send to or wait for a session when there is
/// none.
pub open spec fn one_session_at_a_time(alive: int, commands: Seq<CommandView>) -> bool {
    forall|n: int|
        0 <= n <= commands.len() ==> {
            &&& 0 <= #[trigger] sessions_after(alive, commands.take(n)) <= 1
            &&& n < commands.len() && (commands[n] is Send || commands[n] is Join)
                ==> sessions_after(alive, commands.take(n)) == 1
        }
}

/// The commands one operation queues, given the queue before and after it.
pub open spec fn queued_by(before: PluginView, after: PluginView) -> Seq<CommandView> {
    after.commands.subrange(before.commands.len() as int, after.commands.len() as int)
}

/// Whether the step from `before` to `after` keeps the queue it found,
/// keeps a session wherever playback is not stopped, and queues commands that
/// hold sessions to one at a time and end with as many alive as `after`
/// accounts for.
pub open spec fn orderly_step(before: PluginView, after: PluginView) -> bool {
    &&& before.commands.len() <= after.commands.len()
    &&& after.commands.take(before.commands.len() as int) == before.commands
    &&& after.wf()
    &&& one_session_at_a_time(session_count(before), queued_by(before, after))
    &&& sessions_after(session_count(before), queued_by(before, after)) == session_count(after)
}

proof fn queued_none(before: PluginView, after: PluginView)
    requires
        after.commands == before.commands,
        after.thread == before.thread,
        after.wf(),
    ensures
        orderly_step(before, after),
{
    let queued = queued_by(before, after);
    assert(queued.len() == 0);
    assert(after.commands.take(before.commands.len() as int) =~= before.commands);
    assert forall|n: int| 0 <= n <= queued.len() implies {
        &&& 0 <= #[trigger] sessions_after(session_count(before), queued.take(n)) <= 1
        &&& n < queued.len() && (queued[n] is Send || queued[n] is Join) ==> sessions_after(
            session_count(before),
            queued.take(n),
        ) == 1
    } by {
        assert(queued.take(n).len() == 0);
    }
}

proof fn sessions_after_push(alive: int, commands: Seq<CommandView>, last: CommandView)
    ensures
        sessions_after(alive, commands.push(last)) == match last {
            CommandView::Spawn(_) => sessions_after(alive, commands) + 1,
            CommandView::Join => sessions_after(alive, commands) - 1,
            _ => sessions_after(alive, commands),
        },
{
    assert(commands.push(last).drop_last() =~= commands);
}

proof fn orderly_queue(alive: int, commands: Seq<CommandView>, last: CommandView)
    requires
        one_session_at_a_time(alive, commands),
        last is Spawn ==> sessions_after(alive, commands) == 0,
        last is Send || last is Join ==> sessions_after(alive, commands) == 1,
    ensures
        one_session_at_a_time(alive, commands.push(last)),
{
    let longer = commands.push(last);
    sessions_after_push(alive, commands, last);
    assert(commands.take(commands.len() as int) =~= commands);
    assert forall|n: int| 0 <= n <= longer.len() implies {
        &&& 0 <= #[trigger] sessions_after(alive, longer.take(n)) <= 1
        &&& n < longer.len() && (longer[n] is Send || longer[n] is Join) ==> sessions_after(
            alive,
            longer.take(n),
        ) == 1
    } by {
        if n <= commands.len() {
            assert(longer.take(n) =~= commands.take(n));
            if n < commands.len() {
                assert(longer[n] == commands[n]);
            }
        } else {
            assert(longer.take(n) =~= longer);
        }
    }
}

proof fn orderly_nothing(alive: int)
    requires
        0 <= alive <= 1,
    ensures
        one_session_at_a_time(alive, Seq::empty()),
{
    let none = Seq::<CommandView>::empty();
    assert forall|n: int| 0 <= n <= none.len() implies {
        &&& 0 <= #[trigger] sessions_after(alive, none.take(n)) <= 1
        &&& n < none.len() && (none[n] is Send || none[n] is Join) ==> sessions_after(
            alive,
            none.take(n),
        ) == 1
    } by {
        assert(none.take(n).len() == 0);
    }
}

proof fn queued_some(before: PluginView, after: PluginView, queued: Seq<CommandView>)
    requires
        after.commands == before.commands + queued,
    ensures
        queued_by(before, after) == queued,
        before.commands.len() <= after.commands.len(),
        after.commands.take(before.commands.len() as int) == before.commands,
{
    assert(queued_by(before, after) =~= queued);
    assert(after.commands.take(before.commands.len() as int) =~= before.commands);
}

/// Every operation of the control plane is an orderly step: at no point of
/// the commands it queues is more than one session alive, a new session is
/// started only after the wait for the one before, messages go only to a
/// session that is alive, and afterwards a session exists whenever playback
/// is not stopped.
pub proof fn operations_are_orderly(
    plugin: PluginView,
    fmt: WaveFormat,
    event: HostEvent,
    newvol: Amplitude,
    title: Option<Seq<char>>,
    ok: bool,
)
    requires
        plugin.wf(),
    ensures
        PluginView::new(fmt).wf(),
        orderly_step(plugin, plugin.init()),
        orderly_step(plugin, plugin.play()),
        orderly_step(plugin, plugin.pause()),
        orderly_step(plugin, plugin.unpause()),
        orderly_step(plugin, plugin.stop()),
        orderly_step(plugin, plugin.thread_joined(ok)),
        orderly_step(plugin, plugin.setformat(fmt)),
        orderly_step(plugin, plugin.message(event)),
        orderly_step(plugin, plugin.volume_read(newvol)),
        orderly_step(plugin, plugin.title_read(title)),
        orderly_step(plugin, plugin.plugin_start()),
        orderly_step(plugin, plugin.plugin_stop()),
{
    let alive = session_count(plugin);
    let none = Seq::<CommandView>::empty();
    orderly_nothing(alive);
    let terminate = CommandView::Send(MessageView::Terminate);
    let start = plugin.start_format();
    // init
    if plugin.thread {
        let queued = seq![terminate, CommandView::Join, CommandView::Spawn(start)];
        orderly_queue(alive, none, terminate);
        sessions_after_push(alive, none, terminate);
        orderly_queue(alive, none.push(terminate), CommandView::Join);
        sessions_after_push(alive, none.push(terminate), CommandView::Join);
        orderly_queue(alive, none.push(terminate).push(CommandView::Join), CommandView::Spawn(start));
        sessions_after_push(
            alive,
            none.push(terminate).push(CommandView::Join),
            CommandView::Spawn(start),
        );
        assert(queued =~= none.push(terminate).push(CommandView::Join).push(
            CommandView::Spawn(start),
        ));
        assert(plugin.init().commands =~= plugin.commands + queued);
        queued_some(plugin, plugin.init(), queued);
    } else {
        let queued = seq![CommandView::Spawn(start)];
        orderly_queue(alive, none, CommandView::Spawn(start));
        sessions_after_push(alive, none, CommandView::Spawn(start));
        assert(queued =~= none.push(CommandView::Spawn(start)));
        assert(plugin.init().commands =~= plugin.commands + queued);
        queued_some(plugin, plugin.init(), queued);
        // play and pause start the session the same way
        assert(plugin.play().commands == plugin.init().commands);
        queued_some(plugin, plugin.play(), queued);
        let paused = seq![CommandView::Spawn(start), CommandView::Send(MessageView::Pause)];
        orderly_queue(alive, queued, CommandView::Send(MessageView::Pause));
        sessions_after_push(alive, queued, CommandView::Send(MessageView::Pause));
        assert(paused =~= queued.push(CommandView::Send(MessageView::Pause)));
        assert(plugin.pause().commands =~= plugin.commands + paused);
        queued_some(plugin, plugin.pause(), paused);
    }
    // play, pause, unpause with a session
    if plugin.thread {
        queued_none(plugin, plugin.play());
        one_message(plugin, plugin.pause(), MessageView::Pause);
        if plugin.state == PlaybackState::spec_paused() {
            one_message(plugin, plugin.unpause(), MessageView::Unpause);
        }
    }
    if !(plugin.thread && plugin.state == PlaybackState::spec_paused()) {
        queued_none(plugin, plugin.unpause());
    }
    // stop
    if plugin.thread {
        let queued = seq![terminate, CommandView::Join];
        orderly_queue(alive, none, terminate);
        sessions_after_push(alive, none, terminate);
        orderly_queue(alive, none.push(terminate), CommandView::Join);
        sessions_after_push(alive, none.push(terminate), CommandView::Join);
        assert(queued =~= none.push(terminate).push(CommandView::Join));
        assert(plugin.stop().commands =~= plugin.commands + queued);
        queued_some(plugin, plugin.stop(), queued);
    } else {
        queued_none(plugin, plugin.stop());
    }
    // the operations that queue at most one command and keep the session
    let lingering = CommandView::Log { layer: LogLayer::Info, text: lingering_text() };
    if ok {
        queued_none(plugin, plugin.thread_joined(ok));
    } else {
        one_other(plugin, plugin.thread_joined(ok), lingering);
    }
    if fmt == plugin.fmt || !plugin.thread {
        queued_none(plugin, plugin.setformat(fmt));
    } else {
        one_message(
            plugin,
            plugin.setformat(fmt),
            MessageView::SetFmt { format: PluginView::effective_format(fmt), state: plugin.state },
        );
    }
    match event {
        HostEvent::VolumeChanged => one_other(plugin, plugin.message(event), CommandView::QueryVolume),
        HostEvent::SongChanged => one_other(plugin, plugin.message(event), CommandView::QueryTitle),
        HostEvent::Other => queued_none(plugin, plugin.message(event)),
    }
    if plugin.thread {
        one_message(plugin, plugin.volume_read(newvol), MessageView::SetVol { newvol });
    } else {
        queued_none(plugin, plugin.volume_read(newvol));
    }
    match title {
        Some(text) => {
            if plugin.thread {
                one_message(plugin, plugin.title_read(title), MessageView::SetTitle(text));
            } else {
                queued_none(plugin, plugin.title_read(title));
            }
        },
        None => queued_none(plugin, plugin.title_read(title)),
    }
    one_other(plugin, plugin.plugin_start(), CommandView::LibraryInit);
    one_other(plugin, plugin.plugin_stop(), CommandView::LibraryDeinit);
}

proof fn one_message(before: PluginView, after: PluginView, msg: MessageView)
    requires
        before.thread,
        after.thread,
        after.wf(),
        after.commands == before.commands.push(CommandView::Send(msg)),
    ensures
        orderly_step(before, after),
{
    let alive = session_count(before);
    let none = Seq::<CommandView>::empty();
    orderly_nothing(alive);
    orderly_queue(alive, none, CommandView::Send(msg));
    sessions_after_push(alive, none, CommandView::Send(msg));
    let queued = seq![CommandView::Send(msg)];
    assert(queued =~= none.push(CommandView::Send(msg)));
    assert(after.commands =~= before.commands + queued);
    queued_some(before, after, queued);
}

proof fn one_other(before: PluginView, after: PluginView, command: CommandView)
    requires
        after.thread == before.thread,
        after.wf(),
        !(command is Spawn || command is Send || command is Join),
        after.commands == before.commands.push(command),
    ensures
        orderly_step(before, after),
{
    let alive = session_count(before);
    let none = Seq::<CommandView>::empty();
    orderly_nothing(alive);
    orderly_queue(alive, none, command);
    sessions_after_push(alive, none, command);
    let queued = seq![command];
    assert(queued =~= none.push(command));
    assert(after.commands =~= before.commands + queued);
    queued_some(before, after, queued);
}

} // verus!
