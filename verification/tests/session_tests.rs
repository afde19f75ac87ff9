use ddb_pipewire::format::{AudioFormat, WaveFormat};
use ddb_pipewire::host::{LogLayer, PlaybackState};
use ddb_pipewire::message::PwThreadMessage;
use ddb_pipewire::props::{Property, PropertyKey};
use ddb_pipewire::pull::PullPlan;
use ddb_pipewire::session::{
    ConnectRequest, Pending, Session, SessionAction, StreamFlags, StreamState,
};
use ddb_pipewire::volume::Amplitude;

fn fmt(samplerate: u32, bps: u8, channels: u8) -> WaveFormat {
    WaveFormat { samplerate, bps, channels, channelmask: 3, is_float: false, is_bigendian: false }
}

fn connect(format: AudioFormat, channels: u32, rate: u32, inactive: bool) -> SessionAction {
    SessionAction::Connect(ConnectRequest {
        format,
        channels,
        rate,
        flags: StreamFlags { autoconnect: true, map_buffers: true, rt_process: true, inactive },
    })
}

fn report(text: &str) -> Vec<SessionAction> {
    vec![
        SessionAction::Log { layer: LogLayer::Default, text: text.to_string() },
        SessionAction::NotifyStop,
    ]
}

fn set_fmt(format: WaveFormat, state: PlaybackState) -> PwThreadMessage {
    PwThreadMessage::SetFmt { format, state }
}

#[test]
fn new_session_is_idle() {
    let s = Session::new(fmt(44100, 16, 2));
    assert_eq!(s.format(), fmt(44100, 16, 2));
    assert!(!s.suppressed());
    assert_eq!(s.pending(), Pending::Nothing);
}

#[test]
fn start_connects_with_the_initial_format() {
    let mut s = Session::new(fmt(44100, 16, 2));
    assert_eq!(s.start(), vec![connect(AudioFormat::S16LE, 2, 44100, false)]);
    assert_eq!(s.pending(), Pending::InitialConnect);
    assert_eq!(s.connected(Ok(())), vec![]);
    assert_eq!(s.pending(), Pending::Nothing);
}

#[test]
fn start_with_unknown_depth_reports_a_connection_failure() {
    let mut s = Session::new(fmt(44100, 12, 2));
    let mut expected =
        report("Pipewire: Unable to connect stream, unsupported sample format\n");
    expected.push(SessionAction::Quit);
    assert_eq!(s.start(), expected);
    assert_eq!(s.pending(), Pending::Nothing);
}

#[test]
fn no_unknown_depth_is_ever_connected() {
    for bps in 0..=255u8 {
        let mut s = Session::new(fmt(44100, bps, 2));
        let actions = s.start();
        let connects = actions.iter().any(|a| matches!(a, SessionAction::Connect(_)));
        assert_eq!(connects, bps == 8 || bps == 16 || bps == 24 || bps == 32);
        if !connects {
            assert!(actions.contains(&SessionAction::NotifyStop));
        }
    }
}

#[test]
fn stream_creation_failure_is_reported_and_ends_the_session() {
    let mut s = Session::new(fmt(44100, 16, 2));
    let mut expected = report("Pipewire: Unable to create stream, no memory\n");
    expected.push(SessionAction::Quit);
    assert_eq!(s.stream_create_failed("no memory"), expected);
}

#[test]
fn first_connection_failure_is_reported_and_ends_the_session() {
    let mut s = Session::new(fmt(44100, 16, 2));
    s.start();
    let mut expected = report("Pipewire: Unable to connect stream, refused\n");
    expected.push(SessionAction::Quit);
    assert_eq!(s.connected(Err("refused".to_string())), expected);
    assert_eq!(s.pending(), Pending::Nothing);
}

#[test]
fn connection_outcome_without_a_request_is_ignored() {
    let mut s = Session::new(fmt(44100, 16, 2));
    assert_eq!(s.connected(Ok(())), vec![]);
    assert_eq!(s.connected(Err("late".to_string())), vec![]);
    assert_eq!(s.disconnected(true), vec![]);
    assert_eq!(s.disconnected(false), vec![]);
    assert_eq!(s.format(), fmt(44100, 16, 2));
}

#[test]
fn terminate_quits_and_marks_the_disconnect_as_own() {
    let mut s = Session::new(fmt(44100, 16, 2));
    assert_eq!(s.message(PwThreadMessage::Terminate), vec![SessionAction::Quit]);
    assert!(s.suppressed());
    assert_eq!(s.state_changed(StreamState::Unconnected), vec![]);
}

#[test]
fn pause_and_unpause_toggle_the_stream() {
    let mut s = Session::new(fmt(44100, 16, 2));
    assert_eq!(s.message(PwThreadMessage::Pause), vec![SessionAction::SetActive(false)]);
    assert_eq!(s.message(PwThreadMessage::Unpause), vec![SessionAction::SetActive(true)]);
    assert!(!s.suppressed());
    assert_eq!(s.pending(), Pending::Nothing);
}

#[test]
fn set_volume_applies_the_amplitude_to_every_channel() {
    let mut s = Session::new(fmt(44100, 16, 2));
    let newvol = Amplitude::from_bits(0.25f32.to_bits());
    assert_eq!(
        s.message(PwThreadMessage::SetVol { newvol }),
        vec![SessionAction::SetVolume { amp: newvol, channels: 2 }]
    );
    let mut s = Session::new(fmt(48000, 24, 6));
    assert_eq!(
        s.message(PwThreadMessage::SetVol { newvol }),
        vec![SessionAction::SetVolume { amp: newvol, channels: 6 }]
    );
}

#[test]
fn set_title_updates_the_display_name_only() {
    let mut s = Session::new(fmt(44100, 16, 2));
    assert_eq!(
        s.message(PwThreadMessage::SetTitle("Artist - Song".to_string())),
        vec![SessionAction::UpdateProperties(vec![Property {
            key: PropertyKey::MediaName,
            value: "Artist - Song".to_string(),
        }])]
    );
    assert!(!s.suppressed());
}

#[test]
fn format_change_reconnects_and_suppresses_its_own_disconnect() {
    let mut s = Session::new(fmt(44100, 16, 2));
    s.start();
    s.connected(Ok(()));
    let actions = s.message(set_fmt(fmt(48000, 16, 2), PlaybackState::playing()));
    assert_eq!(actions, vec![SessionAction::Disconnect]);
    assert!(s.suppressed());
    // The disconnect that the session caused is no error.
    assert_eq!(s.state_changed(StreamState::Unconnected), vec![]);
    assert_eq!(s.disconnected(true), vec![connect(AudioFormat::S16LE, 2, 48000, false)]);
    assert_eq!(s.format(), fmt(48000, 16, 2));
    assert_eq!(s.pending(), Pending::Reconnect { samplerate: 48000 });
    // Still before "connecting": another disconnect is passed over too.
    assert_eq!(s.state_changed(StreamState::Unconnected), vec![]);
    assert_eq!(s.state_changed(StreamState::Connecting), vec![]);
    assert!(!s.suppressed());
    assert_eq!(
        s.connected(Ok(())),
        vec![SessionAction::UpdateProperties(vec![
            Property { key: PropertyKey::NodeRate, value: "1/48000".to_string() },
            Property { key: PropertyKey::NodeLatency, value: "1200/48000".to_string() },
        ])]
    );
    // After "connecting" a disconnect is unsolicited again.
    assert_eq!(s.state_changed(StreamState::Unconnected), report("Pipewire disconnected."));
}

#[test]
fn format_change_while_not_playing_reconnects_inactive() {
    for state in [PlaybackState::stopped(), PlaybackState::paused(), PlaybackState::from_raw(9)] {
        let mut s = Session::new(fmt(44100, 16, 2));
        s.message(set_fmt(fmt(96000, 24, 6), state));
        assert_eq!(s.disconnected(true), vec![connect(AudioFormat::S24LE, 6, 96000, true)]);
    }
}

#[test]
fn failed_disconnect_abandons_the_format_change() {
    let mut s = Session::new(fmt(44100, 16, 2));
    s.message(set_fmt(fmt(48000, 16, 2), PlaybackState::playing()));
    assert_eq!(s.disconnected(false), vec![]);
    assert_eq!(s.format(), fmt(44100, 16, 2));
    assert_eq!(s.pending(), Pending::Nothing);
    assert!(s.suppressed());
}

#[test]
fn failed_reconnect_is_reported_without_ending_the_session() {
    let mut s = Session::new(fmt(44100, 16, 2));
    s.message(set_fmt(fmt(48000, 16, 2), PlaybackState::playing()));
    s.disconnected(true);
    assert_eq!(
        s.connected(Err("gone".to_string())),
        report("Pipewire: Unable to connect stream, terminating\n")
    );
    assert_eq!(s.pending(), Pending::Nothing);
}

#[test]
fn format_change_to_unknown_depth_is_a_failed_reconnect() {
    let mut s = Session::new(fmt(44100, 16, 2));
    s.message(set_fmt(fmt(48000, 20, 2), PlaybackState::playing()));
    assert_eq!(
        s.disconnected(true),
        report("Pipewire: Unable to connect stream, terminating\n")
    );
    assert_eq!(s.pending(), Pending::Nothing);
}

#[test]
fn error_state_is_reported() {
    let mut s = Session::new(fmt(44100, 16, 2));
    assert_eq!(
        s.state_changed(StreamState::Error("no target".to_string())),
        report("Pipewire playback error: no target")
    );
}

#[test]
fn error_state_is_reported_even_during_own_disconnect() {
    let mut s = Session::new(fmt(44100, 16, 2));
    s.message(set_fmt(fmt(48000, 16, 2), PlaybackState::playing()));
    assert_eq!(
        s.state_changed(StreamState::Error("x".to_string())),
        report("Pipewire playback error: x")
    );
}

#[test]
fn unsolicited_disconnect_is_reported() {
    let mut s = Session::new(fmt(44100, 16, 2));
    assert_eq!(s.state_changed(StreamState::Unconnected), report("Pipewire disconnected."));
}

#[test]
fn paused_and_streaming_states_need_nothing() {
    let mut s = Session::new(fmt(44100, 16, 2));
    assert_eq!(s.state_changed(StreamState::Paused), vec![]);
    assert_eq!(s.state_changed(StreamState::Streaming), vec![]);
    assert!(!s.suppressed());
}

#[test]
fn pull_plans_by_the_session_format() {
    let s = Session::new(fmt(44100, 16, 2));
    assert_eq!(s.pull(256, 8192), Some(PullPlan { len: 1024, stride: 4 }));
    assert_eq!(s.pull(0, 65536), Some(PullPlan { len: 4408, stride: 4 }));
}

#[test]
fn pull_delivers_nothing_during_a_format_change() {
    let mut s = Session::new(fmt(44100, 16, 2));
    s.message(set_fmt(fmt(48000, 16, 2), PlaybackState::playing()));
    assert_eq!(s.pull(256, 8192), None);
    s.disconnected(true);
    assert_eq!(s.pull(256, 8192), None);
    s.state_changed(StreamState::Connecting);
    assert_eq!(s.pull(256, 8192), Some(PullPlan { len: 1024, stride: 4 }));
}

#[test]
fn pull_uses_the_new_format_after_a_change() {
    let mut s = Session::new(fmt(44100, 16, 2));
    s.message(set_fmt(fmt(48000, 24, 6), PlaybackState::playing()));
    s.disconnected(true);
    s.state_changed(StreamState::Connecting);
    s.connected(Ok(()));
    assert_eq!(s.pull(0, 65536), Some(PullPlan { len: 1200 * 18, stride: 18 }));
}
