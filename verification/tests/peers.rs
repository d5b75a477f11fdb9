use ansync::conn_state::{device_key, ConnState, Connectivity};
use ansync::core_types::{Capabilities, DeviceId, DeviceName, FILES};
use ansync::known_peers::{
    find_by_pubkey, is_trusted, with_permissions, Presence, Reachability, StoredPeer,
};
use ansync::peer::{AcceptError, Ask, Effect, PeerRuntime, StreamKind, Tile};
use ansync::registry::MirrorRegistry;
use ansync::routes::{
    audio_allowed, gate, job_done, outbound_init, AudioNext, DaemonAction, FrameNext, Gate, Job,
};
use ansync::wire::AudioDirection;

fn id(b: u8) -> DeviceId {
    DeviceId([b; 16])
}

fn runtime() -> PeerRuntime {
    PeerRuntime::new("Pixel".to_string())
}

#[test]
fn new_connection_replaces_the_old_one() {
    let mut p = runtime();
    assert_eq!(
        p.connected(1),
        vec![Effect::Announce(ConnState::Authenticated), Effect::SendHello(1)]
    );
    assert_eq!(
        p.greeted(1, true),
        vec![Effect::Announce(ConnState::Active), Effect::StartStats(1)]
    );
    assert_eq!(p.greeted(1, false), vec![Effect::StartStats(1)]);
    assert_eq!(
        p.connected(2),
        vec![Effect::Announce(ConnState::Authenticated), Effect::Supersede(1), Effect::SendHello(2)]
    );
    // The end of the old connection is nobody's business.
    assert_eq!(p.accept_failed(1, AcceptError::Closed), Some(vec![Effect::StopStats(1)]));
    assert_eq!(p.conn, Some(2));
    assert_eq!(
        p.accept_failed(2, AcceptError::TimedOut),
        Some(vec![Effect::StopStats(2), Effect::Announce(ConnState::Disconnected)])
    );
    assert_eq!(p.conn, None);
    assert_eq!(p.accept_failed(2, AcceptError::Other), None);
}

#[test]
fn virtual_devices_survive_a_lost_connection() {
    let mut p = runtime();
    p.connected(1);
    assert_eq!(
        p.camera_begin(1),
        vec![Effect::BuildCameraSink, Effect::Send(1, Ask::StartCamera)]
    );
    assert_eq!(p.camera_asked(true), Some(Effect::StartDecoder));
    assert_eq!(p.camera_frame(), FrameNext::Register);
    assert_eq!(p.camera_format_set(true), FrameNext::Write);
    assert_eq!(p.camera_frame(), FrameNext::Write);
    let lost = p.accept_failed(1, AcceptError::Closed).unwrap();
    assert!(lost.contains(&Effect::StopDecoder));
    assert!(p.camera_sink && p.camera_registered && !p.camera_task);
    p.connected(2);
    assert_eq!(p.camera_begin(2), vec![Effect::Send(2, Ask::StartCamera)]);
    p.camera_asked(true);
    assert_eq!(p.camera_frame(), FrameNext::Write);
    assert_eq!(
        p.stop_camera(),
        vec![Effect::Send(2, Ask::StopCamera), Effect::StopDecoder, Effect::ReleaseCameraSink]
    );
    assert_eq!(p.camera_frame(), FrameNext::Stop);
}

#[test]
fn streams_go_where_they_belong() {
    let mut p = runtime();
    assert_eq!(p.accepted(StreamKind::Control), Effect::DropStream);
    assert_eq!(p.accepted(StreamKind::Files), Effect::Serve(StreamKind::Files));
    assert!(!p.video_inbound);
    assert_eq!(p.accepted(StreamKind::Video), Effect::Serve(StreamKind::Video));
    assert!(p.video_inbound);
    p.video_ended();
    assert!(!p.video_inbound);
}

#[test]
fn sound_route_comes_up_step_by_step() {
    let mut p = runtime();
    p.connected(1);
    let d = AudioDirection::Both;
    assert_eq!(
        p.audio_begin(1, d),
        vec![Effect::StartAudioStats, Effect::Send(1, Ask::StartAudio(d))]
    );
    assert_eq!(p.audio_asked(d, Tile::Audio, true), AudioNext::MakeSink);
    assert_eq!(p.audio_sink_made(d, true), AudioNext::OpenStream);
    assert_eq!(p.audio_stream_opened(true), AudioNext::MakeSource);
    assert_eq!(p.audio_source_made(true), AudioNext::MakeEncoder);
    assert_eq!(p.audio_encoder_made(true), AudioNext::StartPump);
    assert_eq!(p.audio_header(), Some(None));
    assert!(p.audio_chunk(true) && !p.audio_chunk(false));
    assert_eq!(p.audio_inbound_ended(), Some(Effect::ShowTile(Tile::Audio, false)));
    assert_eq!(p.audio_inbound_ended(), None);
    assert_eq!(
        p.stop_audio(),
        vec![Effect::StopPump, Effect::StopRender, Effect::StopAudioStats]
    );
    assert_eq!(p.audio_asked(d, Tile::Mic, false), AudioNext::Failed);
    assert_eq!(p.audio_sink_made(d, false), AudioNext::Done);
    let init = outbound_init();
    assert_eq!((init.sample_rate, init.channels, init.frame_samples), (48_000, 2, 960));
}

#[test]
fn requests_pass_a_gate() {
    let mut p = runtime();
    assert_eq!(gate(None, false), Gate::Refused);
    assert_eq!(gate(None, true), Gate::NoEntry);
    assert_eq!(gate(Some(&p), true), Gate::NotConnected);
    p.connected(4);
    assert_eq!(gate(Some(&p), true), Gate::Go(4));
    assert_eq!(
        Gate::NoEntry.error(&id(0xab)).unwrap(),
        "no mirror entry for abababababababababababababababab"
    );
    assert_eq!(
        Gate::NotConnected.error(&id(0xab)).unwrap(),
        "peer abababababababababababababababab not connected"
    );
    assert_eq!(Gate::Refused.error(&id(1)), None);
    assert!(Gate::Go(4).opens());
    for closed in [Gate::Refused, Gate::NoEntry, Gate::NotConnected] {
        assert!(!closed.opens());
        assert_eq!(job_done(Job::StartCamera, closed.opens()), None);
    }
    assert!(audio_allowed(AudioDirection::HostToDevice, false, true));
    assert!(!audio_allowed(AudioDirection::Both, false, true));
}

#[test]
fn actions_become_jobs() {
    let a = DaemonAction::StartMicrophone { device: id(3) };
    assert_eq!(a.device().0, [3; 16]);
    assert_eq!(a.job(), Job::StartAudio(AudioDirection::DeviceToHost, Tile::Mic));
    assert_eq!(job_done(Job::StartCamera, true), Some(Effect::ShowTile(Tile::Camera, true)));
    assert_eq!(job_done(Job::StartCamera, false), None);
    assert_eq!(job_done(Job::SendFiles, true), None);
    assert_eq!(Tile::Screen.as_str(), "screen");
    assert_eq!(Tile::Mic.as_str(), "mic");
}

#[test]
fn connectivity_is_told_when_it_changes() {
    let mut c = Connectivity::new();
    assert_eq!(c.conn_state(&id(1)), ConnState::Disconnected);
    assert!(c.change(&id(1), ConnState::Authenticated));
    assert!(!c.change(&id(1), ConnState::Authenticated));
    assert_eq!(c.conn_state(&id(2)), ConnState::Disconnected);
    assert_eq!(c.set_conn_state(&id(1), ConnState::Active), ConnState::Authenticated);
    assert_eq!(ConnState::Active.as_str(), "active");
    assert_eq!(ConnState::default(), ConnState::Disconnected);
    assert_ne!(device_key(&id(1)), device_key(&id(2)));
}

#[test]
fn registry_keeps_entries_apart() {
    let mut r = MirrorRegistry::new();
    r.ensure(&id(1), "Pixel");
    r.ensure(&id(1), "Other");
    assert_eq!(r.get(&id(1)).unwrap().name, "Pixel");
    assert!(r.get(&id(2)).is_none());
    let mut p = r.take(&id(1)).unwrap();
    p.connected(9);
    r.put(&id(1), p);
    assert_eq!(r.get(&id(1)).unwrap().conn, Some(9));
}

#[test]
fn known_peers_are_found_by_key() {
    let a = StoredPeer::just_paired(DeviceName("A".to_string()), [1; 32]);
    let b = StoredPeer::just_paired(DeviceName("B".to_string()), [2; 32]);
    assert_eq!(a.id.0, [1; 16]);
    assert_eq!(a.capabilities.bits, 0);
    let peers = vec![a, b];
    assert_eq!(find_by_pubkey(&peers, &[2; 32]), Some(1));
    assert_eq!(find_by_pubkey(&peers, &[3; 32]), None);
    assert!(is_trusted(&Ok(peers), &[1; 32]));
    assert!(!is_trusted(&Err("unreadable".to_string()), &[1; 32]));
}

#[test]
fn greeting_is_kept_once() {
    let mut p = StoredPeer::just_paired(DeviceName("Old".to_string()), [1; 32]);
    let caps = Capabilities::from_bits(FILES).unwrap();
    assert!(p.greeted(DeviceName("New".to_string()), caps));
    assert!(!p.greeted(DeviceName("New".to_string()), caps));
    assert!(!p.greeted(DeviceName(String::new()), caps));
    assert_eq!(p.name.0, "New");
    let mut perms = p.permissions;
    perms.mic = true;
    assert!(with_permissions(Ok(p), perms).unwrap().permissions.mic);
    assert_eq!(with_permissions(Err("none".to_string()), perms).unwrap_err(), "none");
}

#[test]
fn presence_is_told_when_it_changes() {
    let mut r = Reachability::new();
    let at = |a: &str| a.to_string();
    assert!(matches!(r.resolved(at("i"), id(1), at("a")), Some(Presence::Reachable { .. })));
    assert!(r.resolved(at("i"), id(1), at("a")).is_none());
    assert!(matches!(r.resolved(at("i"), id(1), at("b")), Some(Presence::Reachable { addr, .. }) if addr == "b"));
    assert!(r.removed("x").is_none());
    assert!(matches!(r.removed("i"), Some(Presence::Unreachable { .. })));
    assert!(r.removed("i").is_none());
}

#[test]
fn stopped_routes_stay_off() {
    let mut p = runtime();
    p.connected(1);
    p.audio_begin(1, AudioDirection::DeviceToHost);
    p.audio_asked(AudioDirection::DeviceToHost, Tile::Mic, true);
    p.audio_sink_made(AudioDirection::DeviceToHost, true);
    p.audio_header();
    assert!(p.audio_chunk(true));
    assert!(!p.audio_chunk(false));
    p.stop_audio();
    assert!(!p.audio_chunk(true));
    assert_eq!(p.audio_inbound_ended(), None);
    assert!(p.stop_audio().is_empty());

    p.camera_begin(1);
    p.camera_asked(true);
    assert!(p.camera_packet());
    assert_eq!(p.camera_frame(), FrameNext::Register);
    p.stop_camera();
    assert!(!p.camera_packet());
    assert_eq!(p.camera_frame(), FrameNext::Stop);
    assert_eq!(p.camera_stream_ended(), None);
}

#[test]
fn a_closed_window_reopens() {
    let mut p = runtime();
    p.connected(1);
    assert_eq!(p.show_screen().last(), Some(&Effect::SpawnWindow));
    p.window_spawned(true);
    assert_ne!(p.show_screen().last(), Some(&Effect::SpawnWindow));
    p.hide_screen();
    assert_eq!(p.show_screen().last(), Some(&Effect::SpawnWindow));
}
