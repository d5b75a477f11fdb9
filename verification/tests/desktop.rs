use ansync::companion::{
    batch_went_well, companion_capabilities, frames_go_on, inbound_task, open_step, plan_dial,
    resolve_download_root, sound_header, Companion, FrameOutcome, InboundTask, ListenPlan, OpenError,
    OpenEvent, OpenNext, Outbound, PairPort, SendPlan,
};
use ansync::core_types::{DeviceId, Permission, FILES, SENSORS};
use ansync::ctl::{
    absolute_path, candidate_line, device_line, device_signal_line, identity_path, manager_line,
    may_create_identity, pair_call, pair_failure, paired_line, pretty_state, read_aspect, read_codec,
    read_direction, read_switch, setup_summary, signal_device, DeviceRow, DeviceSignal, ManagerSignal, PairCall, PairWatch,
};
use ansync::daemon::{
    default_download_dir, device_name, enumerate_lan_ipv4, files_accepted, hostname, local_endpoints,
    memory_mib, missing_objects, parse_kb, places, DaemonConfig, DaemonError, Growing, InterfaceAddr,
};
use ansync::mirror::{
    bootstrap, both_pipes, can_play, first_message, message_to_write, read_next, recording_codec,
    writer_ends, HostMsg, ToWrite, WaitEvent, WindowNext, WindowProcess,
};
use ansync::peer::StreamKind;
use ansync::shares::{is_permitted, link_arrived, notification_arrived, NotificationMessage};
use ansync::wire::{AudioDirection, CameraAspect, VideoCodec};

fn text(s: &str) -> String {
    s.to_string()
}

#[test]
fn pin_is_asked_for_once() {
    let (mut w, ask) = PairWatch::begin(Some("dialing"));
    assert!(!ask);
    let todo = w.state_read("awaiting_pin");
    assert_eq!((todo.print, todo.ask_pin), (Some("companion sent BootstrapAck"), true));
    let todo = w.state_read("awaiting_pin");
    assert_eq!((todo.print, todo.ask_pin), (None, false));
    let todo = w.state_read("verifying");
    assert_eq!((todo.print, todo.ask_pin), (Some("verifying PIN…"), false));
    assert!(!w.state_read("awaiting_pin").ask_pin);
    assert!(PairWatch::begin(Some("awaiting_pin")).1);
    assert!(!PairWatch::begin(None).1);
    assert_eq!(pretty_state("nonsense"), None);
}

#[test]
fn pair_commands() {
    assert_eq!(
        pair_call(Some(text("S")), Some(text("a:1")), None, 5),
        PairCall::StartPairing { addr: text("a:1") }
    );
    assert_eq!(
        pair_call(Some(text("S")), None, None, 5),
        PairCall::PairOverCable { serial: text("S"), apk: text("") }
    );
    assert_eq!(
        pair_call(None, None, Some(text("x.apk")), 5),
        PairCall::PairAuto { seconds: 5, apk: text("x.apk") }
    );
    assert_eq!(paired_line("ab", "Pixel"), "paired: device_id=ab name=Pixel");
    assert_eq!(pair_failure("cancelled"), "pair failed: cancelled");
    assert_eq!(setup_summary("Pixel"), "Ansync paired with Pixel");
}

#[test]
fn words_for_streams() {
    assert_eq!(read_codec("h265"), Some(VideoCodec::H265));
    assert_eq!(read_codec("av1"), None);
    assert_eq!(read_aspect("letterbox"), Some(CameraAspect::Letterbox));
    assert_eq!(read_aspect(""), None);
    assert_eq!(read_direction("device-to-host"), Some(AudioDirection::DeviceToHost));
    assert_eq!(read_direction("up"), None);
    assert_eq!(read_switch("on"), Some(true));
    assert_eq!(read_switch("false"), Some(false));
    assert_eq!(read_switch("maybe"), None);
}

#[test]
fn identity_is_not_overwritten() {
    assert!(may_create_identity("/k", false).is_ok());
    assert_eq!(
        may_create_identity("/k", true).unwrap_err(),
        "identity already exists at /k — refusing to overwrite"
    );
    assert_eq!(identity_path(Some(text("/k")), &None).unwrap(), "/k");
    assert_eq!(
        identity_path(None, &Some(text("/data"))).unwrap(),
        "/data/ansync/identity.key"
    );
    assert_eq!(
        identity_path(None, &None).unwrap_err(),
        "$HOME not set; cannot resolve XDG paths"
    );
    assert_eq!(absolute_path("/home/me", "a"), "/home/me/a");
    assert_eq!(absolute_path("/home/me", "/a"), "/a");
}

#[test]
fn lines_of_the_command_line() {
    let row = DeviceRow {
        id: text("ab"),
        name: Some(text("Pixel")),
        state: None,
        address: None,
        capabilities: Some(vec![text("files"), text("share")]),
        battery: Some(7),
    };
    assert_eq!(
        device_line(&row),
        format!(
            "{}  {:<24}  state={:<14}  battery={:>3}  addr={:<22}  caps=[files,share]",
            "ab", "Pixel", "unknown", 7, ""
        )
    );
    assert_eq!(candidate_line("Pixel", "a:1", "ff"), format!("{:<24}  {:<22}  ff", "Pixel", "a:1"));
    assert_eq!(
        manager_line(&ManagerSignal::DeviceConnectivityChanged { id: text("ab"), state: text("active") }),
        "conn  ab  active"
    );
    assert_eq!(
        manager_line(&ManagerSignal::DeviceReachable { id: text("ab"), addr: text("a:1") }),
        "up    ab  a:1"
    );
    assert_eq!(manager_line(&ManagerSignal::DeviceUnreachable { id: text("ab") }), "down  ab");
    assert_eq!(
        device_signal_line("ab", &DeviceSignal::StreamStateChanged { kind: text("mic"), active: true }),
        "stream ab  mic=true"
    );
    let progress = DeviceSignal::FileTransferProgress {
        batch_id: 1,
        transfer_id: 2,
        name: text("a.txt"),
        bytes: 3,
        total: 4,
        direction: text("send"),
    };
    assert_eq!(device_signal_line("ab", &progress), "xfer  ab  send a.txt 3/4  (batch=1 id=2)");
    let posted = DeviceSignal::NotificationPosted {
        id: 9,
        app: text("mail"),
        title: text("t"),
        body: text("b"),
    };
    assert_eq!(device_signal_line("ab", &posted), "notif ab  [9] mail · t — b");
    assert_eq!(
        device_signal_line("ab", &DeviceSignal::NotificationRemoved { id: 9 }),
        "notif ab  [9] removed"
    );
    assert_eq!(
        device_signal_line("ab", &DeviceSignal::FileReceived { path: text("/in/a") }),
        "file  ab  /in/a"
    );
    assert_eq!(signal_device(Some("/org/gameros/Ansync1/Device/ab")), "ab");
    assert_eq!(signal_device(None), "?");
}

#[test]
fn daemon_finds_its_places() {
    let config = DaemonConfig::new(text("pc"));
    assert_eq!(config.listen_addr.port, 47215);
    let p = places(&config, &Some(text("/d")), &Some(text("/home/me")), &None).unwrap();
    assert_eq!(p.identity, "/d/ansync/identity.key");
    assert_eq!(p.peers, "/d/ansync/peers");
    assert_eq!(p.downloads, "/home/me/Downloads/ansync");
    let e = places(&config, &None, &None, &None).unwrap_err();
    assert_eq!(e.message(), "startup: $HOME not set; cannot resolve XDG paths");
    assert_eq!(default_download_dir(&Some(text("/h")), &Some(text("/dl"))), "/dl/ansync");
    assert_eq!(default_download_dir(&None, &None), "ansync");
    assert_eq!(DaemonError::Audio(text("x")).message(), "audio: x");
    assert_eq!(DaemonError::PeerStore(text("x")).message(), "peer store: x");
}

#[test]
fn only_lan_addresses_are_told() {
    let addr = |name: &str, ip| InterfaceAddr { name: text(name), ip };
    let all = vec![
        addr("lo", [127, 0, 0, 1]),
        addr("wlan0", [192, 168, 1, 5]),
        addr("docker0", [172, 17, 0, 1]),
        addr("eth0", [10, 0, 0, 7]),
        addr("veth12", [10, 0, 0, 8]),
    ];
    assert_eq!(enumerate_lan_ipv4(&all), vec!["192.168.1.5", "10.0.0.7"]);
    assert_eq!(
        local_endpoints(&all, 9),
        vec![(text("192.168.1.5"), 9), (text("10.0.0.7"), 9)]
    );
}

#[test]
fn memory_is_read_from_the_status() {
    assert_eq!(parse_kb("   2048 kB"), Some(2048));
    assert_eq!(parse_kb("x kB"), None);
    let status = "Name:\tansyncd\nVmHWM:\t   4096 kB\nVmRSS:\t   2048 kB\n";
    assert_eq!(memory_mib(status), Some((2, 4)));
    assert_eq!(memory_mib("Name:\tansyncd\n"), None);
    let mut g = Growing::new();
    assert_eq!(g.step(5), 5);
    assert_eq!(g.step(9), 4);
    assert_eq!(g.step(3), 0);
}

#[test]
fn names_of_the_host() {
    assert_eq!(hostname(&Some(text("pc")), &None).as_deref(), Some("pc"));
    assert_eq!(device_name(Some(text("mine")), &Some(text("pc")), &None), "mine");
    assert_eq!(device_name(None, &None, &None), "ansync-host");
    assert_eq!(files_accepted(3, true, true), 3);
    assert_eq!(files_accepted(3, false, true), 0);
    assert_eq!(files_accepted(3, true, false), 0);
    let peers = vec![DeviceId([1; 16]), DeviceId([2; 16])];
    assert_eq!(missing_objects(&peers, &vec![true, false]), vec!["02".repeat(16)]);
}

#[test]
fn mirror_window_ends_once() {
    let mut w = WindowProcess::started(Some(4));
    assert!(w.alive);
    assert!(w.ask_to_end());
    assert!(!w.ask_to_end());
    assert!(w.wait_over(WaitEvent::KillAsked));
    assert!(!w.alive);
    assert!(!WindowProcess::started(Some(4)).wait_over(WaitEvent::Exited));
}

#[test]
fn mirror_messages() {
    let first = first_message(text("Pixel"));
    assert!(matches!(bootstrap(Some(first)), Ok(c) if c.title == "Pixel"));
    assert_eq!(bootstrap(Some(HostMsg::Shutdown)).unwrap_err(), "expected Config as first message");
    assert_eq!(bootstrap(None).unwrap_err(), "EOF before Config");
    assert_eq!(both_pipes(false, true).unwrap_err(), "no stdin handle");
    assert_eq!(both_pipes(true, false).unwrap_err(), "no stdout handle");
    assert!(matches!(
        message_to_write(ToWrite::Chunk(vec![1])),
        Some(HostMsg::EncodedChunk { data, .. }) if data == vec![1]
    ));
    assert!(message_to_write(ToWrite::Closed).is_none());
    assert!(writer_ends(&HostMsg::Shutdown, true));
    assert!(matches!(
        read_next(Ok(Some(HostMsg::EncodedChunk { data: vec![1], pts_us: 0 }))),
        WindowNext::Feed(d) if d == vec![1]
    ));
    assert!(matches!(read_next(Ok(Some(HostMsg::Shutdown))), WindowNext::Exit(0)));
    assert!(matches!(recording_codec(true), VideoCodec::H265));
    assert!(can_play(VideoCodec::H264, &vec![VideoCodec::H264]).is_ok());
    assert_eq!(
        can_play(VideoCodec::H265, &vec![VideoCodec::H264]).unwrap_err(),
        "local host cannot decode H265 (caps: [H264])"
    );
}

#[test]
fn shares_need_permission() {
    assert!(is_permitted(&Ok(true)));
    assert!(!is_permitted(&Err(text("x"))));
    let posted = NotificationMessage::Removed { id: 4 };
    assert!(notification_arrived(posted, &Ok(false)).is_none());
    let link = link_arrived(text("https://a"), "Pixel", &Ok(true)).unwrap();
    assert_eq!(link.url, "https://a");
    assert_eq!(
        link.notice,
        vec![
            "--app-name=ansync",
            "--icon=document-send",
            "ansync · Pixel: Opened URL",
            "https://a"
        ]
    );
    assert!(link_arrived(text("https://a"), "Pixel", &Ok(false)).is_none());
    assert_eq!(Permission::ShareReceive.name(), "ShareReceive");
}

#[test]
fn companion_dials_a_host_it_knows() {
    let c = Companion::new(text("/in"));
    let key = "bb".repeat(32);
    let d = plan_dial(Some(&c), "10.0.0.1", 47215, &key).unwrap();
    assert_eq!((d.address.as_str(), d.expected), ("10.0.0.1:47215", [0xbb; 32]));
    assert!(matches!(plan_dial(Some(&c), "h", 65536, &key), Err(OpenError::PortOutOfRange)));
    assert!(matches!(plan_dial(Some(&c), "h", 1, "zz"), Err(OpenError::BadPubkey)));
    assert!(matches!(plan_dial(None, "h", 1, &key), Err(OpenError::NotInitialised)));
    assert_eq!(open_step(OpenEvent::Parsed(false)), OpenNext::LookUp);
    assert_eq!(open_step(OpenEvent::LookedUp(Some(0))), OpenNext::Fail(OpenError::NoAddress));
    assert_eq!(open_step(OpenEvent::Dialled(true)), OpenNext::Greet);
    assert_eq!(open_step(OpenEvent::Greeted(false)), OpenNext::OpenVideo);
    assert_eq!(open_step(OpenEvent::VideoOpened(true)), OpenNext::Finish);
}

#[test]
fn companion_opens_each_stream_once() {
    let mut c = Companion::new(text("/in"));
    assert_eq!(c.plan_send(Outbound::Input), SendPlan::NoSession);
    c.opened(7, &[0xbb; 32]);
    assert!(c.connected);
    assert_eq!(c.plan_send(Outbound::Input), SendPlan::OpenFirst);
    assert_eq!(c.plan_send(Outbound::Audio), SendPlan::OpenWithHeader);
    c.stream_opened(Outbound::Input);
    assert_eq!(c.plan_send(Outbound::Input), SendPlan::Ready);
    assert!(c.stop_stream(Outbound::Input));
    assert_eq!(c.plan_send(Outbound::Input), SendPlan::OpenFirst);
    c.input_done(true);
    c.input_done(false);
    assert_eq!(c.input_sent, 1);
    assert!(c.close());
    assert!(!c.close());
    assert_eq!(c.greeting_name(), "android");
    assert_eq!(c.pairing_name(), "ansync companion");
    c.set_device_name(text("Pixel"));
    assert_eq!(c.greeting_name(), "Pixel");
    let h = sound_header();
    assert_eq!((h.sample_rate, h.channels), (48_000, 2));
}

#[test]
fn companion_serves_the_host() {
    assert_eq!(inbound_task(StreamKind::Files), InboundTask::File);
    assert_eq!(inbound_task(StreamKind::Video), InboundTask::Refuse);
    assert!(frames_go_on(FrameOutcome::Malformed));
    assert!(!frames_go_on(FrameOutcome::NoReceiver));
    assert!(companion_capabilities().contains(FILES));
    assert!(!companion_capabilities().contains(SENSORS));
    assert_eq!(resolve_download_root("/app", false), "/app/incoming");
    assert_eq!(resolve_download_root("/app", true), "/storage/emulated/0/Download/ansync");
    let mut p = PairPort { port: None };
    assert!(matches!(p.plan(false), ListenPlan::Refuse));
    assert!(matches!(p.plan(true), ListenPlan::Bind));
    assert_eq!(p.bound(Some(99)), 99);
    assert!(matches!(p.plan(true), ListenPlan::Already(99)));
    assert!(p.stop());
    assert!(!p.stop());
    assert!(batch_went_well(true, &vec![true, true]));
    assert!(!batch_went_well(true, &vec![true, false]));
    assert!(!batch_went_well(false, &vec![true]));
}
