use ansync::pair_pin::{pair_pin_confirm, PinRole};
use ansync::pair_session::{PairAction, PairInput, PairSessionSnapshot, PairState, Session, Shown};
use ansync::pairing::{
    auto_route, browse_seconds, cable_reply, named_serial, new_session_path, parse_expected_key,
    path_device, path_permissions, pick_candidate, pick_serial, plan_apk, poll_timeout_ms, read_pin,
    ApkPlan, AutoRoute, ExpectedKeyError, PairCandidate, PairEvent, PairListener, PinOutcome,
};

const HOST: [u8; 32] = [0xAA; 32];
const PEER: [u8; 32] = [0xBB; 32];

type Wifi = Session<String, [u8; 32], [u8; 6]>;

fn peer() -> PairInput<String, [u8; 32], [u8; 6]> {
    PairInput::Peer { peer: PEER, name: "Pixel".to_string() }
}

fn waiting_for_pin() -> Wifi {
    let mut s: Wifi = Session::over_wifi("10.0.0.2:9".to_string(), HOST, Some(PEER));
    assert_eq!(s.state, PairState::Dialing);
    assert!(matches!(s.step(PairInput::Succeeded), PairAction::SendHello));
    assert!(matches!(s.step(PairInput::Succeeded), PairAction::ReadAck));
    assert!(matches!(s.step(peer()), PairAction::AwaitPin));
    assert_eq!(s.state, PairState::AwaitingPin);
    s
}

#[test]
fn pairing_over_wifi() {
    let mut s = waiting_for_pin();
    assert_eq!(s.host_name, "Pixel");
    assert_eq!(s.host_pubkey_hex, "bb".repeat(32));
    let mac = pair_pin_confirm(b"123456", PinRole::Host, &HOST, &PEER);
    match s.step(PairInput::Pin(*b"123456")) {
        PairAction::SendMac(m) => assert_eq!(m, mac),
        _ => panic!("the confirmation is sent"),
    }
    assert_eq!(s.state.as_str(), "verifying");
    assert!(matches!(s.step(PairInput::Succeeded), PairAction::ReadMac));
    let theirs = pair_pin_confirm(b"123456", PinRole::Companion, &HOST, &PEER);
    assert!(matches!(s.step(PairInput::Mac(theirs)), PairAction::Store { .. }));
    match s.step(PairInput::Succeeded) {
        PairAction::Complete { device_id, name } => {
            assert_eq!((device_id, name.as_str()), ("bb".repeat(16), "Pixel"))
        }
        _ => panic!("complete"),
    }
    assert!(s.state.is_terminal());
    assert_eq!(s.state.as_str(), "ok");
    assert!(matches!(s.step(PairInput::Cancel), PairAction::Ignore));
    assert_eq!(s.state, PairState::Paired);
}

#[test]
fn wrong_pin_fails_the_session() {
    let mut s = waiting_for_pin();
    s.step(PairInput::Pin(*b"123456"));
    s.step(PairInput::Succeeded);
    let theirs = pair_pin_confirm(b"123457", PinRole::Companion, &HOST, &PEER);
    match s.step(PairInput::Mac(theirs)) {
        PairAction::Fail(why) => assert_eq!(why, "pin mismatch (wrong code or MITM)"),
        _ => panic!("fail"),
    }
    assert_eq!(s.snapshot().error, "pin mismatch (wrong code or MITM)");
    assert_eq!(s.state.as_str(), "failed");
}

#[test]
fn other_key_than_expected_fails_the_session() {
    let mut s: Wifi = Session::over_wifi("10.0.0.2:9".to_string(), HOST, Some([1; 32]));
    s.step(PairInput::Succeeded);
    s.step(PairInput::Succeeded);
    match s.step(peer()) {
        PairAction::Fail(why) => {
            assert_eq!(why, "mDNS pubkey did not match handshake pubkey — possible MITM")
        }
        _ => panic!("fail"),
    }
}

#[test]
fn cancel_ends_a_session_at_any_time() {
    let mut s = waiting_for_pin();
    assert!(matches!(s.step(PairInput::Cancel), PairAction::Fail(why) if why == "cancelled"));
    let mut s: Wifi = Session::automatic(HOST);
    assert_eq!(s.state, PairState::Discovering);
    assert!(matches!(s.step(PairInput::Cancel), PairAction::Fail(why) if why == "cancelled"));
}

#[test]
fn sessions_time_out() {
    let mut s = waiting_for_pin();
    assert!(matches!(s.step(PairInput::TimedOut), PairAction::Fail(why) if why == "pin entry timeout"));
    let mut s: Wifi = Session::over_wifi("a".to_string(), HOST, None);
    assert!(matches!(s.step(PairInput::TimedOut), PairAction::Fail(why) if why == "connect timeout"));
    let mut s: Wifi = Session::over_wifi("a".to_string(), HOST, None);
    let refused = PairInput::Failed("refused".to_string());
    assert!(matches!(s.step(refused), PairAction::Fail(why) if why == "connect: refused"));
}

#[test]
fn pairing_over_the_cable() {
    let mut s: Wifi = Session::over_cable(HOST);
    assert!(matches!(s.step(PairInput::Serial("ABC".to_string())), PairAction::ResolveApk));
    assert_eq!(s.address, "cable://ABC");
    assert!(matches!(s.step(PairInput::Succeeded), PairAction::Bootstrap));
    assert!(matches!(s.step(peer()), PairAction::Store { .. }));
    assert!(matches!(s.step(PairInput::Succeeded), PairAction::Complete { .. }));
}

#[test]
fn automatic_pairing_takes_either_way() {
    let mut s: Wifi = Session::automatic(HOST);
    let found = PairInput::Candidate { address: "10.0.0.2:9".to_string(), peer: PEER };
    assert!(matches!(s.step(found), PairAction::Dial));
    assert_eq!(s.expected, Some(PEER));
    let mut s: Wifi = Session::automatic(HOST);
    assert!(matches!(s.step(PairInput::Cable), PairAction::ResolveSerial));
    assert_eq!(auto_route(1), AutoRoute::Cable);
    assert_eq!(auto_route(0), AutoRoute::Browse);
    assert_eq!(auto_route(2), AutoRoute::Browse);
}

#[test]
fn snapshot_before_the_session() {
    let s = PairSessionSnapshot::new("10.0.0.2:9".to_string());
    assert_eq!((s.state, s.address.as_str(), s.error.as_str()), (PairState::Dialing, "10.0.0.2:9", ""));
    assert_eq!(PairState::default(), PairState::Discovering);
}

#[test]
fn pins_are_typed_with_separators() {
    assert_eq!(&read_pin("123 456").unwrap(), b"123456");
    assert_eq!(&read_pin("1-2-3-4-5-6").unwrap(), b"123456");
    assert_eq!(read_pin("12345"), Err(5));
    assert_eq!(read_pin("1234567"), Err(7));
    assert_eq!(read_pin("١٢٣٤٥٦"), Err(0));
}

#[test]
fn expected_keys() {
    assert!(matches!(parse_expected_key(""), Ok(None)));
    assert!(matches!(parse_expected_key(&"Ab".repeat(32)), Ok(Some(k)) if k == [0xab; 32]));
    assert!(matches!(parse_expected_key("abcd"), Err(ExpectedKeyError::WrongLength(4))));
    assert!(matches!(parse_expected_key("abc"), Err(ExpectedKeyError::NotHex(_))));
    assert!(matches!(parse_expected_key(&"zz".repeat(32)), Err(ExpectedKeyError::NotHex(_))));
}

#[test]
fn objects_have_these_paths() {
    assert_eq!(path_device("ab"), "/org/gameros/Ansync1/Device/ab");
    assert_eq!(path_permissions("ab"), "/org/gameros/Ansync1/Permissions/ab");
    let (id, path) = new_session_path();
    assert_eq!(path, format!("/org/gameros/Ansync1/Pair/{id}"));
    assert_eq!(id.len(), 32);
    assert!(id.chars().all(|c| matches!(c, '0'..='9' | 'a'..='f')));
    assert_ne!(id, new_session_path().0);
}

#[test]
fn one_device_is_picked_or_none() {
    let c = || PairCandidate { name: "Pixel".to_string(), address: "a".to_string(), pubkey: PEER };
    assert_eq!(pick_candidate(Ok(vec![c()])).unwrap().name, "Pixel");
    assert_eq!(
        pick_candidate(Ok(vec![])).unwrap_err(),
        "no ADB device and no pair-ready companion on the LAN"
    );
    assert_eq!(
        pick_candidate(Ok(vec![c(), c()])).unwrap_err(),
        "2 pair-ready devices on the LAN — call BrowseAvailable + StartPairing to pick one"
    );
    assert_eq!(pick_candidate(Err("x".to_string())).unwrap_err(), "mdns browse: x");
    assert_eq!(pick_serial(Ok(vec!["A".to_string()])).unwrap(), "A");
    assert_eq!(pick_serial(Ok(vec![])).unwrap_err(), "no ADB devices attached");
    assert_eq!(
        pick_serial(Ok(vec!["A".to_string(), "B".to_string()])).unwrap_err(),
        "2 ADB devices attached — pass an explicit serial"
    );
    assert_eq!(named_serial(Some(String::new())), None);
    assert_eq!(named_serial(Some("A".to_string())).as_deref(), Some("A"));
    assert_eq!(browse_seconds(0), 5);
    assert_eq!(browse_seconds(9), 9);
}

#[test]
fn packages_in_order() {
    let file = |there| Some(("/x.apk".to_string(), there));
    assert!(matches!(plan_apk(file(true), None, true, None, "1.0"), ApkPlan::Install(p) if p == "/x.apk"));
    assert!(
        matches!(plan_apk(file(false), None, true, None, "1.0"), ApkPlan::Missing(w) if w == "APK override not found: /x.apk")
    );
    assert!(matches!(plan_apk(None, file(true), true, None, "1.0"), ApkPlan::Install(p) if p == "/x.apk"));
    assert!(
        matches!(plan_apk(None, file(false), true, None, "1.0"), ApkPlan::Install(p) if p == "/usr/share/ansync/companion.apk")
    );
    assert!(matches!(plan_apk(None, None, false, Some(" 1.0\n".to_string()), "1.0"), ApkPlan::Keep));
    assert!(matches!(plan_apk(None, None, false, Some("0.9".to_string()), "1.0"), ApkPlan::Fetch));
}

#[test]
fn third_wrong_pin_locks() {
    let mut l = PairListener::new();
    let host = || "pc".to_string();
    assert!(matches!(l.attempt(host(), PinOutcome::BadPin), Some(PairEvent::BadPin { remaining: 2, .. })));
    assert!(l.attempt(host(), PinOutcome::Broken).is_none());
    assert!(matches!(l.attempt(host(), PinOutcome::BadPin), Some(PairEvent::BadPin { remaining: 1, .. })));
    assert!(matches!(l.attempt(host(), PinOutcome::BadPin), Some(PairEvent::Lockout { .. })));
    assert_eq!(l.strikes, 0);
    l.attempt(host(), PinOutcome::BadPin);
    let ok = PinOutcome::Confirmed { host_pubkey: HOST, host_name: host() };
    assert!(matches!(l.attempt(host(), ok), Some(PairEvent::Paired { .. })));
    assert_eq!(l.strikes, 0);
}

#[test]
fn events_are_lines() {
    let e = PairEvent::Request { host_pubkey: HOST, host_name: "pc".to_string(), pin: *b"123456" };
    assert_eq!(e.encode(), format!("REQUEST|{}|pc|123456", "aa".repeat(32)));
    let e = PairEvent::Request { host_pubkey: HOST, host_name: "pc".to_string(), pin: [0xff; 6] };
    assert_eq!(e.encode(), format!("REQUEST|{}|pc|000000", "aa".repeat(32)));
    let e = PairEvent::BadPin { host_name: "pc".to_string(), remaining: 2 };
    assert_eq!(e.encode(), "BAD|2|pc");
    assert_eq!(PairEvent::Lockout { host_name: "pc".to_string() }.encode(), "LOCK|pc");
    let e = PairEvent::Paired { host_pubkey: HOST, host_name: "pc".to_string() };
    assert_eq!(e.encode(), format!("OK|{}|pc", "aa".repeat(32)));
    assert_eq!(poll_timeout_ms(0), 3_600_000);
    assert_eq!(poll_timeout_ms(250), 250);
    let endpoints = vec![("10.0.0.1".to_string(), 1), ("10.0.0.2".to_string(), 2)];
    assert_eq!(
        cable_reply(&HOST, "pc", &endpoints),
        format!("{}|pc|10.0.0.1:1,10.0.0.2:2", "aa".repeat(32))
    );
}

#[test]
fn watchers_are_told_of_changes() {
    let mut s: Wifi = Session::over_wifi("10.0.0.2:9".to_string(), HOST, None);
    assert!(s.step(PairInput::Succeeded).tells().is_empty());
    s.step(PairInput::Succeeded);
    assert_eq!(
        s.step(peer()).tells(),
        vec![Shown::State, Shown::HostName, Shown::HostPubkeyHex]
    );
    assert_eq!(s.step(PairInput::Pin(*b"000000")).tells(), vec![Shown::State]);
    let told = s.step(PairInput::Cancel).tells();
    let names: Vec<&str> = told.iter().map(|p| p.name()).collect();
    assert_eq!(names, vec!["State", "Error"]);

    let mut s: Wifi = Session::over_cable(HOST);
    let told = s.step(PairInput::Serial("R5".to_string())).tells();
    assert_eq!(told, vec![Shown::State, Shown::Address]);
    assert_eq!((Shown::Address.name(), Shown::HostName.name()), ("Address", "HostName"));
    assert_eq!(Shown::HostPubkeyHex.name(), "HostPubkeyHex");
}
