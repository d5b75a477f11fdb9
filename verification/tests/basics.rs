use ansync::bus::{
    action_queued, asked_device, asked_permission, asked_pin, parse_permission, shown, BusError,
};
use ansync::core_types::{
    capability_names, parse_device_id, permissions_or_first, Capabilities, ClipboardPolicy, DeviceId,
    DeviceName, DevicePermissions, Error, Permission, CLIPBOARD, FILES, SCREEN_MIRROR, SHARE,
};
use ansync::discovery::{
    app_id, beacon_to_device, hex_u32, instance_host, parse_hex_u32, parse_resolved, text_record,
    AnsyncBeacon, DiscoveryError,
};
use ansync::hex_text::{byte_from_number, byte_from_pair, hex_decode_32, hex_encode};
use ansync::known_peers::StoredPeer;
use ansync::kotlin::{decode_input_from_kotlin, encode_control, encode_for_kotlin, ControlSink, DecodeError};
use ansync::wire::{
    AudioDirection, CameraAspect, CameraConfig, ControlMessage, GamepadState, InputMessage, VideoCodec,
};

#[test]
fn hex_roundtrip() {
    let v = [0u8, 1, 0xfe, 0xff];
    let s = hex_encode(&v);
    assert_eq!(s, "0001feff");
    let mut full = [0u8; 32];
    for (i, b) in full.iter_mut().enumerate() {
        *b = i as u8;
    }
    let s = hex_encode(&full);
    let back = hex_decode_32(&s).expect("decode");
    assert_eq!(back, full);
}

#[test]
fn roundtrip() {
    let id = DeviceId([
        0x00, 0x11, 0x22, 0x33, 0x44, 0x55, 0x66, 0x77, 0x88, 0x99, 0xaa, 0xbb, 0xcc, 0xdd, 0xee,
        0xff,
    ]);
    let s = id.hex();
    let back = parse_device_id(&s).unwrap();
    assert_eq!(back.0, id.0);
}

#[test]
fn rejects_bad_input() {
    assert!(parse_device_id("xyz").is_none());
    assert!(parse_device_id("0011").is_none());
}

#[test]
fn hex_pairs_are_digits_of_either_case() {
    assert_eq!(byte_from_pair(b'A', b'f'), Some(0xaf));
    assert_eq!(byte_from_pair(b'+', b'f'), None);
    assert!(parse_device_id(&"+0".repeat(16)).is_none());
    assert_eq!(hex_decode_32(&"+a".repeat(32)), Some([10; 32]));
    assert!(hex_decode_32(&"a+".repeat(32)).is_none());
    assert_eq!(byte_from_number(b'+', b'+'), None);
    assert_eq!(byte_from_pair(b'f', b'+'), None);
    assert_eq!(byte_from_pair(b'g', b'0'), None);
    assert!(hex_decode_32("00").is_none());
    assert!(parse_device_id("zz112233445566778899aabbccddeeff").is_none());
}

#[test]
fn capabilities_by_name() {
    let caps = Capabilities::from_bits(SCREEN_MIRROR | FILES | CLIPBOARD | SHARE).unwrap();
    assert_eq!(capability_names(caps), vec!["screen_mirror", "files", "clipboard", "share"]);
    assert!(caps.contains(FILES));
    assert!(!Capabilities::empty().contains(FILES));
    assert!(Capabilities::from_bits(1 << 20).is_none());
}

#[test]
fn first_permissions_leave_hardware_off() {
    let p = permissions_or_first(None);
    assert!(p.screen_mirror && p.files_send && p.files_receive && p.notifications);
    assert!(!p.camera_video && !p.camera_audio && !p.mic && !p.audio_in && !p.audio_out);
    assert!(!p.input_from_device && !p.input_to_device && !p.sensors && !p.files_mount);
    assert_eq!(p.clipboard_in, ClipboardPolicy::Prompt);
    let other = DevicePermissions { mic: true, ..p };
    assert_eq!(permissions_or_first(Some(other)), other);
}

#[test]
fn errors_in_words() {
    let id = DeviceId([0xab; 16]);
    let hex = "abababababababababababababababab";
    assert_eq!(Error::PermissionDenied(Permission::Mic).message(), "permission denied: Mic");
    assert_eq!(Error::DeviceNotFound(id).message(), format!("device not found: {hex}"));
    assert_eq!(Error::NotPaired(id).message(), format!("not paired with {hex}"));
    assert_eq!(Error::BackendUnavailable("x".to_string()).message(), "backend unavailable: x");
    assert_eq!(DiscoveryError::Malformed("x".to_string()).message(), "malformed advertisement: x");
    assert_eq!(DiscoveryError::BackendUnavailable.message(), "discovery backend unavailable");
}

#[test]
fn switches_name_permissions() {
    assert_eq!(parse_permission("camera_video"), Some(Permission::CameraVideo));
    assert_eq!(parse_permission("share_receive"), Some(Permission::ShareReceive));
    assert_eq!(parse_permission("CameraVideo"), None);
    assert_eq!(asked_permission("mic").unwrap(), Permission::Mic);
    assert!(
        matches!(asked_permission("wifi"), Err(BusError::InvalidArgs(why)) if why == "unknown permission flag: wifi")
    );
}

#[test]
fn arguments_on_the_bus() {
    assert!(matches!(asked_device("xyz"), Err(BusError::InvalidArgs(why)) if why == "bad device id: xyz"));
    assert_eq!(asked_device("abababababababababababababababab").unwrap().0, [0xab; 16]);
    assert_eq!(&asked_pin("1-2-3-4-5-6").unwrap(), b"123456");
    assert!(
        matches!(asked_pin("12 34"), Err(BusError::InvalidArgs(why)) if why == "expected 6 digits, got 4")
    );
    assert!(action_queued(Some(Ok(()))).is_ok());
    assert!(
        matches!(action_queued(None), Err(BusError::Failed(why)) if why == "daemon action channel not wired")
    );
    assert!(
        matches!(action_queued(Some(Err("closed".to_string()))), Err(BusError::Failed(why)) if why == "send action: closed")
    );
}

#[test]
fn devices_show_what_is_on_record() {
    let mut p = StoredPeer::just_paired(DeviceName("Pixel".to_string()), [1; 32]);
    p.capabilities = Capabilities::from_bits(FILES).unwrap();
    assert_eq!(shown(Some(&p)), ("Pixel".to_string(), vec!["files".to_string()]));
    assert_eq!(shown(None), (String::new(), vec![]));
}

#[test]
fn text_records_read_back() {
    let key = [7u8; 32];
    let caps = Capabilities::from_bits(FILES | SHARE).unwrap();
    let t = text_record(&key, &DeviceName("Pixel".to_string()), caps);
    assert_eq!(t.caps, "00008040");
    let d = parse_resolved(Some(&t.id), Some(&t.name), Some(&t.caps), Some("10.0.0.2:9")).unwrap();
    assert_eq!(d.pubkey, key);
    assert_eq!(d.id.0, [7; 16]);
    assert_eq!((d.name.0.as_str(), d.addr.as_str()), ("Pixel", "10.0.0.2:9"));
    assert_eq!(d.capabilities.bits, caps.bits);
    assert!(parse_resolved(None, Some("a"), Some("0"), Some("b")).is_none());
    assert!(parse_resolved(Some(&t.id), Some(&t.name), Some(&t.caps), None).is_none());
}

#[test]
fn beacons_become_devices() {
    let caps = Capabilities::from_bits(FILES).unwrap();
    let b = AnsyncBeacon::new([9; 32], &DeviceName("Pixel".to_string()), caps);
    assert_eq!(b.device_id().0, [9; 16]);
    let d = beacon_to_device("10.0.0.2:9".to_string(), b).unwrap();
    assert_eq!((d.name.0.as_str(), d.capabilities.bits), ("Pixel", FILES));
    let odd = AnsyncBeacon { pubkey: [9; 32], name: "P".to_string(), caps: 1 << 20 };
    assert!(beacon_to_device("x".to_string(), odd).is_none());
    assert_eq!(app_id(), "ansync");
    assert_eq!(instance_host(&DeviceId([0xab; 16])), "abababababababababababababababab.local.");
}

#[test]
fn numbers_in_hexadecimal() {
    assert_eq!(hex_u32(0x1f), "0000001f");
    assert_eq!(parse_hex_u32("1F"), Some(0x1f));
    assert_eq!(parse_hex_u32("+1f"), Some(0x1f));
    assert_eq!(parse_hex_u32("+"), None);
    assert_eq!(parse_hex_u32("++1"), None);
    assert_eq!(parse_hex_u32("ffffffff"), Some(u32::MAX));
    assert_eq!(parse_hex_u32("100000000"), None);
    assert_eq!(parse_hex_u32(""), None);
}

#[test]
fn input_survives_the_trip_to_android() {
    let messages = [
        InputMessage::KeyPress { keycode: 30, pressed: true },
        InputMessage::MouseMove { dx: -1, dy: 2 },
        InputMessage::MouseButton { button: 1, pressed: false },
        InputMessage::MouseWheel { dx: 0, dy: -120 },
        InputMessage::TouchSlot { slot: 1, x: 2, y: 3, pressure: 4, tracking_id: -1 },
        InputMessage::TouchpadSlot { slot: 1, x: 2, y: 3, pressure: 4, tracking_id: 5 },
        InputMessage::Stylus { x: 1, y: 2, pressure: 3, tilt_x: -4, tilt_y: 5, btn: 6 },
        InputMessage::Gamepad(GamepadState { buttons: 1, lx: -2, ly: 3, rx: 4, ry: 5, lt: 6, rt: 7 }),
        InputMessage::Text("hé".to_string()),
    ];
    for m in messages {
        let bytes = encode_for_kotlin(&m);
        let back = decode_input_from_kotlin(&bytes).unwrap();
        assert_eq!(format!("{back:?}"), format!("{m:?}"));
        let short = decode_input_from_kotlin(&bytes[..bytes.len() - 1]);
        assert!(matches!(short, Err(DecodeError::ShortRead { .. })));
    }
}

#[test]
fn broken_input_is_refused() {
    assert!(matches!(
        decode_input_from_kotlin(&[]),
        Err(DecodeError::ShortRead { need: 1, have: 0 })
    ));
    assert!(matches!(decode_input_from_kotlin(&[200]), Err(DecodeError::UnknownTag(200))));
    let mut text = encode_for_kotlin(&InputMessage::Text("a".to_string()));
    let last = text.len() - 1;
    text[last] = 0xff;
    assert!(matches!(decode_input_from_kotlin(&text), Err(DecodeError::InvalidUtf8)));
}

#[test]
fn key_presses_are_six_bytes() {
    let m = InputMessage::KeyPress { keycode: 0x0102, pressed: true };
    let bytes = encode_for_kotlin(&m);
    assert_eq!(bytes[1..], [2, 1, 0, 0, 1]);
}

#[test]
fn control_messages_go_to_their_sinks() {
    let config = CameraConfig {
        camera_id: "0".to_string(),
        width: 1280,
        height: 720,
        fps: 30,
        bitrate_kbps: 4000,
        codec: VideoCodec::H264,
        aspect: CameraAspect::Crop,
        stabilization: false,
    };
    let (sink, blob) = encode_control(&ControlMessage::StartCamera(config)).unwrap();
    assert!(matches!(sink, ControlSink::Camera));
    assert!(blob.len() > 4);
    let audio = ControlMessage::StartAudioRoute { direction: AudioDirection::Both };
    assert!(matches!(encode_control(&audio), Some((ControlSink::Audio, _))));
    assert!(matches!(
        encode_control(&ControlMessage::RequestScreenCapture),
        Some((ControlSink::Capture, _))
    ));
    assert!(encode_control(&ControlMessage::OpenUrl("x".to_string())).is_none());
}
