use ansync::digest::constant_time_eq;
use ansync::hex_text::hex_encode;
use ansync::identity::{CryptoError, IdentityFile, IdentityKeypair, PeerIdentity};
use ansync::noise::{NoiseError, NoiseXxSession, Role, NOISE_MAX_MESSAGE};
use ansync::pair_pin::{generate_pin, pair_pin_confirm, pin_from, verify_pin_confirm, PinRole};

fn seed_from_hex(s: &str) -> [u8; 32] {
    ansync::hex_text::hex_decode_32(s).unwrap()
}

#[test]
fn save_and_load_roundtrip() {
    let kp = IdentityKeypair::generate();
    let written = kp.save();
    assert_eq!(written.mode & 0o777, 0o600);
    assert_eq!(written.directory_mode, 0o700);
    let kp2 = IdentityKeypair::load(&written.bytes).unwrap();
    assert_eq!(kp.seed_bytes(), kp2.seed_bytes());
}

#[test]
fn identity_of_a_known_seed() {
    let seed = seed_from_hex("9d61b19deffd5a60ba844af492ec2cc44449c5697b326919703bac031cae7f60");
    let kp = IdentityKeypair::from_seed(seed);
    let public = kp.public();
    assert_eq!(
        hex_encode(&public.as_bytes()),
        "d75a980182b10ab7d54bfed3c964073a0ee172f3daa62325af021a68f707511a"
    );
    assert_eq!(kp.device_id().hex(), "d75a980182b10ab7d54bfed3c964073a");
    assert_eq!(public.device_id().hex(), "d75a980182b10ab7d54bfed3c964073a");
}

#[test]
fn public_key_reads_back() {
    let kp = IdentityKeypair::generate();
    let again = PeerIdentity::from_bytes(kp.public().as_bytes()).unwrap();
    assert_eq!(again.as_bytes(), kp.public().as_bytes());
}

#[test]
fn bytes_off_the_curve_are_no_identity() {
    // y = 2 is no y-coordinate of a point of the curve.
    let mut bytes = [0u8; 32];
    bytes[0] = 2;
    assert!(matches!(PeerIdentity::from_bytes(bytes), Err(CryptoError::InvalidIdentity)));
}

#[test]
fn fresh_identities_differ() {
    assert_ne!(IdentityKeypair::generate().seed_bytes(), IdentityKeypair::generate().seed_bytes());
}

#[test]
fn identity_file_of_wrong_size() {
    let short = vec![1u8; 31];
    assert!(matches!(IdentityKeypair::load(&short), Err(CryptoError::InvalidIdentitySize(31))));
}

#[test]
fn missing_identity_is_made_and_kept() {
    let (_, save) = IdentityKeypair::load_or_generate(IdentityFile::NotFound).unwrap();
    assert!(save);
    let (kp, save) = IdentityKeypair::load_or_generate(IdentityFile::Bytes(vec![5u8; 32])).unwrap();
    assert!(!save);
    assert_eq!(kp.seed_bytes(), &[5u8; 32]);
    let failed = IdentityKeypair::load_or_generate(IdentityFile::Failed("denied".to_string()));
    assert!(matches!(failed, Err(CryptoError::Io(why)) if why == "denied"));
}

#[test]
fn xx_roundtrip_local() {
    let mut initiator = NoiseXxSession::initiator().ok().unwrap();
    let mut responder = NoiseXxSession::responder().ok().unwrap();

    let m1 = initiator.write_message(&[]).ok().unwrap();
    let _ = responder.read_message(&m1).ok().unwrap();
    let m2 = responder.write_message(b"hello-from-responder").ok().unwrap();
    let p2 = initiator.read_message(&m2).ok().unwrap();
    assert_eq!(p2, b"hello-from-responder");
    let m3 = initiator.write_message(b"hello-from-initiator").ok().unwrap();
    let p3 = responder.read_message(&m3).ok().unwrap();
    assert_eq!(p3, b"hello-from-initiator");

    assert!(initiator.is_complete());
    assert!(responder.is_complete());

    let mut ti = initiator.into_transport().ok().unwrap();
    let mut tr = responder.into_transport().ok().unwrap();

    let ct = ti.encrypt(b"ping").ok().unwrap();
    let pt = tr.decrypt(&ct).ok().unwrap();
    assert_eq!(pt, b"ping");

    let ct = tr.encrypt(b"pong").ok().unwrap();
    let pt = ti.decrypt(&ct).ok().unwrap();
    assert_eq!(pt, b"pong");
}

#[test]
fn handshake_messages_have_the_sizes_of_the_pattern() {
    let mut i = NoiseXxSession::initiator().ok().unwrap();
    let mut r = NoiseXxSession::responder().ok().unwrap();
    assert_eq!(i.role(), Role::Initiator);
    assert_eq!(r.role(), Role::Responder);
    let m1 = i.write_message(b"abc").ok().unwrap();
    assert_eq!(m1.len(), 35);
    assert_eq!(r.read_message(&m1).ok().unwrap(), b"abc");
    let m2 = r.write_message(b"abc").ok().unwrap();
    assert_eq!(m2.len(), 99);
    i.read_message(&m2).ok().unwrap();
    let m3 = i.write_message(b"abc").ok().unwrap();
    assert_eq!(m3.len(), 67);
    assert!(i.is_complete());
    assert!(!r.is_complete());
}

#[test]
fn handshake_out_of_turn() {
    let mut i = NoiseXxSession::initiator().ok().unwrap();
    let mut r = NoiseXxSession::responder().ok().unwrap();
    assert!(matches!(r.write_message(b"x"), Err(NoiseError::Snow(_))));
    assert!(matches!(i.read_message(&[0u8; 96]), Err(NoiseError::Snow(_))));
    let m1 = i.write_message(b"x").ok().unwrap();
    assert!(matches!(i.write_message(b"x"), Err(NoiseError::Snow(_))));
    assert_eq!(r.read_message(&m1).ok().unwrap(), b"x");
}

#[test]
fn handshake_size_limits() {
    let mut i = NoiseXxSession::initiator().ok().unwrap();
    assert!(matches!(i.write_message(&vec![0u8; 65488]), Err(NoiseError::Snow(_))));
    assert_eq!(i.write_message(&vec![0u8; 65487]).ok().unwrap().len(), 65519);
    let mut r = NoiseXxSession::responder().ok().unwrap();
    let long = vec![0u8; NOISE_MAX_MESSAGE + 1];
    assert!(matches!(r.read_message(&long), Err(NoiseError::Oversized(65536))));
}

#[test]
fn unfinished_handshake_has_no_transport() {
    let i = NoiseXxSession::initiator().ok().unwrap();
    assert!(matches!(i.into_transport(), Err(NoiseError::Incomplete)));
}

#[test]
fn transport_refuses_tampering_and_keeps_count() {
    let mut i = NoiseXxSession::initiator().ok().unwrap();
    let mut r = NoiseXxSession::responder().ok().unwrap();
    let m = i.write_message(&[]).ok().unwrap();
    r.read_message(&m).ok().unwrap();
    let m = r.write_message(&[]).ok().unwrap();
    i.read_message(&m).ok().unwrap();
    let m = i.write_message(&[]).ok().unwrap();
    r.read_message(&m).ok().unwrap();
    let mut ti = i.into_transport().ok().unwrap();
    let mut tr = r.into_transport().ok().unwrap();
    let first = ti.encrypt(b"one").ok().unwrap();
    let second = ti.encrypt(b"one").ok().unwrap();
    assert_eq!(first.len(), 19);
    assert_ne!(first, second);
    let mut bad = first.clone();
    bad[0] ^= 1;
    assert!(matches!(tr.decrypt(&bad), Err(NoiseError::Snow(_))));
    assert!(matches!(tr.decrypt(&second), Err(NoiseError::Snow(_))));
    assert!(matches!(tr.decrypt(&[0u8; 15]), Err(NoiseError::Snow(_))));
    assert_eq!(tr.decrypt(&first).ok().unwrap(), b"one");
    assert_eq!(tr.decrypt(&second).ok().unwrap(), b"one");
    assert!(matches!(ti.encrypt(&vec![0u8; 65520]), Err(NoiseError::Snow(_))));
    assert_eq!(ti.encrypt(&vec![0u8; 65519]).ok().unwrap().len(), 65535);
}

#[test]
fn pin_confirm_roundtrip() {
    let pin = *b"123456";
    let host_pk = [0xAA; 32];
    let companion_pk = [0xBB; 32];
    let mac_h = pair_pin_confirm(&pin, PinRole::Host, &host_pk, &companion_pk);
    let mac_c = pair_pin_confirm(&pin, PinRole::Companion, &host_pk, &companion_pk);
    assert_ne!(mac_h, mac_c, "role tag must domain-separate");
    assert!(verify_pin_confirm(&mac_h, &pin, PinRole::Host, &host_pk, &companion_pk));
    assert!(verify_pin_confirm(&mac_c, &pin, PinRole::Companion, &host_pk, &companion_pk));
}

#[test]
fn pin_confirm_wrong_pin_rejected() {
    let host_pk = [0xAA; 32];
    let companion_pk = [0xBB; 32];
    let good_mac = pair_pin_confirm(b"111111", PinRole::Host, &host_pk, &companion_pk);
    assert!(!verify_pin_confirm(&good_mac, b"111112", PinRole::Host, &host_pk, &companion_pk,));
}

#[test]
fn pin_confirm_swapped_pubkeys_rejected() {
    let host_pk = [0xAA; 32];
    let companion_pk = [0xBB; 32];
    let mac = pair_pin_confirm(b"000000", PinRole::Host, &host_pk, &companion_pk);
    assert!(!verify_pin_confirm(&mac, b"000000", PinRole::Host, &companion_pk, &host_pk,));
}

#[test]
fn generated_pins_are_ascii_digits() {
    for _ in 0..32 {
        let pin = generate_pin();
        for b in pin {
            assert!(b.is_ascii_digit(), "non-digit byte {b:#x} in {pin:?}");
        }
    }
}

#[test]
fn confirmations_are_these_digests() {
    let host = pair_pin_confirm(b"123456", PinRole::Host, &[0xAA; 32], &[0xBB; 32]);
    assert_eq!(
        hex_encode(&host),
        "04d6f521822ecb677b31d1d2c6ee5bbafce36b4b1117df9fe3b16584e1f40250"
    );
    let companion = pair_pin_confirm(b"123456", PinRole::Companion, &[0xAA; 32], &[0xBB; 32]);
    assert_eq!(
        hex_encode(&companion),
        "0e4d74070926ae8b740db01778cf6a884d48336ae777f4688002d16b2a5bbd98"
    );
}

#[test]
fn pins_come_from_the_last_six_digits() {
    assert_eq!(&pin_from(7), b"000007");
    assert_eq!(&pin_from(1_234_567), b"234567");
    assert_eq!(&pin_from(u32::MAX), b"967295");
}

#[test]
fn digests_compare_by_value() {
    let a = [1u8; 32];
    let mut b = a;
    assert!(constant_time_eq(&a, &b));
    b[31] = 2;
    assert!(!constant_time_eq(&a, &b));
}
