use ansync::audio::{
    bytes_per_frame, capture_properties, feeder_properties, needs_probe, null_sink_properties,
    read_preference, safe_node_name, select_audio_backend, AloopBackend, AudioBackendKind, AudioError,
    AudioFormat, CpalBackend, PipewireBackend, Preference, Probe, Property, SampleFormat,
};
use ansync::opus::{OpusEncoderWrap, MAX_PACKET_BYTES};
use ansync::pcm::{
    capture_plan, captured, captured_chunk, encoder_settings, fill_i16, needs_decoder, playback_plan,
    rendered, sample_bytes, AudioStats, ByteRing, CapturePlan, DeviceSamples, FlowNext, PcmFramer,
    PcmRing, PlaybackPlan, Popped, OPUS_CHANNELS, OPUS_FRAME_SAMPLES, OPUS_SAMPLE_RATE, RING_CAPACITY,
    SINK_BYTE_CAP, SINK_PREBUFFER_BYTES,
};
use ansync::routes::AudioCodec;

#[test]
fn voip_roundtrip_silence() {
    let mut enc = OpusEncoderWrap::new(AudioCodec::OpusVoip).expect("encoder");
    let mut dec = opus_rs::OpusDecoder::new(OPUS_SAMPLE_RATE as i32, OPUS_CHANNELS as usize)
        .expect("decoder");
    let pcm_bytes = vec![0u8; OPUS_FRAME_SAMPLES * OPUS_CHANNELS as usize * 2];
    let packets = enc.feed(&pcm_bytes).expect("encode");
    assert_eq!(packets.len(), 1, "one full frame in → one packet out");
    let mut decoded = vec![0f32; OPUS_FRAME_SAMPLES * OPUS_CHANNELS as usize];
    let samples = dec.decode(&packets[0], OPUS_FRAME_SAMPLES, &mut decoded).expect("decode");
    assert_eq!(
        samples * OPUS_CHANNELS as usize * 2,
        OPUS_FRAME_SAMPLES * OPUS_CHANNELS as usize * 2
    );
}

#[test]
fn audio_roundtrip_partial_frames_accumulate() {
    let mut enc = OpusEncoderWrap::new(AudioCodec::OpusAudio).expect("encoder");
    let half = OPUS_FRAME_SAMPLES * OPUS_CHANNELS as usize; // half a frame in bytes
    let first = enc.feed(&vec![0u8; half]).expect("feed half");
    assert!(first.is_empty(), "half frame must accumulate, not emit");
    let second = enc.feed(&vec![0u8; half]).expect("feed remaining half");
    assert_eq!(second.len(), 1, "remaining half completes one frame");
}

#[test]
fn raw_codec_rejects_encoder() {
    assert!(OpusEncoderWrap::new(AudioCodec::Raw).is_err());
}

#[test]
fn packets_are_smaller_than_their_sound() {
    let mut enc = OpusEncoderWrap::new(AudioCodec::OpusAudio).expect("encoder");
    let tone: Vec<i16> = (0..OPUS_FRAME_SAMPLES * 2 * 3)
        .map(|i| ((i as f64 / 20.0).sin() * 8000.0) as i16)
        .collect();
    let packets = enc.feed(&sample_bytes(&tone)).expect("encode");
    assert_eq!(packets.len(), 3);
    assert!(packets.iter().all(|p| !p.is_empty() && p.len() <= MAX_PACKET_BYTES));
    assert!(packets.iter().all(|p| p.len() < OPUS_FRAME_SAMPLES * 4));
    assert!(matches!(enc.feed(&[1]), Err(AudioError::Io(why)) if why == "odd-byte PCM chunk"));
}

#[test]
fn packets_do_not_depend_on_chunks() {
    for codec in [AudioCodec::OpusVoip, AudioCodec::OpusAudio] {
        let mut seed: u32 = 1;
        let pcm: Vec<u8> = (0..3840 * 40)
            .map(|_| {
                seed = seed.wrapping_mul(1_664_525).wrapping_add(1_013_904_223);
                (seed >> 24) as u8
            })
            .collect();
        let mut at_once = OpusEncoderWrap::new(codec).expect("encoder");
        let whole = at_once.feed(&pcm).expect("encode");
        assert_eq!(whole.len(), 40);
        let mut in_parts = OpusEncoderWrap::new(codec).expect("encoder");
        let mut parts: Vec<Vec<u8>> = Vec::new();
        let mut fed = 0;
        for chunk in pcm.chunks(1234) {
            parts.extend(in_parts.feed(chunk).expect("encode"));
            assert!(in_parts.feed(&[7; 3]).is_err());
            fed += chunk.len();
            assert_eq!(parts.len(), fed / 3840);
        }
        assert_eq!(parts, whole);
    }
}

#[test]
fn encoders_are_set_up_by_codec() {
    let voip = encoder_settings(AudioCodec::OpusVoip).unwrap();
    assert_eq!((voip.voip, voip.bitrate_bps), (true, 32_000));
    assert_eq!((voip.inband_fec, voip.packet_loss_perc), (true, 10));
    let music = encoder_settings(AudioCodec::OpusAudio).unwrap();
    assert_eq!((music.voip, music.bitrate_bps), (false, 128_000));
    assert!(
        matches!(encoder_settings(AudioCodec::Raw), Err(AudioError::Io(why)) if why == "Raw codec has no opus encoder")
    );
    assert!(needs_decoder(AudioCodec::OpusVoip));
    assert!(!needs_decoder(AudioCodec::Raw));
}

#[test]
fn frames_are_cut_from_pcm() {
    let mut f = PcmFramer::new();
    assert!(f.accept(&[1, 2, 3]).is_err());
    assert!(f.accept(&vec![0u8; 3838]).is_ok());
    assert!(f.next_frame().is_none());
    assert!(f.accept(&[0xff, 0x7f, 0x00, 0x80]).is_ok());
    let frame = f.next_frame().unwrap();
    assert_eq!(frame.len(), 1920);
    assert_eq!(frame[1919], i16::MAX);
    assert_eq!(f.pending, vec![i16::MIN]);
}

#[test]
fn samples_read_back_from_pcm() {
    let samples = [0i16, 1, -1, i16::MAX, i16::MIN];
    let mut pcm = sample_bytes(&samples);
    assert_eq!(pcm, vec![0, 0, 1, 0, 0xff, 0xff, 0xff, 0x7f, 0, 0x80]);
    let mut out = [9i16; 7];
    fill_i16(&mut out, &mut pcm);
    assert_eq!(out, [0, 1, -1, i16::MAX, i16::MIN, 0, 0]);
    assert!(pcm.is_empty());
    let mut more = vec![1, 0, 2, 0, 3];
    let mut one = [0i16; 1];
    fill_i16(&mut one, &mut more);
    assert_eq!(one, [1]);
    assert_eq!(more, vec![2, 0, 3]);
}

#[test]
fn capture_queue_drops_the_oldest() {
    let mut q = PcmRing::new();
    for i in 0..=RING_CAPACITY {
        q.push(vec![i as u8]);
    }
    assert_eq!(q.try_pop(), Some(vec![1]));
    assert!(matches!(q.pop(), Popped::Chunk(c) if c == vec![2]));
    q.close();
    assert!(matches!(q.pop(), Popped::Closed));
    assert!(matches!(PcmRing::new().pop(), Popped::Wait));
    assert_eq!(captured(&[1, 2, 3], 2), Some(vec![1, 2]));
    assert_eq!(captured(&[1, 2, 3], 9), Some(vec![1, 2, 3]));
    assert_eq!(captured(&[1, 2, 3], 0), None);
}

#[test]
fn playback_waits_for_the_prebuffer() {
    let mut ring = ByteRing::new();
    let mut slot = [9u8; 4];
    ring.write(&vec![5u8; SINK_PREBUFFER_BYTES - 1]).unwrap();
    assert_eq!(ring.fill_quantum(&mut slot), 0);
    ring.write(&[6]).unwrap();
    assert_eq!(ring.fill_quantum(&mut slot), 4);
    assert_eq!(slot, [5; 4]);
    let mut rest = vec![9u8; SINK_PREBUFFER_BYTES];
    assert_eq!(ring.fill_quantum(&mut rest), SINK_PREBUFFER_BYTES - 4);
    assert_eq!(rest[SINK_PREBUFFER_BYTES - 6..], [5, 6, 0, 0, 0, 0]);
    ring.close();
    assert!(matches!(ring.write(&[1]), Err(AudioError::BackendUnavailable)));
}

#[test]
fn playback_ring_keeps_the_newest() {
    let mut ring = ByteRing::new();
    let mut bytes = vec![1u8; SINK_BYTE_CAP];
    bytes.push(2);
    ring.extend(&bytes);
    assert_eq!(ring.buf.len(), SINK_BYTE_CAP);
    assert_eq!(ring.buf.back(), Some(&2));
}

#[test]
fn devices_deal_in_known_samples() {
    assert_eq!(capture_plan(DeviceSamples::I16, SampleFormat::S16Le).unwrap(), CapturePlan::Samples);
    assert_eq!(capture_plan(DeviceSamples::F32, SampleFormat::F32Le).unwrap(), CapturePlan::Floats);
    assert_eq!(
        capture_plan(DeviceSamples::F32, SampleFormat::S16Le).unwrap(),
        CapturePlan::FloatsScaled
    );
    let e = capture_plan(DeviceSamples::Other("U8".to_string()), SampleFormat::S16Le).unwrap_err();
    assert_eq!(e.message(), "io: unsupported cpal sample format: U8");
    assert_eq!(playback_plan(DeviceSamples::I16).unwrap(), PlaybackPlan::Samples);
    assert_eq!(playback_plan(DeviceSamples::F32).unwrap(), PlaybackPlan::FloatsScaled);
    assert!(playback_plan(DeviceSamples::Other("U8".to_string())).is_err());
}

#[test]
fn backends_in_order_of_preference() {
    assert_eq!(read_preference(None).unwrap(), Preference::Any);
    assert_eq!(
        read_preference(Some("cpal")).unwrap(),
        Preference::Only(AudioBackendKind::Cpal)
    );
    assert_eq!(
        read_preference(Some("jack")).unwrap_err().message(),
        "io: ANSYNC_AUDIO_BACKEND=jack: unknown audio backend (expected pipewire|aloop|cpal)"
    );
    assert!(needs_probe(Preference::Any));
    assert!(!needs_probe(Preference::Only(AudioBackendKind::Cpal)));
    let there = || PipewireBackend::new(Probe::Connected);
    let missing = || Err(AudioError::BackendUnavailable);
    assert_eq!(
        select_audio_backend(Preference::Any, there()).unwrap(),
        AudioBackendKind::Pipewire
    );
    assert_eq!(select_audio_backend(Preference::Any, missing()).unwrap(), AudioBackendKind::Cpal);
    let only = Preference::Only(AudioBackendKind::Pipewire);
    assert!(select_audio_backend(only, missing()).is_err());
    let only = Preference::Only(AudioBackendKind::Aloop);
    assert!(select_audio_backend(only, there()).is_err());
    assert!(AloopBackend::new().is_err());
    assert_eq!(CpalBackend::new().kind().as_str(), "cpal");
}

fn value<'a>(props: &'a [Property], key: &str) -> &'a str {
    props.iter().find(|p| p.key == key).map(|p| p.value.as_str()).unwrap()
}

#[test]
fn nodes_are_named_after_the_peer() {
    let format = AudioFormat { sample_rate: 48_000, channels: 2, format: SampleFormat::S16Le };
    assert_eq!(safe_node_name("Jo's é"), "ansync_Jo_s__");
    let sink = null_sink_properties("Pixel 9", format);
    assert_eq!(value(&sink, "node.name"), "ansync_Pixel_9");
    assert_eq!(value(&sink, "node.description"), "Pixel 9 (Ansync)");
    assert_eq!(value(&sink, "audio.rate"), "48000");
    let feeder = feeder_properties("Pixel 9", format);
    assert_eq!(value(&feeder, "target.object"), value(&sink, "node.name"));
    assert_eq!(value(&feeder, "node.latency"), "960/48000");
    let capture = capture_properties("Pixel 9");
    assert_eq!(value(&capture, "node.description"), "Pixel 9 (Ansync Capture)");
    assert_eq!(bytes_per_frame(SampleFormat::S16Le, 2), 4);
    assert_eq!(bytes_per_frame(SampleFormat::F32Le, 2), 8);
}

#[test]
fn packets_are_counted() {
    let mut stats = AudioStats::new();
    stats.record_in(10);
    stats.record_out(20);
    stats.record_encode_fail();
    assert!(matches!(rendered(&mut stats, Err(AudioError::BackendUnavailable)), FlowNext::Drop));
    assert_eq!((stats.pkts_in, stats.pkts_out), (1, 1));
    assert!(matches!(rendered(&mut stats, Ok(vec![1])), FlowNext::Pass(p) if p == vec![1]));
    assert!(matches!(captured_chunk(Ok(vec![1]), Ok(true)), FlowNext::Pass(_)));
    assert!(matches!(captured_chunk(Ok(vec![1]), Ok(false)), FlowNext::Drop));
    assert!(matches!(captured_chunk(Err(AudioError::BackendUnavailable), Ok(true)), FlowNext::Stop));
}
