use ansync::camera::{
    after_add, after_scan, build_card_label, first_source, format_version, is_output,
    loopback_config, may_add, removed, to_roll_back, video_candidates, CameraError, CameraPixelFormat,
    FrameWrite, LoopbackConfig, Node, OutputSearch, Removal, Source, V4l2LoopbackSink, WriteNext,
    Wrote, ENODEV,
};
use ansync::video::{
    camera_picture, i420_to_nv12, is_whole, repack_nv12, DecodedFrame, PixelFormat,
};

#[test]
fn struct_is_72_bytes() {
    assert_eq!(std::mem::size_of::<LoopbackConfig>(), 72);
}

#[test]
fn version_formats_kernel_version_macro() {
    let v: u32 = (0 << 16) | (15 << 8) | 3;
    assert_eq!(format_version(v), "0.15.3");
}

#[test]
fn label_appends_ansync_marker() {
    assert_eq!(build_card_label("Pixel 9"), "Pixel 9 (Ansync)");
}

#[test]
fn label_falls_back_to_ansync_when_blank() {
    assert_eq!(build_card_label(""), "Ansync");
    assert_eq!(build_card_label("   "), "Ansync");
}

#[test]
fn label_caps_at_31_bytes_on_char_boundary() {
    let long = "ANameThatGoesOnAndOnAndOnAndOnAndOn";
    let out = build_card_label(long);
    assert!(out.len() <= 31, "label too long: {} bytes", out.len());
    // Still UTF-8.
    assert!(out.is_char_boundary(out.len()));
}

#[test]
fn label_handles_multibyte_truncation_safely() {
    let multi = "日本語のながーいなまえ漢字";
    let out = build_card_label(multi);
    assert!(out.len() <= 31);
    assert!(out.is_char_boundary(out.len()));
}

#[test]
fn long_labels_keep_as_much_as_fits() {
    assert_eq!(
        build_card_label("ANameThatGoesOnAndOnAndOnAndOnAndOn"),
        "ANameThatGoesOnAndOnAndOnAndOnA"
    );
    // Ten characters of three bytes each; an eleventh would not fit.
    assert_eq!(build_card_label("日本語のながーいなまえ漢字"), "日本語のながーいなま");
}

#[test]
fn labels_leave_control_characters_out() {
    assert_eq!(build_card_label(" Pix\nel\u{7f} "), "Pixel (Ansync)");
}

#[test]
fn label_and_zero_reach_the_kernel() {
    let label = build_card_label("日本語のながーいなまえ漢字");
    let cfg = loopback_config(&label, 1280, 720);
    assert_eq!(&cfg.card_label[..label.len()], label.as_bytes());
    assert_eq!(cfg.card_label[label.len()], 0);
    assert_eq!(cfg.output_nr, -1);
    assert_eq!((cfg.min_width, cfg.max_width), (1280, 1280));
    assert_eq!((cfg.min_height, cfg.max_height), (720, 720));
    assert_eq!(cfg.announce_all_caps, 0);
}

#[test]
fn old_modules_are_not_asked() {
    assert!(matches!(may_add(Ok(0x0e_ff)), Err(CameraError::BackendUnavailable)));
    assert!(may_add(Ok(0x0f_00)).is_ok());
    assert!(matches!(may_add(Err(CameraError::DeviceBusy)), Err(CameraError::DeviceBusy)));
}

#[test]
fn removing_what_is_gone_is_no_error() {
    assert!(removed(Removal::NoControl).is_ok());
    assert!(removed(Removal::Removed).is_ok());
    assert!(removed(Removal::Refused { errno: ENODEV, why: "gone".to_string() }).is_ok());
    let busy = removed(Removal::Refused { errno: 16, why: "busy".to_string() });
    assert!(matches!(busy, Err(CameraError::Io(why)) if why == "busy"));
    let denied = removed(Removal::OpenFailed("denied".to_string()));
    assert!(matches!(denied, Err(CameraError::Io(why)) if why == "denied"));
}

#[test]
fn nodes_are_come_by_in_order() {
    let asked = Some("/dev/video9".to_string());
    assert!(
        matches!(first_source(&asked, true), Source::Use(Node { path, owned_nr: None }) if path == "/dev/video9")
    );
    assert!(matches!(first_source(&None, true), Source::Add));
    assert!(matches!(first_source(&None, false), Source::Scan));
    match after_add(Ok(7)) {
        Source::Use(node) => {
            assert_eq!(node.path, "/dev/video7");
            assert_eq!(to_roll_back(&node), Some(7));
        }
        _ => panic!("an added node is used"),
    }
    assert!(matches!(after_add(Err(CameraError::BackendUnavailable)), Source::Scan));
    assert!(
        matches!(after_scan(Ok("/dev/video0".to_string())), Ok(Node { path, owned_nr: None }) if path == "/dev/video0")
    );
    assert!(matches!(after_scan(Err(CameraError::BackendUnavailable)), Err(CameraError::BackendUnavailable)));
}

#[test]
fn candidates_are_the_video_nodes_in_order() {
    let names: Vec<String> =
        ["video2", "audio0", "video10", "video1"].iter().map(|s| s.to_string()).collect();
    assert_eq!(video_candidates(&names), vec!["video1", "video10", "video2"]);
}

#[test]
fn search_takes_the_first_output() {
    let names: Vec<String> = ["video1", "video0"].iter().map(|s| s.to_string()).collect();
    let mut search = OutputSearch::new(&names);
    assert_eq!(search.candidate().unwrap(), "/dev/video0");
    assert!(!search.judge(Some(1)));
    assert_eq!(search.candidate().unwrap(), "/dev/video1");
    assert!(search.judge(Some(2)));
    assert!(is_output(Some(3)));
    assert!(!is_output(None));
    let empty = OutputSearch::new(&Vec::new());
    assert!(matches!(empty.candidate(), Err(CameraError::BackendUnavailable)));
}

#[test]
fn frames_are_written_in_pieces() {
    let mut sink = V4l2LoopbackSink::new();
    assert!(sink.begin_write(4).is_err());
    assert!(sink.device_path().is_none());
    sink.registered(Node { path: "/dev/video7".to_string(), owned_nr: Some(7) }, "Pixel".to_string());
    assert_eq!(sink.device_path().unwrap(), "/dev/video7");
    let mut w: FrameWrite = sink.begin_write(4).unwrap();
    assert!(matches!(w.next(), WriteNext::More));
    assert!(matches!(w.step(Wrote::Bytes(3)), WriteNext::More));
    assert_eq!(w.offset, 3);
    assert!(matches!(w.step(Wrote::Bytes(1)), WriteNext::Done));
    assert_eq!(sink.unregister(), Some(7));
    assert_eq!(sink.unregister(), None);
    let fixed = V4l2LoopbackSink::with_path("/dev/video3".to_string());
    assert_eq!(fixed.explicit.as_deref(), Some("/dev/video3"));
}

#[test]
fn pixel_formats_have_these_codes() {
    assert_eq!(CameraPixelFormat::Yuyv.fourcc(), "YUYV");
    assert_eq!(CameraPixelFormat::Nv12.fourcc(), "NV12");
    assert_eq!(CameraPixelFormat::Mjpeg.fourcc(), "MJPG");
}

#[test]
fn camera_errors_in_words() {
    assert_eq!(CameraError::BackendUnavailable.message(), "backend unavailable");
    assert_eq!(CameraError::Io("x".to_string()).message(), "io: x");
}

fn frame(width: u32, height: u32, stride: u32, format: PixelFormat, data: Vec<u8>) -> DecodedFrame {
    DecodedFrame { width, height, stride, format, data }
}

#[test]
fn padding_goes_out_of_nv12() {
    // Two rows of luma and one of chroma, two bytes each and two of padding.
    let data = vec![1, 2, 0xee, 0xee, 3, 4, 0xee, 0xee, 5, 6, 0xee, 0xee];
    let f = frame(2, 2, 4, PixelFormat::Nv12, data);
    assert!(is_whole(&f));
    assert_eq!(repack_nv12(&f), vec![1, 2, 3, 4, 5, 6]);
    assert_eq!(camera_picture(&f), Some(vec![1, 2, 3, 4, 5, 6]));
}

#[test]
fn tight_nv12_is_handed_on() {
    let f = frame(2, 2, 0, PixelFormat::Nv12, vec![9, 8, 7]);
    assert!(is_whole(&f));
    assert_eq!(repack_nv12(&f), vec![9, 8, 7]);
}

#[test]
fn chroma_planes_of_i420_are_interleaved() {
    let data = vec![1, 2, 3, 4, 5, 6, 7, 8, 11, 12, 21, 22];
    let f = frame(4, 2, 4, PixelFormat::I420, data);
    assert!(is_whole(&f));
    assert_eq!(i420_to_nv12(&f), vec![1, 2, 3, 4, 5, 6, 7, 8, 11, 21, 12, 22]);
}

#[test]
fn packed_rgb_is_dropped() {
    let f = frame(4, 2, 4, PixelFormat::Rgba8, Vec::new());
    assert!(is_whole(&f));
    assert_eq!(camera_picture(&f), None);
}

#[test]
fn short_pictures_are_not_whole() {
    assert!(!is_whole(&frame(2, 2, 4, PixelFormat::Nv12, vec![0; 9])));
    assert!(is_whole(&frame(2, 2, 4, PixelFormat::Nv12, vec![0; 10])));
    assert!(!is_whole(&frame(4, 2, 4, PixelFormat::I420, vec![0; 11])));
    assert!(is_whole(&frame(4, 2, 4, PixelFormat::I420, vec![0; 12])));
    assert!(!is_whole(&frame(u32::MAX, u32::MAX, u32::MAX, PixelFormat::I420, Vec::new())));
}
