use rjremote::screen::{
    bgra_to_rgba, capture_to_jpeg, fits_base64, rgba_to_rgb, connected_message, frame_base64, frame_header,
    host_address, is_capture_encodable, jpeg_outcome, on_capture_error, CaptureRetry, payload_len_from_header, viewer_actions, FrameError,
    HostAction, HostEvent, ScreenHost, ViewerAction, MAX_FRAME_LEN,
};

#[test]
fn frame_header_is_big_endian_length() {
    assert_eq!(frame_header(5), vec![0, 0, 0, 5]);
    assert_eq!(frame_header(0x01020304), vec![1, 2, 3, 4]);
    assert_eq!(frame_header(0), vec![0, 0, 0, 0]);
    assert_eq!(frame_header(10_000_000), 10_000_000u32.to_be_bytes().to_vec());
}

#[test]
fn frame_header_roundtrip_up_to_limit() {
    for n in [0usize, 1, 255, 256, 65535, 65536, 1234567, MAX_FRAME_LEN as usize] {
        let h = frame_header(n);
        match payload_len_from_header(&h) {
            Ok(len) => assert_eq!(len, n),
            Err(_) => panic!("frame of {} bytes refused", n),
        }
    }
}

#[test]
fn oversized_frames_are_refused() {
    let h = frame_header(10_000_001);
    match payload_len_from_header(&h) {
        Err(e) => {
            assert!(matches!(e, FrameError::TooLarge { len: 10_000_001 }));
            assert_eq!(e.message(), "Frame too large, invalid stream");
        }
        Ok(_) => panic!("oversized frame accepted"),
    }
    assert!(payload_len_from_header(&[0xff, 0xff, 0xff, 0xff]).is_err());
}

#[test]
fn bgra_becomes_rgba_dropping_partial_pixel() {
    assert_eq!(bgra_to_rgba(&[1, 2, 3, 4, 5, 6, 7, 8, 9]), vec![3, 2, 1, 4, 7, 6, 5, 8]);
    assert!(bgra_to_rgba(&[1, 2, 3]).is_empty());
    assert!(bgra_to_rgba(&[]).is_empty());
}

#[test]
fn capture_encodable_bound() {
    assert!(is_capture_encodable(4, 1, 1));
    assert!(is_capture_encodable(7, 1, 1));
    assert!(!is_capture_encodable(8, 1, 1));
    assert!(is_capture_encodable(0, 0, 0));
    assert!(is_capture_encodable(16, 4294967295, 4294967295));
}

#[test]
fn capture_too_small_for_screen_fails_to_build_buffer() {
    match capture_to_jpeg(&[0, 0, 0, 255], 2, 1) {
        Err(m) => assert_eq!(m, "Failed to create image buffer"),
        Ok(_) => panic!("expected error"),
    }
}

#[test]
fn capture_is_encoded_as_jpeg() {
    let mut frame = Vec::new();
    for i in 0..(8 * 8) {
        frame.extend_from_slice(&[(i * 3) as u8, 100, 200, 255]);
    }
    let j = match capture_to_jpeg(&frame, 8, 8) {
        Ok(j) => j,
        Err(m) => panic!("{}", m),
    };
    assert_eq!(&j[..2], &[0xff, 0xd8]);
    assert_eq!(&j[j.len() - 2..], &[0xff, 0xd9]);
    let img = image::load_from_memory_with_format(&j, image::ImageFormat::Jpeg).unwrap();
    assert_eq!((img.width(), img.height()), (8, 8));
    assert!(frame_base64(&j).starts_with("/9j/"));
}

#[test]
fn capture_with_unencodable_size_is_a_jpeg_error() {
    match capture_to_jpeg(&[], 0, 0) {
        Err(m) => assert!(m.starts_with("JPEG encode error: ")),
        Ok(_) => panic!("expected error"),
    }
    let wide = vec![0u8; 4 * 65536];
    match capture_to_jpeg(&wide, 65536, 1) {
        Err(m) => assert!(m.starts_with("JPEG encode error: ")),
        Ok(_) => panic!("expected error"),
    }
}

#[test]
fn rgba_loses_alpha_for_jpeg() {
    assert_eq!(rgba_to_rgb(&[1, 2, 3, 4, 5, 6, 7, 8, 9]), vec![1, 2, 3, 5, 6, 7]);
    assert!(rgba_to_rgb(&[1, 2, 3]).is_empty());
}

#[test]
fn base64_of_frame_bytes() {
    assert_eq!(frame_base64(b"hello"), "aGVsbG8=");
    assert_eq!(frame_base64(&[0xff, 0xd8, 0xff]), "/9j/");
    assert_eq!(frame_base64(&[]), "");
}

#[test]
fn viewer_address_and_reply() {
    let a = host_address("192.168.1.5", 9095);
    assert_eq!(a, "192.168.1.5:9095");
    assert_eq!(
        connected_message(&a, 48213),
        "Connected to 192.168.1.5:9095 \u{2014} received first frame (48213 bytes)"
    );
}

#[test]
fn viewer_actions_after_capture() {
    let acts = viewer_actions(Ok(vec![9, 8, 7]));
    assert_eq!(acts.len(), 3);
    assert!(matches!(&acts[0], ViewerAction::Write(h) if *h == vec![0, 0, 0, 3]));
    assert!(matches!(&acts[1], ViewerAction::Write(p) if *p == vec![9, 8, 7]));
    assert!(matches!(acts[2], ViewerAction::Pause(66)));
    let acts = viewer_actions(Err("Capture error: busy".to_string()));
    assert_eq!(acts.len(), 2);
    assert!(matches!(acts[0], ViewerAction::Pause(50)));
    assert!(matches!(acts[1], ViewerAction::Pause(66)));
}

#[test]
fn host_start_open_listen_stop() {
    let mut host = ScreenHost::new();
    assert!(!host.is_hosting());
    assert!(matches!(host.step(HostEvent::StartRequested { port: 9095 }), HostAction::OpenDisplay { port: 9095 }));
    assert!(host.is_hosting());
    match host.step(HostEvent::DisplayOpened { port: 9095, width: 1920, height: 1080 }) {
        HostAction::Listen { port, reply } => {
            assert_eq!(port, 9095);
            assert_eq!(reply, "Hosting started on port 9095");
        }
        _ => panic!("expected Listen"),
    }
    assert_eq!(host.screen_size(), (1920, 1080));
    match host.step(HostEvent::StartRequested { port: 1 }) {
        HostAction::ReplyOk(m) => assert_eq!(m, "Already hosting"),
        _ => panic!("expected ReplyOk"),
    }
    assert!(matches!(host.step(HostEvent::StopRequested), HostAction::Stopped));
    assert!(!host.is_hosting());
    assert_eq!(host.screen_size(), (1920, 1080));
}

#[test]
fn host_display_failure_keeps_hosting_flag() {
    let mut host = ScreenHost::new();
    host.step(HostEvent::StartRequested { port: 5000 });
    match host.step(HostEvent::DisplayFailed { detail: "no display".to_string() }) {
        HostAction::ReplyErr(m) => assert_eq!(m, "Display error: no display"),
        _ => panic!("expected ReplyErr"),
    }
    assert!(host.is_hosting());
    assert!(matches!(host.step(HostEvent::ListenerFailed), HostAction::Idle));
    assert!(!host.is_hosting());
}

#[test]
fn viewer_reads_back_the_frame_stream() {
    let payload: Vec<u8> = (0..1000u32).map(|i| (i % 256) as u8).collect();
    let mut stream = frame_header(payload.len());
    stream.extend_from_slice(&payload);
    let n = payload_len_from_header(&stream[..4]).ok().unwrap();
    assert_eq!(n, payload.len());
    assert_eq!(&stream[4..4 + n], payload.as_slice());
}

#[test]
fn jpeg_outcome_prefixes_encoder_errors() {
    assert_eq!(jpeg_outcome(Ok(vec![0xff, 0xd8])).ok().unwrap(), vec![0xff, 0xd8]);
    assert_eq!(jpeg_outcome(Err("bad colour".to_string())).err().unwrap(), "JPEG encode error: bad colour");
}

#[test]
fn capture_errors_poll_or_fail() {
    assert!(matches!(on_capture_error(true, "would block"), CaptureRetry::PollAgainAfter(10)));
    match on_capture_error(false, "device lost") {
        CaptureRetry::Fail(m) => assert_eq!(m, "Capture error: device lost"),
        _ => panic!("expected Fail"),
    }
}

#[test]
fn base64_length_bound() {
    assert!(fits_base64(0));
    assert!(fits_base64(3_000_000));
    assert!(fits_base64(usize::MAX / 4 * 3));
    assert!(!fits_base64(usize::MAX));
}
