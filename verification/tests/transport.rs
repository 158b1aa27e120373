use screencast::codec_roundtrip;
use screencast::decode_frame;
use screencast::encode_frame;
use screencast::receiver::DisplayStep;
use screencast::receiver::LengthStep;
use screencast::receiver::PayloadStep;
use screencast::receiver::ReadOutcome;
use screencast::receiver::ReceiverSession;
use screencast::sender::prepare_wire_bytes;
use screencast::sender::CaptureOutcome;
use screencast::sender::CaptureStep;
use screencast::sender::handle_capture;
use screencast::sender::MAX_TRANSIENT_CAPTURES;
use screencast::session::LoopGate;
use screencast::session::poll_cancellation;
use screencast::wire::frame_payload;
use screencast::wire::parse_wire_stream;
use screencast::wire::u32_from_be;
use screencast::wire::u32_to_be;
use screencast::receiver::check_window;
use screencast::receiver::handle_length_read;
use screencast::receiver::handle_payload_read;
use screencast::receiver::WindowGate;
use screencast::sender::next_transient_count;
use screencast::Frame;
use screencast::TransportError;
use screencast::MAX_PAYLOAD_LEN;

fn solid_frame(width: u32, height: u32, rgba: [u8; 4]) -> Frame {
    let mut pixels = Vec::new();
    for _ in 0..(width as usize * height as usize) {
        pixels.extend_from_slice(&rgba);
    }
    Frame::new(width, height, pixels)
}

#[test]
fn big_endian_conversions() {
    assert_eq!(u32_from_be(0x00, 0x98, 0x96, 0x81), 10_000_001);
    assert_eq!(u32_from_be(0x00, 0x98, 0x96, 0x80), 10_000_000);
    assert_eq!(u32_from_be(0xDE, 0xAD, 0xBE, 0xEF), 0xDEAD_BEEF);
    assert_eq!(u32_to_be(10_000_000), vec![0x00, 0x98, 0x96, 0x80]);
    assert_eq!(u32_to_be(0), vec![0, 0, 0, 0]);
    let bytes = u32_to_be(0xCAFE_F00D);
    assert_eq!(u32_from_be(bytes[0], bytes[1], bytes[2], bytes[3]), 0xCAFE_F00D);
}

#[test]
fn frame_payload_prefixes_length() {
    let payload = vec![97u8, 98, 99];
    let framed = frame_payload(&payload).unwrap();
    assert_eq!(framed, vec![0, 0, 0, 3, 97, 98, 99]);

    let empty: Vec<u8> = Vec::new();
    assert_eq!(frame_payload(&empty).unwrap(), vec![0, 0, 0, 0]);
}

#[test]
fn frame_payload_refuses_oversized() {
    let payload = vec![0u8; MAX_PAYLOAD_LEN as usize + 1];
    assert_eq!(frame_payload(&payload), Err(TransportError::ProtocolViolation));

    let at_bound = vec![7u8; 16];
    assert!(frame_payload(&at_bound).is_ok());
}

#[test]
fn framing_round_trip() {
    let payloads: Vec<Vec<u8>> = vec![b"abc".to_vec(), Vec::new(), b"hello world".to_vec()];
    let mut stream = Vec::new();
    for p in &payloads {
        stream.extend_from_slice(&frame_payload(p).unwrap());
    }
    let parsed = parse_wire_stream(&stream).unwrap();
    assert_eq!(parsed, payloads);
}

#[test]
fn empty_stream_parses_to_no_frames() {
    let parsed = parse_wire_stream(&Vec::new()).unwrap();
    assert!(parsed.is_empty());
}

#[test]
fn oversized_declared_length_is_protocol_violation() {
    // Declared length 10,000,001: refused before any payload byte is
    // consumed — there are none here to consume.
    let stream = vec![0x00u8, 0x98, 0x96, 0x81];
    assert_eq!(parse_wire_stream(&stream), Err(TransportError::ProtocolViolation));

    // Even with payload bytes available, the length check comes first.
    let mut with_payload = vec![0x00u8, 0x98, 0x96, 0x81];
    with_payload.extend_from_slice(&[1, 2, 3, 4, 5]);
    assert_eq!(parse_wire_stream(&with_payload), Err(TransportError::ProtocolViolation));
}

#[test]
fn truncated_stream_is_connection_error() {
    // Cut off mid-length-prefix.
    let stream = vec![0x00u8, 0x00];
    assert_eq!(parse_wire_stream(&stream), Err(TransportError::Connection));

    // Cut off mid-payload: declares 5 bytes, delivers 3.
    let stream = vec![0x00u8, 0x00, 0x00, 0x05, 1, 2, 3];
    assert_eq!(parse_wire_stream(&stream), Err(TransportError::Connection));
}

#[test]
fn length_read_decisions() {
    // 10,000,001 declared: protocol violation, no payload read follows.
    let step = handle_length_read(ReadOutcome::Data(vec![0x00, 0x98, 0x96, 0x81]));
    assert!(matches!(step, LengthStep::Fail(TransportError::ProtocolViolation)));

    // Exactly at the bound: read that many payload bytes.
    let step = handle_length_read(ReadOutcome::Data(vec![0x00, 0x98, 0x96, 0x80]));
    assert!(matches!(step, LengthStep::ReadPayload(10_000_000)));

    // Transient: idle, not a failure.
    let step = handle_length_read(ReadOutcome::WouldBlock);
    assert!(matches!(step, LengthStep::Idle));

    // Peer closed mid-prefix: fatal connection error.
    let step = handle_length_read(ReadOutcome::Failed);
    assert!(matches!(step, LengthStep::Fail(TransportError::Connection)));
}

#[test]
fn payload_read_decisions() {
    let step = handle_payload_read(3, ReadOutcome::Data(vec![9, 9, 9]));
    assert!(matches!(step, PayloadStep::Decode(_)));

    // Short read mid-payload is always fatal; no partial frame goes on.
    let step = handle_payload_read(5, ReadOutcome::Data(vec![9, 9, 9]));
    assert!(matches!(step, PayloadStep::Fail(TransportError::Connection)));

    let step = handle_payload_read(5, ReadOutcome::WouldBlock);
    assert!(matches!(step, PayloadStep::Fail(TransportError::Connection)));

    let step = handle_payload_read(5, ReadOutcome::Failed);
    assert!(matches!(step, PayloadStep::Fail(TransportError::Connection)));
}

#[test]
fn codec_round_trip_preserves_frame() {
    let frame = solid_frame(2, 2, [255, 0, 0, 255]);
    let back = codec_roundtrip(&frame).expect("codec refused a valid frame");
    assert_eq!(back.width, 2);
    assert_eq!(back.height, 2);
    assert_eq!(back.pixels, frame.pixels);
}

#[test]
fn encode_then_decode_by_hand() {
    let mut pixels = Vec::new();
    for i in 0..16u8 {
        pixels.push(i.wrapping_mul(17));
    }
    let frame = Frame::new(2, 2, pixels.clone());
    let blob = encode_frame(&frame).expect("encode failed");
    // A codec that handed its input back unchanged would fail here:
    // the raw pixels are not a decodable image blob.
    assert_ne!(blob, pixels);
    let back = decode_frame(&blob).expect("decode failed");
    assert_eq!(back.width, 2);
    assert_eq!(back.height, 2);
    assert_eq!(back.pixels, pixels);
}

#[test]
fn undecodable_payload_is_codec_error() {
    let garbage = b"not an image at all".to_vec();
    assert!(matches!(decode_frame(&garbage), Err(TransportError::Codec)));

    let mut session = ReceiverSession::new();
    let step = session.process_payload(&garbage);
    assert!(matches!(step, DisplayStep::Fail(TransportError::Codec)));
    assert_eq!(session.resolution, None);
}

#[test]
fn three_frames_in_order() {
    // A stub capture source produces three 2x2 frames: red, green, blue.
    let frames = vec![
        solid_frame(2, 2, [255, 0, 0, 255]),
        solid_frame(2, 2, [0, 255, 0, 255]),
        solid_frame(2, 2, [0, 0, 255, 255]),
    ];

    // Sender half: encode and frame each, in order, onto one stream.
    let mut stream = Vec::new();
    for f in &frames {
        stream.extend_from_slice(&prepare_wire_bytes(f).unwrap());
    }

    // Receiver half: parse the stream, decode and present each payload.
    let payloads = parse_wire_stream(&stream).unwrap();
    assert_eq!(payloads.len(), 3);

    let mut session = ReceiverSession::new();
    let mut displayed: Vec<Frame> = Vec::new();
    let mut windows_created = 0usize;
    for p in &payloads {
        match session.process_payload(p) {
            DisplayStep::CreateAndShow(f) => {
                windows_created += 1;
                displayed.push(f);
            }
            DisplayStep::Show(f) => displayed.push(f),
            DisplayStep::Fail(e) => panic!("unexpected failure: {:?}", e),
        }
    }

    // The display sink received exactly red, green, blue, in order; the
    // window was created once, at 2x2, and never recreated.
    assert_eq!(windows_created, 1);
    assert_eq!(session.resolution, Some((2, 2)));
    assert_eq!(displayed.len(), 3);
    for (shown, sent) in displayed.iter().zip(frames.iter()) {
        assert_eq!(shown.width, 2);
        assert_eq!(shown.height, 2);
        assert_eq!(shown.pixels, sent.pixels);
    }
}

#[test]
fn resolution_change_is_protocol_violation() {
    let first = solid_frame(2, 2, [1, 2, 3, 255]);
    let second = solid_frame(3, 1, [4, 5, 6, 255]);

    let mut session = ReceiverSession::new();
    let step = session.process_payload(&encode_frame(&first).unwrap());
    assert!(matches!(step, DisplayStep::CreateAndShow(_)));
    assert_eq!(session.resolution, Some((2, 2)));

    let step = session.process_payload(&encode_frame(&second).unwrap());
    assert!(matches!(step, DisplayStep::Fail(TransportError::ProtocolViolation)));
    assert_eq!(session.resolution, Some((2, 2)));
}

#[test]
fn cancellation_stops_loops_before_next_frame() {
    assert!(matches!(poll_cancellation(true), LoopGate::StopCancelled));
    assert!(matches!(poll_cancellation(false), LoopGate::Proceed));

    // A receiver driven from a pre-parsed stream: once the token is
    // set, the loop ends cleanly before reading a further frame.
    let frame = solid_frame(2, 2, [9, 9, 9, 255]);
    let payloads = vec![
        encode_frame(&frame).unwrap(),
        encode_frame(&frame).unwrap(),
        encode_frame(&frame).unwrap(),
    ];
    let mut cancelled = false;
    let mut session = ReceiverSession::new();
    let mut frames_read = 0usize;
    for p in &payloads {
        match poll_cancellation(cancelled) {
            LoopGate::StopCancelled => break,
            LoopGate::Proceed => {}
        }
        frames_read += 1;
        assert!(!matches!(session.process_payload(p), DisplayStep::Fail(_)));
        // The collaborator sets the token after the first frame.
        cancelled = true;
    }
    assert_eq!(frames_read, 1);
}

#[test]
fn capture_retry_policy() {
    let frame = solid_frame(1, 1, [8, 8, 8, 255]);
    assert!(matches!(
        handle_capture(CaptureOutcome::Captured(frame), 0),
        CaptureStep::Encode(_)
    ));
    assert!(matches!(
        handle_capture(CaptureOutcome::NotReady, 0),
        CaptureStep::RetryAfterDelay(1)
    ));
    assert!(matches!(
        handle_capture(CaptureOutcome::NotReady, 17),
        CaptureStep::RetryAfterDelay(18)
    ));
    assert!(matches!(
        handle_capture(CaptureOutcome::NotReady, MAX_TRANSIENT_CAPTURES - 1),
        CaptureStep::Fail(TransportError::Connection)
    ));
    assert!(matches!(
        handle_capture(CaptureOutcome::Failed, 0),
        CaptureStep::Fail(TransportError::Connection)
    ));
}

#[test]
fn window_close_is_clean_stop() {
    assert!(matches!(check_window(true), WindowGate::KeepPresenting));
    assert!(matches!(check_window(false), WindowGate::StopClosed));
}

#[test]
fn transient_counter_resets_on_success() {
    // A successful capture ends the run of consecutive transient
    // attempts; a transient one extends it.
    let frame = solid_frame(1, 1, [0, 0, 0, 255]);
    let step = handle_capture(CaptureOutcome::Captured(frame), 17);
    assert_eq!(next_transient_count(&step), 0);

    let step = handle_capture(CaptureOutcome::NotReady, 17);
    assert_eq!(next_transient_count(&step), 18);

    let step = handle_capture(CaptureOutcome::Failed, 17);
    assert_eq!(next_transient_count(&step), 0);
}

#[test]
fn error_descriptions() {
    assert_eq!(TransportError::Connection.describe(), "connection failed");
    assert_eq!(TransportError::ProtocolViolation.describe(), "protocol violation");
    assert_eq!(TransportError::Codec.describe(), "codec failure");
}
