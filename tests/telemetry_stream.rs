use red_horizon::channel::{stream_step, SendFailure, StreamAction, StreamEvent, StreamState, TelemetryChannel};
use red_horizon::telemetry::{decode_frame, encode_frame, FrameError, TelemetryData, WireVec3, FRAME_LEN, QUEUE_CAPACITY};

fn wire(x: f32, y: f32, z: f32) -> WireVec3 {
    WireVec3 { x: x.to_bits(), y: y.to_bits(), z: z.to_bits() }
}

fn sample() -> TelemetryData {
    TelemetryData {
        fuel: 742.5f32.to_bits(),
        altitude: 12.3f32.to_bits(),
        velocity: wire(0.0, -1.2, 0.0),
        thrust: 3.1f32.to_bits(),
        left_ecs: 0.2f32.to_bits(),
        right_ecs: 0.0f32.to_bits(),
        wind_speed: 4.0f32.to_bits(),
        wind_direction: wire(1.0, 0.0, 0.0),
    }
}

fn numbered(i: u32) -> TelemetryData {
    let mut s = sample();
    s.fuel = i;
    s
}

#[test]
fn frame_round_trip_is_bit_exact() {
    let frame = encode_frame(&sample());
    assert_eq!(frame.len(), FRAME_LEN);
    let back = decode_frame(&frame).unwrap();
    assert_eq!(back, sample());
    assert_eq!(f32::from_bits(back.fuel), 742.5);
    assert_eq!(f32::from_bits(back.altitude).to_bits(), 12.3f32.to_bits());
    assert_eq!(f32::from_bits(back.velocity.y), -1.2f32);
    assert_eq!(f32::from_bits(back.thrust), 3.1f32);
    assert_eq!(f32::from_bits(back.left_ecs), 0.2f32);
    assert_eq!(f32::from_bits(back.wind_speed), 4.0f32);
    assert_eq!(f32::from_bits(back.wind_direction.x), 1.0f32);
}

#[test]
fn frame_layout_is_little_endian_words_in_order() {
    let frame = encode_frame(&sample());
    assert_eq!(&frame[0..4], &742.5f32.to_bits().to_le_bytes());
    assert_eq!(&frame[4..8], &12.3f32.to_bits().to_le_bytes());
    assert_eq!(&frame[12..16], &(-1.2f32).to_bits().to_le_bytes());
    assert_eq!(&frame[20..24], &3.1f32.to_bits().to_le_bytes());
    assert_eq!(&frame[32..36], &4.0f32.to_bits().to_le_bytes());
    assert_eq!(&frame[36..40], &1.0f32.to_bits().to_le_bytes());
    assert_eq!(&frame[44..48], &[0, 0, 0, 0]);
}

#[test]
fn short_frame_is_truncated() {
    let frame = encode_frame(&sample());
    assert_eq!(decode_frame(&frame[..FRAME_LEN - 1]), Err(FrameError::Truncated));
    assert_eq!(decode_frame(&[]), Err(FrameError::Truncated));
}

#[test]
fn trailing_bytes_are_ignored() {
    let mut frame = encode_frame(&sample());
    frame.extend_from_slice(&[9, 9, 9]);
    assert_eq!(decode_frame(&frame), Ok(sample()));
}

#[test]
fn full_queue_sheds_the_newest() {
    let (mut channel, mut rx) = TelemetryChannel::new();
    let mut outcomes = Vec::new();
    for i in 0..40u32 {
        outcomes.push(channel.send_telemetry_data(numbered(i)));
    }
    assert_eq!(QUEUE_CAPACITY, 32);
    assert!(outcomes[..32].iter().all(|r| *r == Ok(())));
    assert!(outcomes[32..].iter().all(|r| *r == Err(SendFailure::Full)));
    for i in 0..32u32 {
        assert_eq!(rx.try_recv().unwrap(), numbered(i));
    }
    assert!(rx.try_recv().is_err());
}

#[test]
fn sends_after_the_writer_stops_are_dropped() {
    let (mut channel, rx) = TelemetryChannel::new();
    drop(rx);
    assert_eq!(channel.send_telemetry_data(sample()), Err(SendFailure::Closed));
}

#[test]
fn writer_serves_one_client_until_it_fails() {
    let (state, action) = stream_step(StreamState::AwaitingClient, &StreamEvent::ClientAccepted);
    assert_eq!(state, StreamState::Streaming);
    assert!(matches!(action, StreamAction::Receive));
    let (state, action) = stream_step(state, &StreamEvent::SnapshotReceived(sample()));
    assert_eq!(state, StreamState::Streaming);
    match action {
        StreamAction::Write(bytes) => assert_eq!(bytes, encode_frame(&sample())),
        other => panic!("expected a write, got {:?}", other),
    }
    let (state, action) = stream_step(state, &StreamEvent::FrameWritten);
    assert_eq!(state, StreamState::Streaming);
    assert!(matches!(action, StreamAction::Receive));
    let (state, action) = stream_step(state, &StreamEvent::WriteFailed);
    assert_eq!(state, StreamState::Finished);
    assert!(matches!(action, StreamAction::Stop));
    let (state, action) = stream_step(state, &StreamEvent::ClientAccepted);
    assert_eq!(state, StreamState::Finished);
    assert!(matches!(action, StreamAction::Stop));
}

#[test]
fn accept_failure_ends_telemetry() {
    let (state, action) = stream_step(StreamState::AwaitingClient, &StreamEvent::AcceptFailed);
    assert_eq!(state, StreamState::Finished);
    assert!(matches!(action, StreamAction::ReportAcceptFailure));
    let (state, action) = stream_step(StreamState::Streaming, &StreamEvent::QueueClosed);
    assert_eq!(state, StreamState::Finished);
    assert!(matches!(action, StreamAction::Stop));
}
