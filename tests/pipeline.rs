use playback_core::audio::{
    forward_frame, output_channel_layout, ring_for, sample_size, silence_byte, ChannelLayoutKind,
    ForwardOutcome, SampleKind, RING_SAMPLES,
};
use playback_core::clock::StreamClock;
use playback_core::control::{
    fan_out, route_packet, ControlCommand, GateStep, PauseGate, PlaybackToggle, Route, Target,
};
use playback_core::queue::{
    EncodedPacket, PacketQueue, RecvRefusal, SendRefusal, PACKET_CHANNEL_CAPACITY,
};
use playback_core::ring::{frame_byte_len, SampleRing};
use playback_core::stage::{Stage, StageEvent, StageStep};

fn packet(stream_index: usize, pts: i64) -> EncodedPacket {
    EncodedPacket { stream_index, pts: Some(pts), data: vec![pts as u8; 4] }
}

#[test]
fn clock_waits_until_deadline() {
    // time base 1/1000 s: pts 500 is due 0.5 s after the anchor
    let clock = StreamClock::new(1, 1000, 10_000);
    assert_eq!(clock.convert_pts_to_instant(Some(500), 10_000), Some(500_000_000));
    assert_eq!(clock.convert_pts_to_instant(Some(500), 200_000_000), Some(300_010_000));
}

#[test]
fn clock_late_frame_waits_zero() {
    let clock = StreamClock::new(1, 25, 0);
    // pts 25 is due at 1 s; at 3 s it is late
    assert_eq!(clock.convert_pts_to_instant(Some(25), 3_000_000_000), Some(0));
    // a timestamp before the stream's origin is due at the anchor
    assert_eq!(clock.convert_pts_to_instant(Some(-7), 5), Some(0));
}

#[test]
fn clock_without_timestamp_or_time_base() {
    let clock = StreamClock::new(1, 1000, 0);
    assert_eq!(clock.convert_pts_to_instant(None, 0), None);
    // a time base that is not a positive ratio puts every deadline at the anchor
    let broken = StreamClock::new(1, 0, 100);
    assert_eq!(broken.convert_pts_to_instant(Some(10), 40), Some(60));
    let negative = StreamClock::new(-1, 25, 100);
    assert_eq!(negative.convert_pts_to_instant(Some(10), 200), Some(0));
}

#[test]
fn clock_saturates_far_deadlines() {
    let overflowing = StreamClock::new(1, 1, u64::MAX - 10);
    assert_eq!(overflowing.convert_pts_to_instant(Some(1), 0), Some(u64::MAX));
    let clock = StreamClock::new(1, 1, 0);
    assert_eq!(clock.convert_pts_to_instant(Some(0), 5), Some(0));
    assert_eq!(clock.convert_pts_to_instant(Some(i64::MAX), 5), Some(u64::MAX - 5));
    assert_eq!(clock.convert_pts_to_instant(Some(i64::MIN), 5), Some(0));
}

#[test]
fn clock_rounds_down_and_is_monotone() {
    let clock = StreamClock::new(1, 3, 0);
    assert_eq!(clock.convert_pts_to_instant(Some(1), 0), Some(333_333_333));
    let mut last = 0u64;
    for pts in 0..50i64 {
        let w = clock.convert_pts_to_instant(Some(pts), 1_000_000_000).unwrap();
        assert!(w >= last);
        last = w;
    }
}

#[test]
fn gate_pause_then_play_round_trip() {
    let mut gate = PauseGate::new();
    assert!(gate.is_open());
    assert_eq!(gate.on_command(Some(ControlCommand::Pause)), GateStep::Continue);
    assert!(!gate.is_open());
    assert_eq!(gate.on_command(Some(ControlCommand::Play)), GateStep::Continue);
    assert_eq!(gate, PauseGate::new());
}

#[test]
fn gate_closed_channel_exits() {
    let mut gate = PauseGate::new();
    gate.on_command(Some(ControlCommand::Pause));
    assert_eq!(gate.on_command(None), GateStep::Exit);
    assert!(!gate.is_open());
}

#[test]
fn dispatcher_fans_out_video_then_audio() {
    assert_eq!(
        fan_out(ControlCommand::Pause),
        vec![(Target::Video, ControlCommand::Pause), (Target::Audio, ControlCommand::Pause)]
    );
    let mut stage = Stage::dispatcher();
    assert!(stage.offers_work());
    let step = stage.on_event(StageEvent::Command(ControlCommand::Pause));
    assert_eq!(
        step,
        StageStep::Continue(vec![
            (Target::Video, ControlCommand::Pause),
            (Target::Audio, ControlCommand::Pause)
        ])
    );
    assert!(!stage.offers_work());
}

#[test]
fn stage_keeps_serving_after_work_ends() {
    let mut stage = Stage::pipeline();
    assert_eq!(stage.on_event(StageEvent::WorkFinished), StageStep::Continue(vec![]));
    assert!(!stage.offers_work());
    assert_eq!(
        stage.on_event(StageEvent::Command(ControlCommand::Play)),
        StageStep::Continue(vec![])
    );
    assert!(!stage.offers_work());
    assert_eq!(stage.on_event(StageEvent::ControlClosed), StageStep::Exit);
}

#[test]
fn packets_route_by_stream() {
    assert_eq!(route_packet(1, 1, 0), Route::ToAudio);
    assert_eq!(route_packet(0, 1, 0), Route::ToVideo);
    assert_eq!(route_packet(2, 1, 0), Route::Skip);
}

#[test]
fn toggle_alternates_commands() {
    let mut t = PlaybackToggle::new();
    assert!(t.playing);
    assert_eq!(t.toggle_pause_playing(), ControlCommand::Pause);
    assert!(!t.playing);
    assert_eq!(t.toggle_pause_playing(), ControlCommand::Play);
    assert!(t.playing);
}

#[test]
fn channel_keeps_order() {
    let mut q = PacketQueue::bounded(PACKET_CHANNEL_CAPACITY);
    for pts in 0..10 {
        assert!(q.try_send(packet(0, pts)).is_ok());
    }
    for pts in 0..10 {
        assert_eq!(q.try_recv().unwrap().pts, Some(pts));
    }
    assert!(matches!(q.try_recv(), Err(RecvRefusal::Empty)));
}

#[test]
fn full_channel_refuses_until_a_slot_frees() {
    let mut q = PacketQueue::bounded(PACKET_CHANNEL_CAPACITY);
    for pts in 0..128 {
        assert!(q.try_send(packet(0, pts)).is_ok());
    }
    assert!(q.is_full());
    match q.try_send(packet(0, 999)) {
        Err(SendRefusal::Full(p)) => assert_eq!(p.pts, Some(999)),
        _ => panic!("a full channel must refuse"),
    }
    assert_eq!(q.len(), 128);
    assert_eq!(q.try_recv().unwrap().pts, Some(0));
    assert!(q.try_send(packet(0, 999)).is_ok());
    assert_eq!(q.len(), 128);
}

#[test]
fn closed_channel_drains_then_reports_closed() {
    let mut q = PacketQueue::bounded(4);
    q.try_send(packet(0, 1)).unwrap();
    q.close();
    assert!(q.is_closed());
    match q.try_send(packet(0, 2)) {
        Err(SendRefusal::Closed(p)) => assert_eq!(p.pts, Some(2)),
        _ => panic!("a closed channel must refuse"),
    }
    assert_eq!(q.try_recv().unwrap().pts, Some(1));
    assert!(matches!(q.try_recv(), Err(RecvRefusal::Closed)));
}

#[test]
fn three_packets_play_in_order_with_rising_deadlines() {
    let clock = StreamClock::new(1, 30, 0);
    let mut video = PacketQueue::bounded(PACKET_CHANNEL_CAPACITY);
    let mut audio_q = PacketQueue::bounded(PACKET_CHANNEL_CAPACITY);
    for pts in 0..3 {
        video.try_send(packet(0, pts)).unwrap();
        audio_q.try_send(packet(1, pts)).unwrap();
    }
    let stage = Stage::pipeline();
    assert!(stage.offers_work());
    let mut delivered = Vec::new();
    let mut last_deadline = 0u64;
    while let Ok(p) = video.try_recv() {
        let wait = clock.convert_pts_to_instant(p.pts, 0).unwrap();
        assert!(wait >= last_deadline);
        last_deadline = wait;
        delivered.push(p.pts.unwrap());
    }
    assert_eq!(delivered, vec![0, 1, 2]);

    let mut ring = ring_for(SampleKind::U8);
    let mut expected = Vec::new();
    while let Ok(p) = audio_q.try_recv() {
        assert_eq!(forward_frame(&mut ring, &p.data, 2, 2, SampleKind::U8), ForwardOutcome::Pushed);
        expected.extend_from_slice(&p.data);
    }
    assert_eq!(ring.len(), 12);
    assert_eq!(ring.fill_period(12, 128), expected);
}

#[test]
fn paused_packets_are_kept_until_play() {
    let mut stage = Stage::pipeline();
    let mut q = PacketQueue::bounded(PACKET_CHANNEL_CAPACITY);
    stage.on_event(StageEvent::Command(ControlCommand::Pause));
    for pts in 0..5 {
        assert!(q.try_send(packet(0, pts)).is_ok());
    }
    assert!(!stage.offers_work());
    assert_eq!(q.len(), 5);
    stage.on_event(StageEvent::Command(ControlCommand::Play));
    assert!(stage.offers_work());
    let mut seen = Vec::new();
    while let Ok(p) = q.try_recv() {
        seen.push(p.pts.unwrap());
    }
    assert_eq!(seen, vec![0, 1, 2, 3, 4]);
}

#[test]
fn underrun_period_is_silence() {
    let mut ring = SampleRing::new(64);
    assert_eq!(ring.fill_period(8, 128), vec![128u8; 8]);
    assert_eq!(ring.len(), 0);
    assert!(ring.push_frame(&[1, 2, 3]));
    assert_eq!(ring.fill_period(5, 0), vec![1, 2, 3, 0, 0]);
    assert_eq!(ring.fill_period(2, 0), vec![0, 0]);
}

#[test]
fn ring_serves_oldest_first_and_keeps_rest() {
    let mut ring = SampleRing::new(8);
    assert_eq!(ring.capacity(), 8);
    assert!(ring.push_frame(&[1, 2, 3, 4, 5]));
    assert_eq!(ring.free_len(), 3);
    assert!(!ring.push_frame(&[6, 7, 8, 9]));
    assert_eq!(ring.len(), 5);
    assert_eq!(ring.fill_period(2, 0), vec![1, 2]);
    assert!(ring.push_frame(&[6, 7, 8, 9]));
    assert_eq!(ring.fill_period(7, 0), vec![3, 4, 5, 6, 7, 8, 9]);
}

#[test]
fn forward_frame_outcomes() {
    let mut ring = ring_for(SampleKind::F32);
    assert_eq!(ring.capacity(), RING_SAMPLES * 4);
    // 2 samples x 2 channels x 4 bytes = 16 bytes, the rest is padding
    let data: Vec<u8> = (0..20).collect();
    assert_eq!(forward_frame(&mut ring, &data, 2, 2, SampleKind::F32), ForwardOutcome::Pushed);
    assert_eq!(ring.len(), 16);
    assert_eq!(forward_frame(&mut ring, &data, 3, 2, SampleKind::F32), ForwardOutcome::Malformed);
    let big = vec![0u8; RING_SAMPLES * 4 + 4];
    assert_eq!(forward_frame(&mut ring, &big, RING_SAMPLES + 1, 1, SampleKind::F32), ForwardOutcome::TooLarge);
    let fill = vec![0u8; RING_SAMPLES * 4];
    assert_eq!(forward_frame(&mut ring, &fill, RING_SAMPLES, 1, SampleKind::F32), ForwardOutcome::Wait);
    assert_eq!(ring.len(), 16);
    assert_eq!(forward_frame(&mut ring, &data, usize::MAX, 2, SampleKind::F32), ForwardOutcome::Malformed);
}

#[test]
fn sample_formats() {
    assert_eq!(sample_size(SampleKind::U8), 1);
    assert_eq!(sample_size(SampleKind::F32), 4);
    assert_eq!(silence_byte(SampleKind::U8), 128);
    assert_eq!(silence_byte(SampleKind::F32), 0);
    assert_eq!(frame_byte_len(1024, 2, 4), Some(8192));
    assert_eq!(frame_byte_len(usize::MAX, 2, 1), None);
    assert_eq!(output_channel_layout(1), Some(ChannelLayoutKind::Mono));
    assert_eq!(output_channel_layout(2), Some(ChannelLayoutKind::Stereo));
    assert_eq!(output_channel_layout(6), None);
}
