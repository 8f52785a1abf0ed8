use audio_sink::alsa_sink::AlsaSink;
use audio_sink::player::{exit_code, run_playback, DecodeEvent, PlayResult};
use audio_sink::portaudio_sink::PortAudioSink;
use audio_sink::sink::{Runtime, Sink, SinkError, SinkState, WriteOutcome};

#[test]
fn clean_run_writes_every_packet() {
    let mut rt = Runtime::new();
    let mut sink = PortAudioSink::open(&mut rt, vec![]);
    let events = vec![
        DecodeEvent::Packet(vec![1, 2]),
        DecodeEvent::Packet(vec![3, 4]),
        DecodeEvent::Packet(vec![5, 6]),
    ];
    let r = run_playback(&mut sink, &events);
    assert_eq!(r, PlayResult::Finished);
    assert_eq!(sink.session_state(), SinkState::Stopped);
    assert_eq!(sink.warning_count(), 0);
    let written = sink.submitted_buffers();
    assert_eq!(written.len(), 3);
    assert_eq!(written[0], vec![1, 2]);
    assert_eq!(written[1], vec![3, 4]);
    assert_eq!(written[2], vec![5, 6]);
    assert_eq!(exit_code(&r), 0);
    sink.close(&mut rt);
}

#[test]
fn underflow_is_logged_and_playback_continues() {
    let mut rt = Runtime::new();
    let mut sink = PortAudioSink::open(
        &mut rt,
        vec![WriteOutcome::Accepted, WriteOutcome::Underflow],
    );
    let events = vec![
        DecodeEvent::Packet(vec![10, 11]),
        DecodeEvent::Packet(vec![12, 13]),
        DecodeEvent::Packet(vec![14, 15]),
    ];
    let r = run_playback(&mut sink, &events);
    assert_eq!(r, PlayResult::Finished);
    assert_eq!(sink.warning_count(), 1);
    let written = sink.submitted_buffers();
    assert_eq!(written.len(), 3);
    assert_eq!(written[2], vec![14, 15]);
    assert_eq!(exit_code(&r), 0);
    sink.close(&mut rt);
}

#[test]
fn blocking_device_underflow_is_recoverable_too() {
    let mut sink = AlsaSink::open(vec![WriteOutcome::Underflow]);
    let events = vec![
        DecodeEvent::Packet(vec![7, 8]),
        DecodeEvent::Packet(vec![9, 10]),
    ];
    let r = run_playback(&mut sink, &events);
    assert_eq!(r, PlayResult::Finished);
    assert_eq!(sink.warning_count(), 1);
    assert_eq!(sink.submitted_buffers().len(), 2);
}

#[test]
fn decode_error_stops_after_earlier_packets() {
    let mut rt = Runtime::new();
    let mut sink = PortAudioSink::open(&mut rt, vec![]);
    let events = vec![
        DecodeEvent::Packet(vec![1]),
        DecodeEvent::Packet(vec![2]),
        DecodeEvent::Error,
        DecodeEvent::Packet(vec![3]),
    ];
    let r = run_playback(&mut sink, &events);
    assert_eq!(r, PlayResult::DecodeFailed);
    let written = sink.submitted_buffers();
    assert_eq!(written.len(), 2);
    assert_eq!(written[0], vec![1]);
    assert_eq!(written[1], vec![2]);
    assert_ne!(exit_code(&r), 0);
    sink.close(&mut rt);
}

#[test]
fn fatal_write_stops_playback() {
    let mut rt = Runtime::new();
    let mut sink = PortAudioSink::open(
        &mut rt,
        vec![WriteOutcome::Accepted, WriteOutcome::Fatal],
    );
    let events = vec![
        DecodeEvent::Packet(vec![1]),
        DecodeEvent::Packet(vec![2]),
        DecodeEvent::Packet(vec![3]),
    ];
    let r = run_playback(&mut sink, &events);
    assert_eq!(r, PlayResult::SinkFailed);
    assert_eq!(sink.submitted_buffers().len(), 1);
    assert_eq!(sink.session_state(), SinkState::Started);
    assert_ne!(exit_code(&r), 0);
    sink.close(&mut rt);
}

#[test]
fn gaps_are_skipped_silently() {
    let mut sink = AlsaSink::open(vec![]);
    let events = vec![
        DecodeEvent::Packet(vec![1, 2]),
        DecodeEvent::Gap,
        DecodeEvent::Packet(vec![3, 4]),
        DecodeEvent::Gap,
    ];
    let r = run_playback(&mut sink, &events);
    assert_eq!(r, PlayResult::Finished);
    assert_eq!(sink.warning_count(), 0);
    let written = sink.submitted_buffers();
    assert_eq!(written.len(), 2);
    assert_eq!(written[0], vec![1, 2]);
    assert_eq!(written[1], vec![3, 4]);
}

#[test]
fn empty_stream_finishes_cleanly() {
    let mut sink = AlsaSink::open(vec![]);
    let events: Vec<DecodeEvent> = vec![];
    let r = run_playback(&mut sink, &events);
    assert_eq!(r, PlayResult::Finished);
    assert_eq!(sink.submitted_buffers().len(), 0);
    assert_eq!(sink.session_state(), SinkState::Stopped);
}

#[test]
fn packet_order_is_preserved() {
    let mut sink = AlsaSink::open(vec![]);
    let mut events = Vec::new();
    for k in 0..5i16 {
        events.push(DecodeEvent::Packet(vec![k, k + 100, k - 100]));
    }
    let r = run_playback(&mut sink, &events);
    assert_eq!(r, PlayResult::Finished);
    let written = sink.submitted_buffers();
    assert_eq!(written.len(), 5);
    for k in 0..5i16 {
        assert_eq!(written[k as usize], vec![k, k + 100, k - 100]);
    }
}

#[test]
fn direct_write_reports_each_outcome() {
    let mut sink = AlsaSink::open(vec![
        WriteOutcome::Accepted,
        WriteOutcome::Underflow,
        WriteOutcome::Fatal,
    ]);
    assert!(sink.start().is_ok());
    assert_eq!(sink.write(&vec![1]), Ok(()));
    assert_eq!(sink.write(&vec![2]), Err(SinkError::Underflow));
    assert_eq!(sink.write(&vec![3]), Err(SinkError::Fatal));
    assert_eq!(sink.write(&vec![4]), Ok(()));
    let written = sink.submitted_buffers();
    assert_eq!(written.len(), 3);
    assert_eq!(written[0], vec![1]);
    assert_eq!(written[1], vec![2]);
    assert_eq!(written[2], vec![4]);
    assert!(sink.stop().is_ok());
}

#[test]
fn exit_codes_follow_the_result() {
    assert_eq!(exit_code(&PlayResult::Finished), 0);
    assert_ne!(exit_code(&PlayResult::DecodeFailed), 0);
    assert_ne!(exit_code(&PlayResult::SinkFailed), 0);
}
