use audio_sink::alsa_sink::AlsaSink;
use audio_sink::backend::{BackendConfig, DefaultSink};
use audio_sink::gstreamer_sink::{
    classify_bus_message, run_bus_listener, BusAction, BusMessage, GstreamerSink,
    DEFAULT_CHUNK_SAMPLES,
};
use audio_sink::player::{run_playback, DecodeEvent, PlayResult};
use audio_sink::portaudio_sink::PortAudioSink;
use audio_sink::sink::{Runtime, Sink, SinkState, WriteOutcome};

#[test]
fn pipeline_round_trip_with_tight_capacities() {
    let mut rt = Runtime::new();
    let mut sink = GstreamerSink::with_capacities(&mut rt, 1, 1, 4);
    assert!(sink.start().is_ok());
    let buffers: Vec<Vec<i16>> = vec![
        vec![1, 2, 3, 4],
        vec![5, 6],
        vec![7],
        vec![8, 9, 10],
        vec![11, 12],
    ];
    for b in &buffers {
        assert!(sink.write(b).is_ok());
        assert!(sink.channel_len() <= 1);
        assert!(sink.inflight_len() <= 1);
    }
    sink.drain();
    let native = sink.native_buffers();
    assert_eq!(native.len(), buffers.len());
    for (got, sent) in native.iter().zip(buffers.iter()) {
        assert_eq!(got, sent);
    }
    assert!(sink.stop().is_ok());
    sink.close(&mut rt);
    assert_eq!(rt.init_count(), rt.teardown_count());
}

#[test]
fn pipeline_full_channel_runs_the_producer() {
    let mut rt = Runtime::new();
    let mut sink = GstreamerSink::with_capacities(&mut rt, 1, 1, 4);
    assert!(sink.start().is_ok());
    assert!(sink.write(&vec![1]).is_ok());
    assert_eq!(sink.channel_len(), 1);
    assert_eq!(sink.inflight_len(), 0);
    assert!(sink.write(&vec![2]).is_ok());
    assert_eq!(sink.channel_len(), 1);
    assert_eq!(sink.inflight_len(), 1);
    assert_eq!(sink.native_buffers().len(), 0);
    assert!(sink.write(&vec![3]).is_ok());
    assert_eq!(sink.channel_len(), 1);
    assert_eq!(sink.inflight_len(), 1);
    let native = sink.native_buffers();
    assert_eq!(native.len(), 1);
    assert_eq!(native[0], vec![1]);
    sink.close(&mut rt);
}

#[test]
fn pipeline_accepts_one_full_chunk() {
    let mut rt = Runtime::new();
    let mut sink = GstreamerSink::open(&mut rt);
    assert!(sink.start().is_ok());
    let chunk: Vec<i16> = vec![42; DEFAULT_CHUNK_SAMPLES];
    assert!(sink.write(&chunk).is_ok());
    sink.drain();
    let native = sink.native_buffers();
    assert_eq!(native.len(), 1);
    assert_eq!(native[0].len(), DEFAULT_CHUNK_SAMPLES);
    sink.close(&mut rt);
}

#[test]
fn pipeline_plays_a_decoded_stream() {
    let mut rt = Runtime::new();
    let mut sink = GstreamerSink::open(&mut rt);
    let events = vec![
        DecodeEvent::Packet(vec![1, 2]),
        DecodeEvent::Gap,
        DecodeEvent::Packet(vec![3, 4]),
    ];
    let r = run_playback(&mut sink, &events);
    assert_eq!(r, PlayResult::Finished);
    assert_eq!(sink.session_state(), SinkState::Stopped);
    sink.drain();
    let native = sink.native_buffers();
    assert_eq!(native.len(), 2);
    assert_eq!(native[0], vec![1, 2]);
    assert_eq!(native[1], vec![3, 4]);
    sink.close(&mut rt);
}

#[test]
fn runtime_stays_balanced_over_repeated_cycles() {
    let mut rt = Runtime::new();
    for _ in 0..3 {
        let sink = PortAudioSink::open(&mut rt, vec![]);
        sink.close(&mut rt);
        let sink = GstreamerSink::open(&mut rt);
        sink.close(&mut rt);
    }
    assert_eq!(rt.init_count(), 6);
    assert_eq!(rt.teardown_count(), 6);
    assert_eq!(rt.init_count(), rt.teardown_count());
}

#[test]
fn blocking_device_holds_no_global_state() {
    let rt = Runtime::new();
    for _ in 0..3 {
        let sink = AlsaSink::open(vec![]);
        drop(sink);
    }
    assert_eq!(rt.init_count(), 0);
    assert_eq!(rt.teardown_count(), 0);
}

#[test]
fn bus_listener_stops_at_the_first_error() {
    let msgs = vec![
        BusMessage::StateChanged,
        BusMessage::Other,
        BusMessage::Error,
        BusMessage::StateChanged,
    ];
    assert_eq!(run_bus_listener(&msgs), 3);
}

#[test]
fn bus_listener_stops_at_end_of_stream() {
    let msgs = vec![BusMessage::Eos, BusMessage::Other];
    assert_eq!(run_bus_listener(&msgs), 1);
}

#[test]
fn bus_listener_consumes_everything_without_a_terminal() {
    let msgs = vec![
        BusMessage::StateChanged,
        BusMessage::Other,
        BusMessage::StateChanged,
    ];
    assert_eq!(run_bus_listener(&msgs), 3);
}

#[test]
fn bus_messages_classify_as_specified() {
    assert_eq!(classify_bus_message(&BusMessage::StateChanged), BusAction::Log);
    assert_eq!(classify_bus_message(&BusMessage::Other), BusAction::Log);
    assert_eq!(classify_bus_message(&BusMessage::Error), BusAction::Quit);
    assert_eq!(classify_bus_message(&BusMessage::Eos), BusAction::Quit);
}

#[test]
fn factory_opens_each_configured_backend() {
    let mut rt = Runtime::new();
    let events = vec![
        DecodeEvent::Packet(vec![1, 2]),
        DecodeEvent::Packet(vec![3, 4]),
    ];

    let mut direct = DefaultSink::open(
        &mut rt,
        BackendConfig::DirectStream(vec![WriteOutcome::Underflow]),
    );
    assert_eq!(run_playback(&mut direct, &events), PlayResult::Finished);
    match &direct {
        DefaultSink::PortAudio(s) => {
            assert_eq!(s.submitted_buffers().len(), 2);
            assert_eq!(s.warning_count(), 1);
        }
        _ => panic!("configured the direct-stream backend"),
    }
    direct.close(&mut rt);

    let mut blocking = DefaultSink::open(&mut rt, BackendConfig::BlockingDevice(vec![]));
    assert_eq!(run_playback(&mut blocking, &events), PlayResult::Finished);
    match &blocking {
        DefaultSink::Alsa(s) => assert_eq!(s.submitted_buffers().len(), 2),
        _ => panic!("configured the blocking-device backend"),
    }
    blocking.close(&mut rt);

    let mut pipeline = DefaultSink::open(&mut rt, BackendConfig::Pipeline);
    assert_eq!(run_playback(&mut pipeline, &events), PlayResult::Finished);
    match &mut pipeline {
        DefaultSink::Gstreamer(s) => {
            s.drain();
            assert_eq!(s.native_buffers().len(), 2);
        }
        _ => panic!("configured the pipeline backend"),
    }
    pipeline.close(&mut rt);

    assert_eq!(rt.init_count(), 2);
    assert_eq!(rt.teardown_count(), 2);
}
