//! Backend selection: one output device is chosen at configuration time
//! among the three sink implementations, and all three coexist in one
//! binary behind a single variant type.

use vstd::prelude::*;

use crate::alsa_sink::AlsaSink;
use crate::gstreamer_sink::GstreamerSink;
use crate::portaudio_sink::PortAudioSink;
use crate::sink::{Runtime, Sink, SinkError, SinkState, WriteOutcome};

verus! {

/// Which backend to open, with the device behaviour each scripted backend
/// models. The pipeline backend's device accepts every buffer; its
/// backpressure lives in its bounded channel and buffer pool.
pub enum BackendConfig {
    /// The direct-stream backend, with its stream's write outcomes.
    DirectStream(Vec<WriteOutcome>),
    /// The blocking-device backend, with its device's write outcomes.
    BlockingDevice(Vec<WriteOutcome>),
    /// The pipeline backend with its default capacities.
    Pipeline,
}

impl BackendConfig {
    /// Whether the chosen backend holds the process-wide runtime.
    pub open spec fn needs_runtime(&self) -> bool {
        match self {
            BackendConfig::DirectStream(_) => true,
            BackendConfig::BlockingDevice(_) => false,
            BackendConfig::Pipeline => true,
        }
    }

    /// The write outcomes the chosen device will give.
    pub open spec fn spec_script(&self) -> Seq<WriteOutcome> {
        match self {
            BackendConfig::DirectStream(script) => script@,
            BackendConfig::BlockingDevice(script) => script@,
            BackendConfig::Pipeline => Seq::empty(),
        }
    }
}

/// The sink chosen by configuration at startup: one of the three backends,
/// behind the uniform [`Sink`] contract.
pub enum DefaultSink {
    /// A direct-stream sink.
    PortAudio(PortAudioSink),
    /// A blocking kernel-device sink.
    Alsa(AlsaSink),
    /// A pipeline sink.
    Gstreamer(GstreamerSink),
}

impl DefaultSink {
    /// Whether this sink holds the process-wide runtime and must be closed
    /// against it.
    pub open spec fn holds_runtime(&self) -> bool {
        match self {
            DefaultSink::PortAudio(_) => true,
            DefaultSink::Alsa(_) => false,
            DefaultSink::Gstreamer(_) => true,
        }
    }

    /// Open the configured backend.
    pub fn open(rt: &mut Runtime, config: BackendConfig) -> (s: DefaultSink)
        requires
            old(rt).spec_inits() < u64::MAX,
        ensures
            s.inv(),
            s.state() == SinkState::Created,
            s.submitted() =~= Seq::<Seq<i16>>::empty(),
            s.warnings() == 0,
            s.device_script() == config.spec_script(),
            s.holds_runtime() == config.needs_runtime(),
            final(rt).spec_inits() == old(rt).spec_inits() + (if config.needs_runtime() {
                1int
            } else {
                0int
            }),
            final(rt).spec_teardowns() == old(rt).spec_teardowns(),
    {
        match config {
            BackendConfig::DirectStream(script) => DefaultSink::PortAudio(
                PortAudioSink::open(rt, script),
            ),
            BackendConfig::BlockingDevice(script) => DefaultSink::Alsa(AlsaSink::open(script)),
            BackendConfig::Pipeline => DefaultSink::Gstreamer(GstreamerSink::open(rt)),
        }
    }

    /// Release the sink, tearing the process-wide runtime down exactly once
    /// for the backends that hold it.
    pub fn close(self, rt: &mut Runtime)
        requires
            self.holds_runtime() ==> old(rt).spec_teardowns() < old(rt).spec_inits(),
        ensures
            final(rt).spec_teardowns() == old(rt).spec_teardowns() + (if self.holds_runtime() {
                1int
            } else {
                0int
            }),
            final(rt).spec_inits() == old(rt).spec_inits(),
    {
        match self {
            DefaultSink::PortAudio(s) => s.close(rt),
            DefaultSink::Alsa(_) => (),
            DefaultSink::Gstreamer(s) => s.close(rt),
        }
    }

    /// The current session state.
    pub fn session_state(&self) -> (st: SinkState)
        ensures
            st == self.state(),
    {
        match self {
            DefaultSink::PortAudio(s) => s.session_state(),
            DefaultSink::Alsa(s) => s.session_state(),
            DefaultSink::Gstreamer(s) => s.session_state(),
        }
    }
}

impl Sink for DefaultSink {
    open spec fn inv(&self) -> bool {
        match self {
            DefaultSink::PortAudio(s) => s.inv(),
            DefaultSink::Alsa(s) => s.inv(),
            DefaultSink::Gstreamer(s) => s.inv(),
        }
    }

    open spec fn state(&self) -> SinkState {
        match self {
            DefaultSink::PortAudio(s) => s.state(),
            DefaultSink::Alsa(s) => s.state(),
            DefaultSink::Gstreamer(s) => s.state(),
        }
    }

    open spec fn submitted(&self) -> Seq<Seq<i16>> {
        match self {
            DefaultSink::PortAudio(s) => s.submitted(),
            DefaultSink::Alsa(s) => s.submitted(),
            DefaultSink::Gstreamer(s) => s.submitted(),
        }
    }

    open spec fn warnings(&self) -> nat {
        match self {
            DefaultSink::PortAudio(s) => s.warnings(),
            DefaultSink::Alsa(s) => s.warnings(),
            DefaultSink::Gstreamer(s) => s.warnings(),
        }
    }

    open spec fn device_script(&self) -> Seq<WriteOutcome> {
        match self {
            DefaultSink::PortAudio(s) => s.device_script(),
            DefaultSink::Alsa(s) => s.device_script(),
            DefaultSink::Gstreamer(s) => s.device_script(),
        }
    }

    open spec fn max_chunk(&self) -> nat {
        match self {
            DefaultSink::PortAudio(s) => s.max_chunk(),
            DefaultSink::Alsa(s) => s.max_chunk(),
            DefaultSink::Gstreamer(s) => s.max_chunk(),
        }
    }

    fn start(&mut self) -> (r: Result<(), SinkError>) {
        match self {
            DefaultSink::PortAudio(s) => s.start(),
            DefaultSink::Alsa(s) => s.start(),
            DefaultSink::Gstreamer(s) => s.start(),
        }
    }

    fn stop(&mut self) -> (r: Result<(), SinkError>) {
        match self {
            DefaultSink::PortAudio(s) => s.stop(),
            DefaultSink::Alsa(s) => s.stop(),
            DefaultSink::Gstreamer(s) => s.stop(),
        }
    }

    fn write(&mut self, data: &Vec<i16>) -> (r: Result<(), SinkError>) {
        match self {
            DefaultSink::PortAudio(s) => s.write(data),
            DefaultSink::Alsa(s) => s.write(data),
            DefaultSink::Gstreamer(s) => s.write(data),
        }
    }
}

} // verus!
