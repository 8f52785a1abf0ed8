//! The direct-stream backend: a synchronous, blocking output stream over a
//! cross-platform low-level audio API.
//!
//! Opening the sink performs the one-time library-wide initialization and
//! opens a default output stream at the fixed format (0 input channels,
//! 2 output channels, 44100 Hz); closing it performs the paired library-wide
//! teardown. The stream's own behaviour enters the model as a script of
//! [`WriteOutcome`]s, one per write: the device driver, not this library,
//! decides when an underflow or a fatal error happens. Underflow is
//! recoverable — the buffer still reaches the playback path and the sink
//! logs one warning; any other device error is fatal.

use vstd::prelude::*;

use crate::sink::{copy_samples, views_of, Runtime, Sink, SinkError, SinkState, WriteOutcome};

verus! {

/// A sink over one direct output stream.
pub struct PortAudioSink {
    state: SinkState,
    /// Outcomes the stream will give to future writes, oldest first.
    script: Vec<WriteOutcome>,
    /// Buffers accepted into the stream's playback path, oldest first.
    accepted: Vec<Vec<i16>>,
    /// Underflow warnings logged so far.
    warned: usize,
}

impl PortAudioSink {
    /// Initialize the audio library and open the default output stream.
    ///
    /// `script` is the stream's future behaviour: the outcome of write call
    /// `k` is `script[k]`, and every write past the script's end is accepted.
    pub fn open(rt: &mut Runtime, script: Vec<WriteOutcome>) -> (s: PortAudioSink)
        requires
            old(rt).spec_inits() < u64::MAX,
        ensures
            s.inv(),
            s.state() == SinkState::Created,
            s.submitted() =~= Seq::<Seq<i16>>::empty(),
            s.warnings() == 0,
            s.device_script() == script@,
            final(rt).spec_inits() == old(rt).spec_inits() + 1,
            final(rt).spec_teardowns() == old(rt).spec_teardowns(),
    {
        rt.init();
        proof {
            broadcast use vstd::std_specs::vec::axiom_spec_len;

            assert(script@.len() <= usize::MAX) by {
                assert(vstd::std_specs::vec::spec_vec_len(&script) == script@.len());
            }
        }
        PortAudioSink { state: SinkState::Created, script, accepted: Vec::new(), warned: 0 }
    }

    /// Release the stream and perform the library-wide teardown.
    ///
    /// Consuming the sink makes the teardown happen exactly once per open.
    pub fn close(self, rt: &mut Runtime)
        requires
            old(rt).spec_teardowns() < old(rt).spec_inits(),
        ensures
            final(rt).spec_teardowns() == old(rt).spec_teardowns() + 1,
            final(rt).spec_inits() == old(rt).spec_inits(),
    {
        rt.terminate();
    }

    /// The buffers accepted into the playback path, oldest first.
    pub fn submitted_buffers(&self) -> (b: &Vec<Vec<i16>>)
        ensures
            views_of(b@) == self.submitted(),
    {
        &self.accepted
    }

    /// How many underflow warnings have been logged.
    pub fn warning_count(&self) -> (n: usize)
        ensures
            n == self.warnings(),
    {
        self.warned
    }

    /// The current session state.
    pub fn session_state(&self) -> (st: SinkState)
        ensures
            st == self.state(),
    {
        self.state
    }
}

impl Sink for PortAudioSink {
    closed spec fn inv(&self) -> bool {
        self.warned + self.script@.len() <= usize::MAX
    }

    closed spec fn state(&self) -> SinkState {
        self.state
    }

    closed spec fn submitted(&self) -> Seq<Seq<i16>> {
        views_of(self.accepted@)
    }

    closed spec fn warnings(&self) -> nat {
        self.warned as nat
    }

    closed spec fn device_script(&self) -> Seq<WriteOutcome> {
        self.script@
    }

    closed spec fn max_chunk(&self) -> nat {
        usize::MAX as nat
    }

    fn start(&mut self) -> (r: Result<(), SinkError>) {
        self.state = SinkState::Started;
        Ok(())
    }

    fn stop(&mut self) -> (r: Result<(), SinkError>) {
        self.state = SinkState::Stopped;
        Ok(())
    }

    fn write(&mut self, data: &Vec<i16>) -> (r: Result<(), SinkError>) {
        let outcome = if self.script.len() > 0 {
            self.script.remove(0)
        } else {
            WriteOutcome::Accepted
        };
        match outcome {
            WriteOutcome::Accepted => {
                self.accepted.push(copy_samples(data));
                assert(views_of(self.accepted@) =~= views_of(old(self).accepted@).push(data@));
                Ok(())
            },
            WriteOutcome::Underflow => {
                self.accepted.push(copy_samples(data));
                self.warned = self.warned + 1;
                assert(views_of(self.accepted@) =~= views_of(old(self).accepted@).push(data@));
                Err(SinkError::Underflow)
            },
            WriteOutcome::Fatal => Err(SinkError::Fatal),
        }
    }
}

} // verus!
