//! The blocking-device backend: a kernel audio device handle opened by name
//! in blocking mode at the fixed format (signed 16-bit, 2 channels,
//! 44100 Hz).
//!
//! The device needs no explicit start or stop for continuous playback, so
//! those calls only move the session state; `write` submits interleaved
//! samples and blocks until the kernel has accepted them. Device-level
//! underruns are normally hidden by the kernel's own buffering; where the
//! device does report one, the buffer still reached the playback path and
//! the condition stays recoverable. As with the direct-stream backend, the
//! device's behaviour enters the model as a script of [`WriteOutcome`]s.

use vstd::prelude::*;

use crate::sink::{copy_samples, views_of, Sink, SinkError, SinkState, WriteOutcome};

verus! {

/// A sink over one blocking kernel device handle.
pub struct AlsaSink {
    state: SinkState,
    /// Outcomes the device will give to future writes, oldest first.
    script: Vec<WriteOutcome>,
    /// Buffers accepted into the device's playback path, oldest first.
    accepted: Vec<Vec<i16>>,
    /// Underflow warnings logged so far.
    warned: usize,
}

impl AlsaSink {
    /// Open the default device in blocking mode.
    ///
    /// The device holds no process-wide runtime, so opening and dropping it
    /// never touches the global initialization balance. `script` is the
    /// device's future behaviour: the outcome of write call `k` is
    /// `script[k]`, and every write past the script's end is accepted.
    pub fn open(script: Vec<WriteOutcome>) -> (s: AlsaSink)
        ensures
            s.inv(),
            s.state() == SinkState::Created,
            s.submitted() =~= Seq::<Seq<i16>>::empty(),
            s.warnings() == 0,
            s.device_script() == script@,
    {
        proof {
            broadcast use vstd::std_specs::vec::axiom_spec_len;

            assert(script@.len() <= usize::MAX) by {
                assert(vstd::std_specs::vec::spec_vec_len(&script) == script@.len());
            }
        }
        AlsaSink { state: SinkState::Created, script, accepted: Vec::new(), warned: 0 }
    }

    /// The buffers accepted into the playback path, oldest first.
    pub fn submitted_buffers(&self) -> (b: &Vec<Vec<i16>>)
        ensures
            views_of(b@) == self.submitted(),
    {
        &self.accepted
    }

    /// How many underflow warnings have been logged.
    pub fn warning_count(&self) -> (n: usize)
        ensures
            n == self.warnings(),
    {
        self.warned
    }

    /// The current session state.
    pub fn session_state(&self) -> (st: SinkState)
        ensures
            st == self.state(),
    {
        self.state
    }
}

impl Sink for AlsaSink {
    closed spec fn inv(&self) -> bool {
        self.warned + self.script@.len() <= usize::MAX
    }

    closed spec fn state(&self) -> SinkState {
        self.state
    }

    closed spec fn submitted(&self) -> Seq<Seq<i16>> {
        views_of(self.accepted@)
    }

    closed spec fn warnings(&self) -> nat {
        self.warned as nat
    }

    closed spec fn device_script(&self) -> Seq<WriteOutcome> {
        self.script@
    }

    closed spec fn max_chunk(&self) -> nat {
        usize::MAX as nat
    }

    fn start(&mut self) -> (r: Result<(), SinkError>) {
        self.state = SinkState::Started;
        Ok(())
    }

    fn stop(&mut self) -> (r: Result<(), SinkError>) {
        self.state = SinkState::Stopped;
        Ok(())
    }

    fn write(&mut self, data: &Vec<i16>) -> (r: Result<(), SinkError>) {
        let outcome = if self.script.len() > 0 {
            self.script.remove(0)
        } else {
            WriteOutcome::Accepted
        };
        match outcome {
            WriteOutcome::Accepted => {
                self.accepted.push(copy_samples(data));
                assert(views_of(self.accepted@) =~= views_of(old(self).accepted@).push(data@));
                Ok(())
            },
            WriteOutcome::Underflow => {
                self.accepted.push(copy_samples(data));
                self.warned = self.warned + 1;
                assert(views_of(self.accepted@) =~= views_of(old(self).accepted@).push(data@));
                Err(SinkError::Underflow)
            },
            WriteOutcome::Fatal => Err(SinkError::Fatal),
        }
    }
}

} // verus!
