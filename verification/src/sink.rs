//! The uniform sink contract: session states, device write outcomes, the
//! library's error type, the [`Sink`] trait, and the process-wide runtime
//! accounting that backends must keep balanced.

use vstd::prelude::*;

verus! {

/// Lifecycle of one playback session. A sink is constructed, started once,
/// and stopped once; a fresh sink must be constructed for replay.
#[derive(Clone, Copy, PartialEq, Eq, Structural, Debug)]
pub enum SinkState {
    Created,
    Started,
    Stopped,
}

/// What the output device reports for one submitted buffer.
///
/// `Underflow` is transient: the device ran out of buffered audio while
/// accepting the data, which is logged and never ends playback. `Fatal` means
/// the device refused the buffer.
#[derive(Clone, Copy, PartialEq, Eq, Structural, Debug)]
pub enum WriteOutcome {
    Accepted,
    Underflow,
    Fatal,
}

/// The library's error type for sink operations.
#[derive(Clone, Copy, PartialEq, Eq, Structural, Debug)]
pub enum SinkError {
    /// The device underflowed; the buffer still reached the playback path.
    Underflow,
    /// The device refused the buffer; playback cannot continue.
    Fatal,
}

/// The outcome the device gives to the next write: the head of the script,
/// or `Accepted` once the script is exhausted.
pub open spec fn first_outcome(script: Seq<WriteOutcome>) -> WriteOutcome {
    if script.len() > 0 {
        script[0]
    } else {
        WriteOutcome::Accepted
    }
}

/// The device script left after one write.
pub open spec fn rest_of(script: Seq<WriteOutcome>) -> Seq<WriteOutcome> {
    if script.len() > 0 {
        script.skip(1)
    } else {
        script
    }
}

/// The sample sequences held by a list of owned buffers, oldest first.
pub open spec fn views_of(bufs: Seq<Vec<i16>>) -> Seq<Seq<i16>> {
    bufs.map_values(|v: Vec<i16>| v@)
}

/// Copy one sample buffer into a newly owned buffer.
///
/// Backends that keep a buffer beyond the duration of the `write` call (the
/// pipeline backend hands it to another thread, the scripted stream records
/// it) take ownership of a private copy so the caller may reuse its buffer.
pub fn copy_samples(data: &Vec<i16>) -> (c: Vec<i16>)
    ensures
        c@ == data@,
{
    let mut c: Vec<i16> = Vec::new();
    let mut i: usize = 0;
    while i < data.len()
        invariant
            i <= data@.len(),
            c@ == data@.take(i as int),
        decreases data@.len() - i,
    {
        c.push(data[i]);
        i = i + 1;
        assert(c@ =~= data@.take(i as int));
    }
    assert(c@ =~= data@);
    c
}

/// The uniform device contract: `start`, `stop`, `write`.
///
/// A sink's behaviour is described by five spec views: its session `state`,
/// the buffers `submitted` to its playback path in order, the number of
/// underflow `warnings` it has logged, the `device_script` of outcomes its
/// device will give to future writes, and the largest buffer one write may
/// carry (`max_chunk`).
///
/// `write` is blocking: when it returns, the buffer has been accepted into
/// the backend's playback path (for the pipeline backend, handed to its
/// bounded channel). An underflowed write still submits its buffer; only a
/// fatal outcome leaves the playback path unchanged.
pub trait Sink: Sized {
    /// Internal well-formedness of the backend.
    spec fn inv(&self) -> bool;

    /// Where the session stands in `Created -> Started -> Stopped`.
    spec fn state(&self) -> SinkState;

    /// Every buffer accepted into the playback path, oldest first.
    spec fn submitted(&self) -> Seq<Seq<i16>>;

    /// How many underflow warnings have been logged.
    spec fn warnings(&self) -> nat;

    /// Outcomes the device will give to future writes, in order; after the
    /// script is exhausted the device accepts every buffer.
    spec fn device_script(&self) -> Seq<WriteOutcome>;

    /// The largest number of samples one write may carry without blocking
    /// forever or overrunning a pool buffer.
    spec fn max_chunk(&self) -> nat;

    /// Transition the device into its actively-playing state.
    fn start(&mut self) -> (r: Result<(), SinkError>)
        requires
            old(self).inv(),
            old(self).state() == SinkState::Created,
        ensures
            final(self).inv(),
            r is Ok,
            final(self).state() == SinkState::Started,
            final(self).submitted() == old(self).submitted(),
            final(self).warnings() == old(self).warnings(),
            final(self).device_script() == old(self).device_script(),
            final(self).max_chunk() == old(self).max_chunk(),
    ;

    /// Transition the device out of its playing state.
    fn stop(&mut self) -> (r: Result<(), SinkError>)
        requires
            old(self).inv(),
            old(self).state() == SinkState::Started,
        ensures
            final(self).inv(),
            r is Ok,
            final(self).state() == SinkState::Stopped,
            final(self).submitted() == old(self).submitted(),
            final(self).warnings() == old(self).warnings(),
            final(self).device_script() == old(self).device_script(),
            final(self).max_chunk() == old(self).max_chunk(),
    ;

    /// Submit one buffer of interleaved samples for playback, blocking until
    /// the backend has accepted it into its playback path.
    fn write(&mut self, data: &Vec<i16>) -> (r: Result<(), SinkError>)
        requires
            old(self).inv(),
            old(self).state() == SinkState::Started,
            data@.len() <= old(self).max_chunk(),
        ensures
            final(self).inv(),
            final(self).state() == SinkState::Started,
            final(self).max_chunk() == old(self).max_chunk(),
            final(self).device_script() == rest_of(old(self).device_script()),
            (match first_outcome(old(self).device_script()) {
                WriteOutcome::Accepted => {
                    &&& r is Ok
                    &&& final(self).submitted() == old(self).submitted().push(data@)
                    &&& final(self).warnings() == old(self).warnings()
                },
                WriteOutcome::Underflow => {
                    &&& r == Err::<(), SinkError>(SinkError::Underflow)
                    &&& final(self).submitted() == old(self).submitted().push(data@)
                    &&& final(self).warnings() == old(self).warnings() + 1
                },
                WriteOutcome::Fatal => {
                    &&& r == Err::<(), SinkError>(SinkError::Fatal)
                    &&& final(self).submitted() == old(self).submitted()
                    &&& final(self).warnings() == old(self).warnings()
                },
            }),
    ;
}

/// Process-wide runtime accounting.
///
/// The direct-stream and pipeline backends each perform one-time global
/// runtime initialization that must be torn down exactly once. This counter
/// pair makes that balance a stated fact: every backend `open` records one
/// initialization and every `close` records the matching teardown, so a
/// caller that closes every sink it opened ends with
/// `teardown_count == init_count`.
pub struct Runtime {
    inits: u64,
    teardowns: u64,
}

impl Runtime {
    /// How many global initializations have been performed.
    pub closed spec fn spec_inits(&self) -> u64 {
        self.inits
    }

    /// How many global teardowns have been performed.
    pub closed spec fn spec_teardowns(&self) -> u64 {
        self.teardowns
    }

    /// Every initialization has been torn down.
    pub open spec fn balanced(&self) -> bool {
        self.spec_inits() == self.spec_teardowns()
    }

    /// A fresh process: nothing initialized, nothing torn down.
    pub fn new() -> (rt: Runtime)
        ensures
            rt.spec_inits() == 0,
            rt.spec_teardowns() == 0,
    {
        Runtime { inits: 0, teardowns: 0 }
    }

    /// Record one global runtime initialization.
    pub(crate) fn init(&mut self)
        requires
            old(self).spec_inits() < u64::MAX,
        ensures
            final(self).spec_inits() == old(self).spec_inits() + 1,
            final(self).spec_teardowns() == old(self).spec_teardowns(),
    {
        self.inits = self.inits + 1;
    }

    /// Record the teardown paired with an earlier initialization.
    pub(crate) fn terminate(&mut self)
        requires
            old(self).spec_teardowns() < old(self).spec_inits(),
        ensures
            final(self).spec_teardowns() == old(self).spec_teardowns() + 1,
            final(self).spec_inits() == old(self).spec_inits(),
    {
        self.teardowns = self.teardowns + 1;
    }

    /// The number of initializations so far.
    pub fn init_count(&self) -> (n: u64)
        ensures
            n == self.spec_inits(),
    {
        self.inits
    }

    /// The number of teardowns so far.
    pub fn teardown_count(&self) -> (n: u64)
        ensures
            n == self.spec_teardowns(),
    {
        self.teardowns
    }
}

} // verus!
