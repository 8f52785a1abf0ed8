//! The pipeline backend: a synchronous `write` contract bridged onto an
//! asynchronous multimedia graph.
//!
//! The real backend runs three background contexts — the graph's scheduling
//! loop, a bus listener, and a producer thread. The caller and the producer
//! communicate only through a bounded channel; the producer and the native
//! output element only through a fixed-capacity buffer pool. This module
//! models that data path exactly: a buffer written by the caller sits first
//! in the channel (at most `chan_cap` pending), is then taken by the
//! producer into a pool buffer and pushed into the source element (at most
//! `pool_cap` in flight), and finally reaches the native output, which
//! records it. `write` blocks when the channel is full — modelled by running
//! producer and native steps until space is free — so no buffer is ever
//! dropped, reordered, or corrupted on the way to the native element.
//!
//! The bus listener consumes lifecycle messages on its own thread; its
//! decision rule is [`classify_bus_message`]: state changes and other
//! notifications are logged, the first error or end-of-stream message ends
//! monitoring (and only monitoring).

use vstd::prelude::*;

use crate::sink::{copy_samples, views_of, Runtime, Sink, SinkError, SinkState, WriteOutcome};

verus! {

/// Bounded channel capacity of the default pipeline: how many buffers the
/// caller may be ahead of the producer thread.
pub const DEFAULT_CHANNEL_CAPACITY: usize = 64;

/// Pool buffer size of the default pipeline, in samples: one transfer chunk
/// of 2048 samples per channel at two bytes per sample.
pub const DEFAULT_CHUNK_SAMPLES: usize = 2048;

/// Buffer-pool capacity of the default pipeline: how many buffers may be in
/// flight between the producer thread and the native output element.
pub const DEFAULT_POOL_CAPACITY: usize = 1;

/// One notification on the pipeline's event bus.
#[derive(Clone, Copy, PartialEq, Eq, Structural, Debug)]
pub enum BusMessage {
    /// An element changed state.
    StateChanged,
    /// The pipeline reported an error.
    Error,
    /// End of stream.
    Eos,
    /// Any other notification.
    Other,
}

/// What the bus listener does with one message.
#[derive(Clone, Copy, PartialEq, Eq, Structural, Debug)]
pub enum BusAction {
    /// Log the message and keep listening.
    Log,
    /// Log the message and end bus monitoring.
    Quit,
}

/// The listener's decision rule: errors and end-of-stream end monitoring,
/// everything else is informational.
pub open spec fn spec_bus_action(m: BusMessage) -> BusAction {
    match m {
        BusMessage::Error => BusAction::Quit,
        BusMessage::Eos => BusAction::Quit,
        BusMessage::StateChanged => BusAction::Log,
        BusMessage::Other => BusAction::Log,
    }
}

/// Classify one bus message.
pub fn classify_bus_message(m: &BusMessage) -> (a: BusAction)
    ensures
        a == spec_bus_action(*m),
{
    match m {
        BusMessage::Error => BusAction::Quit,
        BusMessage::Eos => BusAction::Quit,
        BusMessage::StateChanged => BusAction::Log,
        BusMessage::Other => BusAction::Log,
    }
}

/// How many messages the bus listener consumes from a message sequence:
/// every message up to and including the first terminal one.
pub open spec fn bus_messages_seen(msgs: Seq<BusMessage>) -> nat
    decreases msgs.len(),
{
    if msgs.len() == 0 {
        0
    } else if spec_bus_action(msgs[0]) == BusAction::Quit {
        1
    } else {
        1 + bus_messages_seen(msgs.skip(1))
    }
}

/// Run the bus listener over a finished message sequence and return how many
/// messages it consumed before monitoring ended. The listener's termination
/// never stops playback; it only stops diagnostics.
pub fn run_bus_listener(msgs: &Vec<BusMessage>) -> (n: usize)
    ensures
        n == bus_messages_seen(msgs@),
{
    let mut i: usize = 0;
    proof {
        assert(msgs@.skip(0) =~= msgs@);
    }
    while i < msgs.len()
        invariant
            i <= msgs@.len(),
            bus_messages_seen(msgs@) == i + bus_messages_seen(msgs@.skip(i as int)),
            forall|j: int| 0 <= j < i ==> spec_bus_action(#[trigger] msgs@[j]) == BusAction::Log,
        decreases msgs@.len() - i,
    {
        let quit = match classify_bus_message(&msgs[i]) {
            BusAction::Quit => true,
            BusAction::Log => false,
        };
        proof {
            assert(msgs@.skip(i as int)[0] == msgs@[i as int]);
            assert(msgs@.skip(i as int).skip(1) =~= msgs@.skip(i as int + 1));
        }
        if quit {
            assert(bus_messages_seen(msgs@.skip(i as int)) == 1);
            return i + 1;
        }
        i = i + 1;
    }
    proof {
        assert(msgs@.skip(i as int) =~= Seq::<BusMessage>::empty());
    }
    i
}

/// A sink over an asynchronous multimedia pipeline.
pub struct GstreamerSink {
    state: SinkState,
    chan_cap: usize,
    pool_cap: usize,
    chunk_samples: usize,
    /// Buffers sent by the caller and not yet taken by the producer; oldest
    /// first, never more than `chan_cap`.
    channel: Vec<Vec<i16>>,
    /// Buffers the producer copied into pool buffers and pushed into the
    /// source element; oldest first, never more than `pool_cap`.
    inflight: Vec<Vec<i16>>,
    /// Buffers the native output element has consumed, oldest first.
    native: Vec<Vec<i16>>,
}

impl GstreamerSink {
    /// Capability and queueing parameters of this pipeline.
    pub closed spec fn spec_chan_cap(&self) -> nat {
        self.chan_cap as nat
    }

    /// Buffer-pool capacity of this pipeline.
    pub closed spec fn spec_pool_cap(&self) -> nat {
        self.pool_cap as nat
    }

    /// The buffers recorded at the native output, oldest first.
    pub closed spec fn native_seq(&self) -> Seq<Seq<i16>> {
        views_of(self.native@)
    }

    /// The buffers still queued between caller and producer, oldest first.
    pub closed spec fn channel_seq(&self) -> Seq<Seq<i16>> {
        views_of(self.channel@)
    }

    /// The buffers in flight between producer and native output, oldest
    /// first.
    pub closed spec fn inflight_seq(&self) -> Seq<Seq<i16>> {
        views_of(self.inflight@)
    }

    /// Initialize the multimedia runtime and build the default pipeline:
    /// channel capacity 64, one pool buffer of 2048 samples per channel.
    pub fn open(rt: &mut Runtime) -> (s: GstreamerSink)
        requires
            old(rt).spec_inits() < u64::MAX,
        ensures
            s.inv(),
            s.state() == SinkState::Created,
            s.submitted() =~= Seq::<Seq<i16>>::empty(),
            s.native_seq() =~= Seq::<Seq<i16>>::empty(),
            s.warnings() == 0,
            s.device_script() =~= Seq::<WriteOutcome>::empty(),
            s.max_chunk() == DEFAULT_CHUNK_SAMPLES,
            s.spec_chan_cap() == DEFAULT_CHANNEL_CAPACITY,
            s.spec_pool_cap() == DEFAULT_POOL_CAPACITY,
            final(rt).spec_inits() == old(rt).spec_inits() + 1,
            final(rt).spec_teardowns() == old(rt).spec_teardowns(),
    {
        GstreamerSink::with_capacities(
            rt,
            DEFAULT_CHANNEL_CAPACITY,
            DEFAULT_POOL_CAPACITY,
            DEFAULT_CHUNK_SAMPLES,
        )
    }

    /// Initialize the multimedia runtime and build a pipeline with explicit
    /// channel capacity, pool capacity and pool-buffer size. Both capacities
    /// must be at least one, or no buffer could ever move through the
    /// pipeline.
    pub fn with_capacities(
        rt: &mut Runtime,
        chan_cap: usize,
        pool_cap: usize,
        chunk_samples: usize,
    ) -> (s: GstreamerSink)
        requires
            old(rt).spec_inits() < u64::MAX,
            chan_cap >= 1,
            pool_cap >= 1,
        ensures
            s.inv(),
            s.state() == SinkState::Created,
            s.submitted() =~= Seq::<Seq<i16>>::empty(),
            s.native_seq() =~= Seq::<Seq<i16>>::empty(),
            s.warnings() == 0,
            s.device_script() =~= Seq::<WriteOutcome>::empty(),
            s.max_chunk() == chunk_samples,
            s.spec_chan_cap() == chan_cap,
            s.spec_pool_cap() == pool_cap,
            final(rt).spec_inits() == old(rt).spec_inits() + 1,
            final(rt).spec_teardowns() == old(rt).spec_teardowns(),
    {
        rt.init();
        GstreamerSink {
            state: SinkState::Created,
            chan_cap,
            pool_cap,
            chunk_samples,
            channel: Vec::new(),
            inflight: Vec::new(),
            native: Vec::new(),
        }
    }

    /// Tear down the pipeline and the multimedia runtime.
    ///
    /// Consuming the sink makes the teardown happen exactly once per open;
    /// the pipeline relies on teardown rather than a graceful drain.
    pub fn close(self, rt: &mut Runtime)
        requires
            old(rt).spec_teardowns() < old(rt).spec_inits(),
        ensures
            final(rt).spec_teardowns() == old(rt).spec_teardowns() + 1,
            final(rt).spec_inits() == old(rt).spec_inits(),
    {
        rt.terminate();
    }

    /// One step of the native output element: it consumes the oldest
    /// in-flight buffer, which returns that pool buffer to the pool.
    fn native_step(&mut self)
        requires
            old(self).inv(),
            old(self).inflight_seq().len() > 0,
        ensures
            final(self).inv(),
            final(self).state() == old(self).state(),
            final(self).max_chunk() == old(self).max_chunk(),
            final(self).spec_chan_cap() == old(self).spec_chan_cap(),
            final(self).spec_pool_cap() == old(self).spec_pool_cap(),
            final(self).submitted() == old(self).submitted(),
            final(self).channel_seq() == old(self).channel_seq(),
            final(self).inflight_seq() == old(self).inflight_seq().skip(1),
            final(self).native_seq() == old(self).native_seq().push(
                old(self).inflight_seq()[0],
            ),
    {
        let buf = self.inflight.remove(0);
        self.native.push(buf);
        proof {
            assert(self.native_seq() =~= old(self).native_seq().push(
                old(self).inflight_seq()[0],
            ));
            assert(self.inflight_seq() =~= old(self).inflight_seq().skip(1));
            assert(self.submitted() =~= old(self).submitted());
        }
    }

    /// One step of the producer thread: it takes the oldest buffer from the
    /// channel, acquires a pool buffer — waiting for the native element to
    /// free one when the pool is exhausted, the backend's real backpressure
    /// point — sizes it to the data, copies the samples in, and pushes it
    /// into the source element.
    fn producer_step(&mut self)
        requires
            old(self).inv(),
            old(self).channel_seq().len() > 0,
        ensures
            final(self).inv(),
            final(self).state() == old(self).state(),
            final(self).max_chunk() == old(self).max_chunk(),
            final(self).spec_chan_cap() == old(self).spec_chan_cap(),
            final(self).spec_pool_cap() == old(self).spec_pool_cap(),
            final(self).submitted() == old(self).submitted(),
            final(self).channel_seq() == old(self).channel_seq().skip(1),
            final(self).native_seq().len() + final(self).inflight_seq().len() == old(
                self,
            ).native_seq().len() + old(self).inflight_seq().len() + 1,
    {
        if self.inflight.len() == self.pool_cap {
            self.native_step();
        }
        let buf = self.channel.remove(0);
        self.inflight.push(buf);
        proof {
            assert(self.channel_seq() =~= old(self).channel_seq().skip(1));
            assert(self.submitted() =~= old(self).submitted());
        }
    }

    /// Let the producer thread and the native element run until every
    /// submitted buffer has reached the native output.
    ///
    /// Afterwards the native record holds exactly the submitted sequence:
    /// every buffer the caller wrote, byte for byte, in submission order.
    pub fn drain(&mut self)
        requires
            old(self).inv(),
        ensures
            final(self).inv(),
            final(self).state() == old(self).state(),
            final(self).max_chunk() == old(self).max_chunk(),
            final(self).spec_chan_cap() == old(self).spec_chan_cap(),
            final(self).spec_pool_cap() == old(self).spec_pool_cap(),
            final(self).submitted() == old(self).submitted(),
            final(self).native_seq() == old(self).submitted(),
            final(self).channel_seq().len() == 0,
            final(self).inflight_seq().len() == 0,
    {
        while self.channel.len() > 0
            invariant
                self.inv(),
                self.state() == old(self).state(),
                self.max_chunk() == old(self).max_chunk(),
                self.spec_chan_cap() == old(self).spec_chan_cap(),
                self.spec_pool_cap() == old(self).spec_pool_cap(),
                self.submitted() == old(self).submitted(),
            decreases self.channel_seq().len(),
        {
            self.producer_step();
        }
        while self.inflight.len() > 0
            invariant
                self.inv(),
                self.state() == old(self).state(),
                self.max_chunk() == old(self).max_chunk(),
                self.spec_chan_cap() == old(self).spec_chan_cap(),
                self.spec_pool_cap() == old(self).spec_pool_cap(),
                self.submitted() == old(self).submitted(),
                self.channel_seq().len() == 0,
            decreases self.inflight_seq().len(),
        {
            self.native_step();
        }
        proof {
            assert(self.native_seq() =~= self.submitted());
        }
    }

    /// The buffers recorded at the native output, oldest first.
    pub fn native_buffers(&self) -> (b: &Vec<Vec<i16>>)
        ensures
            views_of(b@) == self.native_seq(),
    {
        &self.native
    }

    /// How many buffers sit in the bounded channel right now.
    pub fn channel_len(&self) -> (n: usize)
        ensures
            n == self.channel_seq().len(),
    {
        self.channel.len()
    }

    /// How many buffers are in flight between producer and native output.
    pub fn inflight_len(&self) -> (n: usize)
        ensures
            n == self.inflight_seq().len(),
    {
        self.inflight.len()
    }

    /// The current session state.
    pub fn session_state(&self) -> (st: SinkState)
        ensures
            st == self.state(),
    {
        self.state
    }
}

/// Backpressure law: the bounded channel and the buffer pool cap how far
/// the caller can run ahead of the native output — never more than the
/// channel capacity waiting for the producer, never more than the pool
/// capacity in flight behind it, whatever was written so far.
pub proof fn lemma_backpressure_is_bounded(s: &GstreamerSink)
    requires
        s.inv(),
    ensures
        s.channel_seq().len() <= s.spec_chan_cap(),
        s.inflight_seq().len() <= s.spec_pool_cap(),
{
}

/// Every buffer the caller handed to the pipeline is at the native output,
/// in flight, or still in the channel — nothing else, in submission order.
/// In particular the native output has received a prefix of the submitted
/// sequence at every moment.
pub proof fn lemma_native_receives_submission_prefix(s: &GstreamerSink)
    ensures
        s.submitted() == s.native_seq() + s.inflight_seq() + s.channel_seq(),
        s.native_seq().is_prefix_of(s.submitted()),
{
    assert(s.native_seq() =~= s.submitted().subrange(0, s.native_seq().len() as int));
}

impl Sink for GstreamerSink {
    closed spec fn inv(&self) -> bool {
        &&& self.chan_cap >= 1
        &&& self.pool_cap >= 1
        &&& self.channel@.len() <= self.chan_cap
        &&& self.inflight@.len() <= self.pool_cap
        &&& forall|i: int|
            0 <= i < self.channel@.len() ==> (#[trigger] self.channel@[i])@.len()
                <= self.chunk_samples
        &&& forall|i: int|
            0 <= i < self.inflight@.len() ==> (#[trigger] self.inflight@[i])@.len()
                <= self.chunk_samples
    }

    closed spec fn state(&self) -> SinkState {
        self.state
    }

    /// Everything accepted into the playback path: consumed by the native
    /// output, in flight in the pool, or pending in the channel.
    closed spec fn submitted(&self) -> Seq<Seq<i16>> {
        self.native_seq() + self.inflight_seq() + self.channel_seq()
    }

    closed spec fn warnings(&self) -> nat {
        0
    }

    /// The pipeline's source element accepts every pushed buffer; a failed
    /// push is a panic-equivalent fault of the producer thread, not an error
    /// returned to the caller.
    closed spec fn device_script(&self) -> Seq<WriteOutcome> {
        Seq::empty()
    }

    closed spec fn max_chunk(&self) -> nat {
        self.chunk_samples as nat
    }

    /// Set the pipeline to its playing state without waiting for the change
    /// to complete.
    fn start(&mut self) -> (r: Result<(), SinkError>) {
        self.state = SinkState::Started;
        Ok(())
    }

    /// Set the pipeline to its paused state without waiting for the change
    /// to complete.
    fn stop(&mut self) -> (r: Result<(), SinkError>) {
        self.state = SinkState::Stopped;
        Ok(())
    }

    /// Copy the caller's buffer into a newly owned buffer and send it on the
    /// bounded channel; when the channel is full this blocks — the producer
    /// and the native element run — until a slot is free.
    fn write(&mut self, data: &Vec<i16>) -> (r: Result<(), SinkError>) {
        while self.channel.len() >= self.chan_cap
            invariant
                self.inv(),
                self.state() == old(self).state(),
                self.max_chunk() == old(self).max_chunk(),
                self.spec_chan_cap() == old(self).spec_chan_cap(),
                self.spec_pool_cap() == old(self).spec_pool_cap(),
                self.submitted() == old(self).submitted(),
            decreases self.channel_seq().len(),
        {
            self.producer_step();
        }
        let owned = copy_samples(data);
        self.channel.push(owned);
        proof {
            assert(self.submitted() =~= old(self).submitted().push(data@));
        }
        Ok(())
    }
}

} // verus!
