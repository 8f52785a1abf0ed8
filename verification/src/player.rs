//! The streaming driver: it owns the active sink, pulls decode events in
//! order, and feeds each packet to the sink.
//!
//! A decoder produces a finite sequence of [`DecodeEvent`]s: a raw sample
//! packet, a recoverable gap (skipped silently), or a fatal decode error
//! (which ends playback before any further packet is written). The driver
//! classifies each write's error as recoverable underflow — logged by the
//! backend, playback continues — or fatal, which ends playback at once.
//! On a clean end of stream the sink is stopped.
//!
//! The whole run is pinned down by the spec function [`sim`], which maps the
//! event sequence and the device's outcome script to the exact buffers
//! written, the number of underflow warnings, and the final result. The
//! ordering and recovery laws at the bottom of this module are proved of
//! `sim` once and so hold of every run of [`run_playback`] on any backend.

use vstd::prelude::*;

use crate::sink::{first_outcome, rest_of, Sink, SinkError, SinkState, WriteOutcome};

verus! {

/// One step of the decoder's lazy output.
pub enum DecodeEvent {
    /// A raw packet of interleaved stereo samples.
    Packet(Vec<i16>),
    /// A recoverable hole in the compressed stream: skipped, no samples.
    Gap,
    /// A fatal decode error: playback cannot continue.
    Error,
}

/// How a playback run ended.
#[derive(Clone, Copy, PartialEq, Eq, Structural, Debug)]
pub enum PlayResult {
    /// The decoder was exhausted and the sink was stopped cleanly.
    Finished,
    /// A fatal decode error ended playback.
    DecodeFailed,
    /// The sink refused a buffer with a fatal error.
    SinkFailed,
}

/// Everything one playback run does, as a value: the buffers written to the
/// sink in order, the underflow warnings logged, and how the run ended.
pub ghost struct Playback {
    /// The buffers submitted to the sink, oldest first.
    pub written: Seq<Seq<i16>>,
    /// How many underflow warnings were logged.
    pub warns: nat,
    /// How the run ended.
    pub result: PlayResult,
}

/// Whether one event's packet fits within a sink's largest write.
pub open spec fn event_fits(e: DecodeEvent, cap: nat) -> bool {
    match e {
        DecodeEvent::Packet(d) => d@.len() <= cap,
        DecodeEvent::Gap => true,
        DecodeEvent::Error => true,
    }
}

/// The exact effect of playing `events[i..]` against a device that answers
/// write call `k` with `script[k]` (and accepts once the script is
/// exhausted): which buffers are written, in order; how many underflows are
/// logged; and how the run ends.
///
/// A gap is skipped. A fatal decode error ends the run before the next
/// write. A packet is written: an accepted or underflowed write submits the
/// buffer and the run goes on — an underflow also logs one warning — while
/// a fatal write outcome ends the run with the buffer unsubmitted.
pub open spec fn sim_from(events: Seq<DecodeEvent>, script: Seq<WriteOutcome>, i: int) -> Playback
    decreases events.len() - i,
{
    if 0 <= i < events.len() {
        match events[i] {
            DecodeEvent::Gap => sim_from(events, script, i + 1),
            DecodeEvent::Error => Playback {
                written: Seq::empty(),
                warns: 0,
                result: PlayResult::DecodeFailed,
            },
            DecodeEvent::Packet(d) => match first_outcome(script) {
                WriteOutcome::Fatal => Playback {
                    written: Seq::empty(),
                    warns: 0,
                    result: PlayResult::SinkFailed,
                },
                WriteOutcome::Accepted => {
                    let rest = sim_from(events, rest_of(script), i + 1);
                    Playback {
                        written: seq![d@] + rest.written,
                        warns: rest.warns,
                        result: rest.result,
                    }
                },
                WriteOutcome::Underflow => {
                    let rest = sim_from(events, rest_of(script), i + 1);
                    Playback {
                        written: seq![d@] + rest.written,
                        warns: rest.warns + 1,
                        result: rest.result,
                    }
                },
            },
        }
    } else {
        Playback { written: Seq::empty(), warns: 0, result: PlayResult::Finished }
    }
}

/// The exact effect of one whole playback run. See [`sim_from`].
pub open spec fn sim(events: Seq<DecodeEvent>, script: Seq<WriteOutcome>) -> Playback {
    sim_from(events, script, 0)
}

/// The packets the decoder yields before its first fatal error, in order:
/// what a playback run writes when the device never refuses a buffer.
pub open spec fn decoded_packets_from(events: Seq<DecodeEvent>, i: int) -> Seq<Seq<i16>>
    decreases events.len() - i,
{
    if 0 <= i < events.len() {
        match events[i] {
            DecodeEvent::Gap => decoded_packets_from(events, i + 1),
            DecodeEvent::Error => Seq::empty(),
            DecodeEvent::Packet(d) => seq![d@] + decoded_packets_from(events, i + 1),
        }
    } else {
        Seq::empty()
    }
}

/// The packets the decoder yields before its first fatal error, in order.
pub open spec fn decoded_packets(events: Seq<DecodeEvent>) -> Seq<Seq<i16>> {
    decoded_packets_from(events, 0)
}

/// Whether a fatal decode error occurs in `events[i..]` before the decoder
/// is exhausted.
pub open spec fn has_decode_error_from(events: Seq<DecodeEvent>, i: int) -> bool
    decreases events.len() - i,
{
    if 0 <= i < events.len() {
        match events[i] {
            DecodeEvent::Error => true,
            DecodeEvent::Gap => has_decode_error_from(events, i + 1),
            DecodeEvent::Packet(d) => has_decode_error_from(events, i + 1),
        }
    } else {
        false
    }
}

/// Whether the decoder signals a fatal error anywhere in its output.
pub open spec fn has_decode_error(events: Seq<DecodeEvent>) -> bool {
    has_decode_error_from(events, 0)
}

/// How many of the first `n` write calls the script answers with an
/// underflow.
pub open spec fn underflow_count(script: Seq<WriteOutcome>, n: nat) -> nat
    decreases n,
{
    if n == 0 || script.len() == 0 {
        0
    } else {
        (if script[0] == WriteOutcome::Underflow {
            1nat
        } else {
            0nat
        }) + underflow_count(script.skip(1), (n - 1) as nat)
    }
}

/// The process exit status a playback result maps to.
pub open spec fn spec_exit_code(r: PlayResult) -> i32 {
    match r {
        PlayResult::Finished => 0,
        PlayResult::DecodeFailed => 1,
        PlayResult::SinkFailed => 2,
    }
}

/// Map a playback result to the process exit status: zero exactly on a
/// clean end of stream, non-zero on any fatal error.
pub fn exit_code(r: &PlayResult) -> (c: i32)
    ensures
        c == spec_exit_code(*r),
        c == 0 <==> *r == PlayResult::Finished,
{
    match r {
        PlayResult::Finished => 0,
        PlayResult::DecodeFailed => 1,
        PlayResult::SinkFailed => 2,
    }
}

/// Start the sink, play every decode event in order, and stop the sink on a
/// clean end of stream.
///
/// The run does exactly what [`sim`] says: the buffers of
/// `sim(events, script).written` are appended to the sink's playback path in
/// order, its `warns` underflow warnings are logged, and its `result` is
/// returned. A fatal decode error or a fatal write ends the run at once —
/// the sink is then still started, and releasing it is the caller's duty on
/// every path.
#[verifier::loop_isolation(false)]
pub fn run_playback<S: Sink>(sink: &mut S, events: &Vec<DecodeEvent>) -> (r: PlayResult)
    requires
        old(sink).inv(),
        old(sink).state() == SinkState::Created,
        forall|i: int|
            0 <= i < events@.len() ==> event_fits(#[trigger] events@[i], old(sink).max_chunk()),
    ensures
        final(sink).inv(),
        final(sink).max_chunk() == old(sink).max_chunk(),
        r == sim(events@, old(sink).device_script()).result,
        final(sink).submitted() == old(sink).submitted() + sim(
            events@,
            old(sink).device_script(),
        ).written,
        final(sink).warnings() == old(sink).warnings() + sim(
            events@,
            old(sink).device_script(),
        ).warns,
        final(sink).state() == (if r == PlayResult::Finished {
            SinkState::Stopped
        } else {
            SinkState::Started
        }),
{
    let ghost script0 = old(sink).device_script();
    let ghost base = old(sink).submitted();
    let ghost warns0 = old(sink).warnings();
    let ghost full = sim(events@, script0);
    let _ = sink.start();
    proof {
        assert(sink.submitted().skip(base.len() as int) =~= Seq::<Seq<i16>>::empty());
    }
    let mut i: usize = 0;
    while i < events.len()
        invariant
            sink.inv(),
            sink.state() == SinkState::Started,
            sink.max_chunk() == old(sink).max_chunk(),
            i <= events@.len(),
            forall|j: int|
                0 <= j < events@.len() ==> event_fits(#[trigger] events@[j], sink.max_chunk()),
            base.len() <= sink.submitted().len(),
            base =~= sink.submitted().take(base.len() as int),
            warns0 <= sink.warnings(),
            full.written == sink.submitted().skip(base.len() as int) + sim_from(
                events@,
                sink.device_script(),
                i as int,
            ).written,
            full.warns == sink.warnings() - warns0 + sim_from(
                events@,
                sink.device_script(),
                i as int,
            ).warns,
            full.result == sim_from(events@, sink.device_script(), i as int).result,
        decreases events@.len() - i,
    {
        let ghost w = sink.submitted().skip(base.len() as int);
        let ghost cur = sink.device_script();
        let ghost rest = sim_from(events@, cur, i as int);
        match &events[i] {
            DecodeEvent::Gap => {
                i = i + 1;
            },
            DecodeEvent::Error => {
                proof {
                    assert(w + Seq::<Seq<i16>>::empty() =~= w);
                    assert(sink.submitted() =~= base + w);
                }
                return PlayResult::DecodeFailed;
            },
            DecodeEvent::Packet(d) => {
                assert(event_fits(events@[i as int], sink.max_chunk()));
                let wr = sink.write(d);
                proof {
                    assert(sink.device_script() == rest_of(cur));
                }
                match wr {
                    Ok(_) => {
                        proof {
                            assert(sink.submitted().skip(base.len() as int) =~= w.push(d@));
                            assert(w + (seq![d@] + sim_from(
                                events@,
                                rest_of(cur),
                                i as int + 1,
                            ).written) =~= w.push(d@) + sim_from(
                                events@,
                                rest_of(cur),
                                i as int + 1,
                            ).written);
                            assert(base =~= sink.submitted().take(base.len() as int));
                        }
                        i = i + 1;
                    },
                    Err(SinkError::Underflow) => {
                        proof {
                            assert(sink.submitted().skip(base.len() as int) =~= w.push(d@));
                            assert(w + (seq![d@] + sim_from(
                                events@,
                                rest_of(cur),
                                i as int + 1,
                            ).written) =~= w.push(d@) + sim_from(
                                events@,
                                rest_of(cur),
                                i as int + 1,
                            ).written);
                            assert(base =~= sink.submitted().take(base.len() as int));
                        }
                        i = i + 1;
                    },
                    Err(SinkError::Fatal) => {
                        proof {
                            assert(w + Seq::<Seq<i16>>::empty() =~= w);
                            assert(sink.submitted() =~= base + w);
                        }
                        return PlayResult::SinkFailed;
                    },
                }
            },
        }
    }
    let _ = sink.stop();
    proof {
        let w = sink.submitted().skip(base.len() as int);
        assert(w + Seq::<Seq<i16>>::empty() =~= w);
        assert(sink.submitted() =~= base + w);
    }
    PlayResult::Finished
}

proof fn lemma_order_from(events: Seq<DecodeEvent>, script: Seq<WriteOutcome>, i: int)
    ensures
        sim_from(events, script, i).written.is_prefix_of(decoded_packets_from(events, i)),
        sim_from(events, script, i).result != PlayResult::SinkFailed ==> sim_from(
            events,
            script,
            i,
        ).written == decoded_packets_from(events, i),
    decreases events.len() - i,
{
    if 0 <= i < events.len() {
        match events[i] {
            DecodeEvent::Gap => {
                lemma_order_from(events, script, i + 1);
            },
            DecodeEvent::Error => {
                assert(Seq::<Seq<i16>>::empty() =~= Seq::<Seq<i16>>::empty().subrange(0, 0));
            },
            DecodeEvent::Packet(d) => {
                let dp = decoded_packets_from(events, i);
                match first_outcome(script) {
                    WriteOutcome::Fatal => {
                        assert(Seq::<Seq<i16>>::empty() =~= dp.subrange(0, 0));
                    },
                    WriteOutcome::Accepted => {
                        lemma_order_from(events, rest_of(script), i + 1);
                        let restw = sim_from(events, rest_of(script), i + 1).written;
                        assert((seq![d@] + restw) =~= dp.subrange(
                            0,
                            (seq![d@] + restw).len() as int,
                        ));
                        if sim_from(events, script, i).result != PlayResult::SinkFailed {
                            assert(seq![d@] + restw =~= dp);
                        }
                    },
                    WriteOutcome::Underflow => {
                        lemma_order_from(events, rest_of(script), i + 1);
                        let restw = sim_from(events, rest_of(script), i + 1).written;
                        assert((seq![d@] + restw) =~= dp.subrange(
                            0,
                            (seq![d@] + restw).len() as int,
                        ));
                        if sim_from(events, script, i).result != PlayResult::SinkFailed {
                            assert(seq![d@] + restw =~= dp);
                        }
                    },
                }
            },
        }
    } else {
        assert(Seq::<Seq<i16>>::empty() =~= Seq::<Seq<i16>>::empty().subrange(0, 0));
    }
}

/// Ordering law: playback writes the decoder's packets in the order the
/// decoder produced them — never reordered, never duplicated. Only a fatal
/// sink error can leave packets unwritten, and then what was written is
/// still an unbroken prefix of the decoded sequence; no non-gap packet is
/// ever dropped silently.
pub proof fn lemma_playback_preserves_order(events: Seq<DecodeEvent>, script: Seq<WriteOutcome>)
    ensures
        sim(events, script).written.is_prefix_of(decoded_packets(events)),
        sim(events, script).result != PlayResult::SinkFailed ==> sim(events, script).written
            == decoded_packets(events),
{
    lemma_order_from(events, script, 0);
}

proof fn lemma_fatal_free_from(events: Seq<DecodeEvent>, script: Seq<WriteOutcome>, i: int)
    requires
        forall|j: int| 0 <= j < script.len() ==> #[trigger] script[j] != WriteOutcome::Fatal,
    ensures
        sim_from(events, script, i).written == decoded_packets_from(events, i),
        sim_from(events, script, i).result == (if has_decode_error_from(events, i) {
            PlayResult::DecodeFailed
        } else {
            PlayResult::Finished
        }),
        sim_from(events, script, i).warns == underflow_count(
            script,
            decoded_packets_from(events, i).len(),
        ),
    decreases events.len() - i,
{
    if 0 <= i < events.len() {
        match events[i] {
            DecodeEvent::Gap => {
                lemma_fatal_free_from(events, script, i + 1);
            },
            DecodeEvent::Error => {
                assert(underflow_count(script, 0) == 0);
            },
            DecodeEvent::Packet(d) => {
                let rest = rest_of(script);
                assert forall|j: int| 0 <= j < rest.len() implies #[trigger] rest[j]
                    != WriteOutcome::Fatal by {
                    assert(rest[j] == script[j + 1]);
                }
                lemma_fatal_free_from(events, rest, i + 1);
                let n1 = decoded_packets_from(events, i + 1).len();
                assert(decoded_packets_from(events, i).len() == n1 + 1);
                if script.len() == 0 {
                    assert(underflow_count(script, n1 + 1) == 0);
                    assert(underflow_count(script, n1) == 0);
                }
            },
        }
    }
}

/// Recoverability law: against a device that never gives a fatal outcome —
/// underflows included — playback writes every decoded packet, logs one
/// warning per underflowed write, and fails only if the decoder itself
/// fails.
pub proof fn lemma_underflow_is_recoverable(events: Seq<DecodeEvent>, script: Seq<WriteOutcome>)
    requires
        forall|j: int| 0 <= j < script.len() ==> #[trigger] script[j] != WriteOutcome::Fatal,
    ensures
        sim(events, script).written == decoded_packets(events),
        sim(events, script).warns == underflow_count(script, decoded_packets(events).len()),
        !has_decode_error(events) ==> sim(events, script).result == PlayResult::Finished,
{
    lemma_fatal_free_from(events, script, 0);
}

proof fn lemma_accepting_script_never_warns(script: Seq<WriteOutcome>, n: nat)
    requires
        forall|j: int| 0 <= j < script.len() ==> #[trigger] script[j] == WriteOutcome::Accepted,
    ensures
        underflow_count(script, n) == 0,
    decreases n,
{
    if n > 0 && script.len() > 0 {
        let rest = script.skip(1);
        assert forall|j: int| 0 <= j < rest.len() implies #[trigger] rest[j]
            == WriteOutcome::Accepted by {
            assert(rest[j] == script[j + 1]);
        }
        lemma_accepting_script_never_warns(rest, (n - 1) as nat);
    }
}

/// Clean-run law: a device that accepts every write and a decoder that
/// never fails give a run that writes exactly the decoded packets — one
/// write per packet — logs no warning, and stops cleanly.
pub proof fn lemma_clean_playback(events: Seq<DecodeEvent>, script: Seq<WriteOutcome>)
    requires
        forall|j: int| 0 <= j < script.len() ==> #[trigger] script[j] == WriteOutcome::Accepted,
        !has_decode_error(events),
    ensures
        sim(events, script).result == PlayResult::Finished,
        sim(events, script).written == decoded_packets(events),
        sim(events, script).warns == 0,
{
    lemma_fatal_free_from(events, script, 0);
    lemma_accepting_script_never_warns(script, decoded_packets(events).len());
}

/// Decode-failure law: when the decoder signals a fatal error and the
/// device refuses nothing, playback writes exactly the packets decoded
/// before the error, ends with a decode failure — which maps to a non-zero
/// exit status — and never attempts a later packet.
pub proof fn lemma_decode_error_stops_playback(events: Seq<DecodeEvent>, script: Seq<WriteOutcome>)
    requires
        forall|j: int| 0 <= j < script.len() ==> #[trigger] script[j] != WriteOutcome::Fatal,
        has_decode_error(events),
    ensures
        sim(events, script).result == PlayResult::DecodeFailed,
        sim(events, script).written == decoded_packets(events),
        spec_exit_code(sim(events, script).result) != 0,
{
    lemma_fatal_free_from(events, script, 0);
}

} // verus!
