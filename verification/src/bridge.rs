//! The request/response bridge: one logical call against the worker.
//!
//! A call ensures a live session (one spawn attempt exactly when the slot is
//! empty), delivers one request line, then walks the handle's events in
//! arrival order: log and diagnostic lines are forwarded to the caller's
//! event sink, and the first terminal event ends the exchange. A crash or a
//! closed channel clears the session slot; a worker-reported failure leaves
//! the worker live for the next call.
//!
//! The surrounding program performs the spawn, the write and the blocking
//! reads, and hands their outcomes in as plain values: either one event at a
//! time through [`decode_event`], [`exchange_step`] and [`observe_terminal`],
//! or as the already-observed event sequence through [`perform`] and the two
//! operations built on it.

use vstd::prelude::*;
use vstd::string::StringExecFns;

use crate::errors::SidecarError;
use crate::errors::is_fatal_outcome;
use crate::protocol::ProtocolLine;
use crate::protocol::WorkerEvent;
use crate::protocol::decode_event;
use crate::protocol::is_error_line;
use crate::protocol::is_success_line;
use crate::protocol::is_terminal_event;
use crate::protocol::trimmed;
use crate::session::SessionManager;
use crate::session::successful_call;

verus! {

/// What the surrounding program's spawn attempt came to.
#[derive(Debug, PartialEq, Eq)]
pub enum SpawnOutcome {
    Launched,
    Failed(String),
}

/// What delivering the request line came to.
#[derive(Debug, PartialEq, Eq)]
pub enum WriteOutcome {
    Delivered,
    Failed(String),
}

/// What killing a live worker came to.
#[derive(Debug, PartialEq, Eq)]
pub enum KillOutcome {
    Killed,
    Failed(String),
}

/// An event forwarded to the caller's sink while an exchange is in flight:
/// a log line or a diagnostic (standard error) line, in arrival order.
#[derive(Debug, PartialEq, Eq)]
pub enum SinkEvent {
    Log(String),
    Diagnostic(String),
}

/// What one decoded line means for an exchange in flight: forward an
/// intermediate event and keep reading, or stop with a terminal outcome.
#[derive(Debug, PartialEq, Eq)]
pub enum ExchangeStep {
    Forward(SinkEvent),
    Finished(Result<String, SidecarError>),
}

/// The dispatch of the receive loop, total over [`ProtocolLine`]: logs and
/// stderr lines are forwarded, the four terminal lines end the exchange.
pub fn exchange_step(p: ProtocolLine) -> (r: ExchangeStep)
    ensures
        p matches ProtocolLine::Success(s) ==> r == ExchangeStep::Finished(
            Result::<String, SidecarError>::Ok(s),
        ),
        p matches ProtocolLine::Failure(m) ==> r == ExchangeStep::Finished(
            Result::<String, SidecarError>::Err(SidecarError::WorkerReportedFailure(m)),
        ),
        p matches ProtocolLine::Log(t) ==> r == ExchangeStep::Forward(SinkEvent::Log(t)),
        p matches ProtocolLine::ErrorStream(t) ==> r == ExchangeStep::Forward(
            SinkEvent::Diagnostic(t),
        ),
        p matches ProtocolLine::Terminated(c) ==> r == ExchangeStep::Finished(
            Result::<String, SidecarError>::Err(SidecarError::WorkerCrashed(c)),
        ),
        p matches ProtocolLine::ChannelClosed ==> r == ExchangeStep::Finished(
            Result::<String, SidecarError>::Err(SidecarError::ChannelClosed),
        ),
{
    match p {
        ProtocolLine::Success(s) => ExchangeStep::Finished(Ok(s)),
        ProtocolLine::Failure(m) => ExchangeStep::Finished(
            Err(SidecarError::WorkerReportedFailure(m)),
        ),
        ProtocolLine::Log(t) => ExchangeStep::Forward(SinkEvent::Log(t)),
        ProtocolLine::ErrorStream(t) => ExchangeStep::Forward(SinkEvent::Diagnostic(t)),
        ProtocolLine::Terminated(c) => ExchangeStep::Finished(
            Err(SidecarError::WorkerCrashed(c)),
        ),
        ProtocolLine::ChannelClosed => ExchangeStep::Finished(Err(SidecarError::ChannelClosed)),
    }
}

/// Clears the session slot exactly when an exchange outcome is fatal
/// (a crash or a closed channel); any other outcome leaves the slot as the
/// exchange left it.
pub fn observe_terminal(mgr: &mut SessionManager, outcome: &Result<String, SidecarError>)
    ensures
        final(mgr).spawns() == old(mgr).spawns(),
        is_fatal_outcome(*outcome) ==> final(mgr).is_absent(),
        !is_fatal_outcome(*outcome) ==> final(mgr).state() == old(mgr).state(),
{
    let fatal = match outcome {
        Result::Err(SidecarError::WorkerCrashed(_)) => true,
        Result::Err(SidecarError::ChannelClosed) => true,
        _ => false,
    };
    if fatal {
        mgr.clear();
    }
}

/// The position of the first terminal event in an arrival-ordered event
/// sequence, or the sequence's length when no event is terminal.
pub open spec fn first_terminal(events: Seq<WorkerEvent>) -> int
    decreases events.len(),
{
    if events.len() == 0 {
        0
    } else if is_terminal_event(events[0]) {
        0
    } else {
        1 + first_terminal(events.drop_first())
    }
}

proof fn lemma_first_terminal_at(events: Seq<WorkerEvent>, i: int)
    requires
        0 <= i <= events.len(),
        forall|j: int| 0 <= j < i ==> !is_terminal_event(events[j]),
        i == events.len() || is_terminal_event(events[i]),
    ensures
        first_terminal(events) == i,
    decreases events.len(),
{
    if i == 0 {
        if events.len() > 0 {
            assert(is_terminal_event(events[0]));
        }
    } else {
        assert(!is_terminal_event(events[0]));
        let tail = events.drop_first();
        assert forall|j: int| 0 <= j < i - 1 implies !is_terminal_event(tail[j]) by {
            assert(tail[j] == events[j + 1]);
        }
        if i < events.len() {
            assert(tail[i - 1] == events[i]);
        }
        lemma_first_terminal_at(tail, i - 1);
    }
}

/// How a non-terminal event shows up at the sink: a plain stdout line as a
/// log event, a stderr line as a diagnostic event, each carrying its text
/// unchanged.
pub open spec fn forwards_event(e: WorkerEvent, s: SinkEvent) -> bool {
    match e {
        WorkerEvent::StdoutLine(l) => !is_success_line(l@) && !is_error_line(l@) && (
        s matches SinkEvent::Log(t) && t@ == l@),
        WorkerEvent::StderrLine(l) => s matches SinkEvent::Diagnostic(t) && t@ == l@,
        WorkerEvent::Exited(_) => false,
        WorkerEvent::Closed => false,
    }
}

/// The outcome a terminal event dictates: the trimmed payload of a success
/// line, the trimmed message of a failure line, a crash error carrying the
/// exit code, or the closed-channel error.
pub open spec fn terminal_result(e: WorkerEvent, r: Result<String, SidecarError>) -> bool {
    match e {
        WorkerEvent::StdoutLine(l) => if is_success_line(l@) {
            r matches Result::Ok(p) && p@ == trimmed(l@.subrange(8, l@.len() as int))
        } else if is_error_line(l@) {
            r matches Result::Err(e) && (e matches SidecarError::WorkerReportedFailure(m) && m@
                == trimmed(l@.subrange(6, l@.len() as int)))
        } else {
            false
        },
        WorkerEvent::StderrLine(_) => false,
        WorkerEvent::Exited(c) => r == Result::<String, SidecarError>::Err(
            SidecarError::WorkerCrashed(c),
        ),
        WorkerEvent::Closed => r == Result::<String, SidecarError>::Err(
            SidecarError::ChannelClosed,
        ),
    }
}

/// Whether a call gets as far as owning a live worker: it started with one,
/// or its spawn attempt succeeded.
pub open spec fn started(pre_live: bool, spawn: SpawnOutcome) -> bool {
    pre_live || spawn is Launched
}

/// The spawn-attempt bookkeeping of one call: exactly one attempt when the
/// slot was empty, none when a worker was live.
pub open spec fn spawn_accounting(pre_absent: bool, pre_spawns: nat, post_spawns: nat) -> bool {
    post_spawns == pre_spawns + (if pre_absent {
        1nat
    } else {
        0nat
    })
}

/// The terminal outcome of one raw exchange, given what the surrounding
/// program observed: a failed spawn or write short-circuits, otherwise the
/// first terminal event decides, and a stream that ends without one is a
/// closed channel.
pub open spec fn performed_outcome(
    pre_live: bool,
    spawn: SpawnOutcome,
    write: WriteOutcome,
    events: Seq<WorkerEvent>,
    r: Result<String, SidecarError>,
) -> bool {
    if !started(pre_live, spawn) {
        r == Result::<String, SidecarError>::Err(SidecarError::SpawnFailure(spawn->Failed_0))
    } else if write is Failed {
        r == Result::<String, SidecarError>::Err(SidecarError::WriteFailure(write->Failed_0))
    } else if first_terminal(events) < events.len() {
        terminal_result(events[first_terminal(events)], r)
    } else {
        r == Result::<String, SidecarError>::Err(SidecarError::ChannelClosed)
    }
}

/// The events forwarded to the sink during one call: nothing when the spawn
/// or the write failed, otherwise every event before the first terminal one,
/// in order.
pub open spec fn forwarded_events(
    pre_live: bool,
    spawn: SpawnOutcome,
    write: WriteOutcome,
    events: Seq<WorkerEvent>,
    f: Seq<SinkEvent>,
) -> bool {
    if !started(pre_live, spawn) || write is Failed {
        f.len() == 0
    } else {
        f.len() == first_terminal(events) && forall|i: int|
            0 <= i < f.len() ==> forwards_event(#[trigger] events[i], f[i])
    }
}

/// How many events one call reads off the stream: none when the spawn or the
/// write failed, through the first terminal event when there is one, the
/// whole stream otherwise. Events after the terminal one are left unread.
pub open spec fn consumed_count(
    pre_live: bool,
    spawn: SpawnOutcome,
    write: WriteOutcome,
    events: Seq<WorkerEvent>,
) -> int {
    if !started(pre_live, spawn) || write is Failed {
        0
    } else if first_terminal(events) < events.len() {
        first_terminal(events) + 1
    } else {
        events.len() as int
    }
}

/// One raw exchange against the session slot.
///
/// This is the whole of one call below operation-specific validation: the
/// spawn gate, the write gate, and the receive loop, with the slot updated
/// exactly as the outcome dictates. The arguments are what the surrounding
/// program observed: its spawn attempt (consulted only when the slot is
/// empty), its delivery of the request line, and the handle's events in
/// arrival order, ending where the stream ended.
pub fn perform(
    mgr: &mut SessionManager,
    spawn: &SpawnOutcome,
    write: &WriteOutcome,
    events: &Vec<WorkerEvent>,
) -> (r: (Vec<SinkEvent>, usize, Result<String, SidecarError>))
    ensures
        spawn_accounting(old(mgr).is_absent(), old(mgr).spawns(), final(mgr).spawns()),
        final(mgr).is_live() == (started(old(mgr).is_live(), *spawn) && !is_fatal_outcome(r.2)),
        performed_outcome(old(mgr).is_live(), *spawn, *write, events@, r.2),
        forwarded_events(old(mgr).is_live(), *spawn, *write, events@, r.0@),
        r.1 as int == consumed_count(old(mgr).is_live(), *spawn, *write, events@),
        r.2 matches Result::Ok(_) ==> successful_call(
            old(mgr).is_live(),
            old(mgr).spawns(),
            final(mgr).is_live(),
            final(mgr).spawns(),
        ),
{
    if mgr.needs_spawn() {
        match spawn {
            SpawnOutcome::Failed(m) => {
                mgr.note_spawn(false);
                return (Vec::new(), 0, Err(SidecarError::SpawnFailure(m.clone())));
            },
            SpawnOutcome::Launched => {
                mgr.note_spawn(true);
            },
        }
    }
    match write {
        WriteOutcome::Failed(m) => {
            return (Vec::new(), 0, Err(SidecarError::WriteFailure(m.clone())));
        },
        WriteOutcome::Delivered => {},
    }
    let mut forwards: Vec<SinkEvent> = Vec::new();
    let mut i: usize = 0;
    while i < events.len()
        invariant
            i <= events@.len(),
            mgr.is_live(),
            started(old(mgr).is_live(), *spawn),
            *write matches WriteOutcome::Delivered,
            spawn_accounting(old(mgr).is_absent(), old(mgr).spawns(), mgr.spawns()),
            forall|j: int| 0 <= j < i ==> !is_terminal_event(events@[j]),
            forwards@.len() == i as int,
            forall|j: int| 0 <= j < i ==> forwards_event(#[trigger] events@[j], forwards@[j]),
        decreases events@.len() - i,
    {
        let line = decode_event(&events[i]);
        match exchange_step(line) {
            ExchangeStep::Forward(ev) => {
                proof {
                    assert(!is_terminal_event(events@[i as int]));
                }
                forwards.push(ev);
                i = i + 1;
            },
            ExchangeStep::Finished(res) => {
                proof {
                    assert(is_terminal_event(events@[i as int]));
                    lemma_first_terminal_at(events@, i as int);
                }
                observe_terminal(mgr, &res);
                return (forwards, i + 1, res);
            },
        }
    }
    proof {
        lemma_first_terminal_at(events@, events@.len() as int);
    }
    mgr.clear();
    (forwards, events.len(), Err(SidecarError::ChannelClosed))
}

/// The ready token a warmup exchange must answer with, and one of the two
/// reserved control tokens that must never appear as genuine synthesis
/// output.
pub open spec fn warmup_token() -> Seq<char> {
    "WARMUP"@
}

/// The other reserved control token.
pub open spec fn shutdown_token() -> Seq<char> {
    "SHUTDOWN"@
}

/// Whether a payload is one of the two reserved control tokens.
pub open spec fn is_reserved_token(s: Seq<char>) -> bool {
    s == warmup_token() || s == shutdown_token()
}

/// Synthesis-side validation of a successful payload: a reserved control
/// token leaking into a synthesis result is a protocol violation, even
/// though the worker reported success; anything else is passed through
/// unchanged.
pub fn validate_synthesis_payload(payload: String) -> (r: Result<String, SidecarError>)
    ensures
        r is Ok <==> !is_reserved_token(payload@),
        r matches Result::Ok(p) ==> p@ == payload@,
        r matches Result::Err(e) ==> e matches SidecarError::ProtocolViolation(m) && m@
            == payload@,
{
    let warm: String = String::from_str("WARMUP");
    let shut: String = String::from_str("SHUTDOWN");
    if payload == warm || payload == shut {
        Err(SidecarError::ProtocolViolation(payload))
    } else {
        Ok(payload)
    }
}

/// Warmup-side validation: the exchange succeeds exactly when the terminal
/// payload is the reserved ready token; any other payload is a protocol
/// violation.
pub fn validate_warmup_payload(payload: String) -> (r: Result<(), SidecarError>)
    ensures
        r is Ok <==> payload@ == warmup_token(),
        r matches Result::Err(e) ==> e matches SidecarError::ProtocolViolation(m) && m@
            == payload@,
{
    let warm: String = String::from_str("WARMUP");
    if payload == warm {
        Ok(())
    } else {
        Err(SidecarError::ProtocolViolation(payload))
    }
}

/// The outcome a terminal event dictates for a synthesis call: as
/// [`terminal_result`], with the success payload additionally validated
/// against the reserved control tokens.
pub open spec fn synthesize_terminal(e: WorkerEvent, r: Result<String, SidecarError>) -> bool {
    match e {
        WorkerEvent::StdoutLine(l) => if is_success_line(l@) {
            if is_reserved_token(trimmed(l@.subrange(8, l@.len() as int))) {
                r matches Result::Err(e) && (e matches SidecarError::ProtocolViolation(m) && m@
                    == trimmed(l@.subrange(8, l@.len() as int)))
            } else {
                r matches Result::Ok(p) && p@ == trimmed(l@.subrange(8, l@.len() as int))
            }
        } else if is_error_line(l@) {
            r matches Result::Err(e) && (e matches SidecarError::WorkerReportedFailure(m) && m@
                == trimmed(l@.subrange(6, l@.len() as int)))
        } else {
            false
        },
        WorkerEvent::StderrLine(_) => false,
        WorkerEvent::Exited(c) => r == Result::<String, SidecarError>::Err(
            SidecarError::WorkerCrashed(c),
        ),
        WorkerEvent::Closed => r == Result::<String, SidecarError>::Err(
            SidecarError::ChannelClosed,
        ),
    }
}

/// The terminal outcome of a whole synthesis call.
pub open spec fn synthesize_outcome(
    pre_live: bool,
    spawn: SpawnOutcome,
    write: WriteOutcome,
    events: Seq<WorkerEvent>,
    r: Result<String, SidecarError>,
) -> bool {
    if !started(pre_live, spawn) {
        r == Result::<String, SidecarError>::Err(SidecarError::SpawnFailure(spawn->Failed_0))
    } else if write is Failed {
        r == Result::<String, SidecarError>::Err(SidecarError::WriteFailure(write->Failed_0))
    } else if first_terminal(events) < events.len() {
        synthesize_terminal(events[first_terminal(events)], r)
    } else {
        r == Result::<String, SidecarError>::Err(SidecarError::ChannelClosed)
    }
}

/// One synthesis call: a raw exchange whose successful payload must not be a
/// reserved control token. A violation is an error to this caller but leaves
/// the worker live.
pub fn synthesize_exchange(
    mgr: &mut SessionManager,
    spawn: &SpawnOutcome,
    write: &WriteOutcome,
    events: &Vec<WorkerEvent>,
) -> (r: (Vec<SinkEvent>, usize, Result<String, SidecarError>))
    ensures
        spawn_accounting(old(mgr).is_absent(), old(mgr).spawns(), final(mgr).spawns()),
        final(mgr).is_live() == (started(old(mgr).is_live(), *spawn) && !is_fatal_outcome(r.2)),
        synthesize_outcome(old(mgr).is_live(), *spawn, *write, events@, r.2),
        forwarded_events(old(mgr).is_live(), *spawn, *write, events@, r.0@),
        r.1 as int == consumed_count(old(mgr).is_live(), *spawn, *write, events@),
        r.2 matches Result::Ok(_) ==> successful_call(
            old(mgr).is_live(),
            old(mgr).spawns(),
            final(mgr).is_live(),
            final(mgr).spawns(),
        ),
{
    let (forwards, consumed, outcome) = perform(mgr, spawn, write, events);
    match outcome {
        Result::Ok(payload) => (forwards, consumed, validate_synthesis_payload(payload)),
        Result::Err(e) => (forwards, consumed, Err(e)),
    }
}

/// The terminal outcome of a whole warmup call: as the raw exchange, with a
/// successful payload required to be exactly the ready token.
pub open spec fn warmup_outcome(
    pre_live: bool,
    spawn: SpawnOutcome,
    write: WriteOutcome,
    events: Seq<WorkerEvent>,
    r: Result<(), SidecarError>,
) -> bool {
    if !started(pre_live, spawn) {
        r == Result::<(), SidecarError>::Err(SidecarError::SpawnFailure(spawn->Failed_0))
    } else if write is Failed {
        r == Result::<(), SidecarError>::Err(SidecarError::WriteFailure(write->Failed_0))
    } else if first_terminal(events) < events.len() {
        warmup_terminal(events[first_terminal(events)], r)
    } else {
        r == Result::<(), SidecarError>::Err(SidecarError::ChannelClosed)
    }
}

/// The outcome a terminal event dictates for a warmup call.
pub open spec fn warmup_terminal(e: WorkerEvent, r: Result<(), SidecarError>) -> bool {
    match e {
        WorkerEvent::StdoutLine(l) => if is_success_line(l@) {
            if trimmed(l@.subrange(8, l@.len() as int)) == warmup_token() {
                r is Ok
            } else {
                r matches Result::Err(e) && (e matches SidecarError::ProtocolViolation(m) && m@
                    == trimmed(l@.subrange(8, l@.len() as int)))
            }
        } else if is_error_line(l@) {
            r matches Result::Err(e) && (e matches SidecarError::WorkerReportedFailure(m) && m@
                == trimmed(l@.subrange(6, l@.len() as int)))
        } else {
            false
        },
        WorkerEvent::StderrLine(_) => false,
        WorkerEvent::Exited(c) => r == Result::<(), SidecarError>::Err(
            SidecarError::WorkerCrashed(c),
        ),
        WorkerEvent::Closed => r == Result::<(), SidecarError>::Err(SidecarError::ChannelClosed),
    }
}

/// One warmup call: a raw exchange that succeeds exactly when the worker
/// answers with the ready token.
pub fn warmup_exchange(
    mgr: &mut SessionManager,
    spawn: &SpawnOutcome,
    write: &WriteOutcome,
    events: &Vec<WorkerEvent>,
) -> (r: (Vec<SinkEvent>, usize, Result<(), SidecarError>))
    ensures
        spawn_accounting(old(mgr).is_absent(), old(mgr).spawns(), final(mgr).spawns()),
        final(mgr).is_live() == (started(old(mgr).is_live(), *spawn) && !is_fatal_outcome(r.2)),
        warmup_outcome(old(mgr).is_live(), *spawn, *write, events@, r.2),
        forwarded_events(old(mgr).is_live(), *spawn, *write, events@, r.0@),
        r.1 as int == consumed_count(old(mgr).is_live(), *spawn, *write, events@),
        r.2 matches Result::Ok(_) ==> successful_call(
            old(mgr).is_live(),
            old(mgr).spawns(),
            final(mgr).is_live(),
            final(mgr).spawns(),
        ),
{
    let (forwards, consumed, outcome) = perform(mgr, spawn, write, events);
    match outcome {
        Result::Ok(payload) => (forwards, consumed, validate_warmup_payload(payload)),
        Result::Err(e) => (forwards, consumed, Err(e)),
    }
}

/// Explicit stop: empties the session slot whatever it held. With no live
/// worker this is a successful no-op; with one, the surrounding program's
/// kill outcome decides the result, and the slot is cleared even when the
/// kill failed.
pub fn stop(mgr: &mut SessionManager, kill: &KillOutcome) -> (r: Result<(), SidecarError>)
    ensures
        final(mgr).is_absent(),
        final(mgr).spawns() == old(mgr).spawns(),
        old(mgr).is_absent() ==> r is Ok,
        old(mgr).is_live() ==> {
            &&& kill matches KillOutcome::Killed ==> r is Ok
            &&& kill matches KillOutcome::Failed(m) ==> (r matches Result::Err(e)
                && (e matches SidecarError::KillFailure(m2) && m2@ == m@))
        },
{
    let was_live = mgr.stop();
    if was_live {
        match kill {
            KillOutcome::Killed => Ok(()),
            KillOutcome::Failed(m) => Err(SidecarError::KillFailure(m.clone())),
        }
    } else {
        Ok(())
    }
}

} // verus!
