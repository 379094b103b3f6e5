//! The source: one outbound connection that gets a fresh payload on every
//! tick of a fixed timer.
use vstd::prelude::*;
use crate::payload::{all_alphanumeric, random_string};

verus! {

/// The number of characters in each payload.
pub const PAYLOAD_LEN: usize = 100;

/// The period of the source's timer, in milliseconds.
pub const TICK_MILLIS: u64 = 100;

/// What happened to the source since its last action.
#[derive(Debug, Clone, Copy, PartialEq, Eq, Structural)]
pub enum SourceEvent {
    /// The outbound connection was established.
    Connected,
    /// The outbound connection could not be established.
    ConnectFailed,
    /// The timer fired.
    Tick,
    /// The last payload was written in full.
    Written,
    /// Writing the last payload failed.
    WriteFailed,
}

/// What the source does next.
#[derive(Debug, Clone)]
pub enum SourceAction {
    /// Wait for the next tick of the timer.
    WaitTick,
    /// Write all of this payload to the connection.
    Send(String),
    /// Give up: the error is fatal to the process.
    Exit,
}

/// A payload as the source writes it: exactly `PAYLOAD_LEN` alphanumeric
/// characters.
pub open spec fn is_payload(p: Seq<char>) -> bool {
    p.len() == PAYLOAD_LEN && all_alphanumeric(p)
}

/// The failures that end the source: there is no reconnect and no retry.
pub open spec fn is_failure(e: SourceEvent) -> bool {
    e is ConnectFailed || e is WriteFailed
}

/// The actions the source may take after an event. The payload's characters
/// are random, so this is a relation rather than a function.
pub open spec fn source_allows(e: SourceEvent, a: SourceAction) -> bool {
    match e {
        SourceEvent::Connected => a is WaitTick,
        SourceEvent::Tick => a matches SourceAction::Send(p) && is_payload(p@),
        SourceEvent::Written => a is WaitTick,
        SourceEvent::ConnectFailed => a is Exit,
        SourceEvent::WriteFailed => a is Exit,
    }
}

/// Decides what the source does after an event; on a tick it draws a fresh
/// payload.
pub fn source_next(event: SourceEvent) -> (a: SourceAction)
    ensures
        source_allows(event, a),
{
    match event {
        SourceEvent::Connected => SourceAction::WaitTick,
        SourceEvent::Tick => SourceAction::Send(random_string(PAYLOAD_LEN)),
        SourceEvent::Written => SourceAction::WaitTick,
        SourceEvent::ConnectFailed => SourceAction::Exit,
        SourceEvent::WriteFailed => SourceAction::Exit,
    }
}

/// The source runs for as long as its connection works: it exits after a
/// failure and after nothing else, and every tick sends a payload of
/// exactly `PAYLOAD_LEN` alphanumeric characters.
pub proof fn lemma_source_runs_until_failure(e: SourceEvent, a: SourceAction)
    requires
        source_allows(e, a),
    ensures
        a is Exit <==> is_failure(e),
        e is Tick ==> (a matches SourceAction::Send(p) && p@.len() == PAYLOAD_LEN
            && all_alphanumeric(p@)),
        !(e is Tick) ==> !(a is Send),
{
}

} // verus!
