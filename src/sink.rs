//! The sink: what a connection's task does after each read.
use vstd::prelude::*;

verus! {

/// The size of the buffer each connection reads into.
pub const READ_BUF_LEN: usize = 1024;

/// What one read on a sink connection gave.
#[derive(Debug, Clone, Copy, PartialEq, Eq, Structural)]
pub enum ReadOutcome {
    /// The read filled this many bytes; zero means the peer closed.
    Bytes(usize),
    /// The read failed.
    Failed,
}

/// What the connection's task does next.
#[derive(Debug, Clone, Copy, PartialEq, Eq, Structural)]
pub enum SinkAction {
    /// Discard what was read and read again.
    ReadAgain,
    /// Drop the connection and stop serving it; the listener and the other
    /// connections go on.
    Close,
}

/// The step a sink task takes after a read: it keeps reading while bytes
/// arrive and stops at the peer's close or at an error.
pub open spec fn sink_step(outcome: ReadOutcome) -> SinkAction {
    match outcome {
        ReadOutcome::Bytes(n) => if n > 0 {
            SinkAction::ReadAgain
        } else {
            SinkAction::Close
        },
        ReadOutcome::Failed => SinkAction::Close,
    }
}

/// Decides what a sink connection does after a read.
pub fn sink_next(outcome: ReadOutcome) -> (a: SinkAction)
    ensures
        a == sink_step(outcome),
        a == SinkAction::ReadAgain <==> (outcome matches ReadOutcome::Bytes(n) && n > 0),
{
    match outcome {
        ReadOutcome::Bytes(n) => if n > 0 {
            SinkAction::ReadAgain
        } else {
            SinkAction::Close
        },
        ReadOutcome::Failed => SinkAction::Close,
    }
}

/// Whatever the peer sends, in chunks of any non-zero sizes, the connection
/// stays open through every chunk, and it closes at the read that sees the
/// peer's close.
pub proof fn lemma_sink_reads_until_close(chunks: Seq<usize>)
    requires
        forall|i: int| 0 <= i < chunks.len() ==> #[trigger] chunks[i] > 0,
    ensures
        forall|i: int|
            0 <= i < chunks.len() ==> sink_step(ReadOutcome::Bytes(#[trigger] chunks[i]))
                == SinkAction::ReadAgain,
        sink_step(ReadOutcome::Bytes(0)) == SinkAction::Close,
{
}

} // verus!
