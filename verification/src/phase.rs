use vstd::prelude::*;
use crate::error::TransferError;

verus! {

/// What a transfer does, which decides the path it takes.
#[derive(Clone, Copy, Debug, PartialEq, Eq, Structural)]
pub enum TransferKind {
    /// Payload in, identifier out in one answer.
    Upload,
    /// Identifier in, plaintext out in one answer.
    BufferedDownload,
    /// Identifier in, plaintext out chunk by chunk.
    StreamedDownload,
}

/// Where one transfer stands.
#[derive(Clone, Copy, Debug, PartialEq, Eq, Structural)]
pub enum Phase {
    Receiving,
    Assembled,
    Sealing,
    Opening,
    Sent,
    Fragmenting,
    Streaming,
    Complete,
    Failed(TransferError),
}

impl Phase {
    /// A transfer ends when its answer is sent, when its stream is complete,
    /// or when it has failed.
    pub open spec fn is_terminal(self) -> bool {
        self == Phase::Sent || self == Phase::Complete || self is Failed
    }

    /// The phase that follows this one when the step at hand succeeds.
    pub open spec fn successor(self, kind: TransferKind) -> Phase {
        match self {
            Phase::Receiving => Phase::Assembled,
            Phase::Assembled => if kind == TransferKind::Upload {
                Phase::Sealing
            } else {
                Phase::Opening
            },
            Phase::Sealing => Phase::Sent,
            Phase::Opening => if kind == TransferKind::StreamedDownload {
                Phase::Fragmenting
            } else {
                Phase::Sent
            },
            Phase::Fragmenting => Phase::Streaming,
            Phase::Streaming => Phase::Complete,
            Phase::Sent => Phase::Sent,
            Phase::Complete => Phase::Complete,
            Phase::Failed(reason) => Phase::Failed(reason),
        }
    }

    /// The phase after the step at hand ended with `outcome`: a terminal
    /// phase stays, a failure leads to `Failed` from anywhere else, and a
    /// success leads to the successor.
    pub open spec fn after(self, kind: TransferKind, outcome: Result<(), TransferError>) -> Phase {
        if self.is_terminal() {
            self
        } else {
            match outcome {
                Err(reason) => Phase::Failed(reason),
                Ok(_) => self.successor(kind),
            }
        }
    }

    /// A bound on the steps that are left before the transfer ends.
    pub open spec fn steps_left(self, kind: TransferKind) -> nat {
        match self {
            Phase::Receiving => if kind == TransferKind::StreamedDownload {
                6
            } else {
                3
            },
            Phase::Assembled => if kind == TransferKind::StreamedDownload {
                5
            } else {
                2
            },
            Phase::Sealing => 1,
            Phase::Opening => if kind == TransferKind::StreamedDownload {
                4
            } else {
                1
            },
            Phase::Fragmenting => 2,
            Phase::Streaming => 1,
            Phase::Sent => 0,
            Phase::Complete => 0,
            Phase::Failed(_) => 0,
        }
    }

    /// Whether the transfer has ended.
    pub fn ended(self) -> (terminal: bool)
        ensures
            terminal == self.is_terminal(),
    {
        match self {
            Phase::Sent => true,
            Phase::Complete => true,
            Phase::Failed(_) => true,
            _ => false,
        }
    }

    /// Moves the transfer on by the outcome of the step at hand.
    pub fn advance(self, kind: TransferKind, outcome: Result<(), TransferError>) -> (next: Phase)
        ensures
            next == self.after(kind, outcome),
    {
        if self.ended() {
            return self;
        }
        if let Err(reason) = outcome {
            return Phase::Failed(reason);
        }
        match self {
            Phase::Receiving => Phase::Assembled,
            Phase::Assembled => match kind {
                TransferKind::Upload => Phase::Sealing,
                _ => Phase::Opening,
            },
            Phase::Sealing => Phase::Sent,
            Phase::Opening => match kind {
                TransferKind::StreamedDownload => Phase::Fragmenting,
                _ => Phase::Sent,
            },
            Phase::Fragmenting => Phase::Streaming,
            Phase::Streaming => Phase::Complete,
            _ => self,
        }
    }
}

/// Nothing leaves a terminal phase: in particular a failed transfer stays
/// failed, with its reason, whatever is reported afterwards.
pub proof fn lemma_terminal_phase_stays(
    phase: Phase,
    kind: TransferKind,
    outcome: Result<(), TransferError>,
)
    requires
        phase.is_terminal(),
    ensures
        phase.after(kind, outcome) == phase,
{
}

/// A failure ends the transfer at once, from every phase that is not
/// terminal.
pub proof fn lemma_failure_is_terminal(phase: Phase, kind: TransferKind, reason: TransferError)
    requires
        !phase.is_terminal(),
    ensures
        phase.after(kind, Err(reason)) == Phase::Failed(reason),
        phase.after(kind, Err(reason)).is_terminal(),
{
}

/// Every step brings the end nearer: a phase that is not terminal is
/// followed by one with fewer steps left, and a phase is terminal exactly
/// when no step is left. So a transfer ends after at most six steps.
pub proof fn lemma_steps_run_out(
    phase: Phase,
    kind: TransferKind,
    outcome: Result<(), TransferError>,
)
    ensures
        phase.steps_left(kind) <= 6,
        phase.is_terminal() ==> phase.steps_left(kind) == 0,
        !phase.is_terminal() ==> phase.after(kind, outcome).steps_left(kind) < phase.steps_left(
            kind,
        ),
{
}

} // verus!
