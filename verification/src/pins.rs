//! Semantic pin vocabulary: revisions, modes, states, pin identities, and
//! the typed outcomes every operation reports.

use vstd::prelude::*;

verus! {

/// Board revision, decided once per session by a strap-pin read.
#[derive(Copy, Clone, Debug, PartialEq, Eq, Structural)]
pub enum PcbRevision {
    RevAorB,
    RevC,
}

/// Direction of a pin, as held in the chip's Direction register.  It is
/// never cached in memory: every decision re-reads it from the register.
#[derive(Copy, Clone, Debug, PartialEq, Eq, Structural)]
pub enum PinMode {
    Output,
    Input,
}

/// Logical (non-inverted) level of a pin, as callers reason about it.
#[derive(Copy, Clone, Debug, PartialEq, Eq, Structural)]
pub enum PinState {
    High,
    Low,
}

/// The two generic header pins exposed on the board.
#[derive(Copy, Clone, Debug, PartialEq, Eq, Structural)]
pub enum HeaderPin {
    P0,
    P1,
}

/// The two forced-mode lines routed to the companion switch logic.
#[derive(Copy, Clone, Debug, PartialEq, Eq, Structural)]
pub enum SlgPin {
    SlgIo0,
    SlgIo1,
}

/// Typed refusals of the pin layer.  Transport failures never reach this
/// layer: the transport reports them itself and the operation is abandoned
/// with the hardware as of the last completed transfer.
#[derive(Copy, Clone, Debug, PartialEq, Eq, Structural)]
pub enum HalError {
    /// A drive was attempted on a pin not configured as output; no register
    /// write was issued.
    ModeMismatch,
    /// A revision-gated capability was invoked against an incompatible
    /// board; no transfer was attempted.
    UnsupportedOnRevision,
}

/// Per-session state: the detected board revision.  It starts unknown and
/// becomes fixed at the first detection; nothing ever moves it back.
pub struct Session {
    revision: Option<PcbRevision>,
}

impl Session {
    /// The revision this session has established, if any.
    pub closed spec fn rev(self) -> Option<PcbRevision> {
        self.revision
    }

    /// A fresh session: no revision established yet.
    pub fn new() -> (s: Session)
        ensures
            s.rev() is None,
    {
        Session { revision: None }
    }

    pub fn revision(&self) -> (r: Option<PcbRevision>)
        ensures
            r == self.rev(),
    {
        self.revision
    }

    /// Records a detection result.  The first recorded revision wins: once
    /// established, the session's revision never changes.
    pub fn note_revision(&mut self, r: PcbRevision)
        ensures
            final(self).rev() == (if old(self).rev() is Some {
                old(self).rev()
            } else {
                Some(r)
            }),
    {
        if self.revision.is_none() {
            self.revision = Some(r);
        }
    }
}

} // verus!
