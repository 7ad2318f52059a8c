//! Operation plans: every semantic operation compiled to a short, exactly
//! specified sequence of register transfers.
//!
//! A driver (real transport or simulated register file) runs a plan one
//! transfer at a time: it performs the requested read or write and feeds
//! the outcome back with [`op_next`] until the plan finishes.  The
//! transition function is mirrored by `spec` twins, so everything a plan
//! will ever ask of the transport — which registers it touches, which
//! value each write carries, and when it refuses to write at all — is
//! pinned down by the contracts.

use vstd::prelude::*;

use crate::bits::{bit8, bit_get, bit_with, spec_bit_with};
use crate::pins::{HalError, HeaderPin, PcbRevision, PinMode, PinState, SlgPin};
use crate::regmap::{
    is_mapped_addr, physical_level, pin_location, spec_physical_level, spec_pin_location,
    PinCapability, GPIO8_10_IN, REVISION_SENSE_BIT,
};

verus! {

/// One register transfer requested from the transport.
#[derive(Copy, Clone, Debug, PartialEq, Eq, Structural)]
pub enum RegOp {
    ReadReg(u16),
    WriteReg(u16, u8),
}

/// What a finished operation reports, in logical (non-inverted) terms.
#[derive(Copy, Clone, Debug, PartialEq, Eq, Structural)]
pub enum OpOutcome {
    Done,
    Mode(PinMode),
    State(PinState),
    Flag(bool),
    Revision(PcbRevision),
}

/// The semantic operations of the pin layer.
#[derive(Copy, Clone, Debug, PartialEq, Eq, Structural)]
pub enum Operation {
    /// Power the attached device on or off.
    PowerCtl(bool),
    /// Is power to the attached device on?
    IsPowerOn,
    /// Is the power switch reporting a fault?
    IsPowerFault,
    /// Read the board revision strap (answered from the session cache when
    /// already established).
    DetectRevision,
    /// Configure the USB data-path switch line as output.
    UsbSwitchConfigure,
    /// Connect or disconnect the USB data path.
    UsbSwitchSet(bool),
    /// Is the USB data path connected?
    UsbSwitchIsConnected,
    HeaderSetMode(HeaderPin, PinMode),
    HeaderGetMode(HeaderPin),
    HeaderSet(HeaderPin, PinState),
    HeaderGet(HeaderPin),
    SlgSetMode(SlgPin, PinMode),
    SlgGetMode(SlgPin),
    SlgSet(SlgPin, PinState),
    SlgGet(SlgPin),
}

/// How a finished plan's final bit reading is packaged as an outcome.
#[derive(Copy, Clone, Debug)]
pub enum OutcomeKind {
    Unit,
    Mode,
    State,
    Flag,
    Revision,
}

/// The primitive moves a plan is built from.  Each takes one or two
/// transfers.
#[derive(Copy, Clone, Debug)]
pub enum MicroOp {
    /// Read `addr`, rewrite bit `bit` to `value`, write the result back.
    BitModify { addr: u16, bit: u8, value: bool },
    /// Read the Direction register at `addr`; continue only when bit `bit`
    /// shows output, otherwise refuse with `ModeMismatch` before any
    /// write.
    GuardOutput { addr: u16, bit: u8 },
    /// Read `addr` and report bit `bit`, inverted when `invert`.
    BitProbe { addr: u16, bit: u8, invert: bool },
    /// Read the Direction register, then the Output or Input register of
    /// the same pin depending on the direction found, and report that
    /// pin's bit, inverted when `invert`.
    PinProbe { dir_addr: u16, out_addr: u16, in_addr: u16, bit: u8, invert: bool },
    /// The data-path switch sense: read the Input register; a high
    /// (physically deasserted) level means disconnected, otherwise the
    /// Output register's inverted bit decides.
    SwitchProbe { in_addr: u16, out_addr: u16, bit: u8 },
}

/// Where a plan stands between transfers.
#[derive(Copy, Clone, Debug)]
pub enum SubState {
    /// Waiting for the value of the current micro-op's first read.
    AwaitRead1,
    /// Waiting for the acknowledgement of a write.
    AwaitWriteAck,
    /// Waiting for the value of the current micro-op's second read.
    AwaitRead2,
}

/// A plan in progress: at most two micro-ops, run left to right.
#[derive(Copy, Clone, Debug)]
pub struct OpMachine {
    pub kind: OutcomeKind,
    pub cur: MicroOp,
    pub pending: Option<MicroOp>,
    pub sub: SubState,
}

/// What the machine asks of the transport next, or the finished outcome.
#[derive(Copy, Clone, Debug)]
pub enum MachineStep {
    Transfer(OpMachine, RegOp),
    Finished(Result<OpOutcome, HalError>),
}

pub open spec fn micro_wf(m: MicroOp) -> bool {
    match m {
        MicroOp::BitModify { addr, bit, .. } => is_mapped_addr(addr) && bit < 8,
        MicroOp::GuardOutput { addr, bit } => is_mapped_addr(addr) && bit < 8,
        MicroOp::BitProbe { addr, bit, .. } => is_mapped_addr(addr) && bit < 8,
        MicroOp::PinProbe { dir_addr, out_addr, in_addr, bit, .. } => is_mapped_addr(dir_addr)
            && is_mapped_addr(out_addr) && is_mapped_addr(in_addr) && bit < 8,
        MicroOp::SwitchProbe { in_addr, out_addr, bit } => is_mapped_addr(in_addr)
            && is_mapped_addr(out_addr) && bit < 8,
    }
}

impl OpMachine {
    pub open spec fn wf(self) -> bool {
        &&& micro_wf(self.cur)
        &&& (self.pending matches Some(p) ==> micro_wf(p))
    }
}

impl RegOp {
    /// Every transfer a plan requests addresses a mapped register.
    pub open spec fn wf(self) -> bool {
        match self {
            RegOp::ReadReg(addr) => is_mapped_addr(addr),
            RegOp::WriteReg(addr, _) => is_mapped_addr(addr),
        }
    }
}

impl MachineStep {
    /// Any machine handed on is well formed, its transfer addresses a
    /// mapped register, and the transfer's direction agrees with the event
    /// the machine waits for: a write exactly when it expects the write's
    /// acknowledgement.
    pub open spec fn wf(self) -> bool {
        self matches MachineStep::Transfer(m, t) ==> m.wf() && t.wf() && ((t is WriteReg)
            <==> spec_expects_ack(m))
    }
}

/// The register a micro-op reads first.
pub open spec fn spec_micro_first_read(m: MicroOp) -> u16 {
    match m {
        MicroOp::BitModify { addr, .. } => addr,
        MicroOp::GuardOutput { addr, .. } => addr,
        MicroOp::BitProbe { addr, .. } => addr,
        MicroOp::PinProbe { dir_addr, .. } => dir_addr,
        MicroOp::SwitchProbe { in_addr, .. } => in_addr,
    }
}

/// A level reading packaged as the operation's outcome.
pub open spec fn spec_outcome(kind: OutcomeKind, level: bool) -> OpOutcome {
    match kind {
        OutcomeKind::Unit => OpOutcome::Done,
        OutcomeKind::Mode => OpOutcome::Mode(
            if level {
                PinMode::Output
            } else {
                PinMode::Input
            },
        ),
        OutcomeKind::State => OpOutcome::State(
            if level {
                PinState::High
            } else {
                PinState::Low
            },
        ),
        OutcomeKind::Flag => OpOutcome::Flag(level),
        OutcomeKind::Revision => OpOutcome::Revision(
            if level {
                PcbRevision::RevC
            } else {
                PcbRevision::RevAorB
            },
        ),
    }
}

/// A fresh plan asking for its first read.
pub open spec fn spec_launch(kind: OutcomeKind, first: MicroOp, second: Option<MicroOp>)
    -> MachineStep {
    MachineStep::Transfer(
        OpMachine { kind, cur: first, pending: second, sub: SubState::AwaitRead1 },
        RegOp::ReadReg(spec_micro_first_read(first)),
    )
}

/// After the current micro-op completes: start the pending one, or finish.
/// Only plans ending in a modify come through here, so the outcome carries
/// no level.
pub open spec fn spec_advance(m: OpMachine) -> MachineStep {
    match m.pending {
        Some(op2) => MachineStep::Transfer(
            OpMachine { kind: m.kind, cur: op2, pending: None, sub: SubState::AwaitRead1 },
            RegOp::ReadReg(spec_micro_first_read(op2)),
        ),
        None => MachineStep::Finished(Ok(spec_outcome(m.kind, false))),
    }
}

/// True when the session's established revision admits the RevC-only
/// capabilities.
pub open spec fn spec_is_revc(rev: Option<PcbRevision>) -> bool {
    rev == Some(PcbRevision::RevC)
}

/// Compiles an operation to its plan, given the session's established
/// revision (`None` while undetected).
///
/// Revision-gated operations on anything but an established RevC session
/// finish at once with `UnsupportedOnRevision`: no transfer is requested.
/// A detection with the revision already established finishes at once with
/// the cached value, so repeated detections within a session agree.
pub open spec fn spec_op_start(rev: Option<PcbRevision>, op: Operation) -> MachineStep {
    match op {
        Operation::PowerCtl(on) => {
            let l = spec_pin_location(PinCapability::PowerEnable);
            spec_launch(
                OutcomeKind::Unit,
                MicroOp::BitModify { addr: l.dir_addr, bit: l.bit, value: true },
                Some(
                    MicroOp::BitModify {
                        addr: l.out_addr,
                        bit: l.bit,
                        value: spec_physical_level(on, l.active_low),
                    },
                ),
            )
        },
        Operation::IsPowerOn => {
            let l = spec_pin_location(PinCapability::PowerEnable);
            spec_launch(
                OutcomeKind::Flag,
                MicroOp::BitProbe { addr: l.out_addr, bit: l.bit, invert: l.active_low },
                None,
            )
        },
        Operation::IsPowerFault => {
            let l = spec_pin_location(PinCapability::PowerFault);
            spec_launch(
                OutcomeKind::Flag,
                MicroOp::BitModify { addr: l.dir_addr, bit: l.bit, value: false },
                Some(MicroOp::BitProbe { addr: l.in_addr, bit: l.bit, invert: l.active_low }),
            )
        },
        Operation::DetectRevision => match rev {
            Some(r) => MachineStep::Finished(Ok(OpOutcome::Revision(r))),
            None => spec_launch(
                OutcomeKind::Revision,
                MicroOp::BitProbe { addr: GPIO8_10_IN, bit: REVISION_SENSE_BIT, invert: false },
                None,
            ),
        },
        Operation::UsbSwitchConfigure => if spec_is_revc(rev) {
            let l = spec_pin_location(PinCapability::UsbSwitch);
            spec_launch(
                OutcomeKind::Unit,
                MicroOp::BitModify { addr: l.dir_addr, bit: l.bit, value: true },
                None,
            )
        } else {
            MachineStep::Finished(Err(HalError::UnsupportedOnRevision))
        },
        Operation::UsbSwitchSet(connected) => if spec_is_revc(rev) {
            let l = spec_pin_location(PinCapability::UsbSwitch);
            spec_launch(
                OutcomeKind::Unit,
                MicroOp::GuardOutput { addr: l.dir_addr, bit: l.bit },
                Some(
                    MicroOp::BitModify {
                        addr: l.out_addr,
                        bit: l.bit,
                        value: spec_physical_level(connected, l.active_low),
                    },
                ),
            )
        } else {
            MachineStep::Finished(Err(HalError::UnsupportedOnRevision))
        },
        Operation::UsbSwitchIsConnected => if spec_is_revc(rev) {
            let l = spec_pin_location(PinCapability::UsbSwitch);
            spec_launch(
                OutcomeKind::Flag,
                MicroOp::SwitchProbe { in_addr: l.in_addr, out_addr: l.out_addr, bit: l.bit },
                None,
            )
        } else {
            MachineStep::Finished(Err(HalError::UnsupportedOnRevision))
        },
        Operation::HeaderSetMode(pin, mode) => spec_start_set_mode(
            rev,
            PinCapability::Header(pin),
            mode,
        ),
        Operation::HeaderGetMode(pin) => spec_start_get_mode(rev, PinCapability::Header(pin)),
        Operation::HeaderSet(pin, state) => spec_start_set(rev, PinCapability::Header(pin), state),
        Operation::HeaderGet(pin) => spec_start_get(rev, PinCapability::Header(pin)),
        Operation::SlgSetMode(pin, mode) => spec_start_set_mode(
            rev,
            PinCapability::ForceMode(pin),
            mode,
        ),
        Operation::SlgGetMode(pin) => spec_start_get_mode(rev, PinCapability::ForceMode(pin)),
        Operation::SlgSet(pin, state) => spec_start_set(rev, PinCapability::ForceMode(pin), state),
        Operation::SlgGet(pin) => spec_start_get(rev, PinCapability::ForceMode(pin)),
    }
}

/// Plan of a revision-gated mode change: one modify of the Direction bit.
pub open spec fn spec_start_set_mode(
    rev: Option<PcbRevision>,
    cap: PinCapability,
    mode: PinMode,
) -> MachineStep {
    if spec_is_revc(rev) {
        let l = spec_pin_location(cap);
        spec_launch(
            OutcomeKind::Unit,
            MicroOp::BitModify { addr: l.dir_addr, bit: l.bit, value: mode is Output },
            None,
        )
    } else {
        MachineStep::Finished(Err(HalError::UnsupportedOnRevision))
    }
}

/// Plan of a revision-gated mode query: one read of the Direction bit.
pub open spec fn spec_start_get_mode(rev: Option<PcbRevision>, cap: PinCapability)
    -> MachineStep {
    if spec_is_revc(rev) {
        let l = spec_pin_location(cap);
        spec_launch(
            OutcomeKind::Mode,
            MicroOp::BitProbe { addr: l.dir_addr, bit: l.bit, invert: false },
            None,
        )
    } else {
        MachineStep::Finished(Err(HalError::UnsupportedOnRevision))
    }
}

/// Plan of a revision-gated drive: the mode guard, then one modify of the
/// Output bit to the polarity-corrected level.
pub open spec fn spec_start_set(
    rev: Option<PcbRevision>,
    cap: PinCapability,
    state: PinState,
) -> MachineStep {
    if spec_is_revc(rev) {
        let l = spec_pin_location(cap);
        spec_launch(
            OutcomeKind::Unit,
            MicroOp::GuardOutput { addr: l.dir_addr, bit: l.bit },
            Some(
                MicroOp::BitModify {
                    addr: l.out_addr,
                    bit: l.bit,
                    value: spec_physical_level(state is High, l.active_low),
                },
            ),
        )
    } else {
        MachineStep::Finished(Err(HalError::UnsupportedOnRevision))
    }
}

/// Plan of a revision-gated state query: mode-aware, polarity-corrected
/// read.
pub open spec fn spec_start_get(rev: Option<PcbRevision>, cap: PinCapability) -> MachineStep {
    if spec_is_revc(rev) {
        let l = spec_pin_location(cap);
        spec_launch(
            OutcomeKind::State,
            MicroOp::PinProbe {
                dir_addr: l.dir_addr,
                out_addr: l.out_addr,
                in_addr: l.in_addr,
                bit: l.bit,
                invert: l.active_low,
            },
            None,
        )
    } else {
        MachineStep::Finished(Err(HalError::UnsupportedOnRevision))
    }
}

/// True when the machine's next event must be a write acknowledgement
/// (`None`) rather than a read value.
pub open spec fn spec_expects_ack(m: OpMachine) -> bool {
    m.sub is AwaitWriteAck
}

/// One step of a plan, given the event the transport reported back: the
/// value of the requested read, or `None` acknowledging the requested
/// write.
///
/// The arms reachable under the driving protocol pin the machine down
/// exactly; an event of the wrong shape is refused by [`op_next`]'s
/// precondition, and the transition maps it to an inert refusal.
pub open spec fn spec_op_next(m: OpMachine, ev: Option<u8>) -> MachineStep {
    match m.cur {
        MicroOp::BitModify { addr, bit, value } => match m.sub {
            SubState::AwaitRead1 => match ev {
                Some(v) => MachineStep::Transfer(
                    OpMachine {
                        kind: m.kind,
                        cur: m.cur,
                        pending: m.pending,
                        sub: SubState::AwaitWriteAck,
                    },
                    RegOp::WriteReg(addr, spec_bit_with(v, bit, value)),
                ),
                None => MachineStep::Finished(Err(HalError::ModeMismatch)),
            },
            SubState::AwaitWriteAck => spec_advance(m),
            SubState::AwaitRead2 => MachineStep::Finished(Err(HalError::ModeMismatch)),
        },
        MicroOp::GuardOutput { addr: _, bit } => match (m.sub, ev) {
            (SubState::AwaitRead1, Some(v)) => if bit8(v, bit) {
                spec_advance(m)
            } else {
                MachineStep::Finished(Err(HalError::ModeMismatch))
            },
            _ => MachineStep::Finished(Err(HalError::ModeMismatch)),
        },
        MicroOp::BitProbe { addr: _, bit, invert } => match (m.sub, ev) {
            (SubState::AwaitRead1, Some(v)) => MachineStep::Finished(
                Ok(spec_outcome(m.kind, bit8(v, bit) != invert)),
            ),
            _ => MachineStep::Finished(Err(HalError::ModeMismatch)),
        },
        MicroOp::PinProbe { dir_addr: _, out_addr, in_addr, bit, invert } => match (m.sub, ev) {
            (SubState::AwaitRead1, Some(v)) => MachineStep::Transfer(
                OpMachine {
                    kind: m.kind,
                    cur: m.cur,
                    pending: m.pending,
                    sub: SubState::AwaitRead2,
                },
                RegOp::ReadReg(
                    if bit8(v, bit) {
                        out_addr
                    } else {
                        in_addr
                    },
                ),
            ),
            (SubState::AwaitRead2, Some(v)) => MachineStep::Finished(
                Ok(spec_outcome(m.kind, bit8(v, bit) != invert)),
            ),
            _ => MachineStep::Finished(Err(HalError::ModeMismatch)),
        },
        MicroOp::SwitchProbe { in_addr: _, out_addr, bit } => match (m.sub, ev) {
            (SubState::AwaitRead1, Some(v)) => if bit8(v, bit) {
                MachineStep::Finished(Ok(spec_outcome(m.kind, false)))
            } else {
                MachineStep::Transfer(
                    OpMachine {
                        kind: m.kind,
                        cur: m.cur,
                        pending: m.pending,
                        sub: SubState::AwaitRead2,
                    },
                    RegOp::ReadReg(out_addr),
                )
            },
            (SubState::AwaitRead2, Some(v)) => MachineStep::Finished(
                Ok(spec_outcome(m.kind, !bit8(v, bit))),
            ),
            _ => MachineStep::Finished(Err(HalError::ModeMismatch)),
        },
    }
}

/// Exec twin of [`spec_op_start`].
pub fn op_start(rev: Option<PcbRevision>, op: Operation) -> (s: MachineStep)
    ensures
        s == spec_op_start(rev, op),
        s.wf(),
{
    match op {
        Operation::PowerCtl(on) => {
            let l = pin_location(PinCapability::PowerEnable);
            launch(
                OutcomeKind::Unit,
                MicroOp::BitModify { addr: l.dir_addr, bit: l.bit, value: true },
                Some(
                    MicroOp::BitModify {
                        addr: l.out_addr,
                        bit: l.bit,
                        value: physical_level(on, l.active_low),
                    },
                ),
            )
        },
        Operation::IsPowerOn => {
            let l = pin_location(PinCapability::PowerEnable);
            launch(
                OutcomeKind::Flag,
                MicroOp::BitProbe { addr: l.out_addr, bit: l.bit, invert: l.active_low },
                None,
            )
        },
        Operation::IsPowerFault => {
            let l = pin_location(PinCapability::PowerFault);
            launch(
                OutcomeKind::Flag,
                MicroOp::BitModify { addr: l.dir_addr, bit: l.bit, value: false },
                Some(MicroOp::BitProbe { addr: l.in_addr, bit: l.bit, invert: l.active_low }),
            )
        },
        Operation::DetectRevision => match rev {
            Some(r) => MachineStep::Finished(Ok(OpOutcome::Revision(r))),
            None => launch(
                OutcomeKind::Revision,
                MicroOp::BitProbe { addr: GPIO8_10_IN, bit: REVISION_SENSE_BIT, invert: false },
                None,
            ),
        },
        Operation::UsbSwitchConfigure => if is_revc(rev) {
            let l = pin_location(PinCapability::UsbSwitch);
            launch(
                OutcomeKind::Unit,
                MicroOp::BitModify { addr: l.dir_addr, bit: l.bit, value: true },
                None,
            )
        } else {
            MachineStep::Finished(Err(HalError::UnsupportedOnRevision))
        },
        Operation::UsbSwitchSet(connected) => if is_revc(rev) {
            let l = pin_location(PinCapability::UsbSwitch);
            launch(
                OutcomeKind::Unit,
                MicroOp::GuardOutput { addr: l.dir_addr, bit: l.bit },
                Some(
                    MicroOp::BitModify {
                        addr: l.out_addr,
                        bit: l.bit,
                        value: physical_level(connected, l.active_low),
                    },
                ),
            )
        } else {
            MachineStep::Finished(Err(HalError::UnsupportedOnRevision))
        },
        Operation::UsbSwitchIsConnected => if is_revc(rev) {
            let l = pin_location(PinCapability::UsbSwitch);
            launch(
                OutcomeKind::Flag,
                MicroOp::SwitchProbe { in_addr: l.in_addr, out_addr: l.out_addr, bit: l.bit },
                None,
            )
        } else {
            MachineStep::Finished(Err(HalError::UnsupportedOnRevision))
        },
        Operation::HeaderSetMode(pin, mode) => start_set_mode(rev, PinCapability::Header(pin), mode),
        Operation::HeaderGetMode(pin) => start_get_mode(rev, PinCapability::Header(pin)),
        Operation::HeaderSet(pin, state) => start_set(rev, PinCapability::Header(pin), state),
        Operation::HeaderGet(pin) => start_get(rev, PinCapability::Header(pin)),
        Operation::SlgSetMode(pin, mode) => start_set_mode(rev, PinCapability::ForceMode(pin), mode),
        Operation::SlgGetMode(pin) => start_get_mode(rev, PinCapability::ForceMode(pin)),
        Operation::SlgSet(pin, state) => start_set(rev, PinCapability::ForceMode(pin), state),
        Operation::SlgGet(pin) => start_get(rev, PinCapability::ForceMode(pin)),
    }
}

fn launch(kind: OutcomeKind, first: MicroOp, second: Option<MicroOp>) -> (s: MachineStep)
    requires
        micro_wf(first),
        second matches Some(p) ==> micro_wf(p),
    ensures
        s == spec_launch(kind, first, second),
        s.wf(),
{
    let addr = match first {
        MicroOp::BitModify { addr, .. } => addr,
        MicroOp::GuardOutput { addr, .. } => addr,
        MicroOp::BitProbe { addr, .. } => addr,
        MicroOp::PinProbe { dir_addr, .. } => dir_addr,
        MicroOp::SwitchProbe { in_addr, .. } => in_addr,
    };
    MachineStep::Transfer(
        OpMachine { kind, cur: first, pending: second, sub: SubState::AwaitRead1 },
        RegOp::ReadReg(addr),
    )
}

fn is_revc(rev: Option<PcbRevision>) -> (b: bool)
    ensures
        b == spec_is_revc(rev),
{
    match rev {
        Some(PcbRevision::RevC) => true,
        _ => false,
    }
}

fn start_set_mode(rev: Option<PcbRevision>, cap: PinCapability, mode: PinMode) -> (s: MachineStep)
    ensures
        s == spec_start_set_mode(rev, cap, mode),
        s.wf(),
{
    if is_revc(rev) {
        let l = pin_location(cap);
        launch(
            OutcomeKind::Unit,
            MicroOp::BitModify {
                addr: l.dir_addr,
                bit: l.bit,
                value: matches!(mode, PinMode::Output),
            },
            None,
        )
    } else {
        MachineStep::Finished(Err(HalError::UnsupportedOnRevision))
    }
}

fn start_get_mode(rev: Option<PcbRevision>, cap: PinCapability) -> (s: MachineStep)
    ensures
        s == spec_start_get_mode(rev, cap),
        s.wf(),
{
    if is_revc(rev) {
        let l = pin_location(cap);
        launch(
            OutcomeKind::Mode,
            MicroOp::BitProbe { addr: l.dir_addr, bit: l.bit, invert: false },
            None,
        )
    } else {
        MachineStep::Finished(Err(HalError::UnsupportedOnRevision))
    }
}

fn start_set(rev: Option<PcbRevision>, cap: PinCapability, state: PinState) -> (s: MachineStep)
    ensures
        s == spec_start_set(rev, cap, state),
        s.wf(),
{
    if is_revc(rev) {
        let l = pin_location(cap);
        launch(
            OutcomeKind::Unit,
            MicroOp::GuardOutput { addr: l.dir_addr, bit: l.bit },
            Some(
                MicroOp::BitModify {
                    addr: l.out_addr,
                    bit: l.bit,
                    value: physical_level(matches!(state, PinState::High), l.active_low),
                },
            ),
        )
    } else {
        MachineStep::Finished(Err(HalError::UnsupportedOnRevision))
    }
}

fn start_get(rev: Option<PcbRevision>, cap: PinCapability) -> (s: MachineStep)
    ensures
        s == spec_start_get(rev, cap),
        s.wf(),
{
    if is_revc(rev) {
        let l = pin_location(cap);
        launch(
            OutcomeKind::State,
            MicroOp::PinProbe {
                dir_addr: l.dir_addr,
                out_addr: l.out_addr,
                in_addr: l.in_addr,
                bit: l.bit,
                invert: l.active_low,
            },
            None,
        )
    } else {
        MachineStep::Finished(Err(HalError::UnsupportedOnRevision))
    }
}

/// Does the machine wait for a write acknowledgement (rather than a read
/// value)?  A driver can check this before feeding an event.
pub fn expects_write_ack(m: &OpMachine) -> (b: bool)
    ensures
        b == spec_expects_ack(*m),
{
    matches!(m.sub, SubState::AwaitWriteAck)
}

/// Exec twin of [`spec_op_next`].
pub fn op_next(m: OpMachine, ev: Option<u8>) -> (s: MachineStep)
    requires
        m.wf(),
        (ev is None) == spec_expects_ack(m),
    ensures
        s == spec_op_next(m, ev),
        s.wf(),
{
    match m.cur {
        MicroOp::BitModify { addr, bit, value } => match m.sub {
            SubState::AwaitRead1 => match ev {
                Some(v) => MachineStep::Transfer(
                    OpMachine {
                        kind: m.kind,
                        cur: m.cur,
                        pending: m.pending,
                        sub: SubState::AwaitWriteAck,
                    },
                    RegOp::WriteReg(addr, bit_with(v, bit, value)),
                ),
                None => MachineStep::Finished(Err(HalError::ModeMismatch)),
            },
            SubState::AwaitWriteAck => advance(m),
            SubState::AwaitRead2 => MachineStep::Finished(Err(HalError::ModeMismatch)),
        },
        MicroOp::GuardOutput { addr: _, bit } => match (m.sub, ev) {
            (SubState::AwaitRead1, Some(v)) => if bit_get(v, bit) {
                advance(m)
            } else {
                MachineStep::Finished(Err(HalError::ModeMismatch))
            },
            _ => MachineStep::Finished(Err(HalError::ModeMismatch)),
        },
        MicroOp::BitProbe { addr: _, bit, invert } => match (m.sub, ev) {
            (SubState::AwaitRead1, Some(v)) => MachineStep::Finished(
                Ok(outcome(m.kind, bit_get(v, bit) != invert)),
            ),
            _ => MachineStep::Finished(Err(HalError::ModeMismatch)),
        },
        MicroOp::PinProbe { dir_addr: _, out_addr, in_addr, bit, invert } => match (m.sub, ev) {
            (SubState::AwaitRead1, Some(v)) => MachineStep::Transfer(
                OpMachine {
                    kind: m.kind,
                    cur: m.cur,
                    pending: m.pending,
                    sub: SubState::AwaitRead2,
                },
                RegOp::ReadReg(
                    if bit_get(v, bit) {
                        out_addr
                    } else {
                        in_addr
                    },
                ),
            ),
            (SubState::AwaitRead2, Some(v)) => MachineStep::Finished(
                Ok(outcome(m.kind, bit_get(v, bit) != invert)),
            ),
            _ => MachineStep::Finished(Err(HalError::ModeMismatch)),
        },
        MicroOp::SwitchProbe { in_addr: _, out_addr, bit } => match (m.sub, ev) {
            (SubState::AwaitRead1, Some(v)) => if bit_get(v, bit) {
                MachineStep::Finished(Ok(outcome(m.kind, false)))
            } else {
                MachineStep::Transfer(
                    OpMachine {
                        kind: m.kind,
                        cur: m.cur,
                        pending: m.pending,
                        sub: SubState::AwaitRead2,
                    },
                    RegOp::ReadReg(out_addr),
                )
            },
            (SubState::AwaitRead2, Some(v)) => MachineStep::Finished(
                Ok(outcome(m.kind, !bit_get(v, bit))),
            ),
            _ => MachineStep::Finished(Err(HalError::ModeMismatch)),
        },
    }
}

fn advance(m: OpMachine) -> (s: MachineStep)
    requires
        m.wf(),
    ensures
        s == spec_advance(m),
        s.wf(),
{
    match m.pending {
        Some(op2) => {
            let addr = match op2 {
                MicroOp::BitModify { addr, .. } => addr,
                MicroOp::GuardOutput { addr, .. } => addr,
                MicroOp::BitProbe { addr, .. } => addr,
                MicroOp::PinProbe { dir_addr, .. } => dir_addr,
                MicroOp::SwitchProbe { in_addr, .. } => in_addr,
            };
            MachineStep::Transfer(
                OpMachine { kind: m.kind, cur: op2, pending: None, sub: SubState::AwaitRead1 },
                RegOp::ReadReg(addr),
            )
        },
        None => MachineStep::Finished(Ok(outcome(m.kind, false))),
    }
}

fn outcome(kind: OutcomeKind, level: bool) -> (o: OpOutcome)
    ensures
        o == spec_outcome(kind, level),
{
    match kind {
        OutcomeKind::Unit => OpOutcome::Done,
        OutcomeKind::Mode => OpOutcome::Mode(
            if level {
                PinMode::Output
            } else {
                PinMode::Input
            },
        ),
        OutcomeKind::State => OpOutcome::State(
            if level {
                PinState::High
            } else {
                PinState::Low
            },
        ),
        OutcomeKind::Flag => OpOutcome::Flag(level),
        OutcomeKind::Revision => OpOutcome::Revision(
            if level {
                PcbRevision::RevC
            } else {
                PcbRevision::RevAorB
            },
        ),
    }
}

} // verus!
