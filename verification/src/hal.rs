//! The semantic pin operations, executed against a register file.
//!
//! Each function compiles its operation with [`op_start`], runs the plan
//! transfer by transfer against the register file, and returns the typed
//! outcome.  The contracts state, over the register-file model, exactly
//! which registers change, to which values, and which outcome is reported
//! for every starting state — including the refusals: a drive on a pin in
//! input mode writes nothing and reports `ModeMismatch`; a RevC-only
//! operation on any other session reports `UnsupportedOnRevision` without
//! touching a register.

use vstd::prelude::*;

use crate::bits::{bit8, lemma_bit_with, spec_bit_with};
use crate::machine::{
    op_next, op_start, spec_op_next, MachineStep, OpOutcome, Operation, RegOp,
};
use crate::pins::{HalError, HeaderPin, PcbRevision, PinMode, PinState, Session, SlgPin};
use crate::regfile::RegFile;
use crate::regmap::{
    spec_physical_level, spec_pin_location, PinCapability, GPIO8_10_IN, REVISION_SENSE_BIT,
};

verus! {

// ---------------------------------------------------------------------
// What each operation means on a register file.
// ---------------------------------------------------------------------

/// Registers after powering the attached device on or off: the power
/// enable's Direction bit is forced to output, then its Output bit is
/// driven to the polarity-corrected level.
pub open spec fn spec_power_ctl(f: RegFile, pwr_on: bool) -> RegFile {
    let l = spec_pin_location(PinCapability::PowerEnable);
    let f1 = f.spec_write(l.dir_addr, spec_bit_with(f.spec_read(l.dir_addr), l.bit, true));
    f1.spec_write(
        l.out_addr,
        spec_bit_with(
            f1.spec_read(l.out_addr),
            l.bit,
            spec_physical_level(pwr_on, l.active_low),
        ),
    )
}

/// Whether power is on: the power enable's Output bit, read back through
/// the declared polarity.  Correct even before the pin was ever
/// configured, because an external pull resistor fixes the default level.
pub open spec fn spec_is_power_on(f: RegFile) -> bool {
    let l = spec_pin_location(PinCapability::PowerEnable);
    bit8(f.spec_read(l.out_addr), l.bit) != l.active_low
}

/// Registers after the fault sense: its Direction bit is forced to input;
/// nothing else changes.
pub open spec fn spec_fault_sense_regs(f: RegFile) -> RegFile {
    let l = spec_pin_location(PinCapability::PowerFault);
    f.spec_write(l.dir_addr, spec_bit_with(f.spec_read(l.dir_addr), l.bit, false))
}

/// Whether the power switch reports a fault: the fault pin's Input bit
/// through the declared (active-low) polarity.
pub open spec fn spec_is_power_fault(f: RegFile) -> bool {
    let l = spec_pin_location(PinCapability::PowerFault);
    bit8(f.spec_read(l.in_addr), l.bit) != l.active_low
}

/// The revision encoded by the strap pin's sensed level.
pub open spec fn spec_sense_revision(f: RegFile) -> PcbRevision {
    if bit8(f.spec_read(GPIO8_10_IN), REVISION_SENSE_BIT) {
        PcbRevision::RevC
    } else {
        PcbRevision::RevAorB
    }
}

/// What a detection returns: the session's established revision when there
/// is one, else the freshly sensed strap level.
pub open spec fn spec_detect(established: Option<PcbRevision>, f: RegFile) -> PcbRevision {
    match established {
        Some(r) => r,
        None => spec_sense_revision(f),
    }
}

/// Registers after a mode change of `cap`: only its Direction bit moves.
pub open spec fn spec_set_mode_regs(f: RegFile, cap: PinCapability, mode: PinMode) -> RegFile {
    let l = spec_pin_location(cap);
    f.spec_write(l.dir_addr, spec_bit_with(f.spec_read(l.dir_addr), l.bit, mode is Output))
}

/// The mode of `cap` as the Direction register currently holds it.
pub open spec fn spec_pin_mode(f: RegFile, cap: PinCapability) -> PinMode {
    let l = spec_pin_location(cap);
    if bit8(f.spec_read(l.dir_addr), l.bit) {
        PinMode::Output
    } else {
        PinMode::Input
    }
}

/// Registers after a guarded drive of `cap`: when its Direction bit shows
/// output, the Output bit takes the polarity-corrected level; otherwise
/// nothing is written at all.
pub open spec fn spec_set_pin_regs(f: RegFile, cap: PinCapability, state: PinState) -> RegFile {
    let l = spec_pin_location(cap);
    if bit8(f.spec_read(l.dir_addr), l.bit) {
        f.spec_write(
            l.out_addr,
            spec_bit_with(
                f.spec_read(l.out_addr),
                l.bit,
                spec_physical_level(state is High, l.active_low),
            ),
        )
    } else {
        f
    }
}

/// What a guarded drive of `cap` reports: success exactly when the
/// Direction bit shows output, `ModeMismatch` otherwise.
pub open spec fn spec_set_pin_result(f: RegFile, cap: PinCapability) -> Result<(), HalError> {
    let l = spec_pin_location(cap);
    if bit8(f.spec_read(l.dir_addr), l.bit) {
        Ok(())
    } else {
        Err(HalError::ModeMismatch)
    }
}

/// The logical state of `cap`: the Output bit while the pin drives, the
/// Input bit while it senses, either one corrected for polarity.
pub open spec fn spec_pin_state(f: RegFile, cap: PinCapability) -> PinState {
    let l = spec_pin_location(cap);
    let level = if bit8(f.spec_read(l.dir_addr), l.bit) {
        bit8(f.spec_read(l.out_addr), l.bit)
    } else {
        bit8(f.spec_read(l.in_addr), l.bit)
    };
    if level != l.active_low {
        PinState::High
    } else {
        PinState::Low
    }
}

/// Registers after configuring the data-path switch line as output.
pub open spec fn spec_usb_switch_configure_regs(f: RegFile) -> RegFile {
    let l = spec_pin_location(PinCapability::UsbSwitch);
    f.spec_write(l.dir_addr, spec_bit_with(f.spec_read(l.dir_addr), l.bit, true))
}

/// Whether the data path is connected: a high sensed level means
/// disconnected (the enable is active-low); at a low sensed level the
/// inverted Output bit decides.
pub open spec fn spec_usb_switch_connected(f: RegFile) -> bool {
    let l = spec_pin_location(PinCapability::UsbSwitch);
    if bit8(f.spec_read(l.in_addr), l.bit) {
        false
    } else {
        !bit8(f.spec_read(l.out_addr), l.bit)
    }
}

/// The logical drive a `bool`-valued operation requests.
pub open spec fn spec_level_state(level: bool) -> PinState {
    if level {
        PinState::High
    } else {
        PinState::Low
    }
}

// ---------------------------------------------------------------------
// Running one transfer of a plan against the register file.
// ---------------------------------------------------------------------

/// Performs the transfer a plan asks for (if any) on the register file and
/// feeds the result back to the plan.  A finished plan passes through
/// unchanged.
fn step_sim(regs: &mut RegFile, s: MachineStep) -> (t: MachineStep)
    requires
        s.wf(),
    ensures
        t.wf(),
        match s {
            MachineStep::Transfer(m, rop) => match rop {
                RegOp::ReadReg(a) => *final(regs) == *old(regs) && t == spec_op_next(
                    m,
                    Some(old(regs).spec_read(a)),
                ),
                RegOp::WriteReg(a, v) => *final(regs) == old(regs).spec_write(a, v) && t
                    == spec_op_next(m, None),
            },
            MachineStep::Finished(_) => *final(regs) == *old(regs) && t == s,
        },
{
    match s {
        MachineStep::Transfer(m, rop) => match rop {
            RegOp::ReadReg(a) => {
                let v = regs.read_register(a);
                op_next(m, Some(v))
            },
            RegOp::WriteReg(a, v) => {
                regs.write_register(a, v);
                op_next(m, None)
            },
        },
        MachineStep::Finished(_) => s,
    }
}

/// As [`step_sim`], for plans that only read.
fn step_probe(regs: &RegFile, s: MachineStep) -> (t: MachineStep)
    requires
        s.wf(),
        s matches MachineStep::Transfer(_, rop) ==> rop is ReadReg,
    ensures
        t.wf(),
        match s {
            MachineStep::Transfer(m, rop) => rop matches RegOp::ReadReg(a) && t == spec_op_next(
                m,
                Some(regs.spec_read(a)),
            ),
            MachineStep::Finished(_) => t == s,
        },
{
    match s {
        MachineStep::Transfer(m, rop) => match rop {
            RegOp::ReadReg(a) => {
                let v = regs.read_register(a);
                op_next(m, Some(v))
            },
            RegOp::WriteReg(_, _) => s,
        },
        MachineStep::Finished(_) => s,
    }
}

// ---------------------------------------------------------------------
// Power and revision: available on every board.
// ---------------------------------------------------------------------

/// Switches power to the attached device.  Forces the power enable's
/// Direction bit to output, then drives its Output bit so the inverting
/// switch yields the requested logical state; no other bit moves.
pub fn dev_power_ctl(regs: &mut RegFile, pwr_on: bool)
    ensures
        *final(regs) == spec_power_ctl(*old(regs), pwr_on),
{
    let mut s = op_start(None, Operation::PowerCtl(pwr_on));
    s = step_sim(regs, s);
    s = step_sim(regs, s);
    s = step_sim(regs, s);
    s = step_sim(regs, s);
}

/// True when power to the attached device is on.
pub fn is_dev_power_on(regs: &RegFile) -> (on: bool)
    ensures
        on == spec_is_power_on(*regs),
{
    let s = step_probe(regs, op_start(None, Operation::IsPowerOn));
    match s {
        MachineStep::Finished(Ok(OpOutcome::Flag(b))) => b,
        _ => unreached(),
    }
}

/// True on a power failure (most likely a short on the output).  Forces
/// the fault pin's Direction bit to input and senses the active-low fault
/// line.
pub fn is_dev_pwr_fault(regs: &mut RegFile) -> (fault: bool)
    ensures
        *final(regs) == spec_fault_sense_regs(*old(regs)),
        fault == spec_is_power_fault(*old(regs)),
{
    let mut s = op_start(None, Operation::IsPowerFault);
    s = step_sim(regs, s);
    s = step_sim(regs, s);
    s = step_sim(regs, s);
    match s {
        MachineStep::Finished(Ok(OpOutcome::Flag(b))) => b,
        _ => unreached(),
    }
}

/// The board revision of this session.  The first call senses the strap
/// pin and establishes the revision; every later call answers from the
/// session without a transfer, so repeated detections agree.
pub fn pcb_revision(session: &mut Session, regs: &RegFile) -> (r: PcbRevision)
    ensures
        r == spec_detect(old(session).rev(), *regs),
        final(session).rev() == Some(r),
{
    let s = step_probe(regs, op_start(session.revision(), Operation::DetectRevision));
    match s {
        MachineStep::Finished(Ok(OpOutcome::Revision(r))) => {
            session.note_revision(r);
            r
        },
        _ => unreached(),
    }
}

// ---------------------------------------------------------------------
// The USB data-path switch: RevC only.
// ---------------------------------------------------------------------

/// Configures the data-path switch line as output.
pub fn usb_switch_configure(session: &Session, regs: &mut RegFile) -> (r: Result<(), HalError>)
    ensures
        session.rev() == Some(PcbRevision::RevC) ==> r == Ok::<(), HalError>(()) && *final(regs)
            == spec_usb_switch_configure_regs(*old(regs)),
        session.rev() != Some(PcbRevision::RevC) ==> r == Err::<(), HalError>(
            HalError::UnsupportedOnRevision,
        ) && *final(regs) == *old(regs),
{
    let mut s = op_start(session.revision(), Operation::UsbSwitchConfigure);
    s = step_sim(regs, s);
    s = step_sim(regs, s);
    match s {
        MachineStep::Finished(res) => match res {
            Ok(_) => Ok(()),
            Err(e) => Err(e),
        },
        _ => unreached(),
    }
}

/// Connects or disconnects the USB data path.  Guarded: when the switch
/// line is not configured as output, nothing is written and `ModeMismatch`
/// is reported.
pub fn usb_switch_set(session: &Session, regs: &mut RegFile, is_connected: bool) -> (r: Result<
    (),
    HalError,
>)
    ensures
        session.rev() == Some(PcbRevision::RevC) ==> *final(regs) == spec_set_pin_regs(
            *old(regs),
            PinCapability::UsbSwitch,
            spec_level_state(is_connected),
        ) && r == spec_set_pin_result(*old(regs), PinCapability::UsbSwitch),
        session.rev() != Some(PcbRevision::RevC) ==> r == Err::<(), HalError>(
            HalError::UnsupportedOnRevision,
        ) && *final(regs) == *old(regs),
{
    let mut s = op_start(session.revision(), Operation::UsbSwitchSet(is_connected));
    s = step_sim(regs, s);
    s = step_sim(regs, s);
    s = step_sim(regs, s);
    match s {
        MachineStep::Finished(res) => match res {
            Ok(_) => Ok(()),
            Err(e) => Err(e),
        },
        _ => unreached(),
    }
}

/// Whether the USB data path is connected.
pub fn usb_switch_is_connected(session: &Session, regs: &RegFile) -> (r: Result<bool, HalError>)
    ensures
        session.rev() == Some(PcbRevision::RevC) ==> r == Ok::<bool, HalError>(
            spec_usb_switch_connected(*regs),
        ),
        session.rev() != Some(PcbRevision::RevC) ==> r == Err::<bool, HalError>(
            HalError::UnsupportedOnRevision,
        ),
{
    let mut s = op_start(session.revision(), Operation::UsbSwitchIsConnected);
    s = step_probe(regs, s);
    s = step_probe(regs, s);
    match s {
        MachineStep::Finished(res) => match res {
            Ok(OpOutcome::Flag(b)) => Ok(b),
            Err(e) => Err(e),
            Ok(_) => unreached(),
        },
        _ => unreached(),
    }
}

// ---------------------------------------------------------------------
// Header pins: RevC only.
// ---------------------------------------------------------------------

/// Configures a header pin as input or output.
pub fn gpio_header_set_mode(
    session: &Session,
    regs: &mut RegFile,
    pin: HeaderPin,
    mode: PinMode,
) -> (r: Result<(), HalError>)
    ensures
        session.rev() == Some(PcbRevision::RevC) ==> r == Ok::<(), HalError>(()) && *final(regs)
            == spec_set_mode_regs(*old(regs), PinCapability::Header(pin), mode),
        session.rev() != Some(PcbRevision::RevC) ==> r == Err::<(), HalError>(
            HalError::UnsupportedOnRevision,
        ) && *final(regs) == *old(regs),
{
    let mut s = op_start(session.revision(), Operation::HeaderSetMode(pin, mode));
    s = step_sim(regs, s);
    s = step_sim(regs, s);
    match s {
        MachineStep::Finished(res) => match res {
            Ok(_) => Ok(()),
            Err(e) => Err(e),
        },
        _ => unreached(),
    }
}

/// Reads a header pin's configured mode from the Direction register.
pub fn gpio_header_get_mode(session: &Session, regs: &RegFile, pin: HeaderPin) -> (r: Result<
    PinMode,
    HalError,
>)
    ensures
        session.rev() == Some(PcbRevision::RevC) ==> r == Ok::<PinMode, HalError>(
            spec_pin_mode(*regs, PinCapability::Header(pin)),
        ),
        session.rev() != Some(PcbRevision::RevC) ==> r == Err::<PinMode, HalError>(
            HalError::UnsupportedOnRevision,
        ),
{
    let s = step_probe(regs, op_start(session.revision(), Operation::HeaderGetMode(pin)));
    match s {
        MachineStep::Finished(res) => match res {
            Ok(OpOutcome::Mode(m)) => Ok(m),
            Err(e) => Err(e),
            Ok(_) => unreached(),
        },
        _ => unreached(),
    }
}

/// Drives a header pin, guarded by its current mode: a pin in input mode
/// is left untouched and `ModeMismatch` is reported.
pub fn gpio_header_set(
    session: &Session,
    regs: &mut RegFile,
    pin: HeaderPin,
    state: PinState,
) -> (r: Result<(), HalError>)
    ensures
        session.rev() == Some(PcbRevision::RevC) ==> *final(regs) == spec_set_pin_regs(
            *old(regs),
            PinCapability::Header(pin),
            state,
        ) && r == spec_set_pin_result(*old(regs), PinCapability::Header(pin)),
        session.rev() != Some(PcbRevision::RevC) ==> r == Err::<(), HalError>(
            HalError::UnsupportedOnRevision,
        ) && *final(regs) == *old(regs),
{
    let mut s = op_start(session.revision(), Operation::HeaderSet(pin, state));
    s = step_sim(regs, s);
    s = step_sim(regs, s);
    s = step_sim(regs, s);
    match s {
        MachineStep::Finished(res) => match res {
            Ok(_) => Ok(()),
            Err(e) => Err(e),
        },
        _ => unreached(),
    }
}

/// Reads a header pin's logical state, from the Output register while it
/// drives and from the Input register while it senses.
pub fn gpio_header_get(session: &Session, regs: &RegFile, pin: HeaderPin) -> (r: Result<
    PinState,
    HalError,
>)
    ensures
        session.rev() == Some(PcbRevision::RevC) ==> r == Ok::<PinState, HalError>(
            spec_pin_state(*regs, PinCapability::Header(pin)),
        ),
        session.rev() != Some(PcbRevision::RevC) ==> r == Err::<PinState, HalError>(
            HalError::UnsupportedOnRevision,
        ),
{
    let mut s = op_start(session.revision(), Operation::HeaderGet(pin));
    s = step_probe(regs, s);
    s = step_probe(regs, s);
    match s {
        MachineStep::Finished(res) => match res {
            Ok(OpOutcome::State(st)) => Ok(st),
            Err(e) => Err(e),
            Ok(_) => unreached(),
        },
        _ => unreached(),
    }
}

// ---------------------------------------------------------------------
// Forced-mode lines: RevC only.
// ---------------------------------------------------------------------

/// Configures a forced-mode line as input or output.
pub fn slg_io_set_mode(session: &Session, regs: &mut RegFile, pin: SlgPin, mode: PinMode) -> (r:
    Result<(), HalError>)
    ensures
        session.rev() == Some(PcbRevision::RevC) ==> r == Ok::<(), HalError>(()) && *final(regs)
            == spec_set_mode_regs(*old(regs), PinCapability::ForceMode(pin), mode),
        session.rev() != Some(PcbRevision::RevC) ==> r == Err::<(), HalError>(
            HalError::UnsupportedOnRevision,
        ) && *final(regs) == *old(regs),
{
    let mut s = op_start(session.revision(), Operation::SlgSetMode(pin, mode));
    s = step_sim(regs, s);
    s = step_sim(regs, s);
    match s {
        MachineStep::Finished(res) => match res {
            Ok(_) => Ok(()),
            Err(e) => Err(e),
        },
        _ => unreached(),
    }
}

/// Reads a forced-mode line's configured mode.
pub fn slg_io_get_mode(session: &Session, regs: &RegFile, pin: SlgPin) -> (r: Result<
    PinMode,
    HalError,
>)
    ensures
        session.rev() == Some(PcbRevision::RevC) ==> r == Ok::<PinMode, HalError>(
            spec_pin_mode(*regs, PinCapability::ForceMode(pin)),
        ),
        session.rev() != Some(PcbRevision::RevC) ==> r == Err::<PinMode, HalError>(
            HalError::UnsupportedOnRevision,
        ),
{
    let s = step_probe(regs, op_start(session.revision(), Operation::SlgGetMode(pin)));
    match s {
        MachineStep::Finished(res) => match res {
            Ok(OpOutcome::Mode(m)) => Ok(m),
            Err(e) => Err(e),
            Ok(_) => unreached(),
        },
        _ => unreached(),
    }
}

/// Drives a forced-mode line, guarded by its current mode.
pub fn slg_io_set(session: &Session, regs: &mut RegFile, pin: SlgPin, state: PinState) -> (r:
    Result<(), HalError>)
    ensures
        session.rev() == Some(PcbRevision::RevC) ==> *final(regs) == spec_set_pin_regs(
            *old(regs),
            PinCapability::ForceMode(pin),
            state,
        ) && r == spec_set_pin_result(*old(regs), PinCapability::ForceMode(pin)),
        session.rev() != Some(PcbRevision::RevC) ==> r == Err::<(), HalError>(
            HalError::UnsupportedOnRevision,
        ) && *final(regs) == *old(regs),
{
    let mut s = op_start(session.revision(), Operation::SlgSet(pin, state));
    s = step_sim(regs, s);
    s = step_sim(regs, s);
    s = step_sim(regs, s);
    match s {
        MachineStep::Finished(res) => match res {
            Ok(_) => Ok(()),
            Err(e) => Err(e),
        },
        _ => unreached(),
    }
}

/// Reads a forced-mode line's logical state.
pub fn slg_io_get(session: &Session, regs: &RegFile, pin: SlgPin) -> (r: Result<
    PinState,
    HalError,
>)
    ensures
        session.rev() == Some(PcbRevision::RevC) ==> r == Ok::<PinState, HalError>(
            spec_pin_state(*regs, PinCapability::ForceMode(pin)),
        ),
        session.rev() != Some(PcbRevision::RevC) ==> r == Err::<PinState, HalError>(
            HalError::UnsupportedOnRevision,
        ),
{
    let mut s = op_start(session.revision(), Operation::SlgGet(pin));
    s = step_probe(regs, s);
    s = step_probe(regs, s);
    match s {
        MachineStep::Finished(res) => match res {
            Ok(OpOutcome::State(st)) => Ok(st),
            Err(e) => Err(e),
            Ok(_) => unreached(),
        },
        _ => unreached(),
    }
}

// ---------------------------------------------------------------------
// Laws relating the operations.
// ---------------------------------------------------------------------

/// Powering the device on and reading the state back round-trips: after
/// `spec_power_ctl(f, on)` the power reads back as `on`, from any starting
/// registers.  The power pin's mapping does not depend on the revision, so
/// this holds on every board.
pub proof fn lemma_power_round_trip(f: RegFile, pwr_on: bool)
    ensures
        spec_is_power_on(spec_power_ctl(f, pwr_on)) == pwr_on,
{
    let l = spec_pin_location(PinCapability::PowerEnable);
    let f1 = f.spec_write(l.dir_addr, spec_bit_with(f.spec_read(l.dir_addr), l.bit, true));
    lemma_bit_with(f1.spec_read(l.out_addr), l.bit, spec_physical_level(pwr_on, l.active_low));
}

/// Detection is stable: once a first detection has established a revision,
/// a later detection returns the same value whatever the registers then
/// hold.
pub proof fn lemma_detect_stable(established: Option<PcbRevision>, f1: RegFile, f2: RegFile)
    ensures
        spec_detect(Some(spec_detect(established, f1)), f2) == spec_detect(established, f1),
{
}

/// A drive on a pin whose mode is input moves no register at all and is
/// reported as `ModeMismatch`.
pub proof fn lemma_mode_guard(f: RegFile, cap: PinCapability, state: PinState)
    requires
        spec_pin_mode(f, cap) is Input,
    ensures
        spec_set_pin_regs(f, cap, state) == f,
        spec_set_pin_result(f, cap) == Err::<(), HalError>(HalError::ModeMismatch),
{
}

/// Driving a pin and reading it back round-trips: on a pin configured as
/// output, a guarded drive to `state` makes the polarity-corrected read
/// report `state` again, whatever the capability's declared polarity and
/// whatever the other registers hold.
pub proof fn lemma_pin_round_trip(f: RegFile, cap: PinCapability, state: PinState)
    requires
        spec_pin_mode(f, cap) is Output,
    ensures
        spec_pin_state(spec_set_pin_regs(f, cap, state), cap) == state,
{
    let l = spec_pin_location(cap);
    crate::regmap::lemma_pin_map_wf(cap);
    lemma_bit_with(
        f.spec_read(l.out_addr),
        l.bit,
        spec_physical_level(state is High, l.active_low),
    );
}

/// The power enable is inverting: powering on drives the underlying
/// Output bit to 0.
pub proof fn lemma_power_polarity(f: RegFile)
    ensures
        !bit8(
            spec_power_ctl(f, true).spec_read(
                spec_pin_location(PinCapability::PowerEnable).out_addr,
            ),
            spec_pin_location(PinCapability::PowerEnable).bit,
        ),
{
    let l = spec_pin_location(PinCapability::PowerEnable);
    let f1 = f.spec_write(l.dir_addr, spec_bit_with(f.spec_read(l.dir_addr), l.bit, true));
    lemma_bit_with(f1.spec_read(l.out_addr), l.bit, spec_physical_level(true, l.active_low));
}

/// The data-path switch enable is inverting too: connecting drives the
/// underlying Output bit to 0 (on a pin configured as output; in input
/// mode the guard forbids any write).
pub proof fn lemma_usb_switch_polarity(f: RegFile)
    requires
        spec_pin_mode(f, PinCapability::UsbSwitch) is Output,
    ensures
        !bit8(
            spec_set_pin_regs(f, PinCapability::UsbSwitch, PinState::High).spec_read(
                spec_pin_location(PinCapability::UsbSwitch).out_addr,
            ),
            spec_pin_location(PinCapability::UsbSwitch).bit,
        ),
{
    let l = spec_pin_location(PinCapability::UsbSwitch);
    lemma_bit_with(f.spec_read(l.out_addr), l.bit, spec_physical_level(true, l.active_low));
}

} // verus!
