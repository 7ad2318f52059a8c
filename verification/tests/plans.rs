//! Drives the operation plans the way a transport front end would, and
//! checks the exact transfer sequences they request.

use mchp_gpio_ctl::machine::{
    op_next, op_start, MachineStep, OpOutcome, Operation, RegOp,
};
use mchp_gpio_ctl::pins::{HalError, HeaderPin, PcbRevision, PinState};
use mchp_gpio_ctl::regmap::{
    GPIO0_7_DIR, GPIO0_7_OUT, GPIO17_20_DIR, GPIO8_10_IN,
};

/// Runs a plan against a tiny address -> value table, recording every
/// transfer performed.
fn run(
    rev: Option<PcbRevision>,
    op: Operation,
    regs: &mut Vec<(u16, u8)>,
) -> (Result<OpOutcome, HalError>, Vec<RegOp>) {
    let mut log: Vec<RegOp> = Vec::new();
    let mut step = op_start(rev, op);
    loop {
        match step {
            MachineStep::Transfer(m, rop) => {
                log.push(rop);
                match rop {
                    RegOp::ReadReg(addr) => {
                        let v = regs
                            .iter()
                            .find(|e| e.0 == addr)
                            .map(|e| e.1)
                            .unwrap_or(0);
                        step = op_next(m, Some(v));
                    }
                    RegOp::WriteReg(addr, v) => {
                        if let Some(entry) = regs.iter_mut().find(|e| e.0 == addr) {
                            entry.1 = v;
                        } else {
                            regs.push((addr, v));
                        }
                        step = op_next(m, None);
                    }
                }
            }
            MachineStep::Finished(r) => return (r, log),
        }
    }
}

#[test]
fn power_ctl_requests_the_exact_transfer_sequence() {
    let mut regs: Vec<(u16, u8)> = Vec::new();
    let (r, log) = run(None, Operation::PowerCtl(true), &mut regs);
    assert_eq!(r, Ok(OpOutcome::Done));
    assert_eq!(
        log,
        vec![
            RegOp::ReadReg(GPIO0_7_DIR),
            RegOp::WriteReg(GPIO0_7_DIR, 0x01),
            RegOp::ReadReg(GPIO0_7_OUT),
            // Power on drives the inverting enable low: bit 0 stays 0.
            RegOp::WriteReg(GPIO0_7_OUT, 0x00),
        ]
    );
}

#[test]
fn guarded_set_on_input_pin_issues_zero_writes() {
    let mut regs: Vec<(u16, u8)> = vec![(GPIO17_20_DIR, 0x00)];
    let (r, log) = run(
        Some(PcbRevision::RevC),
        Operation::HeaderSet(HeaderPin::P0, PinState::High),
        &mut regs,
    );
    assert_eq!(r, Err(HalError::ModeMismatch));
    // Only the guard's read of the Direction register happened.
    assert_eq!(log, vec![RegOp::ReadReg(GPIO17_20_DIR)]);
}

#[test]
fn gated_op_on_revab_issues_zero_transfers() {
    let mut regs: Vec<(u16, u8)> = Vec::new();
    let (r, log) = run(
        Some(PcbRevision::RevAorB),
        Operation::UsbSwitchSet(true),
        &mut regs,
    );
    assert_eq!(r, Err(HalError::UnsupportedOnRevision));
    assert!(log.is_empty());
    assert!(regs.is_empty());
}

#[test]
fn cached_detection_issues_zero_transfers() {
    let mut regs: Vec<(u16, u8)> = Vec::new();
    let (r, log) = run(Some(PcbRevision::RevC), Operation::DetectRevision, &mut regs);
    assert_eq!(r, Ok(OpOutcome::Revision(PcbRevision::RevC)));
    assert!(log.is_empty());
}

#[test]
fn fresh_detection_reads_the_strap_register_once() {
    let mut regs: Vec<(u16, u8)> = vec![(GPIO8_10_IN, 0x02)];
    let (r, log) = run(None, Operation::DetectRevision, &mut regs);
    assert_eq!(r, Ok(OpOutcome::Revision(PcbRevision::RevC)));
    assert_eq!(log, vec![RegOp::ReadReg(GPIO8_10_IN)]);
}
