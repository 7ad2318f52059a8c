//! Chip memory map and the revision-keyed pin capability table.
//!
//! Each GPIO bank of the companion chip owns a Direction register (bit = 1
//! enables output), an Output register (the driven level while the
//! direction is output) and an Input register (the sensed level).  The
//! addresses and bit positions below transcribe the chip datasheet for the
//! banks this tool uses; they are fixed and never computed at runtime.

use vstd::prelude::*;

use crate::pins::{HeaderPin, PcbRevision, SlgPin};

verus! {

// Bank PIO 0..=7.
pub const GPIO0_7_DIR: u16 = 0x0830;
pub const GPIO0_7_OUT: u16 = 0x0834;
pub const GPIO0_7_IN: u16 = 0x0838;

// Bank PIO 8..=10.
pub const GPIO8_10_DIR: u16 = 0x0831;
pub const GPIO8_10_OUT: u16 = 0x0835;
pub const GPIO8_10_IN: u16 = 0x0839;

// Bank PIO 17..=20.
pub const GPIO17_20_DIR: u16 = 0x0832;
pub const GPIO17_20_OUT: u16 = 0x0836;
pub const GPIO17_20_IN: u16 = 0x083A;

/// The strap pin whose level at power-up encodes the board revision:
/// PIO 9, read through the bank 8..=10 Input register.  A high level means
/// the RevC capability set, a low level the RevA/RevB set.
pub const REVISION_SENSE_BIT: u8 = 1;

/// True for the register addresses this tool's chip variant exposes.
pub open spec fn is_mapped_addr(a: u16) -> bool {
    ||| a == GPIO0_7_DIR
    ||| a == GPIO0_7_OUT
    ||| a == GPIO0_7_IN
    ||| a == GPIO8_10_DIR
    ||| a == GPIO8_10_OUT
    ||| a == GPIO8_10_IN
    ||| a == GPIO17_20_DIR
    ||| a == GPIO17_20_OUT
    ||| a == GPIO17_20_IN
}

/// Semantic role a pin can play.  Each role maps to exactly one
/// (register, bit, polarity) triple per board revision.
#[derive(Copy, Clone, Debug, PartialEq, Eq, Structural)]
pub enum PinCapability {
    /// Enable line of the switch powering the attached device.
    PowerEnable,
    /// Fault sense of that power switch.
    PowerFault,
    /// Enable line of the USB data-path switch.
    UsbSwitch,
    /// Forced-mode signalling line.
    ForceMode(SlgPin),
    /// Generic header pin.
    Header(HeaderPin),
}

/// Where a capability lives in the register map, and with which polarity.
/// `active_low` records the declared sense of the signal: when true, the
/// asserted (logical-true) state corresponds to a physical 0 bit.
#[derive(Copy, Clone, Debug, PartialEq, Eq, Structural)]
pub struct PinLocation {
    pub dir_addr: u16,
    pub out_addr: u16,
    pub in_addr: u16,
    pub bit: u8,
    pub active_low: bool,
}

impl PinLocation {
    /// The three registers belong to one bank of the map, and the bit
    /// position fits an 8-bit register.
    pub open spec fn wf(self) -> bool {
        &&& self.bit < 8
        &&& {
            ||| (self.dir_addr == GPIO0_7_DIR && self.out_addr == GPIO0_7_OUT
                && self.in_addr == GPIO0_7_IN)
            ||| (self.dir_addr == GPIO8_10_DIR && self.out_addr == GPIO8_10_OUT
                && self.in_addr == GPIO8_10_IN)
            ||| (self.dir_addr == GPIO17_20_DIR && self.out_addr == GPIO17_20_OUT
                && self.in_addr == GPIO17_20_IN)
        }
    }
}

/// The physical bit that drives or senses a logical level: an active-low
/// signal asserts with a 0 bit.
pub open spec fn spec_physical_level(logical: bool, active_low: bool) -> bool {
    logical != active_low
}

/// Exec twin of [`spec_physical_level`].
pub fn physical_level(logical: bool, active_low: bool) -> (b: bool)
    ensures
        b == spec_physical_level(logical, active_low),
{
    logical != active_low
}

/// The fixed pin map of this tool variant, ignoring revision gating:
/// which registers and bit a capability occupies, and its polarity.
///
/// PIO 0 carries the (inverting) device power switch enable, PIO 10 the
/// (active-low) power fault sense; from RevC on, PIO 1 drives the
/// (inverting) USB data-path switch, PIO 8 and PIO 3 the two forced-mode
/// lines, and PIO 19 / PIO 20 the two header pins.
pub open spec fn spec_pin_location(cap: PinCapability) -> PinLocation {
    match cap {
        PinCapability::PowerEnable => PinLocation {
            dir_addr: GPIO0_7_DIR,
            out_addr: GPIO0_7_OUT,
            in_addr: GPIO0_7_IN,
            bit: 0,
            active_low: true,
        },
        PinCapability::PowerFault => PinLocation {
            dir_addr: GPIO8_10_DIR,
            out_addr: GPIO8_10_OUT,
            in_addr: GPIO8_10_IN,
            bit: 2,
            active_low: true,
        },
        PinCapability::UsbSwitch => PinLocation {
            dir_addr: GPIO0_7_DIR,
            out_addr: GPIO0_7_OUT,
            in_addr: GPIO0_7_IN,
            bit: 1,
            active_low: true,
        },
        PinCapability::ForceMode(SlgPin::SlgIo0) => PinLocation {
            dir_addr: GPIO8_10_DIR,
            out_addr: GPIO8_10_OUT,
            in_addr: GPIO8_10_IN,
            bit: 0,
            active_low: false,
        },
        PinCapability::ForceMode(SlgPin::SlgIo1) => PinLocation {
            dir_addr: GPIO0_7_DIR,
            out_addr: GPIO0_7_OUT,
            in_addr: GPIO0_7_IN,
            bit: 3,
            active_low: false,
        },
        PinCapability::Header(HeaderPin::P0) => PinLocation {
            dir_addr: GPIO17_20_DIR,
            out_addr: GPIO17_20_OUT,
            in_addr: GPIO17_20_IN,
            bit: 2,
            active_low: false,
        },
        PinCapability::Header(HeaderPin::P1) => PinLocation {
            dir_addr: GPIO17_20_DIR,
            out_addr: GPIO17_20_OUT,
            in_addr: GPIO17_20_IN,
            bit: 3,
            active_low: false,
        },
    }
}

/// Which capabilities a board revision legally exposes.  On RevA/RevB
/// boards the RevC-only registers and bits exist but are wired to
/// unrelated signals, so a transfer there would silently disturb other
/// hardware state; those capabilities are refused before any transfer.
pub open spec fn spec_capability_supported(rev: PcbRevision, cap: PinCapability) -> bool {
    match cap {
        PinCapability::PowerEnable => true,
        PinCapability::PowerFault => true,
        PinCapability::UsbSwitch => rev is RevC,
        PinCapability::ForceMode(_) => rev is RevC,
        PinCapability::Header(_) => rev is RevC,
    }
}

/// Exec twin of [`spec_pin_location`].
pub fn pin_location(cap: PinCapability) -> (l: PinLocation)
    ensures
        l == spec_pin_location(cap),
{
    match cap {
        PinCapability::PowerEnable => PinLocation {
            dir_addr: GPIO0_7_DIR,
            out_addr: GPIO0_7_OUT,
            in_addr: GPIO0_7_IN,
            bit: 0,
            active_low: true,
        },
        PinCapability::PowerFault => PinLocation {
            dir_addr: GPIO8_10_DIR,
            out_addr: GPIO8_10_OUT,
            in_addr: GPIO8_10_IN,
            bit: 2,
            active_low: true,
        },
        PinCapability::UsbSwitch => PinLocation {
            dir_addr: GPIO0_7_DIR,
            out_addr: GPIO0_7_OUT,
            in_addr: GPIO0_7_IN,
            bit: 1,
            active_low: true,
        },
        PinCapability::ForceMode(SlgPin::SlgIo0) => PinLocation {
            dir_addr: GPIO8_10_DIR,
            out_addr: GPIO8_10_OUT,
            in_addr: GPIO8_10_IN,
            bit: 0,
            active_low: false,
        },
        PinCapability::ForceMode(SlgPin::SlgIo1) => PinLocation {
            dir_addr: GPIO0_7_DIR,
            out_addr: GPIO0_7_OUT,
            in_addr: GPIO0_7_IN,
            bit: 3,
            active_low: false,
        },
        PinCapability::Header(HeaderPin::P0) => PinLocation {
            dir_addr: GPIO17_20_DIR,
            out_addr: GPIO17_20_OUT,
            in_addr: GPIO17_20_IN,
            bit: 2,
            active_low: false,
        },
        PinCapability::Header(HeaderPin::P1) => PinLocation {
            dir_addr: GPIO17_20_DIR,
            out_addr: GPIO17_20_OUT,
            in_addr: GPIO17_20_IN,
            bit: 3,
            active_low: false,
        },
    }
}

/// Exec twin of [`spec_capability_supported`].
pub fn capability_supported(rev: PcbRevision, cap: PinCapability) -> (b: bool)
    ensures
        b == spec_capability_supported(rev, cap),
{
    match cap {
        PinCapability::PowerEnable => true,
        PinCapability::PowerFault => true,
        PinCapability::UsbSwitch => matches!(rev, PcbRevision::RevC),
        PinCapability::ForceMode(_) => matches!(rev, PcbRevision::RevC),
        PinCapability::Header(_) => matches!(rev, PcbRevision::RevC),
    }
}

/// The revision-keyed capability table of the design: the location of a
/// capability on a given board revision, or nothing where the revision
/// does not expose it.
pub open spec fn spec_capability_map(rev: PcbRevision, cap: PinCapability) -> Option<
    PinLocation,
> {
    if spec_capability_supported(rev, cap) {
        Some(spec_pin_location(cap))
    } else {
        None
    }
}

/// Exec twin of [`spec_capability_map`].
pub fn capability_map(rev: PcbRevision, cap: PinCapability) -> (r: Option<PinLocation>)
    ensures
        r == spec_capability_map(rev, cap),
{
    if capability_supported(rev, cap) {
        Some(pin_location(cap))
    } else {
        None
    }
}

/// Every entry of the pin map is well formed: its registers form one bank
/// of the memory map and its bit position fits the register width.
pub proof fn lemma_pin_map_wf(cap: PinCapability)
    ensures
        spec_pin_location(cap).wf(),
{
}

/// The map's bitfields do not overlap: two distinct capabilities never
/// share an output register bit, so driving one can never disturb another.
pub proof fn lemma_pin_map_disjoint(c1: PinCapability, c2: PinCapability)
    requires
        c1 != c2,
    ensures
        !(spec_pin_location(c1).out_addr == spec_pin_location(c2).out_addr
            && spec_pin_location(c1).bit == spec_pin_location(c2).bit),
{
}

} // verus!
