//! An addressable register file covering the mapped banks.
//!
//! It serves two roles: the mathematical model that every operation's
//! contract is stated against, and an executable simulated transport that
//! the operation plans run against directly, e.g. in tests.
//!
//! `modify_register` is the read-modify-write primitive of the register
//! layer.  It performs no locking: if two independent operators address
//! the same device concurrently, a read-modify-write race can silently
//! drop the other operator's change to unrelated bits of a shared
//! register.  That is an accepted limitation of this single-operator tool;
//! a session is meant to hold the one exclusive borrow of the channel.

use vstd::prelude::*;

use crate::bits::{bit8, bit_with, spec_bit_with};
use crate::regmap::{
    is_mapped_addr, GPIO0_7_DIR, GPIO0_7_IN, GPIO0_7_OUT, GPIO17_20_DIR, GPIO17_20_IN,
    GPIO17_20_OUT, GPIO8_10_DIR, GPIO8_10_IN, GPIO8_10_OUT,
};

verus! {

/// The nine 8-bit registers of the three mapped GPIO banks.
#[derive(Copy, Clone, Debug, PartialEq, Eq, Structural)]
pub struct RegFile {
    pub gpio0_7_dir: u8,
    pub gpio0_7_out: u8,
    pub gpio0_7_in: u8,
    pub gpio8_10_dir: u8,
    pub gpio8_10_out: u8,
    pub gpio8_10_in: u8,
    pub gpio17_20_dir: u8,
    pub gpio17_20_out: u8,
    pub gpio17_20_in: u8,
}

impl RegFile {
    /// A register file with every register at zero.
    pub fn zeroed() -> (r: RegFile)
        ensures
            forall|a: u16| is_mapped_addr(a) ==> r.spec_read(a) == 0u8,
    {
        RegFile {
            gpio0_7_dir: 0,
            gpio0_7_out: 0,
            gpio0_7_in: 0,
            gpio8_10_dir: 0,
            gpio8_10_out: 0,
            gpio8_10_in: 0,
            gpio17_20_dir: 0,
            gpio17_20_out: 0,
            gpio17_20_in: 0,
        }
    }

    /// The value held at a mapped address (zero off the map, which no
    /// operation ever addresses).
    pub open spec fn spec_read(self, addr: u16) -> u8 {
        if addr == GPIO0_7_DIR {
            self.gpio0_7_dir
        } else if addr == GPIO0_7_OUT {
            self.gpio0_7_out
        } else if addr == GPIO0_7_IN {
            self.gpio0_7_in
        } else if addr == GPIO8_10_DIR {
            self.gpio8_10_dir
        } else if addr == GPIO8_10_OUT {
            self.gpio8_10_out
        } else if addr == GPIO8_10_IN {
            self.gpio8_10_in
        } else if addr == GPIO17_20_DIR {
            self.gpio17_20_dir
        } else if addr == GPIO17_20_OUT {
            self.gpio17_20_out
        } else if addr == GPIO17_20_IN {
            self.gpio17_20_in
        } else {
            0u8
        }
    }

    /// The file after one register is replaced.
    pub open spec fn spec_write(self, addr: u16, v: u8) -> RegFile {
        if addr == GPIO0_7_DIR {
            RegFile { gpio0_7_dir: v, ..self }
        } else if addr == GPIO0_7_OUT {
            RegFile { gpio0_7_out: v, ..self }
        } else if addr == GPIO0_7_IN {
            RegFile { gpio0_7_in: v, ..self }
        } else if addr == GPIO8_10_DIR {
            RegFile { gpio8_10_dir: v, ..self }
        } else if addr == GPIO8_10_OUT {
            RegFile { gpio8_10_out: v, ..self }
        } else if addr == GPIO8_10_IN {
            RegFile { gpio8_10_in: v, ..self }
        } else if addr == GPIO17_20_DIR {
            RegFile { gpio17_20_dir: v, ..self }
        } else if addr == GPIO17_20_OUT {
            RegFile { gpio17_20_out: v, ..self }
        } else if addr == GPIO17_20_IN {
            RegFile { gpio17_20_in: v, ..self }
        } else {
            self
        }
    }

    /// Reads one register.
    pub fn read_register(&self, addr: u16) -> (v: u8)
        requires
            is_mapped_addr(addr),
        ensures
            v == self.spec_read(addr),
    {
        if addr == GPIO0_7_DIR {
            self.gpio0_7_dir
        } else if addr == GPIO0_7_OUT {
            self.gpio0_7_out
        } else if addr == GPIO0_7_IN {
            self.gpio0_7_in
        } else if addr == GPIO8_10_DIR {
            self.gpio8_10_dir
        } else if addr == GPIO8_10_OUT {
            self.gpio8_10_out
        } else if addr == GPIO8_10_IN {
            self.gpio8_10_in
        } else if addr == GPIO17_20_DIR {
            self.gpio17_20_dir
        } else if addr == GPIO17_20_OUT {
            self.gpio17_20_out
        } else {
            self.gpio17_20_in
        }
    }

    /// Writes one register, leaving every other register unchanged.
    pub fn write_register(&mut self, addr: u16, v: u8)
        requires
            is_mapped_addr(addr),
        ensures
            *final(self) == old(self).spec_write(addr, v),
            final(self).spec_read(addr) == v,
            forall|a: u16|
                is_mapped_addr(a) && a != addr ==> final(self).spec_read(a) == old(
                    self,
                ).spec_read(a),
    {
        if addr == GPIO0_7_DIR {
            self.gpio0_7_dir = v;
        } else if addr == GPIO0_7_OUT {
            self.gpio0_7_out = v;
        } else if addr == GPIO0_7_IN {
            self.gpio0_7_in = v;
        } else if addr == GPIO8_10_DIR {
            self.gpio8_10_dir = v;
        } else if addr == GPIO8_10_OUT {
            self.gpio8_10_out = v;
        } else if addr == GPIO8_10_IN {
            self.gpio8_10_in = v;
        } else if addr == GPIO17_20_DIR {
            self.gpio17_20_dir = v;
        } else if addr == GPIO17_20_OUT {
            self.gpio17_20_out = v;
        } else {
            self.gpio17_20_in = v;
        }
    }

    /// Read-modify-write of a single bit: the targeted bit is forced to
    /// `on`, every bit outside the targeted field keeps its value, and so
    /// does every other register.
    pub fn modify_register(&mut self, addr: u16, bit: u8, on: bool)
        requires
            is_mapped_addr(addr),
            bit < 8,
        ensures
            *final(self) == old(self).spec_write(
                addr,
                spec_bit_with(old(self).spec_read(addr), bit, on),
            ),
            bit8(final(self).spec_read(addr), bit) == on,
            forall|j: u8|
                j < 8 && j != bit ==> bit8(final(self).spec_read(addr), j) == bit8(
                    old(self).spec_read(addr),
                    j,
                ),
            forall|a: u16|
                is_mapped_addr(a) && a != addr ==> final(self).spec_read(a) == old(
                    self,
                ).spec_read(a),
    {
        let v = self.read_register(addr);
        self.write_register(addr, bit_with(v, bit, on));
    }
}

} // verus!
