//! The command/response envelope of the transport.
//!
//! Registers are reached over vendor-class control exchanges with two
//! request codes, register-read and register-write.  The 16-bit register
//! address travels in the request's value field, no index parameter is
//! used, and the payload is the register value itself: one byte for the
//! 8-bit register kind, four bytes big-endian for the 32-bit kind.  The
//! two kinds share this one envelope and differ only in payload length.

use vstd::prelude::*;

use crate::machine::RegOp;

verus! {

/// Vendor request code of a register read.
pub const REQUEST_REGISTER_READ: u8 = 0x04;

/// Vendor request code of a register write.
pub const REQUEST_REGISTER_WRITE: u8 = 0x03;

/// Every transfer is bounded by this timeout; on expiry the operation
/// aborts with the hardware as of the last completed transfer.
pub const TRANSFER_TIMEOUT_MS: u64 = 500;

/// The two register widths that exist across tool variants.
#[derive(Copy, Clone, Debug, PartialEq, Eq, Structural)]
pub enum RegWidth {
    Byte,
    Quad,
}

/// The setup fields of one control exchange.
#[derive(Copy, Clone, Debug, PartialEq, Eq, Structural)]
pub struct ControlRequest {
    pub request_code: u8,
    pub value: u16,
    pub index: u16,
    pub length: u16,
}

/// Payload length of a register of the given width.
pub open spec fn spec_payload_len(width: RegWidth) -> u16 {
    match width {
        RegWidth::Byte => 1,
        RegWidth::Quad => 4,
    }
}

/// The setup fields that read the register at `addr`.
pub fn read_request(addr: u16, width: RegWidth) -> (r: ControlRequest)
    ensures
        r.request_code == REQUEST_REGISTER_READ,
        r.value == addr,
        r.index == 0,
        r.length == spec_payload_len(width),
{
    ControlRequest {
        request_code: REQUEST_REGISTER_READ,
        value: addr,
        index: 0,
        length: match width {
            RegWidth::Byte => 1,
            RegWidth::Quad => 4,
        },
    }
}

/// The setup fields that write the register at `addr`.
pub fn write_request(addr: u16, width: RegWidth) -> (r: ControlRequest)
    ensures
        r.request_code == REQUEST_REGISTER_WRITE,
        r.value == addr,
        r.index == 0,
        r.length == spec_payload_len(width),
{
    ControlRequest {
        request_code: REQUEST_REGISTER_WRITE,
        value: addr,
        index: 0,
        length: match width {
            RegWidth::Byte => 1,
            RegWidth::Quad => 4,
        },
    }
}

/// Payload of an 8-bit register value.
pub fn encode_reg8(v: u8) -> (b: Vec<u8>)
    ensures
        b@ == seq![v],
{
    let mut b: Vec<u8> = Vec::new();
    b.push(v);
    proof {
        assert(b@ =~= seq![v]);
    }
    b
}

/// An 8-bit register value out of a response payload; `None` when the
/// payload has the wrong length.
pub fn decode_reg8(b: &[u8]) -> (r: Option<u8>)
    ensures
        b@.len() == 1 ==> r == Some(b@[0]),
        b@.len() != 1 ==> r is None,
{
    if b.len() == 1 {
        Some(b[0])
    } else {
        None
    }
}

/// The big-endian bytes of a 32-bit register value.
pub open spec fn spec_be32_bytes(v: u32) -> Seq<u8> {
    seq![(v >> 24) as u8, (v >> 16) as u8, (v >> 8) as u8, v as u8]
}

/// The 32-bit value held by four big-endian bytes.
pub open spec fn spec_be32_value(b: Seq<u8>) -> u32 {
    ((b[0] as u32) << 24) | ((b[1] as u32) << 16) | ((b[2] as u32) << 8) | (b[3] as u32)
}

/// Payload of a 32-bit register value, big-endian.
pub fn encode_reg32(v: u32) -> (b: Vec<u8>)
    ensures
        b@ == spec_be32_bytes(v),
{
    let mut b: Vec<u8> = Vec::new();
    b.push((v >> 24) as u8);
    b.push((v >> 16) as u8);
    b.push((v >> 8) as u8);
    b.push(v as u8);
    proof {
        assert(b@ =~= spec_be32_bytes(v));
    }
    b
}

/// A 32-bit register value out of a response payload; `None` when the
/// payload has the wrong length.
pub fn decode_reg32(b: &[u8]) -> (r: Option<u32>)
    ensures
        b@.len() == 4 ==> r == Some(spec_be32_value(b@)),
        b@.len() != 4 ==> r is None,
{
    if b.len() == 4 {
        Some(
            ((b[0] as u32) << 24) | ((b[1] as u32) << 16) | ((b[2] as u32) << 8) | (b[3] as u32),
        )
    } else {
        None
    }
}

/// Big-endian means most significant byte first: the decoded value weighs
/// the bytes by descending powers of 256.
pub proof fn lemma_be32_place_values(b0: u8, b1: u8, b2: u8, b3: u8)
    ensures
        spec_be32_value(seq![b0, b1, b2, b3]) == b0 * 0x1000000 + b1 * 0x10000 + b2 * 0x100 + b3,
{
    assert(((b0 as u32) << 24) | ((b1 as u32) << 16) | ((b2 as u32) << 8) | (b3 as u32) == b0
        * 0x1000000 + b1 * 0x10000 + b2 * 0x100 + b3) by (bit_vector);
}

/// Encoding a 32-bit value and decoding the payload returns the value.
pub proof fn lemma_be32_round_trip(v: u32)
    ensures
        spec_be32_value(spec_be32_bytes(v)) == v,
{
    assert(((((v >> 24) as u8) as u32) << 24) | ((((v >> 16) as u8) as u32) << 16) | ((((v >> 8)
        as u8) as u32) << 8) | ((v as u8) as u32) == v) by (bit_vector);
}

/// Decoding four bytes and re-encoding the value returns the same bytes.
pub proof fn lemma_be32_bytes_round_trip(b0: u8, b1: u8, b2: u8, b3: u8)
    ensures
        spec_be32_bytes(spec_be32_value(seq![b0, b1, b2, b3])) =~= seq![b0, b1, b2, b3],
{
    let v = ((b0 as u32) << 24) | ((b1 as u32) << 16) | ((b2 as u32) << 8) | (b3 as u32);
    assert((v >> 24) as u8 == b0 && (v >> 16) as u8 == b1 && (v >> 8) as u8 == b2 && v as u8 == b3)
        by (bit_vector)
        requires
            v == ((b0 as u32) << 24) | ((b1 as u32) << 16) | ((b2 as u32) << 8) | (b3 as u32),
    ;
}

/// The control exchange that performs one requested transfer of a plan,
/// for the 8-bit register kind this tool's chip uses: the setup fields
/// and, for a write, the one-byte payload.
pub fn transfer_request(op: RegOp) -> (r: (ControlRequest, Option<Vec<u8>>))
    ensures
        op matches RegOp::ReadReg(a) ==> r.0 == (ControlRequest {
            request_code: REQUEST_REGISTER_READ,
            value: a,
            index: 0,
            length: 1,
        }) && r.1 is None,
        op matches RegOp::WriteReg(a, v) ==> r.0 == (ControlRequest {
            request_code: REQUEST_REGISTER_WRITE,
            value: a,
            index: 0,
            length: 1,
        }) && (r.1 matches Some(p) && p@ == seq![v]),
{
    match op {
        RegOp::ReadReg(a) => (read_request(a, RegWidth::Byte), None),
        RegOp::WriteReg(a, v) => (write_request(a, RegWidth::Byte), Some(encode_reg8(v))),
    }
}

} // verus!
