use mchp_gpio_ctl::machine::RegOp;
use mchp_gpio_ctl::wire::{
    decode_reg32, decode_reg8, encode_reg32, encode_reg8, read_request, transfer_request,
    write_request, ControlRequest, RegWidth, REQUEST_REGISTER_READ, REQUEST_REGISTER_WRITE,
};

#[test]
fn read_request_carries_the_address_in_the_value_field() {
    let r = read_request(0x0834, RegWidth::Byte);
    assert_eq!(
        r,
        ControlRequest {
            request_code: REQUEST_REGISTER_READ,
            value: 0x0834,
            index: 0,
            length: 1,
        }
    );
    let r = read_request(0x0834, RegWidth::Quad);
    assert_eq!(r.length, 4);
}

#[test]
fn write_request_carries_the_address_in_the_value_field() {
    let r = write_request(0x0830, RegWidth::Byte);
    assert_eq!(
        r,
        ControlRequest {
            request_code: REQUEST_REGISTER_WRITE,
            value: 0x0830,
            index: 0,
            length: 1,
        }
    );
}

#[test]
fn byte_payload_round_trips() {
    let payload = encode_reg8(0x5a);
    assert_eq!(payload, vec![0x5a]);
    assert_eq!(decode_reg8(&payload), Some(0x5a));
}

#[test]
fn byte_payload_of_wrong_length_is_refused() {
    assert_eq!(decode_reg8(&[]), None);
    assert_eq!(decode_reg8(&[1, 2]), None);
}

#[test]
fn quad_payload_is_big_endian() {
    let payload = encode_reg32(0x12345678);
    assert_eq!(payload, vec![0x12, 0x34, 0x56, 0x78]);
}

#[test]
fn quad_payload_round_trips() {
    for v in [0u32, 1, 0x80000000, 0xdeadbeef, u32::MAX] {
        assert_eq!(decode_reg32(&encode_reg32(v)), Some(v));
    }
}

#[test]
fn quad_payload_of_wrong_length_is_refused() {
    assert_eq!(decode_reg32(&[1, 2, 3]), None);
    assert_eq!(decode_reg32(&[1, 2, 3, 4, 5]), None);
}

#[test]
fn transfer_request_maps_reads_and_writes() {
    let (req, payload) = transfer_request(RegOp::ReadReg(0x0838));
    assert_eq!(req.request_code, REQUEST_REGISTER_READ);
    assert_eq!(req.value, 0x0838);
    assert_eq!(req.length, 1);
    assert!(payload.is_none());

    let (req, payload) = transfer_request(RegOp::WriteReg(0x0830, 0x07));
    assert_eq!(req.request_code, REQUEST_REGISTER_WRITE);
    assert_eq!(req.value, 0x0830);
    assert_eq!(payload, Some(vec![0x07]));
}
