use spd2010_touch::regs::{decode_register_address, encode_register_address, REG_INTERRUPT_CONTROL, SPD2010_ADDR};

#[test]
fn encode_is_little_endian() {
    assert_eq!(encode_register_address(0x1234), (0x34, 0x12));
    assert_eq!(encode_register_address(0x0002), (0x02, 0x00));
    assert_eq!(encode_register_address(0xff00), (0x00, 0xff));
    assert_eq!(encode_register_address(0x0000), (0x00, 0x00));
    assert_eq!(encode_register_address(0xffff), (0xff, 0xff));
}

#[test]
fn decode_is_little_endian() {
    assert_eq!(decode_register_address(0x34, 0x12), 0x1234);
    assert_eq!(decode_register_address(0x00, 0x00), 0x0000);
    assert_eq!(decode_register_address(0xff, 0xff), 0xffff);
}

#[test]
fn register_address_round_trips() {
    let samples: [u16; 7] = [0x0000, 0x0001, 0x0002, 0x00ff, 0x0100, 0x1234, 0xffff];
    for reg in samples {
        let (low, high) = encode_register_address(reg);
        assert_eq!(decode_register_address(low, high), reg);
    }
}

#[test]
fn bus_constants() {
    assert_eq!(SPD2010_ADDR, 0x53);
    assert_eq!(REG_INTERRUPT_CONTROL, 0x0002);
}
