use sx126x::bytes::{u16_from_bytes, u16_to_be_bytes, u24_to_be_bytes, u32_to_be_bytes};

#[test]
fn big_endian_bytes() {
    assert_eq!(u16_to_be_bytes(0x1234), [0x12, 0x34]);
    assert_eq!(u16_to_be_bytes(0x00FF), [0x00, 0xFF]);
    assert_eq!(u24_to_be_bytes(0x123456), [0x12, 0x34, 0x56]);
    assert_eq!(u24_to_be_bytes(0xAB123456), [0x12, 0x34, 0x56]);
    assert_eq!(u32_to_be_bytes(0x12345678), [0x12, 0x34, 0x56, 0x78]);
    assert_eq!(u32_to_be_bytes(0x3640_0000), [0x36, 0x40, 0x00, 0x00]);
}

#[test]
fn big_endian_bytes_agree_with_std() {
    for x in [0u16, 1, 0x00FF, 0x0100, 0x1234, 0xFFFF] {
        assert_eq!(u16_to_be_bytes(x), x.to_be_bytes());
        let [hi, lo] = x.to_be_bytes();
        assert_eq!(u16_from_bytes(hi, lo), x);
    }
    for x in [0u32, 1, 0xFF, 0x100, 0xFFFF, 0x1_0000, 0xFF_FFFF, 0x100_0000, 0x12345678, u32::MAX] {
        assert_eq!(u32_to_be_bytes(x), x.to_be_bytes());
        assert_eq!(u24_to_be_bytes(x), [x.to_be_bytes()[1], x.to_be_bytes()[2], x.to_be_bytes()[3]]);
    }
}
