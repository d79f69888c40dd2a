use sx126x::op::packet::{
    LoRaCrcType, LoRaCrcTypeConfig, LoRaHeaderType, LoRaInvertIq, LoRaPacketParams, PacketParams,
    PacketType,
};
use sx126x::DecodeError;

#[test]
fn packet_type_codes() {
    assert_eq!(u8::from(PacketType::GFSK), 0x00);
    assert_eq!(u8::from(PacketType::LoRa), 0x01);
    assert_eq!(PacketType::try_from(0x00), Ok(PacketType::GFSK));
    assert_eq!(PacketType::try_from(0x01), Ok(PacketType::LoRa));
}

#[test]
fn packet_type_outside_the_set_fails() {
    for byte in 2..=255u8 {
        assert_eq!(PacketType::try_from(byte), Err(DecodeError::PacketType(byte)));
    }
}

#[test]
fn packet_type_debug_names() {
    assert_eq!(format!("{:?}", PacketType::GFSK), "GFSK");
    assert_eq!(format!("{:?}", PacketType::LoRa), "LoRa");
}

#[test]
fn packet_enum_codes() {
    assert_eq!(u8::from(LoRaHeaderType::VarLen), 0x00);
    assert_eq!(u8::from(LoRaHeaderType::FixedLen), 0x01);
    assert_eq!(u8::from(LoRaCrcType::CrcOff), 0x00);
    assert_eq!(u8::from(LoRaCrcType::CrcOn), 0x01);
    assert_eq!(u8::from(LoRaInvertIq::Standard), 0x00);
    assert_eq!(u8::from(LoRaInvertIq::Inverted), 0x01);
    assert_eq!(u8::from(LoRaCrcTypeConfig::CrcOff), 0x01);
    assert_eq!(u8::from(LoRaCrcTypeConfig::Crc1Byte), 0x00);
    assert_eq!(u8::from(LoRaCrcTypeConfig::Crc2Bytes), 0x02);
    assert_eq!(u8::from(LoRaCrcTypeConfig::Crc1ByteInv), 0x04);
    assert_eq!(u8::from(LoRaCrcTypeConfig::Crc2BytesInv), 0x06);
}

#[test]
fn lora_packet_params_default() {
    let params = LoRaPacketParams::default();
    assert_eq!(params.preamble_len, 8);
    assert_eq!(params.header_type, LoRaHeaderType::VarLen);
    assert_eq!(params.payload_len, 0);
    assert_eq!(params.crc_type, LoRaCrcType::CrcOff);
    assert_eq!(params.invert_iq, LoRaInvertIq::Standard);
}

#[test]
fn packet_params_default_bytes() {
    let bytes: [u8; 9] = PacketParams::default().into();
    assert_eq!(bytes, [0x00, 0x08, 0x00, 0x00, 0x00, 0x00, 0, 0, 0]);
}

#[test]
fn packet_params_layout() {
    let params = LoRaPacketParams::default()
        .set_preamble_len(0x1234)
        .set_header_type(LoRaHeaderType::FixedLen)
        .set_payload_len(0xAB)
        .set_crc_type(LoRaCrcType::CrcOn)
        .set_invert_iq(LoRaInvertIq::Inverted);
    let block = PacketParams::from(params);
    let bytes: [u8; 9] = block.into();
    assert_eq!(bytes, [0x12, 0x34, 0x01, 0xAB, 0x01, 0x01, 0, 0, 0]);
    let by_ref: [u8; 9] = (&block).into();
    assert_eq!(by_ref, bytes);
    let from_ref: [u8; 9] = PacketParams::from(&params).into();
    assert_eq!(from_ref, bytes);
}

#[test]
fn packet_params_round_trip_for_every_enumerant() {
    for preamble_len in [1u16, 8, 0x00FF, 0x0100, 0xFFFF] {
        for header_type in [LoRaHeaderType::VarLen, LoRaHeaderType::FixedLen] {
            for payload_len in [0u8, 1, 254, 255] {
                for crc_type in [LoRaCrcType::CrcOff, LoRaCrcType::CrcOn] {
                    for invert_iq in [LoRaInvertIq::Standard, LoRaInvertIq::Inverted] {
                        let params = LoRaPacketParams {
                            preamble_len,
                            header_type,
                            payload_len,
                            crc_type,
                            invert_iq,
                        };
                        assert_eq!(PacketParams::from(params).get_lora_params(), params);
                        let bytes: [u8; 9] = PacketParams::from(params).into();
                        assert_eq!(u16::from_be_bytes([bytes[0], bytes[1]]), preamble_len);
                        assert_eq!(bytes[2], u8::from(header_type));
                        assert_eq!(bytes[3], payload_len);
                        assert_eq!(bytes[4], u8::from(crc_type));
                        assert_eq!(bytes[5], u8::from(invert_iq));
                        assert_eq!(&bytes[6..], &[0, 0, 0]);
                    }
                }
            }
        }
    }
}

#[test]
fn packet_params_setters_change_one_field() {
    let base = LoRaPacketParams::default();
    let changed = base.set_payload_len(200);
    assert_eq!(changed, LoRaPacketParams { payload_len: 200, ..base });
    let changed = base.set_preamble_len(12);
    assert_eq!(changed, LoRaPacketParams { preamble_len: 12, ..base });
    let changed = base.set_header_type(LoRaHeaderType::FixedLen);
    assert_eq!(changed, LoRaPacketParams { header_type: LoRaHeaderType::FixedLen, ..base });
    let changed = base.set_crc_type(LoRaCrcType::CrcOn);
    assert_eq!(changed, LoRaPacketParams { crc_type: LoRaCrcType::CrcOn, ..base });
    let changed = base.set_invert_iq(LoRaInvertIq::Inverted);
    assert_eq!(changed, LoRaPacketParams { invert_iq: LoRaInvertIq::Inverted, ..base });
}
