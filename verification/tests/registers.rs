use stabilizer::ad9912::{Addr, ChargePump, Instruction, Pll, Power, Reset, Serial, Size};

#[test]
fn instruction_encodes_tuning_word_stream_header() {
    // Address 0x01ab, a six-byte payload (stream size class), write.
    let insn = Instruction::new(Addr::Ftw0, Size::from_len(6), false);
    let raw = insn.raw_value();
    assert_eq!(raw, 0x61ab);
    assert_eq!(raw & 0x1fff, 0x01ab);
    assert_eq!((raw >> 13) & 0x03, 3);
    assert_eq!(raw >> 15, 0);

    // Decoding the reconstructed word gives back the same three fields.
    let back = Instruction::from_raw_value(raw).unwrap();
    assert_eq!(back.addr, Addr::Ftw0);
    assert_eq!(back.size, Size::Stream);
    assert!(!back.read);
}

#[test]
fn instruction_roundtrip_more_examples() {
    let insn = Instruction::new(Addr::PartId, Size::Two, true);
    let raw = insn.raw_value();
    assert_eq!(raw, 0xa003);
    let back = Instruction::from_raw_value(raw).unwrap();
    assert_eq!(back.addr, Addr::PartId);
    assert_eq!(back.size, Size::Two);
    assert!(back.read);

    let insn = Instruction::new(Addr::SpurB, Size::One, false);
    let back = Instruction::from_raw_value(insn.raw_value()).unwrap();
    assert_eq!(back, insn);
}

#[test]
fn instruction_decode_rejects_unknown_address() {
    assert_eq!(Instruction::from_raw_value(0x1fff), None);
    assert_eq!(Addr::from_code(0x0001), None);
}

#[test]
fn addr_codes_match_register_map() {
    assert_eq!(Addr::Serial.code(), 0x0000);
    assert_eq!(Addr::PartId.code(), 0x0003);
    assert_eq!(Addr::Buffer.code(), 0x0004);
    assert_eq!(Addr::Update.code(), 0x0005);
    assert_eq!(Addr::Power.code(), 0x0010);
    assert_eq!(Addr::DdsReset.code(), 0x0013);
    assert_eq!(Addr::Reset.code(), 0x0014);
    assert_eq!(Addr::NDiv.code(), 0x0020);
    assert_eq!(Addr::Pll.code(), 0x0022);
    assert_eq!(Addr::SDiv.code(), 0x0106);
    assert_eq!(Addr::Ftw0.code(), 0x01ab);
    assert_eq!(Addr::Phase.code(), 0x01ad);
    assert_eq!(Addr::Hstl.code(), 0x0200);
    assert_eq!(Addr::Cmos.code(), 0x0201);
    assert_eq!(Addr::Fsc.code(), 0x040c);
    assert_eq!(Addr::SpurA.code(), 0x0500);
    assert_eq!(Addr::SpurB.code(), 0x0505);
    assert_eq!(Addr::from_code(0x01ab), Some(Addr::Ftw0));
}

#[test]
fn size_class_from_payload_length() {
    assert_eq!(Size::from_len(1), Size::One);
    assert_eq!(Size::from_len(2), Size::Two);
    assert_eq!(Size::from_len(3), Size::Three);
    assert_eq!(Size::from_len(4), Size::Stream);
    assert_eq!(Size::from_len(6), Size::Stream);
    assert_eq!(Size::One.code(), 0);
    assert_eq!(Size::Stream.code(), 3);
    assert_eq!(Size::default(), Size::One);
}

#[test]
fn mirror_maps_flag_bits_to_reversed_high_nibble() {
    // Flag bits 0..=3 = 0,1,0,1 land at output bits 7..=4 = 0,1,0,1.
    let s = Serial::new_with_raw_value(0x0a).mirror();
    assert_eq!(s.raw_value(), 0b0101_1010);
}

#[test]
fn mirror_is_idempotent() {
    for v in 0..=255u8 {
        let once = Serial::new_with_raw_value(v).mirror();
        let twice = once.mirror();
        assert_eq!(twice.raw_value(), once.raw_value());
    }
}

#[test]
fn mirror_fixes_only_self_symmetric_bytes() {
    // Already self-symmetric: the high nibble holds the reversed flags.
    assert_eq!(Serial::new_with_raw_value(0x5a).mirror().raw_value(), 0x5a);
    assert_eq!(Serial::new_with_raw_value(0x99).mirror().raw_value(), 0x99);
    // Not self-symmetric: the high nibble is rewritten.
    assert_eq!(Serial::new_with_raw_value(0x0f).mirror().raw_value(), 0xff);
    assert_ne!(Serial::new_with_raw_value(0x1a).mirror().raw_value(), 0x1a);
}

#[test]
fn serial_default_and_fields() {
    let s = Serial::default();
    assert_eq!(s.raw_value(), 0x18);
    assert!(!s.sdo_active());
    assert!(!s.lsb_first());
    assert!(!s.soft_reset());
    assert!(s.long_insn());
    let s = s.with_sdo_active(true).with_soft_reset(true);
    assert!(s.sdo_active());
    assert!(s.soft_reset());
    assert_eq!(s.raw_value(), 0x1d);
}

#[test]
fn power_default_and_fields() {
    let p = Power::default();
    assert_eq!(p.raw_value(), 0xc0);
    assert!(p.cmos_en());
    assert!(p.hstl_pd());
    assert!(!p.digital_pd());
    let p = p.with_cmos_en(false).with_pll_pd(true);
    assert_eq!(p.raw_value(), 0x90);
    assert!(!p.cmos_en());
    assert!(p.pll_pd());
}

#[test]
fn reset_default_and_fields() {
    let r = Reset::default();
    assert_eq!(r.raw_value(), 0x00);
    let r = r.with_sdiv(true).with_sdiv2(true).with_fund_dds_pd(true);
    assert_eq!(r.raw_value(), 0x8a);
    assert!(r.sdiv());
    assert!(r.sdiv2());
    assert!(r.fund_dds_pd());
}

#[test]
fn pll_default_and_fields() {
    let p = Pll::default();
    assert_eq!(p.raw_value(), 0x04);
    assert!(p.vco_range_high());
    assert!(!p.ref_doubler());
    assert_eq!(p.charge_pump(), ChargePump::Ua250);
    let p = p.with_charge_pump(ChargePump::Ua125).with_vco_auto_range(true);
    assert_eq!(p.raw_value(), 0x87);
    assert_eq!(p.charge_pump(), ChargePump::Ua125);
}

#[test]
fn charge_pump_codes_roundtrip() {
    assert_eq!(ChargePump::from_code(0), ChargePump::Ua250);
    assert_eq!(ChargePump::from_code(1), ChargePump::Ua375);
    assert_eq!(ChargePump::from_code(2), ChargePump::Off);
    assert_eq!(ChargePump::from_code(3), ChargePump::Ua125);
    for c in 0..4u8 {
        assert_eq!(ChargePump::from_code(c).code(), c);
    }
}
