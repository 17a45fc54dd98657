use mos6502::datastructures::carry_bit;
use mos6502::datastructures::carry_bit_u16;
use mos6502::datastructures::doubleword;
use mos6502::datastructures::get_bit_at_u8;
use mos6502::datastructures::word;
use mos6502::datastructures::ClAdd;
use mos6502::datastructures::InstructionStream;
use mos6502::datastructures::Push;
use mos6502::decode::decode;
use mos6502::decode::encode_opcode;
use mos6502::decode::mode_len;
use mos6502::decode::Instructions;
use mos6502::decode::Mode;

#[test]
fn opcode_bit_fields_read_and_update() {
    let b = word::from_6502_bytes(0x69);
    assert_eq!(b.aaa(), 3);
    assert_eq!(b.bbb(), 2);
    assert_eq!(b.cc(), 1);

    let mut b = word::zero();
    b.update_aaa(0b011);
    b.update_bbb(0b010);
    b.update_cc(0b01);
    assert_eq!(b.native_value(), 0x69);
    b.update_aaa(0b101);
    assert_eq!(b.native_value(), 0xA9);
    b.update_cc(0b00);
    assert_eq!(b.native_value(), 0xA8);
}

#[test]
fn words_compose_into_doublewords_little_endian() {
    let dw = doubleword::from_words(word::from(0x12u8), word::from(0x34u8));
    assert_eq!(dw.native_value(), 0x1234);
    let (lo, hi) = dw.to_words();
    assert_eq!(lo.native_value(), 0x34);
    assert_eq!(hi.native_value(), 0x12);
    assert_eq!(dw.as_addr(), 0x1234usize);
}

#[test]
fn carryless_addition_wraps() {
    let w = word::from(0xFFu8).cl_add(word::from(2u8));
    assert_eq!(w.native_value(), 1);
    let dw = doubleword::from(0xFFFFu16).cl_add(doubleword::from(3u16));
    assert_eq!(dw.native_value(), 2);
    let dw = doubleword::from(0xFFFEu16).cl_add(word::from(5u8));
    assert_eq!(dw.native_value(), 3);
}

#[test]
fn shifts_and_rotates_report_their_carries() {
    let (r, c) = word::from(0x81u8).logical_shift_left_carry();
    assert_eq!(r.native_value(), 0x02);
    assert!(c);

    let (r, c) = word::from(0x81u8).logical_shift_right_carry();
    assert_eq!(r.native_value(), 0x40);
    assert!(c);

    let (r, c) = word::from(0x81u8).arith_shift_right_carry();
    assert_eq!(r.native_value(), 0xC0);
    assert!(c);

    let v = word::from(0x81u8);
    let (r, c) = v.rotate_left_carry(v, true);
    assert_eq!(r.native_value(), 0x03);
    assert!(c);

    let (r, c) = v.rotate_right_carry(v, true);
    assert_eq!(r.native_value(), 0xC0);
    assert!(c);
}

#[test]
fn bit_queries_are_positional_and_bounded() {
    assert_eq!(get_bit_at_u8(0x80, 7), Some(true));
    assert_eq!(get_bit_at_u8(0x80, 6), Some(false));
    assert_eq!(get_bit_at_u8(0x80, 8), None);
    assert_eq!(word::from(0x04u8).bit_at(2), Some(true));
    assert_eq!(doubleword::from(0x0100u16).bit_at(8), Some(true));
    assert_eq!(doubleword::from(0x0100u16).bit_at(16), None);
    assert!(carry_bit(doubleword::from(0x0100u16)));
    assert!(!carry_bit_u16(0x00FF));
}

#[test]
fn signed_views_reinterpret_the_byte() {
    assert_eq!(word::from(0xFFu8).native_value_signed(), -1i8);
    assert_eq!(word::from(0x7Fu8).cpu_value_signed(), 127i8);
    assert_eq!(word::from(0x80u8).as_i16(), 0x80i16);
    assert_eq!(doubleword::from(0xFFFFu16).as_i16(), -1i16);
    assert_eq!(word::from(0x12u8).as_doubleword().native_value(), 0x12u16);
    assert_eq!(word::from_6502_bytes(0x12).cpu_value(), 0x12);
    assert_eq!(doubleword::from_6502_bytes(0x1234).cpu_value(), 0x1234);
}

#[test]
fn streams_append_words_and_little_endian_doublewords() {
    let mut s = InstructionStream::new();
    s.push(word::from(0xA9u8));
    s.push(doubleword::from(0x1234u16));
    assert_eq!(
        s.stream.iter().map(|w| w.native_value()).collect::<Vec<u8>>(),
        vec![0xA9, 0x34, 0x12]
    );
}

#[test]
fn every_legal_opcode_round_trips_through_the_encoder() {
    let mut legal: usize = 0;
    for b in 0..=255u8 {
        if let Some((op, mode)) = decode(b) {
            legal += 1;
            assert_eq!(encode_opcode(op, mode), Some(b));
            let len = mode_len(mode);
            assert!(1 <= len && len <= 3);
        }
    }
    // The documented instruction set: 151 legal opcode bytes.
    assert_eq!(legal, 151);
}

#[test]
fn decode_reads_the_bit_fields() {
    assert_eq!(decode(0x69), Some((Instructions::ADC, Mode::Immediate)));
    assert_eq!(decode(0xA9), Some((Instructions::LDA, Mode::Immediate)));
    assert_eq!(decode(0x8D), Some((Instructions::STA, Mode::Absolute)));
    assert_eq!(decode(0x6C), Some((Instructions::JMP, Mode::Indirect)));
    assert_eq!(decode(0xB6), Some((Instructions::LDX, Mode::ZeroPageY)));
    assert_eq!(decode(0xF0), Some((Instructions::BEQ, Mode::Relative)));
    assert_eq!(decode(0x0A), Some((Instructions::ASL, Mode::Accumulator)));
    assert_eq!(decode(0xEA), Some((Instructions::NOP, Mode::Implied)));
    assert_eq!(decode(0x89), None);
    assert_eq!(decode(0x03), None);
}
