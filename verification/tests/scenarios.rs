use mos6502::assembler::parse_program;
use mos6502::assembler::AsmError;
use mos6502::assembler::AsmErrorKind;
use mos6502::datastructures::doubleword;
use mos6502::datastructures::word;
use mos6502::memory::EmuFault;
use mos6502::system::System;

fn system_at_rom_start() -> System {
    let mut sys = System::new_resetted();
    sys.pc = doubleword::from(0x8000u16);
    sys
}

#[test]
fn assembled_store_program_lands_in_ram() {
    let text = "LDA #$05\nSTA $0200\nLDA #$08\nSTA $0201\n";
    let stream = parse_program(text).unwrap();
    assert_eq!(
        stream.stream.iter().map(|w| w.native_value()).collect::<Vec<u8>>(),
        vec![0xA9, 0x05, 0x8D, 0x00, 0x02, 0xA9, 0x08, 0x8D, 0x01, 0x02]
    );

    let mut sys = system_at_rom_start();
    sys.run_programm_for(stream, 4).unwrap();
    assert_eq!(sys.load(doubleword::from(0x0200u16)).native_value(), 5);
    assert_eq!(sys.load(doubleword::from(0x0201u16)).native_value(), 8);
}

#[test]
fn raw_bytes_program_masks_and_stores() {
    let bytes: [u8; 6] = [0x29, 0x00, 0x09, 0x01, 0x85, 0x01];
    let stream = mos6502::datastructures::InstructionStream::from(
        bytes.iter().map(|b| word::from(*b)).collect::<Vec<word>>(),
    );
    let mut sys = system_at_rom_start();
    sys.run_programm_for(stream, 3).unwrap();
    assert_eq!(sys.load(doubleword::from(0x0001u16)).native_value(), 1);
}

#[test]
fn adc_signed_overflow_sets_v_and_n() {
    let mut sys = System::new_resetted();
    sys.a = word::from(0x50u8);
    let res = sys.adc(word::from(0x50u8));
    assert_eq!(res.native_value(), 0xA0);
    assert!(sys.V());
    assert!(sys.N());
    assert!(!sys.C());
    assert!(!sys.Z());
}

#[test]
fn cmp_with_borrow_clears_c_and_sets_n() {
    let mut sys = System::new_resetted();
    sys.compare(word::from(0x10u8), word::from(0x20u8));
    assert!(!sys.C());
    assert!(sys.N());
    assert!(!sys.Z());
}

#[test]
fn store_into_rom_is_an_illegal_write_and_rom_is_untouched() {
    let stream = parse_program("STA $9000\n").unwrap();
    assert_eq!(
        stream.stream.iter().map(|w| w.native_value()).collect::<Vec<u8>>(),
        vec![0x8D, 0x00, 0x90]
    );
    let mut sys = system_at_rom_start();
    let r = sys.run_programm_for(stream, 1);
    assert_eq!(r, Err(EmuFault::IllegalWrite { address: 0x9000 }));
    // The ROM is exactly as loaded: the program's own bytes, zeroes beyond.
    assert_eq!(sys.load(doubleword::from(0x8000u16)).native_value(), 0x8D);
    assert_eq!(sys.load(doubleword::from(0x9000u16)).native_value(), 0x00);
    // The faulting instruction changed nothing: PC still points at it.
    assert_eq!(sys.pc.native_value(), 0x8000);
}

#[test]
fn ram_mirrors_repeat_every_0x800_bytes() {
    let mut sys = System::new_resetted();
    sys.store(doubleword::from(0x0123u16), word::from(0xABu8)).unwrap();
    assert_eq!(sys.load(doubleword::from(0x0123u16)).native_value(), 0xAB);
    assert_eq!(sys.load(doubleword::from(0x0923u16)).native_value(), 0xAB);
    assert_eq!(sys.load(doubleword::from(0x1123u16)).native_value(), 0xAB);
    assert_eq!(sys.load(doubleword::from(0x1923u16)).native_value(), 0xAB);
    // Writing through a mirror lands in the same cell.
    sys.store(doubleword::from(0x1923u16), word::from(0x5Au8)).unwrap();
    assert_eq!(sys.load(doubleword::from(0x0123u16)).native_value(), 0x5A);
}

#[test]
fn illegal_opcode_is_a_decode_fault() {
    let mut sys = System::new_resetted();
    let r = sys.exec(word::from(0x02u8));
    assert_eq!(r, Err(EmuFault::DecodeFault { opcode: 0x02 }));
    let r = sys.exec(word::from(0xFFu8));
    assert_eq!(r, Err(EmuFault::DecodeFault { opcode: 0xFF }));
}

#[test]
fn unknown_mnemonic_is_fatal_with_its_line() {
    let r = parse_program("LDA #$01\nXYZ $0200\n");
    assert_eq!(r.unwrap_err(), AsmError { line: 2, kind: AsmErrorKind::UnknownMnemonic });
}

#[test]
fn bad_operand_is_fatal_with_its_line() {
    let r = parse_program("LDA $GG\n");
    assert_eq!(r.unwrap_err(), AsmError { line: 1, kind: AsmErrorKind::BadOperand });
}

#[test]
fn unencodable_pairing_is_fatal() {
    // A store has no immediate form.
    let r = parse_program("STA #$01\n");
    assert_eq!(r.unwrap_err(), AsmError { line: 1, kind: AsmErrorKind::IllegalCombination });
}

#[test]
fn blank_lines_are_skipped_and_numbering_is_kept() {
    let stream = parse_program("\nLDA #$01\n\n  \nSTA $0200\n").unwrap();
    assert_eq!(
        stream.stream.iter().map(|w| w.native_value()).collect::<Vec<u8>>(),
        vec![0xA9, 0x01, 0x8D, 0x00, 0x02]
    );
    let r = parse_program("LDA #$01\n\nXYZ\n");
    assert_eq!(r.unwrap_err(), AsmError { line: 3, kind: AsmErrorKind::UnknownMnemonic });
}

#[test]
fn branch_taken_and_not_taken() {
    // LDA #$00 sets Z, so BEQ +2 skips the two bytes after the branch.
    let stream = parse_program("LDA #$00\nBEQ $02\n").unwrap();
    let mut sys = system_at_rom_start();
    sys.run_programm_for(stream, 2).unwrap();
    assert_eq!(sys.pc.native_value(), 0x8006);

    // LDA #$01 clears Z, so BEQ falls through.
    let stream = parse_program("LDA #$01\nBEQ $02\n").unwrap();
    let mut sys = system_at_rom_start();
    sys.run_programm_for(stream, 2).unwrap();
    assert_eq!(sys.pc.native_value(), 0x8004);
}

#[test]
fn backward_branch_uses_a_signed_offset() {
    // BNE $FC jumps back four bytes from the instruction after the branch.
    let stream = parse_program("LDA #$01\nBNE $FC\n").unwrap();
    let mut sys = system_at_rom_start();
    sys.run_programm_for(stream, 2).unwrap();
    assert_eq!(sys.pc.native_value(), 0x8000);
}

#[test]
fn jsr_and_rts_round_trip_through_the_stack() {
    // JSR to 0x8004; the NOP at 0x8003 is skipped; RTS comes back to it.
    let bytes: [u8; 5] = [0x20, 0x04, 0x80, 0xEA, 0x60];
    let stream = mos6502::datastructures::InstructionStream::from(
        bytes.iter().map(|b| word::from(*b)).collect::<Vec<word>>(),
    );
    let mut sys = system_at_rom_start();
    sys.run_programm_for(stream, 1).unwrap();
    assert_eq!(sys.pc.native_value(), 0x8004);
    assert_eq!(sys.s.native_value(), 2);
    // The return address 0x8002 sits on the fixed stack page.
    assert_eq!(sys.load(doubleword::from(0x0100u16)).native_value(), 0x02);
    assert_eq!(sys.load(doubleword::from(0x0101u16)).native_value(), 0x80);
    sys.run(1).unwrap();
    assert_eq!(sys.pc.native_value(), 0x8003);
    assert_eq!(sys.s.native_value(), 0);
}

#[test]
fn indexed_and_indirect_addressing_resolve_as_documented() {
    // Zero-page pointer at 0x10/0x11 points at 0x0200; LDA ($0E,X) with
    // X = 2 reads through it.
    let mut sys = system_at_rom_start();
    sys.store(doubleword::from(0x0010u16), word::from(0x00u8)).unwrap();
    sys.store(doubleword::from(0x0011u16), word::from(0x02u8)).unwrap();
    sys.store(doubleword::from(0x0200u16), word::from(0x77u8)).unwrap();
    let stream = parse_program("LDX #$02\nLDA ($0E,X)\n").unwrap();
    sys.run_programm_for(stream, 2).unwrap();
    assert_eq!(sys.a.native_value(), 0x77);

    // LDA ($10),Y with Y = 3 reads 0x0200 + 3.
    let mut sys = system_at_rom_start();
    sys.store(doubleword::from(0x0010u16), word::from(0x00u8)).unwrap();
    sys.store(doubleword::from(0x0011u16), word::from(0x02u8)).unwrap();
    sys.store(doubleword::from(0x0203u16), word::from(0x66u8)).unwrap();
    let stream = parse_program("LDY #$03\nLDA ($10),Y\n").unwrap();
    sys.run_programm_for(stream, 2).unwrap();
    assert_eq!(sys.a.native_value(), 0x66);

    // Zero-page indexing wraps within the zero page: 0xFF + 2 = 0x01.
    let mut sys = system_at_rom_start();
    sys.store(doubleword::from(0x0001u16), word::from(0x55u8)).unwrap();
    let bytes: [u8; 4] = [0xA2, 0x02, 0xB5, 0xFF];
    let stream = mos6502::datastructures::InstructionStream::from(
        bytes.iter().map(|b| word::from(*b)).collect::<Vec<word>>(),
    );
    sys.run_programm_for(stream, 2).unwrap();
    assert_eq!(sys.a.native_value(), 0x55);
}

#[test]
fn sbc_with_carry_set_subtracts_exactly() {
    let mut sys = System::new_resetted();
    sys.a = word::from(0x50u8);
    sys.set_C();
    let res = sys.sbc(word::from(0x10u8));
    assert_eq!(res.native_value(), 0x40);
    assert!(sys.C());
    assert!(!sys.V());
    assert!(!sys.Z());
    assert!(!sys.N());
}

#[test]
fn bit_test_copies_the_operand_top_bits() {
    let mut sys = system_at_rom_start();
    sys.store(doubleword::from(0x0040u16), word::from(0xC0u8)).unwrap();
    let stream = parse_program("LDA #$0F\nBIT $40\n").unwrap();
    sys.run_programm_for(stream, 2).unwrap();
    assert!(sys.N());
    assert!(sys.V());
    assert!(sys.Z());
    assert_eq!(sys.a.native_value(), 0x0F);
}

#[test]
fn memory_shift_writes_back_and_sets_carry() {
    let mut sys = system_at_rom_start();
    sys.store(doubleword::from(0x0020u16), word::from(0x81u8)).unwrap();
    let stream = parse_program("ASL $20\n").unwrap();
    sys.run_programm_for(stream, 1).unwrap();
    assert_eq!(sys.load(doubleword::from(0x0020u16)).native_value(), 0x02);
    assert!(sys.C());
    assert!(!sys.N());
    assert!(!sys.Z());
}

#[test]
fn increments_and_decrements_wrap() {
    let mut sys = system_at_rom_start();
    let stream = parse_program("LDX #$FF\nINX\n").unwrap();
    sys.run_programm_for(stream, 2).unwrap();
    assert_eq!(sys.x.native_value(), 0x00);
    assert!(sys.Z());

    let mut sys = system_at_rom_start();
    let stream = parse_program("LDY #$00\nDEY\n").unwrap();
    sys.run_programm_for(stream, 2).unwrap();
    assert_eq!(sys.y.native_value(), 0xFF);
    assert!(sys.N());
}

#[test]
fn stubbed_register_ranges_read_zero_and_swallow_writes() {
    let mut sys = System::new_resetted();
    assert_eq!(sys.load(doubleword::from(0x2000u16)).native_value(), 0);
    assert_eq!(sys.load(doubleword::from(0x4017u16)).native_value(), 0);
    sys.store(doubleword::from(0x2345u16), word::from(0x7Fu8)).unwrap();
    assert_eq!(sys.load(doubleword::from(0x2345u16)).native_value(), 0);
}

#[test]
fn absolute_indexed_modes_add_the_register() {
    let mut sys = system_at_rom_start();
    sys.store(doubleword::from(0x0210u16), word::from(0x2Au8)).unwrap();
    let stream = parse_program("LDX #$10\nLDA $0200,X\n").unwrap();
    sys.run_programm_for(stream, 2).unwrap();
    assert_eq!(sys.a.native_value(), 0x2A);

    let mut sys = system_at_rom_start();
    sys.store(doubleword::from(0x0205u16), word::from(0x3Bu8)).unwrap();
    let stream = parse_program("LDY #$05\nLDA $0200,Y\n").unwrap();
    sys.run_programm_for(stream, 2).unwrap();
    assert_eq!(sys.a.native_value(), 0x3B);
}

#[test]
fn indirect_jump_reads_its_target_through_memory() {
    let mut sys = system_at_rom_start();
    sys.store(doubleword::from(0x0300u16), word::from(0x34u8)).unwrap();
    sys.store(doubleword::from(0x0301u16), word::from(0x12u8)).unwrap();
    let stream = parse_program("JMP ($0300)\n").unwrap();
    sys.run_programm_for(stream, 1).unwrap();
    assert_eq!(sys.pc.native_value(), 0x1234);
}

#[test]
fn php_and_plp_move_the_whole_status_byte() {
    let mut sys = System::new_resetted();
    sys.p = word::from(0xC3u8);
    sys.exec(word::from(0x08u8)).unwrap();  // PHP
    sys.p = word::from(0x00u8);
    sys.exec(word::from(0x28u8)).unwrap();  // PLP
    assert_eq!(sys.p.native_value(), 0xC3);
}

#[test]
fn eor_and_ora_report_zero_and_sign() {
    let mut sys = system_at_rom_start();
    let stream = parse_program("LDA #$FF\nEOR #$FF\n").unwrap();
    sys.run_programm_for(stream, 2).unwrap();
    assert_eq!(sys.a.native_value(), 0x00);
    assert!(sys.Z());
    assert!(!sys.N());

    let mut sys = system_at_rom_start();
    let stream = parse_program("LDA #$00\nORA #$80\n").unwrap();
    sys.run_programm_for(stream, 2).unwrap();
    assert_eq!(sys.a.native_value(), 0x80);
    assert!(!sys.Z());
    assert!(sys.N());
}

#[test]
fn adc_chain_carries_into_the_next_byte() {
    // 16-bit addition: 0x00FF + 0x0001 via two ADCs with the carry chained.
    let mut sys = system_at_rom_start();
    let stream = parse_program("CLC\nLDA #$FF\nADC #$01\nSTA $10\nLDA #$00\nADC #$00\nSTA $11\n")
        .unwrap();
    sys.run_programm_for(stream, 7).unwrap();
    assert_eq!(sys.load(doubleword::from(0x0010u16)).native_value(), 0x00);
    assert_eq!(sys.load(doubleword::from(0x0011u16)).native_value(), 0x01);
}
