use mos6502::datastructures::doubleword;
use mos6502::datastructures::word;
use mos6502::datastructures::InstructionStream;
use mos6502::memory::high_nibble;
use mos6502::memory::low_nibble;
use mos6502::system::System;

fn tests_init_system_resetted() -> System {
    let mut ret = System::new_resetted();
    ret.pc = doubleword::from(0x8000u16);
    ret
}

#[test]
fn pc_can_advance_properly() {
    let mut sys = tests_init_system_resetted();
    sys.pc = doubleword::from(0u16);

    assert_eq!(sys.pc.native_value(), 0u16);
    sys.advance_pc_1();
    assert_eq!(sys.pc.native_value(), 1u16);
    sys.advance_pc_2();
    assert_eq!(sys.pc.native_value(), 3u16);
    sys.advance_pc_3();
    assert_eq!(sys.pc.native_value(), 6u16);
}

#[test]
fn registers_reset_properly() {
    let mut sys = tests_init_system_resetted();

    sys.a = word::from(5u8);
    sys.x = word::from(5u8);
    sys.y = word::from(5u8);
    sys.s = word::from(5u8);
    sys.p = word::from(5u8);
    sys.pc = doubleword::from(5u16);

    sys.reset();

    assert_eq!(sys.a.native_value(), 0u8);
    assert_eq!(sys.x.native_value(), 0u8);
    assert_eq!(sys.y.native_value(), 0u8);
    assert_eq!(sys.s.native_value(), 0u8);
    assert_eq!(sys.p.native_value(), 0u8);
    assert_eq!(sys.pc.native_value(), 0u16);
}

#[test]
fn mem_can_load_and_store() {
    let mut sys = tests_init_system_resetted();

    // Address 0 (min)
    let addr_min = doubleword::zero();
    assert_eq!(sys.load(addr_min).native_value(), 0u8);
    sys.store(addr_min, word::from(1u8)).unwrap();
    assert_eq!(sys.load(addr_min).native_value(), 1u8);

    // Address 4
    let addr_four = doubleword::from(4u16);
    assert_eq!(sys.load(addr_four).native_value(), 0u8);
    sys.store(addr_four, word::from(1u8)).unwrap();
    assert_eq!(sys.load(addr_four).native_value(), 1u8);

    // Max non-mirrored address
    let addr_max_non_mirrored = doubleword::from(0x7FC);
    assert_eq!(sys.load(addr_max_non_mirrored).native_value(), 0u8);
    sys.store(addr_max_non_mirrored, word::from(1u8)).unwrap();
    assert_eq!(sys.load(addr_max_non_mirrored).native_value(), 1u8);

    // Max mirrored address
    let addr_max_mirrored = doubleword::from(0x1FFC);
    assert_eq!(sys.load(addr_max_mirrored).native_value(), 1u8);
    sys.store(addr_max_mirrored, word::from(0u8)).unwrap();
    assert_eq!(sys.load(addr_max_mirrored).native_value(), 0u8);
}

#[test]
fn cpu_can_load_and_store() {
    // Instruction sequence:
    // AND #00
    // ORA #01
    // STA 01

    let program: [u8; 6] = [0x29, 0x00, 0x09, 0x01, 0x85, 0x01];
    let program: Vec<word> = program.iter().map(|x| word::from(*x)).collect();

    let mut sys = tests_init_system_resetted();

    sys.run_programm_for(InstructionStream::from(program), 3).unwrap();

    let addr = doubleword::from(0x01);
    assert_eq!(sys.load(addr).native_value(), 0x01u8);

    // Instruction sequence:
    // AND #00
    // ORA #01
    // STA 01

    let program: [u8; 6] = [0x29, 0x00, 0x09, 0x01, 0x85, 0x01];
    let program: Vec<word> = program.iter().map(|x| word::from(*x)).collect();

    let mut sys = tests_init_system_resetted();

    sys.run_programm_for(InstructionStream::from(program), 3).unwrap();

    let addr = doubleword::from(0x01);
    assert_eq!(sys.load(addr).native_value(), 0x01u8);

    // Instruction sequence:
    // AND #00
    // ORA #01
    // STA 01

    let program: [u8; 6] = [0x29, 0x00, 0x09, 0x01, 0x85, 0x01];
    let program: Vec<word> = program.iter().map(|x| word::from(*x)).collect();

    let mut sys = tests_init_system_resetted();

    sys.run_programm_for(InstructionStream::from(program), 3).unwrap();

    let addr = doubleword::from(0x01);
    assert_eq!(sys.load(addr).native_value(), 0x01u8);

    // Instruction sequence:
    // AND #00
    // ORA #01
    // STA 01

    let program: [u8; 6] = [0x29, 0x00, 0x09, 0x01, 0x85, 0x01];
    let program: Vec<word> = program.iter().map(|x| word::from(*x)).collect();

    let mut sys = tests_init_system_resetted();

    sys.run_programm_for(InstructionStream::from(program), 3).unwrap();

    let addr = doubleword::from(0x01);
    assert_eq!(sys.load(addr).native_value(), 0x01u8);
}

#[test]
fn low_nibble_test() {
    let val = 0x31u8;

    assert_eq!(val, 0x31u8);
    assert_eq!(low_nibble(word::from(val)), 0x1u8);
    assert_eq!(high_nibble(word::from(val)), 0x3u8);
}

#[test]
fn vbl_timing_flag_is_accurate() {
    // Vertical-blank timing belongs to the host's video unit, which this
    // library does not model; the placeholder stays empty.
}
