use mos6502::datastructures::doubleword;
use mos6502::datastructures::word;
use mos6502::system::System;

#[test]
fn each_flag_update_leaves_the_other_bits_alone() {
    let mut sys = System::new_resetted();
    sys.p = word::from(0xFFu8);
    sys.clear_Z();
    assert!(!sys.Z());
    assert!(sys.C() && sys.I() && sys.D() && sys.B() && sys.V() && sys.N());
    assert_eq!(sys.p.native_value(), 0xFD);

    let mut sys = System::new_resetted();
    sys.update_V(true);
    assert!(sys.V());
    assert!(!sys.C() && !sys.Z() && !sys.I() && !sys.D() && !sys.B() && !sys.N());
    sys.update_V(false);
    assert_eq!(sys.p.native_value(), 0x00);

    let mut sys = System::new_resetted();
    sys.set_C();
    sys.set_I();
    sys.set_D();
    sys.set_B();
    sys.set_N();
    assert_eq!(sys.p.native_value(), 0x9D);
    sys.clear_C();
    sys.clear_I();
    sys.clear_D();
    sys.clear_B();
    sys.clear_N();
    assert_eq!(sys.p.native_value(), 0x00);
}

#[test]
fn update_flags_zn_follows_the_result_byte() {
    let mut sys = System::new_resetted();
    sys.update_flags_zn(word::from(0x00u8));
    assert!(sys.Z());
    assert!(!sys.N());
    sys.update_flags_zn(word::from(0x80u8));
    assert!(!sys.Z());
    assert!(sys.N());
    sys.update_flags_zn(word::from(0x01u8));
    assert!(!sys.Z());
    assert!(!sys.N());
}

#[test]
fn the_stack_lives_in_the_fixed_page_and_wraps() {
    let mut sys = System::new_resetted();
    sys.push_word(word::from(0xAAu8));
    assert_eq!(sys.s.native_value(), 1);
    assert_eq!(sys.load(doubleword::from(0x0100u16)).native_value(), 0xAA);
    let w = sys.pull_word();
    assert_eq!(w.native_value(), 0xAA);
    assert_eq!(sys.s.native_value(), 0);

    // Pulling past the bottom wraps within the page.
    let w = sys.pull_word();
    assert_eq!(sys.s.native_value(), 0xFF);
    assert_eq!(w.native_value(), 0);

    let mut sys = System::new_resetted();
    sys.push_doubleword(doubleword::from(0x1234u16));
    assert_eq!(sys.s.native_value(), 2);
    assert_eq!(sys.load(doubleword::from(0x0100u16)).native_value(), 0x34);
    assert_eq!(sys.load(doubleword::from(0x0101u16)).native_value(), 0x12);
    let dw = sys.pull_doubleword();
    assert_eq!(dw.native_value(), 0x1234);
    assert_eq!(sys.s.native_value(), 0);
}

#[test]
fn brk_pushes_state_and_rti_restores_it() {
    let mut sys = System::new_resetted();
    sys.pc = doubleword::from(0x8000u16);
    sys.set_C();
    // The interrupt vector reads as zero from the empty cartridge.
    sys.exec(word::from(0x00u8)).unwrap();
    assert_eq!(sys.pc.native_value(), 0x0000);
    assert_eq!(sys.s.native_value(), 3);
    assert!(sys.I());
    // Return address 0x8002 and the break-marked status byte on the stack.
    assert_eq!(sys.load(doubleword::from(0x0100u16)).native_value(), 0x02);
    assert_eq!(sys.load(doubleword::from(0x0101u16)).native_value(), 0x80);
    assert_eq!(sys.load(doubleword::from(0x0102u16)).native_value(), 0x11);

    sys.exec(word::from(0x40u8)).unwrap();
    assert_eq!(sys.pc.native_value(), 0x8002);
    assert_eq!(sys.s.native_value(), 0);
    assert_eq!(sys.p.native_value(), 0x11);
}

#[test]
fn transfers_copy_registers_and_judge_flags() {
    let mut sys = System::new_resetted();
    sys.a = word::from(0x80u8);
    sys.exec(word::from(0xAAu8)).unwrap();  // TAX
    assert_eq!(sys.x.native_value(), 0x80);
    assert!(sys.N());

    sys.exec(word::from(0x9Au8)).unwrap();  // TXS
    assert_eq!(sys.s.native_value(), 0x80);
    // TXS touches no flags: N is still set from TAX.
    assert!(sys.N());

    sys.x = word::from(0x00u8);
    sys.exec(word::from(0xBAu8)).unwrap();  // TSX
    assert_eq!(sys.x.native_value(), 0x80);
    assert!(sys.N());
}

#[test]
fn pha_pla_round_trips_through_the_stack() {
    let mut sys = System::new_resetted();
    sys.a = word::from(0x00u8);
    sys.exec(word::from(0x48u8)).unwrap();  // PHA
    sys.a = word::from(0x42u8);
    sys.exec(word::from(0x68u8)).unwrap();  // PLA
    assert_eq!(sys.a.native_value(), 0x00);
    assert!(sys.Z());
}
