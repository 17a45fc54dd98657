//! The CPU core: register file, status flags, stack discipline, addressing
//! mode resolution, the ALU with its flag-update rules, and the
//! fetch-decode-execute engine.
//!
//! Every state change is stated against [`SysV`], the mathematical view of
//! the whole machine; [`spec_exec`] in this module is the specification of
//! one instruction step.

use vstd::prelude::*;
use crate::datastructures::word;
use crate::datastructures::doubleword;
use crate::datastructures::word_of;
use crate::datastructures::doubleword_of;
use crate::datastructures::InstructionStream;
use crate::memory::Memory;
use crate::memory::MemV;
use crate::memory::EmuFault;
use crate::memory::mem_wf;
use crate::memory::spec_load;
use crate::memory::spec_store;
use crate::memory::spec_write_ok;
use crate::memory::RAM_SIZE_BYTES;
use crate::memory::ROM_SIZE_BYTES;
use crate::decode::Instructions;
use crate::decode::Mode;
use crate::decode::spec_decode;
use crate::decode::spec_mode_len;
use crate::decode::decode;
use crate::decode::mode_len;

verus! {

/// Mask of the carry flag C.
pub const C_BIT: u8 = 1 << 0;

/// Mask of the zero flag Z.
pub const Z_BIT: u8 = 1 << 1;

/// Mask of the interrupt-disable flag I.
pub const I_BIT: u8 = 1 << 2;

/// Mask of the decimal flag D (unused on this host but preserved).
pub const D_BIT: u8 = 1 << 3;

/// Mask of the break flag B.
pub const B_BIT: u8 = 1 << 4;

/// Mask of the overflow flag V.
pub const V_BIT: u8 = 1 << 6;

/// Mask of the negative flag N.
pub const N_BIT: u8 = 1 << 7;

/// Base address of the fixed stack page.
pub const STACK_PAGE: u16 = 0x0100;

/// Whether the masked flag is set in a status byte.
pub open spec fn flag_of(p: u8, mask: u8) -> bool {
    p & mask == mask
}

/// The status byte with the masked flag set.
pub open spec fn flag_set(p: u8, mask: u8) -> u8 {
    p | mask
}

/// The status byte with the masked flag cleared.
pub open spec fn flag_clear(p: u8, mask: u8) -> u8 {
    p & !mask
}

/// The status byte with the masked flag set to `v`.
pub open spec fn flag_update(p: u8, mask: u8, v: bool) -> u8 {
    if v {
        flag_set(p, mask)
    } else {
        flag_clear(p, mask)
    }
}

/// The carry flag of a status byte.
pub open spec fn spec_c(p: u8) -> bool {
    flag_of(p, C_BIT)
}

/// The zero flag of a status byte.
pub open spec fn spec_z(p: u8) -> bool {
    flag_of(p, Z_BIT)
}

/// The interrupt-disable flag of a status byte.
pub open spec fn spec_i(p: u8) -> bool {
    flag_of(p, I_BIT)
}

/// The decimal flag of a status byte.
pub open spec fn spec_d(p: u8) -> bool {
    flag_of(p, D_BIT)
}

/// The break flag of a status byte.
pub open spec fn spec_b(p: u8) -> bool {
    flag_of(p, B_BIT)
}

/// The overflow flag of a status byte.
pub open spec fn spec_v(p: u8) -> bool {
    flag_of(p, V_BIT)
}

/// The negative flag of a status byte.
pub open spec fn spec_n(p: u8) -> bool {
    flag_of(p, N_BIT)
}

/// Updating one flag never disturbs another: reading through a different
/// single-bit mask sees the old value.
pub proof fn lemma_flag_update_isolated(p: u8, mask: u8, other: u8, v: bool)
    requires
        mask & other == 0,
    ensures
        flag_of(flag_update(p, mask, v), other) == flag_of(p, other),
        v ==> flag_of(flag_set(p, mask), mask),
        mask != 0 && !v ==> !flag_of(flag_clear(p, mask), mask),
{
    assert(mask & other == 0 ==> ((p | mask) & other) == (p & other)) by (bit_vector);
    assert(mask & other == 0 ==> ((p & !mask) & other) == (p & other)) by (bit_vector);
    assert((p | mask) & mask == mask) by (bit_vector);
    assert(mask != 0 ==> (p & !mask) & mask != mask) by (bit_vector);
}

/// The mathematical view of the whole machine: registers, status byte,
/// program counter, stack pointer and bus contents.
pub struct SysV {
    pub a: u8,
    pub x: u8,
    pub y: u8,
    pub pc: u16,
    pub s: u8,
    pub p: u8,
    pub mem: MemV,
}

/// Well-formed machine state: the bus has its fixed sizes.
pub open spec fn sys_wf(st: SysV) -> bool {
    mem_wf(st.mem)
}

/// Z and N set from a result byte: Z iff the byte is zero, N iff bit 7 is
/// set.
pub open spec fn spec_setzn(p: u8, v: u8) -> u8 {
    flag_update(flag_update(p, Z_BIT, v == 0), N_BIT, v >= 0x80)
}

/// The 9-bit sum of an add-with-carry.
pub open spec fn adc_sum(a: u8, m: u8, c: bool) -> int {
    a + m + (if c {
        1int
    } else {
        0int
    })
}

/// The result byte of an add-with-carry: the low 8 bits of the 9-bit sum.
pub open spec fn adc_res(a: u8, m: u8, c: bool) -> u8 {
    (adc_sum(a, m, c) % 256) as u8
}

/// The carry out of an add-with-carry: bit 8 of the 9-bit sum.
pub open spec fn adc_cout(a: u8, m: u8, c: bool) -> bool {
    adc_sum(a, m, c) >= 256
}

/// The signed overflow of an add-with-carry: the operands agree in sign and
/// the result's sign differs.
pub open spec fn adc_vout(a: u8, m: u8, c: bool) -> bool {
    ((a < 0x80) == (m < 0x80)) && ((adc_res(a, m, c) < 0x80) != (a < 0x80))
}

/// The status byte after an add-with-carry: C, V, then Z and N.
pub open spec fn spec_p_after_adc(p: u8, a: u8, m: u8, c: bool) -> u8 {
    spec_setzn(
        flag_update(flag_update(p, C_BIT, adc_cout(a, m, c)), V_BIT, adc_vout(a, m, c)),
        adc_res(a, m, c),
    )
}

/// The operand a subtract-with-borrow hands to the adder: the one's
/// complement of the subtrahend.
pub open spec fn sbc_operand(m: u8) -> u8 {
    (255 - m) as u8
}

/// The status byte after a compare: C iff no borrow, then Z and N from the
/// difference.
pub open spec fn spec_compare(p: u8, reg: u8, m: u8) -> u8 {
    spec_setzn(flag_update(p, C_BIT, reg >= m), cmp_diff(reg, m))
}

/// The wrapped difference a compare judges Z and N by.
pub open spec fn cmp_diff(reg: u8, m: u8) -> u8 {
    ((reg + 256 - m) % 256) as u8
}

/// The status byte after a shift whose implementation updates Z and N first
/// and the carry last.
pub open spec fn spec_p_shift_zn_then_c(p: u8, res: u8, carry: bool) -> u8 {
    flag_update(spec_setzn(p, res), C_BIT, carry)
}

/// The status byte after a rotate whose implementation updates the carry
/// first and Z and N last.
pub open spec fn spec_p_c_then_zn(p: u8, res: u8, carry: bool) -> u8 {
    spec_setzn(flag_update(p, C_BIT, carry), res)
}

/// The status byte after a bit test: N and V copied from the operand's top
/// bits, Z from the accumulator mask.
pub open spec fn spec_p_after_bit(p: u8, a: u8, v: u8) -> u8 {
    flag_update(
        flag_update(flag_update(p, N_BIT, v >= 0x80), V_BIT, (v / 64) % 2 == 1),
        Z_BIT,
        a & v == 0,
    )
}

/// A 16-bit little-endian load: low byte at `addr`, high byte right after
/// it, the address wrapping modulo 65536.
pub open spec fn spec_load16(m: MemV, addr: u16) -> u16 {
    (spec_load(m, addr) + 256 * spec_load(m, ((addr + 1) % 0x10000) as u16)) as u16
}

/// A 16-bit little-endian load whose high-byte fetch wraps within the zero
/// page, as the pre- and post-indexed indirect modes do.
pub open spec fn spec_zp_ptr16(m: MemV, ptr: u8) -> u16 {
    (spec_load(m, ptr as u16) + 256 * spec_load(m, ((ptr + 1) % 256) as u16)) as u16
}

/// The operand byte stored right after the opcode.
pub open spec fn spec_imm(st: SysV) -> u8 {
    spec_load(st.mem, ((st.pc + 1) % 0x10000) as u16)
}

/// The little-endian address stored in an instruction's second and third
/// bytes.
pub open spec fn spec_abs_addr(st: SysV) -> u16 {
    (spec_load(st.mem, ((st.pc + 1) % 0x10000) as u16) + 256 * spec_load(
        st.mem,
        ((st.pc + 2) % 0x10000) as u16,
    )) as u16
}

/// Where a taken branch lands: the address after this two-byte instruction
/// plus the sign-extended offset byte, wrapping modulo 65536.
pub open spec fn spec_branch_target(st: SysV) -> u16 {
    let off = spec_imm(st);
    let base = (st.pc + 2) % 0x10000;
    if off < 0x80 {
        ((base + off) % 0x10000) as u16
    } else {
        ((base + off + 0xFF00) % 0x10000) as u16
    }
}

/// The effective address of each addressing mode, or `None` for the modes
/// that name no memory location.
pub open spec fn spec_addr(st: SysV, mode: Mode) -> Option<u16> {
    match mode {
        Mode::Implied => None,
        Mode::Accumulator => None,
        Mode::Immediate => None,
        Mode::ZeroPage => Some(spec_imm(st) as u16),
        Mode::ZeroPageX => Some(((spec_imm(st) + st.x) % 256) as u16),
        Mode::ZeroPageY => Some(((spec_imm(st) + st.y) % 256) as u16),
        Mode::Absolute => Some(spec_abs_addr(st)),
        Mode::AbsoluteX => Some(((spec_abs_addr(st) + st.x) % 0x10000) as u16),
        Mode::AbsoluteY => Some(((spec_abs_addr(st) + st.y) % 0x10000) as u16),
        Mode::Relative => Some(spec_branch_target(st)),
        Mode::Indirect => Some(spec_load16(st.mem, spec_abs_addr(st))),
        Mode::IndirectX => Some(spec_zp_ptr16(st.mem, ((spec_imm(st) + st.x) % 256) as u8)),
        Mode::IndirectY => Some(
            ((spec_zp_ptr16(st.mem, spec_imm(st)) + st.y) % 0x10000) as u16,
        ),
    }
}

/// The operand value of each addressing mode, or `None` for the modes that
/// carry none.
pub open spec fn spec_value(st: SysV, mode: Mode) -> Option<u8> {
    match mode {
        Mode::Implied => None,
        Mode::Relative => None,
        Mode::Accumulator => Some(st.a),
        Mode::Immediate => Some(spec_imm(st)),
        _ => Some(spec_load(st.mem, spec_addr(st, mode).unwrap())),
    }
}

/// One byte pushed: stored at the fixed stack page plus S, then S
/// incremented, wrapping within the page.
pub open spec fn spec_push(st: SysV, v: u8) -> SysV {
    SysV {
        mem: spec_store(st.mem, (STACK_PAGE + st.s) as u16, v),
        s: ((st.s + 1) % 256) as u8,
        ..st
    }
}

/// One byte pulled: S decremented, wrapping within the page, then the byte
/// read at the fixed stack page plus the new S.
pub open spec fn spec_pull(st: SysV) -> (SysV, u8) {
    let s2 = ((st.s + 255) % 256) as u8;
    (SysV { s: s2, ..st }, spec_load(st.mem, (STACK_PAGE + s2) as u16))
}

/// The program counter advanced over the instruction, wrapping modulo
/// 65536.
pub open spec fn spec_pc_next(st: SysV, mode: Mode) -> u16 {
    ((st.pc + spec_mode_len(mode)) % 0x10000) as u16
}

/// Which add-with-carry flavour [`System::op_carry`] runs.
pub enum AddSubMode {
    Add,
    Sub,
}

/// A branch instruction's outcome: the branch target when the condition
/// holds, else the instruction after this two-byte one.
pub open spec fn spec_branch(st: SysV, cond: bool) -> Result<SysV, EmuFault> {
    Ok(
        SysV {
            pc: if cond {
                spec_branch_target(st)
            } else {
                ((st.pc + 2) % 0x10000) as u16
            },
            ..st
        },
    )
}

/// A read-modify-write instruction on memory: the shifted or stepped byte
/// goes back to the operand address, the status byte follows the given
/// formula; a target inside ROM is an illegal write that changes nothing.
pub open spec fn spec_rmw(st: SysV, mode: Mode, res: u8, p2: u8) -> Result<SysV, EmuFault> {
    let ad = spec_addr(st, mode).unwrap();
    if spec_write_ok(ad) {
        Ok(SysV { mem: spec_store(st.mem, ad, res), p: p2, pc: spec_pc_next(st, mode), ..st })
    } else {
        Err(EmuFault::IllegalWrite { address: ad })
    }
}

/// What one instruction does to the machine, for every operation and
/// addressing-mode pair; pairs the decode table never produces fall to a
/// decode fault so that the function is total.
pub open spec fn spec_exec_op(st: SysV, b: u8, op: Instructions, mode: Mode) -> Result<
    SysV,
    EmuFault,
> {
    let nofit = Err::<SysV, EmuFault>(EmuFault::DecodeFault { opcode: b });
    match op {
        Instructions::ORA => match spec_value(st, mode) {
            Some(v) => Ok(
                SysV {
                    a: st.a | v,
                    p: spec_setzn(st.p, st.a | v),
                    pc: spec_pc_next(st, mode),
                    ..st
                },
            ),
            None => nofit,
        },
        Instructions::AND => match spec_value(st, mode) {
            Some(v) => Ok(
                SysV {
                    a: st.a & v,
                    p: spec_setzn(st.p, st.a & v),
                    pc: spec_pc_next(st, mode),
                    ..st
                },
            ),
            None => nofit,
        },
        Instructions::EOR => match spec_value(st, mode) {
            Some(v) => Ok(
                SysV {
                    a: st.a ^ v,
                    p: spec_setzn(st.p, st.a ^ v),
                    pc: spec_pc_next(st, mode),
                    ..st
                },
            ),
            None => nofit,
        },
        Instructions::ADC => match spec_value(st, mode) {
            Some(v) => Ok(
                SysV {
                    a: adc_res(st.a, v, spec_c(st.p)),
                    p: spec_p_after_adc(st.p, st.a, v, spec_c(st.p)),
                    pc: spec_pc_next(st, mode),
                    ..st
                },
            ),
            None => nofit,
        },
        Instructions::SBC => match spec_value(st, mode) {
            Some(v) => Ok(
                SysV {
                    a: adc_res(st.a, sbc_operand(v), spec_c(st.p)),
                    p: spec_p_after_adc(st.p, st.a, sbc_operand(v), spec_c(st.p)),
                    pc: spec_pc_next(st, mode),
                    ..st
                },
            ),
            None => nofit,
        },
        Instructions::CMP => match spec_value(st, mode) {
            Some(v) => Ok(
                SysV { p: spec_compare(st.p, st.a, v), pc: spec_pc_next(st, mode), ..st },
            ),
            None => nofit,
        },
        Instructions::CPX => match spec_value(st, mode) {
            Some(v) => Ok(
                SysV { p: spec_compare(st.p, st.x, v), pc: spec_pc_next(st, mode), ..st },
            ),
            None => nofit,
        },
        Instructions::CPY => match spec_value(st, mode) {
            Some(v) => Ok(
                SysV { p: spec_compare(st.p, st.y, v), pc: spec_pc_next(st, mode), ..st },
            ),
            None => nofit,
        },
        Instructions::BIT => match spec_value(st, mode) {
            Some(v) => Ok(
                SysV { p: spec_p_after_bit(st.p, st.a, v), pc: spec_pc_next(st, mode), ..st },
            ),
            None => nofit,
        },
        Instructions::LDA => match spec_value(st, mode) {
            Some(v) => Ok(
                SysV { a: v, p: spec_setzn(st.p, v), pc: spec_pc_next(st, mode), ..st },
            ),
            None => nofit,
        },
        Instructions::LDX => match spec_value(st, mode) {
            Some(v) => Ok(
                SysV { x: v, p: spec_setzn(st.p, v), pc: spec_pc_next(st, mode), ..st },
            ),
            None => nofit,
        },
        Instructions::LDY => match spec_value(st, mode) {
            Some(v) => Ok(
                SysV { y: v, p: spec_setzn(st.p, v), pc: spec_pc_next(st, mode), ..st },
            ),
            None => nofit,
        },
        Instructions::STA => match spec_addr(st, mode) {
            Some(ad) => if spec_write_ok(ad) {
                Ok(SysV { mem: spec_store(st.mem, ad, st.a), pc: spec_pc_next(st, mode), ..st })
            } else {
                Err(EmuFault::IllegalWrite { address: ad })
            },
            None => nofit,
        },
        Instructions::STX => match spec_addr(st, mode) {
            Some(ad) => if spec_write_ok(ad) {
                Ok(SysV { mem: spec_store(st.mem, ad, st.x), pc: spec_pc_next(st, mode), ..st })
            } else {
                Err(EmuFault::IllegalWrite { address: ad })
            },
            None => nofit,
        },
        Instructions::STY => match spec_addr(st, mode) {
            Some(ad) => if spec_write_ok(ad) {
                Ok(SysV { mem: spec_store(st.mem, ad, st.y), pc: spec_pc_next(st, mode), ..st })
            } else {
                Err(EmuFault::IllegalWrite { address: ad })
            },
            None => nofit,
        },
        Instructions::ASL => if mode is Accumulator {
            Ok(
                SysV {
                    a: ((st.a * 2) % 256) as u8,
                    p: spec_p_shift_zn_then_c(st.p, ((st.a * 2) % 256) as u8, st.a >= 0x80),
                    pc: spec_pc_next(st, mode),
                    ..st
                },
            )
        } else {
            match spec_addr(st, mode) {
                Some(ad) => spec_rmw(
                    st,
                    mode,
                    ((spec_load(st.mem, ad) * 2) % 256) as u8,
                    spec_p_shift_zn_then_c(
                        st.p,
                        ((spec_load(st.mem, ad) * 2) % 256) as u8,
                        spec_load(st.mem, ad) >= 0x80,
                    ),
                ),
                None => nofit,
            }
        },
        Instructions::LSR => if mode is Accumulator {
            Ok(
                SysV {
                    a: (st.a / 2) as u8,
                    p: spec_p_shift_zn_then_c(st.p, (st.a / 2) as u8, st.a % 2 == 1),
                    pc: spec_pc_next(st, mode),
                    ..st
                },
            )
        } else {
            match spec_addr(st, mode) {
                Some(ad) => spec_rmw(
                    st,
                    mode,
                    (spec_load(st.mem, ad) / 2) as u8,
                    spec_p_shift_zn_then_c(
                        st.p,
                        (spec_load(st.mem, ad) / 2) as u8,
                        spec_load(st.mem, ad) % 2 == 1,
                    ),
                ),
                None => nofit,
            }
        },
        Instructions::ROL => if mode is Accumulator {
            Ok(
                SysV {
                    a: rol_res(st.a, spec_c(st.p)),
                    p: spec_p_c_then_zn(st.p, rol_res(st.a, spec_c(st.p)), st.a >= 0x80),
                    pc: spec_pc_next(st, mode),
                    ..st
                },
            )
        } else {
            match spec_addr(st, mode) {
                Some(ad) => spec_rmw(
                    st,
                    mode,
                    rol_res(spec_load(st.mem, ad), spec_c(st.p)),
                    spec_p_c_then_zn(
                        st.p,
                        rol_res(spec_load(st.mem, ad), spec_c(st.p)),
                        spec_load(st.mem, ad) >= 0x80,
                    ),
                ),
                None => nofit,
            }
        },
        Instructions::ROR => if mode is Accumulator {
            Ok(
                SysV {
                    a: ror_res(st.a, spec_c(st.p)),
                    p: spec_p_c_then_zn(st.p, ror_res(st.a, spec_c(st.p)), st.a % 2 == 1),
                    pc: spec_pc_next(st, mode),
                    ..st
                },
            )
        } else {
            match spec_addr(st, mode) {
                Some(ad) => spec_rmw(
                    st,
                    mode,
                    ror_res(spec_load(st.mem, ad), spec_c(st.p)),
                    spec_p_c_then_zn(
                        st.p,
                        ror_res(spec_load(st.mem, ad), spec_c(st.p)),
                        spec_load(st.mem, ad) % 2 == 1,
                    ),
                ),
                None => nofit,
            }
        },
        Instructions::INC => match spec_addr(st, mode) {
            Some(ad) => spec_rmw(
                st,
                mode,
                ((spec_load(st.mem, ad) + 1) % 256) as u8,
                spec_setzn(st.p, ((spec_load(st.mem, ad) + 1) % 256) as u8),
            ),
            None => nofit,
        },
        Instructions::DEC => match spec_addr(st, mode) {
            Some(ad) => spec_rmw(
                st,
                mode,
                ((spec_load(st.mem, ad) + 255) % 256) as u8,
                spec_setzn(st.p, ((spec_load(st.mem, ad) + 255) % 256) as u8),
            ),
            None => nofit,
        },
        Instructions::JMP => match spec_addr(st, mode) {
            Some(ad) => Ok(SysV { pc: ad, ..st }),
            None => nofit,
        },
        Instructions::JSR => match spec_addr(st, mode) {
            Some(ad) => {
                let ret = ((st.pc + 2) % 0x10000) as u16;
                let pushed = spec_push(spec_push(st, (ret % 256) as u8), (ret / 256) as u8);
                Ok(SysV { pc: ad, ..pushed })
            },
            None => nofit,
        },
        Instructions::RTS => {
            let pulled_hi = spec_pull(st);
            let pulled_lo = spec_pull(pulled_hi.0);
            Ok(
                SysV {
                    pc: ((pulled_lo.1 + 256 * pulled_hi.1 + 1) % 0x10000) as u16,
                    ..pulled_lo.0
                },
            )
        },
        Instructions::RTI => {
            let pulled_p = spec_pull(st);
            let pulled_hi = spec_pull(pulled_p.0);
            let pulled_lo = spec_pull(pulled_hi.0);
            Ok(
                SysV {
                    p: pulled_p.1,
                    pc: (pulled_lo.1 + 256 * pulled_hi.1) as u16,
                    ..pulled_lo.0
                },
            )
        },
        Instructions::BRK => {
            let ret = ((st.pc + 2) % 0x10000) as u16;
            let pushed = spec_push(
                spec_push(spec_push(st, (ret % 256) as u8), (ret / 256) as u8),
                flag_set(st.p, B_BIT),
            );
            Ok(
                SysV {
                    p: flag_set(st.p, I_BIT),
                    pc: spec_load16(pushed.mem, 0xFFFE),
                    ..pushed
                },
            )
        },
        Instructions::BPL => spec_branch(st, !spec_n(st.p)),
        Instructions::BMI => spec_branch(st, spec_n(st.p)),
        Instructions::BVC => spec_branch(st, !spec_v(st.p)),
        Instructions::BVS => spec_branch(st, spec_v(st.p)),
        Instructions::BCC => spec_branch(st, !spec_c(st.p)),
        Instructions::BCS => spec_branch(st, spec_c(st.p)),
        Instructions::BNE => spec_branch(st, !spec_z(st.p)),
        Instructions::BEQ => spec_branch(st, spec_z(st.p)),
        Instructions::PHA => Ok(SysV { pc: spec_pc_next(st, mode), ..spec_push(st, st.a) }),
        Instructions::PHP => Ok(SysV { pc: spec_pc_next(st, mode), ..spec_push(st, st.p) }),
        Instructions::PLA => {
            let pulled = spec_pull(st);
            Ok(
                SysV {
                    a: pulled.1,
                    p: spec_setzn(st.p, pulled.1),
                    pc: spec_pc_next(st, mode),
                    ..pulled.0
                },
            )
        },
        Instructions::PLP => {
            let pulled = spec_pull(st);
            Ok(SysV { p: pulled.1, pc: spec_pc_next(st, mode), ..pulled.0 })
        },
        Instructions::TAX => Ok(
            SysV { x: st.a, p: spec_setzn(st.p, st.a), pc: spec_pc_next(st, mode), ..st },
        ),
        Instructions::TAY => Ok(
            SysV { y: st.a, p: spec_setzn(st.p, st.a), pc: spec_pc_next(st, mode), ..st },
        ),
        Instructions::TXA => Ok(
            SysV { a: st.x, p: spec_setzn(st.p, st.x), pc: spec_pc_next(st, mode), ..st },
        ),
        Instructions::TYA => Ok(
            SysV { a: st.y, p: spec_setzn(st.p, st.y), pc: spec_pc_next(st, mode), ..st },
        ),
        Instructions::TSX => Ok(
            SysV { x: st.s, p: spec_setzn(st.p, st.s), pc: spec_pc_next(st, mode), ..st },
        ),
        Instructions::TXS => Ok(SysV { s: st.x, pc: spec_pc_next(st, mode), ..st }),
        Instructions::INX => Ok(
            SysV {
                x: ((st.x + 1) % 256) as u8,
                p: spec_setzn(st.p, ((st.x + 1) % 256) as u8),
                pc: spec_pc_next(st, mode),
                ..st
            },
        ),
        Instructions::INY => Ok(
            SysV {
                y: ((st.y + 1) % 256) as u8,
                p: spec_setzn(st.p, ((st.y + 1) % 256) as u8),
                pc: spec_pc_next(st, mode),
                ..st
            },
        ),
        Instructions::DEX => Ok(
            SysV {
                x: ((st.x + 255) % 256) as u8,
                p: spec_setzn(st.p, ((st.x + 255) % 256) as u8),
                pc: spec_pc_next(st, mode),
                ..st
            },
        ),
        Instructions::DEY => Ok(
            SysV {
                y: ((st.y + 255) % 256) as u8,
                p: spec_setzn(st.p, ((st.y + 255) % 256) as u8),
                pc: spec_pc_next(st, mode),
                ..st
            },
        ),
        Instructions::CLC => Ok(
            SysV { p: flag_clear(st.p, C_BIT), pc: spec_pc_next(st, mode), ..st },
        ),
        Instructions::SEC => Ok(
            SysV { p: flag_set(st.p, C_BIT), pc: spec_pc_next(st, mode), ..st },
        ),
        Instructions::CLI => Ok(
            SysV { p: flag_clear(st.p, I_BIT), pc: spec_pc_next(st, mode), ..st },
        ),
        Instructions::SEI => Ok(
            SysV { p: flag_set(st.p, I_BIT), pc: spec_pc_next(st, mode), ..st },
        ),
        Instructions::CLV => Ok(
            SysV { p: flag_clear(st.p, V_BIT), pc: spec_pc_next(st, mode), ..st },
        ),
        Instructions::CLD => Ok(
            SysV { p: flag_clear(st.p, D_BIT), pc: spec_pc_next(st, mode), ..st },
        ),
        Instructions::SED => Ok(
            SysV { p: flag_set(st.p, D_BIT), pc: spec_pc_next(st, mode), ..st },
        ),
        Instructions::NOP => Ok(SysV { pc: spec_pc_next(st, mode), ..st }),
    }
}

/// A rotate-left result byte: shifted left with the old carry at bit 0.
pub open spec fn rol_res(v: u8, c: bool) -> u8 {
    ((v * 2) % 256 + (if c {
        1int
    } else {
        0int
    })) as u8
}

/// A rotate-right result byte: shifted right with the old carry at bit 7.
pub open spec fn ror_res(v: u8, c: bool) -> u8 {
    (v / 2 + (if c {
        0x80int
    } else {
        0int
    })) as u8
}

/// One instruction step on a given opcode byte: either the decoded
/// instruction's effect, or a decode fault that changes nothing.
#[verifier::opaque]
pub open spec fn spec_exec(st: SysV, b: u8) -> Result<SysV, EmuFault> {
    match spec_decode(b) {
        None => Err(EmuFault::DecodeFault { opcode: b }),
        Some((op, mode)) => spec_exec_op(st, b, op, mode),
    }
}

/// One fetch-decode-execute step from the program counter.
pub open spec fn spec_step(st: SysV) -> Result<SysV, EmuFault> {
    spec_exec(st, spec_load(st.mem, st.pc))
}

/// `n` fetch-decode-execute steps: the final state, paired with the fault
/// that stopped the run early, if one did. A faulting step leaves the state
/// as it was.
pub open spec fn spec_run(st: SysV, n: nat) -> (SysV, Option<EmuFault>)
    decreases n,
{
    if n == 0 {
        (st, None)
    } else {
        match spec_step(st) {
            Err(f) => (st, Some(f)),
            Ok(st2) => spec_run(st2, (n - 1) as nat),
        }
    }
}

/// Flag determinism: the add-with-carry is a pure function — equal operand
/// bytes, carry-in and status byte give an equal result byte and equal
/// carry, overflow, zero and negative flags.
pub proof fn lemma_add_carry_deterministic(
    a1: u8,
    m1: u8,
    c1: bool,
    p1: u8,
    a2: u8,
    m2: u8,
    c2: bool,
    p2: u8,
)
    requires
        a1 == a2,
        m1 == m2,
        c1 == c2,
        p1 == p2,
    ensures
        adc_res(a1, m1, c1) == adc_res(a2, m2, c2),
        spec_p_after_adc(p1, a1, m1, c1) == spec_p_after_adc(p2, a2, m2, c2),
{
}

/// The running machine: register file, status byte and the address bus.
pub struct System {
    /// Accumulator.
    pub a: word,
    /// Index register X.
    pub x: word,
    /// Index register Y.
    pub y: word,
    /// Program counter.
    pub pc: doubleword,
    /// Processor stack register.
    pub s: word,
    /// Processor status register.
    pub p: word,
    /// The address bus.
    pub mem: Memory,
}

impl View for System {
    type V = SysV;

    open spec fn view(&self) -> SysV {
        SysV {
            a: self.a@,
            x: self.x@,
            y: self.y@,
            pc: self.pc@,
            s: self.s@,
            p: self.p@,
            mem: self.mem@,
        }
    }
}

impl System {
    /// Well-formed machine: the bus has its fixed sizes.
    pub open spec fn wf(&self) -> bool {
        sys_wf(self@)
    }

    /// A machine with zeroed registers, zeroed RAM and an empty cartridge.
    pub fn new_resetted() -> (r: Self)
        ensures
            r.wf(),
            r@.a == 0 && r@.x == 0 && r@.y == 0 && r@.pc == 0 && r@.s == 0 && r@.p == 0,
            forall|i: int| 0 <= i < RAM_SIZE_BYTES ==> r@.mem.ram[i] == 0,
            forall|i: int| 0 <= i < ROM_SIZE_BYTES ==> r@.mem.rom[i] == 0,
    {
        Self {
            a: word::zero(),
            x: word::zero(),
            y: word::zero(),
            pc: doubleword::zero(),
            s: word::zero(),
            p: word::zero(),
            mem: Memory::new_resetted(),
        }
    }

    /// Zeroes every register; the bus contents stay as they are.
    pub fn reset(&mut self)
        ensures
            final(self)@ == (SysV {
                a: 0,
                x: 0,
                y: 0,
                pc: 0,
                s: 0,
                p: 0,
                mem: old(self)@.mem,
            }),
    {
        self.a = word::zero();
        self.x = word::zero();
        self.y = word::zero();
        self.s = word::zero();
        self.p = word::zero();
        self.pc = doubleword::zero();
    }

    /// The fault value of an opcode byte with no table entry.
    #[inline]
    pub fn illegal_op(instr: word) -> (r: EmuFault)
        ensures
            r == (EmuFault::DecodeFault { opcode: instr@ }),
    {
        EmuFault::DecodeFault { opcode: instr.cpu_value() }
    }

    /// Stores one byte through the bus; a store aimed at ROM is refused and
    /// changes nothing.
    #[inline]
    pub fn store(&mut self, address: doubleword, data: word) -> (r: Result<(), EmuFault>)
        requires
            old(self).wf(),
        ensures
            final(self).wf(),
            spec_write_ok(address@) ==> r == Ok::<(), EmuFault>(()) && final(self)@ == (SysV {
                mem: spec_store(old(self)@.mem, address@, data@),
                ..old(self)@
            }),
            !spec_write_ok(address@) ==> r == Err::<(), EmuFault>(
                EmuFault::IllegalWrite { address: address@ },
            ) && final(self)@ == old(self)@,
    {
        self.mem.store(address, data)
    }

    /// Loads one byte through the bus; never fails, unmapped ranges read as
    /// zero.
    #[inline]
    pub fn load(&mut self, address: doubleword) -> (r: word)
        requires
            old(self).wf(),
        ensures
            final(self)@ == old(self)@,
            r@ == spec_load(old(self)@.mem, address@),
    {
        self.mem.load(address)
    }

    /// Loads one byte, interpreting it as a signed address offset.
    pub fn load_offset(&mut self, address: doubleword) -> (r: i16)
        requires
            old(self).wf(),
        ensures
            final(self)@ == old(self)@,
            r == (spec_load(old(self)@.mem, address@) as i8) as i16,
    {
        self.mem.load(address).native_value_signed() as i16
    }

    /// Loads a 16-bit little-endian value: low byte at `address`, high byte
    /// right after it.
    #[inline]
    pub fn load_doubleword(&mut self, address: doubleword) -> (r: doubleword)
        requires
            old(self).wf(),
        ensures
            final(self)@ == old(self)@,
            r@ == spec_load16(old(self)@.mem, address@),
    {
        let lo = self.mem.load(address);
        let hi = self.mem.load(address.carryless_add(doubleword::from_6502_bytes(1)));
        doubleword::from_words(hi, lo)
    }

    /// Pushes one byte onto the stack page and increments S, wrapping within
    /// the page.
    #[inline]
    pub fn push_word(&mut self, data: word)
        requires
            old(self).wf(),
        ensures
            final(self).wf(),
            final(self)@ == spec_push(old(self)@, data@),
    {
        let addr = doubleword::from_6502_bytes(STACK_PAGE + self.s.native_value() as u16);
        let _ = self.mem.store(addr, data);
        self.s = self.s.carryless_add(word::from_6502_bytes(1));
    }

    /// Pushes a 16-bit value as two bytes, low byte first.
    #[inline]
    pub fn push_doubleword(&mut self, data: doubleword)
        requires
            old(self).wf(),
        ensures
            final(self).wf(),
            final(self)@ == spec_push(
                spec_push(old(self)@, (data@ % 256) as u8),
                (data@ / 256) as u8,
            ),
    {
        let words = data.to_words();
        self.push_word(words.0);
        self.push_word(words.1);
    }

    /// Pulls one byte: decrements S, wrapping within the page, and reads at
    /// the new S. More commonly called 'pop'.
    #[inline]
    pub fn pull_word(&mut self) -> (r: word)
        requires
            old(self).wf(),
        ensures
            final(self).wf(),
            final(self)@ == spec_pull(old(self)@).0,
            r@ == spec_pull(old(self)@).1,
    {
        self.s = self.s.carryless_add(word::from_6502_bytes(255));
        let addr = doubleword::from_6502_bytes(STACK_PAGE + self.s.native_value() as u16);
        self.load(addr)
    }

    /// Pulls a 16-bit value pushed by [`Self::push_doubleword`]: the high
    /// byte comes off first, then the low byte.
    #[inline]
    pub fn pull_doubleword(&mut self) -> (r: doubleword)
        requires
            old(self).wf(),
        ensures
            final(self).wf(),
            final(self)@ == spec_pull(spec_pull(old(self)@).0).0,
            r@ == spec_pull(spec_pull(old(self)@).0).1 + 256 * spec_pull(old(self)@).1,
    {
        let hi = self.pull_word();
        let lo = self.pull_word();
        doubleword::from_words(hi, lo)
    }

    /// Advances the program counter by `n` bytes, wrapping modulo 65536.
    #[inline]
    pub fn advance_pc(&mut self, n: u16)
        ensures
            final(self)@ == (SysV { pc: ((old(self)@.pc + n) % 0x10000) as u16, ..old(self)@ }),
    {
        self.pc = self.pc.carryless_add(doubleword::from_6502_bytes(n));
    }

    /// Advances program execution by 1 byte.
    #[inline]
    pub fn advance_pc_1(&mut self)
        ensures
            final(self)@ == (SysV { pc: ((old(self)@.pc + 1) % 0x10000) as u16, ..old(self)@ }),
    {
        self.advance_pc(1);
    }

    /// Advances program execution by 2 bytes.
    #[inline]
    pub fn advance_pc_2(&mut self)
        ensures
            final(self)@ == (SysV { pc: ((old(self)@.pc + 2) % 0x10000) as u16, ..old(self)@ }),
    {
        self.advance_pc(2);
    }

    /// Advances program execution by 3 bytes.
    #[inline]
    pub fn advance_pc_3(&mut self)
        ensures
            final(self)@ == (SysV { pc: ((old(self)@.pc + 3) % 0x10000) as u16, ..old(self)@ }),
    {
        self.advance_pc(3);
    }

    /// Takes the branch whose signed offset byte sits at PC + 1: the program
    /// counter moves past this two-byte instruction and then by the offset.
    #[inline]
    pub fn relative_jump(&mut self)
        requires
            old(self).wf(),
        ensures
            final(self)@ == (SysV { pc: spec_branch_target(old(self)@), ..old(self)@ }),
    {
        let target = self.relative_value();
        self.pc = target;
    }

    // =============== Helpers for retrieving operands ===============

    /// The immediate operand: the byte at PC + 1.
    #[inline]
    pub fn immediate_value(&mut self) -> (r: word)
        requires
            old(self).wf(),
        ensures
            final(self)@ == old(self)@,
            r@ == spec_imm(old(self)@),
    {
        let addr = self.pc.carryless_add(doubleword::from_6502_bytes(1));
        self.load(addr)
    }

    /// The immediate operand zero-extended to an address; this doubles as
    /// the zero-page effective address.
    pub fn immediate_address(&mut self) -> (r: doubleword)
        requires
            old(self).wf(),
        ensures
            final(self)@ == old(self)@,
            r@ == spec_imm(old(self)@) as u16,
    {
        self.immediate_value().as_doubleword()
    }

    /// The zero-page effective address: the operand byte zero-extended.
    #[inline]
    pub fn zeropage_address(&mut self) -> (r: doubleword)
        requires
            old(self).wf(),
        ensures
            final(self)@ == old(self)@,
            r@ == spec_addr(old(self)@, Mode::ZeroPage).unwrap(),
    {
        self.immediate_address()
    }

    /// The X-indexed zero-page address; the sum wraps within the zero page.
    #[inline]
    pub fn zeropage_address_x(&mut self) -> (r: doubleword)
        requires
            old(self).wf(),
        ensures
            final(self)@ == old(self)@,
            r@ == spec_addr(old(self)@, Mode::ZeroPageX).unwrap(),
    {
        let x = self.x;
        self.immediate_value().carryless_add(x).as_doubleword()
    }

    /// The Y-indexed zero-page address; the sum wraps within the zero page.
    #[inline]
    pub fn zeropage_address_y(&mut self) -> (r: doubleword)
        requires
            old(self).wf(),
        ensures
            final(self)@ == old(self)@,
            r@ == spec_addr(old(self)@, Mode::ZeroPageY).unwrap(),
    {
        let y = self.y;
        self.immediate_value().carryless_add(y).as_doubleword()
    }

    /// The value at the zero-page address.
    #[inline]
    pub fn zeropage_value(&mut self) -> (r: word)
        requires
            old(self).wf(),
        ensures
            final(self)@ == old(self)@,
            r@ == spec_value(old(self)@, Mode::ZeroPage).unwrap(),
    {
        let addr = self.zeropage_address();
        self.load(addr)
    }

    /// The value at the X-indexed zero-page address.
    #[inline]
    pub fn zeropage_value_x(&mut self) -> (r: word)
        requires
            old(self).wf(),
        ensures
            final(self)@ == old(self)@,
            r@ == spec_value(old(self)@, Mode::ZeroPageX).unwrap(),
    {
        let addr = self.zeropage_address_x();
        self.load(addr)
    }

    /// The value at the Y-indexed zero-page address.
    #[inline]
    pub fn zeropage_value_y(&mut self) -> (r: word)
        requires
            old(self).wf(),
        ensures
            final(self)@ == old(self)@,
            r@ == spec_value(old(self)@, Mode::ZeroPageY).unwrap(),
    {
        let addr = self.zeropage_address_y();
        self.load(addr)
    }

    /// The little-endian address in the instruction's second and third
    /// bytes.
    #[inline]
    pub fn absolute_address(&mut self) -> (r: doubleword)
        requires
            old(self).wf(),
        ensures
            final(self)@ == old(self)@,
            r@ == spec_abs_addr(old(self)@),
    {
        let hi_addr = self.pc.carryless_add(doubleword::from_6502_bytes(2));
        let lo_addr = self.pc.carryless_add(doubleword::from_6502_bytes(1));
        let hi = self.load(hi_addr);
        let lo = self.load(lo_addr);
        doubleword::from_words(hi, lo)
    }

    /// The value at the absolute address.
    #[inline]
    pub fn absolute_value(&mut self) -> (r: word)
        requires
            old(self).wf(),
        ensures
            final(self)@ == old(self)@,
            r@ == spec_value(old(self)@, Mode::Absolute).unwrap(),
    {
        let addr = self.absolute_address();
        self.load(addr)
    }

    /// The X-indexed absolute address, wrapping modulo 65536.
    #[inline]
    pub fn absolute_address_x(&mut self) -> (r: doubleword)
        requires
            old(self).wf(),
        ensures
            final(self)@ == old(self)@,
            r@ == spec_addr(old(self)@, Mode::AbsoluteX).unwrap(),
    {
        let x = self.x;
        self.absolute_address().carryless_add_word(x)
    }

    /// The Y-indexed absolute address, wrapping modulo 65536.
    #[inline]
    pub fn absolute_address_y(&mut self) -> (r: doubleword)
        requires
            old(self).wf(),
        ensures
            final(self)@ == old(self)@,
            r@ == spec_addr(old(self)@, Mode::AbsoluteY).unwrap(),
    {
        let y = self.y;
        self.absolute_address().carryless_add_word(y)
    }

    /// The address stored at the absolute address: the indirect jump's
    /// target.
    #[inline]
    pub fn indirect_address(&mut self) -> (r: doubleword)
        requires
            old(self).wf(),
        ensures
            final(self)@ == old(self)@,
            r@ == spec_addr(old(self)@, Mode::Indirect).unwrap(),
    {
        let pointer = self.absolute_address();
        self.load_doubleword(pointer)
    }

    /// The value at the indirect address.
    #[inline]
    pub fn indirect_value(&mut self) -> (r: word)
        requires
            old(self).wf(),
        ensures
            final(self)@ == old(self)@,
            r@ == spec_value(old(self)@, Mode::Indirect).unwrap(),
    {
        let addr = self.indirect_address();
        self.load(addr)
    }

    /// The pre-indexed indirect address: the operand byte plus X names a
    /// zero-page pointer whose high-byte fetch wraps within the zero page.
    #[inline]
    pub fn indirect_address_x(&mut self) -> (r: doubleword)
        requires
            old(self).wf(),
        ensures
            final(self)@ == old(self)@,
            r@ == spec_addr(old(self)@, Mode::IndirectX).unwrap(),
    {
        let x = self.x;
        let ptr = self.immediate_value().carryless_add(x);
        let lo = self.load(ptr.as_doubleword());
        let hi = self.load(ptr.carryless_add(word::from_6502_bytes(1)).as_doubleword());
        doubleword::from_words(hi, lo)
    }

    /// The value at the pre-indexed indirect address.
    #[inline]
    pub fn indirect_value_x(&mut self) -> (r: word)
        requires
            old(self).wf(),
        ensures
            final(self)@ == old(self)@,
            r@ == spec_value(old(self)@, Mode::IndirectX).unwrap(),
    {
        let addr = self.indirect_address_x();
        self.load(addr)
    }

    /// The post-indexed indirect address: the operand byte names a zero-page
    /// pointer; Y is added to the 16-bit base found there, wrapping modulo
    /// 65536.
    #[inline]
    pub fn indirect_address_y(&mut self) -> (r: doubleword)
        requires
            old(self).wf(),
        ensures
            final(self)@ == old(self)@,
            r@ == spec_addr(old(self)@, Mode::IndirectY).unwrap(),
    {
        let y = self.y;
        let ptr = self.immediate_value();
        let lo = self.load(ptr.as_doubleword());
        let hi = self.load(ptr.carryless_add(word::from_6502_bytes(1)).as_doubleword());
        doubleword::from_words(hi, lo).carryless_add_word(y)
    }

    /// The value at the post-indexed indirect address.
    #[inline]
    pub fn indirect_value_y(&mut self) -> (r: word)
        requires
            old(self).wf(),
        ensures
            final(self)@ == old(self)@,
            r@ == spec_value(old(self)@, Mode::IndirectY).unwrap(),
    {
        let addr = self.indirect_address_y();
        self.load(addr)
    }

    /// Where a taken branch would land, the offset read at PC + 1.
    #[inline]
    pub fn relative_value(&mut self) -> (r: doubleword)
        requires
            old(self).wf(),
        ensures
            final(self)@ == old(self)@,
            r@ == spec_branch_target(old(self)@),
    {
        let off = self.immediate_value().native_value();
        let base = self.pc.carryless_add(doubleword::from_6502_bytes(2));
        if off < 0x80 {
            base.carryless_add(doubleword::from_6502_bytes(off as u16))
        } else {
            base.carryless_add(doubleword::from_6502_bytes(off as u16 + 0xFF00))
        }
    }

    /// Takes the branch when the condition holds, else falls through to the
    /// next instruction.
    #[inline]
    pub fn branch_on(&mut self, val: bool)
        requires
            old(self).wf(),
        ensures
            final(self)@ == (SysV {
                pc: if val {
                    spec_branch_target(old(self)@)
                } else {
                    ((old(self)@.pc + 2) % 0x10000) as u16
                },
                ..old(self)@
            }),
    {
        match val {
            true => self.relative_jump(),
            false => self.advance_pc_2(),
        }
    }

    // =============== Named flag accessors ===============

    /// Reads the carry flag C.
    #[inline]
    #[allow(non_snake_case)]
    pub fn C(&self) -> (r: bool)
        ensures
            r == spec_c(self@.p),
    {
        self.p.native_value() & C_BIT == C_BIT
    }

    /// Sets the carry flag C.
    #[inline]
    #[allow(non_snake_case)]
    pub fn set_C(&mut self)
        ensures
            final(self)@ == (SysV { p: flag_set(old(self)@.p, C_BIT), ..old(self)@ }),
    {
        self.p = word::from_6502_bytes(self.p.native_value() | C_BIT);
    }

    /// Clears the carry flag C.
    #[inline]
    #[allow(non_snake_case)]
    pub fn clear_C(&mut self)
        ensures
            final(self)@ == (SysV { p: flag_clear(old(self)@.p, C_BIT), ..old(self)@ }),
    {
        self.p = word::from_6502_bytes(self.p.native_value() & !C_BIT);
    }

    /// Sets the carry flag C to `val`.
    #[inline]
    #[allow(non_snake_case)]
    pub fn update_C(&mut self, val: bool)
        ensures
            final(self)@ == (SysV { p: flag_update(old(self)@.p, C_BIT, val), ..old(self)@ }),
    {
        match val {
            true => self.set_C(),
            false => self.clear_C(),
        }
    }

    /// Reads the zero flag Z.
    #[inline]
    #[allow(non_snake_case)]
    pub fn Z(&self) -> (r: bool)
        ensures
            r == spec_z(self@.p),
    {
        self.p.native_value() & Z_BIT == Z_BIT
    }

    /// Sets the zero flag Z.
    #[inline]
    #[allow(non_snake_case)]
    pub fn set_Z(&mut self)
        ensures
            final(self)@ == (SysV { p: flag_set(old(self)@.p, Z_BIT), ..old(self)@ }),
    {
        self.p = word::from_6502_bytes(self.p.native_value() | Z_BIT);
    }

    /// Clears the zero flag Z.
    #[inline]
    #[allow(non_snake_case)]
    pub fn clear_Z(&mut self)
        ensures
            final(self)@ == (SysV { p: flag_clear(old(self)@.p, Z_BIT), ..old(self)@ }),
    {
        self.p = word::from_6502_bytes(self.p.native_value() & !Z_BIT);
    }

    /// Sets the zero flag Z to `val`.
    #[inline]
    #[allow(non_snake_case)]
    pub fn update_Z(&mut self, val: bool)
        ensures
            final(self)@ == (SysV { p: flag_update(old(self)@.p, Z_BIT, val), ..old(self)@ }),
    {
        match val {
            true => self.set_Z(),
            false => self.clear_Z(),
        }
    }

    /// Reads the interrupt-disable flag I.
    #[inline]
    #[allow(non_snake_case)]
    pub fn I(&self) -> (r: bool)
        ensures
            r == spec_i(self@.p),
    {
        self.p.native_value() & I_BIT == I_BIT
    }

    /// Sets the interrupt-disable flag I.
    #[inline]
    #[allow(non_snake_case)]
    pub fn set_I(&mut self)
        ensures
            final(self)@ == (SysV { p: flag_set(old(self)@.p, I_BIT), ..old(self)@ }),
    {
        self.p = word::from_6502_bytes(self.p.native_value() | I_BIT);
    }

    /// Clears the interrupt-disable flag I.
    #[inline]
    #[allow(non_snake_case)]
    pub fn clear_I(&mut self)
        ensures
            final(self)@ == (SysV { p: flag_clear(old(self)@.p, I_BIT), ..old(self)@ }),
    {
        self.p = word::from_6502_bytes(self.p.native_value() & !I_BIT);
    }

    /// Sets the interrupt-disable flag I to `val`.
    #[inline]
    #[allow(non_snake_case)]
    pub fn update_I(&mut self, val: bool)
        ensures
            final(self)@ == (SysV { p: flag_update(old(self)@.p, I_BIT, val), ..old(self)@ }),
    {
        match val {
            true => self.set_I(),
            false => self.clear_I(),
        }
    }

    /// Reads the decimal flag D.
    #[inline]
    #[allow(non_snake_case)]
    pub fn D(&self) -> (r: bool)
        ensures
            r == spec_d(self@.p),
    {
        self.p.native_value() & D_BIT == D_BIT
    }

    /// Sets the decimal flag D.
    #[inline]
    #[allow(non_snake_case)]
    pub fn set_D(&mut self)
        ensures
            final(self)@ == (SysV { p: flag_set(old(self)@.p, D_BIT), ..old(self)@ }),
    {
        self.p = word::from_6502_bytes(self.p.native_value() | D_BIT);
    }

    /// Clears the decimal flag D.
    #[inline]
    #[allow(non_snake_case)]
    pub fn clear_D(&mut self)
        ensures
            final(self)@ == (SysV { p: flag_clear(old(self)@.p, D_BIT), ..old(self)@ }),
    {
        self.p = word::from_6502_bytes(self.p.native_value() & !D_BIT);
    }

    /// Sets the decimal flag D to `val`.
    #[inline]
    #[allow(non_snake_case)]
    pub fn update_D(&mut self, val: bool)
        ensures
            final(self)@ == (SysV { p: flag_update(old(self)@.p, D_BIT, val), ..old(self)@ }),
    {
        match val {
            true => self.set_D(),
            false => self.clear_D(),
        }
    }

    /// Reads the break flag B.
    #[inline]
    #[allow(non_snake_case)]
    pub fn B(&self) -> (r: bool)
        ensures
            r == spec_b(self@.p),
    {
        self.p.native_value() & B_BIT == B_BIT
    }

    /// Sets the break flag B.
    #[inline]
    #[allow(non_snake_case)]
    pub fn set_B(&mut self)
        ensures
            final(self)@ == (SysV { p: flag_set(old(self)@.p, B_BIT), ..old(self)@ }),
    {
        self.p = word::from_6502_bytes(self.p.native_value() | B_BIT);
    }

    /// Clears the break flag B.
    #[inline]
    #[allow(non_snake_case)]
    pub fn clear_B(&mut self)
        ensures
            final(self)@ == (SysV { p: flag_clear(old(self)@.p, B_BIT), ..old(self)@ }),
    {
        self.p = word::from_6502_bytes(self.p.native_value() & !B_BIT);
    }

    /// Sets the break flag B to `val`.
    #[inline]
    #[allow(non_snake_case)]
    pub fn update_B(&mut self, val: bool)
        ensures
            final(self)@ == (SysV { p: flag_update(old(self)@.p, B_BIT, val), ..old(self)@ }),
    {
        match val {
            true => self.set_B(),
            false => self.clear_B(),
        }
    }

    /// Reads the overflow flag V.
    #[inline]
    #[allow(non_snake_case)]
    pub fn V(&self) -> (r: bool)
        ensures
            r == spec_v(self@.p),
    {
        self.p.native_value() & V_BIT == V_BIT
    }

    /// Sets the overflow flag V.
    #[inline]
    #[allow(non_snake_case)]
    pub fn set_V(&mut self)
        ensures
            final(self)@ == (SysV { p: flag_set(old(self)@.p, V_BIT), ..old(self)@ }),
    {
        self.p = word::from_6502_bytes(self.p.native_value() | V_BIT);
    }

    /// Clears the overflow flag V.
    #[inline]
    #[allow(non_snake_case)]
    pub fn clear_V(&mut self)
        ensures
            final(self)@ == (SysV { p: flag_clear(old(self)@.p, V_BIT), ..old(self)@ }),
    {
        self.p = word::from_6502_bytes(self.p.native_value() & !V_BIT);
    }

    /// Sets the overflow flag V to `val`.
    #[inline]
    #[allow(non_snake_case)]
    pub fn update_V(&mut self, val: bool)
        ensures
            final(self)@ == (SysV { p: flag_update(old(self)@.p, V_BIT, val), ..old(self)@ }),
    {
        match val {
            true => self.set_V(),
            false => self.clear_V(),
        }
    }

    /// Reads the negative flag N.
    #[inline]
    #[allow(non_snake_case)]
    pub fn N(&self) -> (r: bool)
        ensures
            r == spec_n(self@.p),
    {
        self.p.native_value() & N_BIT == N_BIT
    }

    /// Sets the negative flag N.
    #[inline]
    #[allow(non_snake_case)]
    pub fn set_N(&mut self)
        ensures
            final(self)@ == (SysV { p: flag_set(old(self)@.p, N_BIT), ..old(self)@ }),
    {
        self.p = word::from_6502_bytes(self.p.native_value() | N_BIT);
    }

    /// Clears the negative flag N.
    #[inline]
    #[allow(non_snake_case)]
    pub fn clear_N(&mut self)
        ensures
            final(self)@ == (SysV { p: flag_clear(old(self)@.p, N_BIT), ..old(self)@ }),
    {
        self.p = word::from_6502_bytes(self.p.native_value() & !N_BIT);
    }

    /// Sets the negative flag N to `val`.
    #[inline]
    #[allow(non_snake_case)]
    pub fn update_N(&mut self, val: bool)
        ensures
            final(self)@ == (SysV { p: flag_update(old(self)@.p, N_BIT, val), ..old(self)@ }),
    {
        match val {
            true => self.set_N(),
            false => self.clear_N(),
        }
    }

    // =============== The ALU and its flag-update rules ===============

    /// Sets Z and N from a result byte: Z iff zero, N iff bit 7.
    #[inline]
    pub fn update_flags_zn(&mut self, val: word)
        ensures
            final(self)@ == (SysV { p: spec_setzn(old(self)@.p, val@), ..old(self)@ }),
    {
        self.update_Z(val.native_value() == 0);
        self.update_N(val.native_value() >= 0x80);
    }

    /// The 6502 compare: judges `lhs - rhs` without storing it. C is set iff
    /// no borrow occurred, Z and N follow the difference.
    #[inline]
    pub fn compare(&mut self, lhs: word, rhs: word)
        ensures
            final(self)@ == (SysV {
                p: spec_compare(old(self)@.p, lhs@, rhs@),
                ..old(self)@
            }),
    {
        self.update_C(lhs.native_value() >= rhs.native_value());
        let diff: u16 = (lhs.native_value() as u16 + 256 - rhs.native_value() as u16) % 256;
        self.update_flags_zn(word::from_6502_bytes(diff as u8));
    }

    /// Bitwise OR; updates Z and N from the result.
    #[inline]
    pub fn or(&mut self, lhs: word, rhs: word) -> (r: word)
        ensures
            r@ == (lhs@ | rhs@),
            final(self)@ == (SysV { p: spec_setzn(old(self)@.p, lhs@ | rhs@), ..old(self)@ }),
    {
        let ret = word::from_6502_bytes(lhs.native_value() | rhs.native_value());
        self.update_flags_zn(ret);
        ret
    }

    /// Bitwise AND; updates Z and N from the result.
    #[inline]
    pub fn and(&mut self, lhs: word, rhs: word) -> (r: word)
        ensures
            r@ == (lhs@ & rhs@),
            final(self)@ == (SysV { p: spec_setzn(old(self)@.p, lhs@ & rhs@), ..old(self)@ }),
    {
        let ret = word::from_6502_bytes(lhs.native_value() & rhs.native_value());
        self.update_flags_zn(ret);
        ret
    }

    /// Bitwise exclusive OR; updates Z and N from the result.
    #[inline]
    pub fn eor(&mut self, lhs: word, rhs: word) -> (r: word)
        ensures
            r@ == (lhs@ ^ rhs@),
            final(self)@ == (SysV { p: spec_setzn(old(self)@.p, lhs@ ^ rhs@), ..old(self)@ }),
    {
        let ret = word::from_6502_bytes(lhs.native_value() ^ rhs.native_value());
        self.update_flags_zn(ret);
        ret
    }

    /// Bitwise exclusive OR, under its other customary name.
    #[inline]
    pub fn xor(&mut self, lhs: word, rhs: word) -> (r: word)
        ensures
            r@ == (lhs@ ^ rhs@),
            final(self)@ == (SysV { p: spec_setzn(old(self)@.p, lhs@ ^ rhs@), ..old(self)@ }),
    {
        self.eor(lhs, rhs)
    }

    /// The carry-coupled adder behind ADC and SBC: a 9-bit sum of the
    /// accumulator, the (possibly complemented) operand and the carry flag.
    /// Updates C from bit 8, V from signed overflow, then Z and N; hands
    /// back the result byte without storing it.
    #[inline]
    pub fn op_carry(&mut self, val: word, mode: AddSubMode) -> (r: word)
        ensures
            mode is Add ==> r@ == adc_res(old(self)@.a, val@, spec_c(old(self)@.p))
                && final(self)@ == (SysV {
                p: spec_p_after_adc(old(self)@.p, old(self)@.a, val@, spec_c(old(self)@.p)),
                ..old(self)@
            }),
            mode is Sub ==> r@ == adc_res(
                old(self)@.a,
                sbc_operand(val@),
                spec_c(old(self)@.p),
            ) && final(self)@ == (SysV {
                p: spec_p_after_adc(
                    old(self)@.p,
                    old(self)@.a,
                    sbc_operand(val@),
                    spec_c(old(self)@.p),
                ),
                ..old(self)@
            }),
    {
        let m: u8 = match mode {
            AddSubMode::Add => val.native_value(),
            AddSubMode::Sub => 255 - val.native_value(),
        };
        let a = self.a.native_value();
        let c: u16 = if self.C() {
            1
        } else {
            0
        };
        let sum: u16 = a as u16 + m as u16 + c;
        let res: u8 = (sum % 256) as u8;
        let cout = sum >= 256;
        let vout = ((a < 0x80) == (m < 0x80)) && ((res < 0x80) != (a < 0x80));
        self.update_C(cout);
        self.update_V(vout);
        self.update_flags_zn(word::from_6502_bytes(res));
        word::from_6502_bytes(res)
    }

    /// Add with carry: see [`Self::op_carry`].
    #[inline]
    pub fn adc(&mut self, val: word) -> (r: word)
        ensures
            r@ == adc_res(old(self)@.a, val@, spec_c(old(self)@.p)),
            final(self)@ == (SysV {
                p: spec_p_after_adc(old(self)@.p, old(self)@.a, val@, spec_c(old(self)@.p)),
                ..old(self)@
            }),
    {
        self.op_carry(val, AddSubMode::Add)
    }

    /// Add with carry, under its long name; equivalent to [`Self::adc`].
    #[inline]
    pub fn add_carry(&mut self, val: word) -> (r: word)
        ensures
            r@ == adc_res(old(self)@.a, val@, spec_c(old(self)@.p)),
            final(self)@ == (SysV {
                p: spec_p_after_adc(old(self)@.p, old(self)@.a, val@, spec_c(old(self)@.p)),
                ..old(self)@
            }),
    {
        self.adc(val)
    }

    /// Subtract with carry: the adder run on the complemented operand with
    /// borrow-in `1 - C`.
    #[inline]
    pub fn sbc(&mut self, val: word) -> (r: word)
        ensures
            r@ == adc_res(old(self)@.a, sbc_operand(val@), spec_c(old(self)@.p)),
            final(self)@ == (SysV {
                p: spec_p_after_adc(
                    old(self)@.p,
                    old(self)@.a,
                    sbc_operand(val@),
                    spec_c(old(self)@.p),
                ),
                ..old(self)@
            }),
    {
        self.op_carry(val, AddSubMode::Sub)
    }

    /// Subtract with carry, under its long name; equivalent to [`Self::sbc`].
    #[inline]
    pub fn sub_carry(&mut self, val: word) -> (r: word)
        ensures
            r@ == adc_res(old(self)@.a, sbc_operand(val@), spec_c(old(self)@.p)),
            final(self)@ == (SysV {
                p: spec_p_after_adc(
                    old(self)@.p,
                    old(self)@.a,
                    sbc_operand(val@),
                    spec_c(old(self)@.p),
                ),
                ..old(self)@
            }),
    {
        self.sbc(val)
    }

    /// Arithmetic shift left: updates Z and N from the result, C from the
    /// bit shifted out; hands back the result without storing it.
    #[inline]
    pub fn asl(&mut self, val: word) -> (r: word)
        ensures
            r@ == (val@ * 2) % 256,
            final(self)@ == (SysV {
                p: spec_p_shift_zn_then_c(old(self)@.p, ((val@ * 2) % 256) as u8, val@ >= 0x80),
                ..old(self)@
            }),
    {
        let (ret, carry) = val.arith_shift_left_carry();
        self.update_flags_zn(ret);
        self.update_C(carry);
        ret
    }

    /// Logical shift right: updates Z and N from the result, C from the bit
    /// shifted out; hands back the result without storing it.
    #[inline]
    pub fn lsr(&mut self, val: word) -> (r: word)
        ensures
            r@ == val@ / 2,
            final(self)@ == (SysV {
                p: spec_p_shift_zn_then_c(old(self)@.p, (val@ / 2) as u8, val@ % 2 == 1),
                ..old(self)@
            }),
    {
        let (ret, carry) = val.logical_shift_right_carry();
        self.update_flags_zn(ret);
        self.update_C(carry);
        ret
    }

    /// Rotate left through the carry: updates C from the bit rotated out,
    /// then Z and N; hands back the result without storing it.
    #[inline]
    pub fn rol(&mut self, val: word) -> (r: word)
        ensures
            r@ == (val@ * 2) % 256 + (if spec_c(old(self)@.p) {
                1u8
            } else {
                0u8
            }),
            final(self)@ == (SysV {
                p: spec_p_c_then_zn(
                    old(self)@.p,
                    ((val@ * 2) % 256 + (if spec_c(old(self)@.p) {
                        1int
                    } else {
                        0int
                    })) as u8,
                    val@ >= 0x80,
                ),
                ..old(self)@
            }),
    {
        let carry_in = self.C();
        let (ret, carry) = val.rotate_left_carry(val, carry_in);
        self.update_C(carry);
        self.update_flags_zn(ret);
        ret
    }

    /// Rotate right through the carry: updates C from the bit rotated out,
    /// then Z and N; hands back the result without storing it.
    #[inline]
    pub fn ror(&mut self, val: word) -> (r: word)
        ensures
            r@ == val@ / 2 + (if spec_c(old(self)@.p) {
                0x80u8
            } else {
                0u8
            }),
            final(self)@ == (SysV {
                p: spec_p_c_then_zn(
                    old(self)@.p,
                    (val@ / 2 + (if spec_c(old(self)@.p) {
                        0x80int
                    } else {
                        0int
                    })) as u8,
                    val@ % 2 == 1,
                ),
                ..old(self)@
            }),
    {
        let carry_in = self.C();
        let (ret, carry) = val.rotate_right_carry(val, carry_in);
        self.update_C(carry);
        self.update_flags_zn(ret);
        ret
    }

    // =============== The fetch-decode-execute engine ===============

    /// Resolves the effective address of an addressing mode, reading operand
    /// bytes behind the program counter; `None` for the modes that name no
    /// memory location.
    fn resolve_addr(&mut self, mode: Mode) -> (r: Option<doubleword>)
        requires
            old(self).wf(),
        ensures
            final(self)@ == old(self)@,
            spec_addr(old(self)@, mode) is None ==> r is None,
            spec_addr(old(self)@, mode) matches Some(ad) ==> r == Some(doubleword_of(ad)),
    {
        match mode {
            Mode::Implied => None,
            Mode::Accumulator => None,
            Mode::Immediate => None,
            Mode::ZeroPage => Some(self.zeropage_address()),
            Mode::ZeroPageX => Some(self.zeropage_address_x()),
            Mode::ZeroPageY => Some(self.zeropage_address_y()),
            Mode::Absolute => Some(self.absolute_address()),
            Mode::AbsoluteX => Some(self.absolute_address_x()),
            Mode::AbsoluteY => Some(self.absolute_address_y()),
            Mode::Relative => Some(self.relative_value()),
            Mode::Indirect => Some(self.indirect_address()),
            Mode::IndirectX => Some(self.indirect_address_x()),
            Mode::IndirectY => Some(self.indirect_address_y()),
        }
    }

    /// Resolves the operand value of an addressing mode; `None` for the
    /// modes that carry none.
    fn resolve_value(&mut self, mode: Mode) -> (r: Option<word>)
        requires
            old(self).wf(),
        ensures
            final(self)@ == old(self)@,
            spec_value(old(self)@, mode) is None ==> r is None,
            spec_value(old(self)@, mode) matches Some(v) ==> r == Some(word_of(v)),
    {
        match mode {
            Mode::Implied => None,
            Mode::Relative => None,
            Mode::Accumulator => Some(self.a),
            Mode::Immediate => Some(self.immediate_value()),
            Mode::ZeroPage => Some(self.zeropage_value()),
            Mode::ZeroPageX => Some(self.zeropage_value_x()),
            Mode::ZeroPageY => Some(self.zeropage_value_y()),
            Mode::Absolute => Some(self.absolute_value()),
            Mode::AbsoluteX => {
                let ad = self.absolute_address_x();
                Some(self.load(ad))
            },
            Mode::AbsoluteY => {
                let ad = self.absolute_address_y();
                Some(self.load(ad))
            },
            Mode::Indirect => Some(self.indirect_value()),
            Mode::IndirectX => Some(self.indirect_value_x()),
            Mode::IndirectY => Some(self.indirect_value_y()),
        }
    }

    /// Executes one instruction whose opcode byte has been fetched already:
    /// decode, resolve the operand, run the operation, update flags, advance
    /// the program counter. An illegal opcode or a store aimed at ROM is
    /// reported as the fault it is and changes nothing.
    pub fn exec(&mut self, instr: word) -> (r: Result<(), EmuFault>)
        requires
            old(self).wf(),
        ensures
            final(self).wf(),
            (match spec_exec(old(self)@, instr@) {
                Ok(st2) => r == Ok::<(), EmuFault>(()) && final(self)@ == st2,
                Err(f) => r == Err::<(), EmuFault>(f) && final(self)@ == old(self)@,
            }),
    {
        proof {
            reveal(spec_exec);
        }
        let decoded = decode(instr.native_value());
        let (op, mode) = match decoded {
            None => {
                return Err(Self::illegal_op(instr));
            },
            Some(pair) => pair,
        };
        match op {
            Instructions::ORA | Instructions::AND | Instructions::EOR | Instructions::ADC
                | Instructions::SBC | Instructions::CMP | Instructions::CPX | Instructions::CPY
                | Instructions::BIT | Instructions::LDA | Instructions::LDX
                | Instructions::LDY => self.exec_value_op(instr, op, mode),
            Instructions::STA | Instructions::STX | Instructions::STY => self.exec_store_op(
                instr,
                op,
                mode,
            ),
            Instructions::ASL | Instructions::LSR | Instructions::ROL | Instructions::ROR
                | Instructions::INC | Instructions::DEC => self.exec_rmw_op(instr, op, mode),
            Instructions::JMP | Instructions::JSR | Instructions::RTS | Instructions::RTI
                | Instructions::BRK | Instructions::BPL | Instructions::BMI | Instructions::BVC
                | Instructions::BVS | Instructions::BCC | Instructions::BCS | Instructions::BNE
                | Instructions::BEQ => self.exec_flow_op(instr, op, mode),
            _ => self.exec_implied_op(instr, op, mode),
        }
    }

    /// The operations that consume an operand value: logic, the
    /// carry-coupled adder, compares, bit test and the loads.
    fn exec_value_op(&mut self, instr: word, op: Instructions, mode: Mode) -> (r: Result<(), EmuFault>)
        requires
            old(self).wf(),
            op is ORA || op is AND || op is EOR || op is ADC || op is SBC || op is CMP || op is CPX || op is CPY || op is BIT || op is LDA || op is LDX || op is LDY,
        ensures
            final(self).wf(),
            (match spec_exec_op(old(self)@, instr@, op, mode) {
                Ok(st2) => r == Ok::<(), EmuFault>(()) && final(self)@ == st2,
                Err(f) => r == Err::<(), EmuFault>(f) && final(self)@ == old(self)@,
            }),
    {
        let len = mode_len(mode);
        match op {
            Instructions::ORA => match self.resolve_value(mode) {
                None => Err(Self::illegal_op(instr)),
                Some(v) => {
                    let a = self.a;
                    let res = self.or(a, v);
                    self.a = res;
                    self.advance_pc(len);
                    Ok(())
                },
            },
            Instructions::AND => match self.resolve_value(mode) {
                None => Err(Self::illegal_op(instr)),
                Some(v) => {
                    let a = self.a;
                    let res = self.and(a, v);
                    self.a = res;
                    self.advance_pc(len);
                    Ok(())
                },
            },
            Instructions::EOR => match self.resolve_value(mode) {
                None => Err(Self::illegal_op(instr)),
                Some(v) => {
                    let a = self.a;
                    let res = self.eor(a, v);
                    self.a = res;
                    self.advance_pc(len);
                    Ok(())
                },
            },
            Instructions::ADC => match self.resolve_value(mode) {
                None => Err(Self::illegal_op(instr)),
                Some(v) => {
                    let res = self.add_carry(v);
                    self.a = res;
                    self.advance_pc(len);
                    Ok(())
                },
            },
            Instructions::SBC => match self.resolve_value(mode) {
                None => Err(Self::illegal_op(instr)),
                Some(v) => {
                    let res = self.sub_carry(v);
                    self.a = res;
                    self.advance_pc(len);
                    Ok(())
                },
            },
            Instructions::CMP => match self.resolve_value(mode) {
                None => Err(Self::illegal_op(instr)),
                Some(v) => {
                    let a = self.a;
                    self.compare(a, v);
                    self.advance_pc(len);
                    Ok(())
                },
            },
            Instructions::CPX => match self.resolve_value(mode) {
                None => Err(Self::illegal_op(instr)),
                Some(v) => {
                    let x = self.x;
                    self.compare(x, v);
                    self.advance_pc(len);
                    Ok(())
                },
            },
            Instructions::CPY => match self.resolve_value(mode) {
                None => Err(Self::illegal_op(instr)),
                Some(v) => {
                    let y = self.y;
                    self.compare(y, v);
                    self.advance_pc(len);
                    Ok(())
                },
            },
            Instructions::BIT => match self.resolve_value(mode) {
                None => Err(Self::illegal_op(instr)),
                Some(v) => {
                    let value = v.native_value();
                    let masked = self.a.native_value() & value;
                    self.update_N(value >= 0x80);
                    self.update_V((value / 64) % 2 == 1);
                    self.update_Z(masked == 0);
                    self.advance_pc(len);
                    Ok(())
                },
            },
            Instructions::LDA => match self.resolve_value(mode) {
                None => Err(Self::illegal_op(instr)),
                Some(v) => {
                    self.a = v;
                    self.update_flags_zn(v);
                    self.advance_pc(len);
                    Ok(())
                },
            },
            Instructions::LDX => match self.resolve_value(mode) {
                None => Err(Self::illegal_op(instr)),
                Some(v) => {
                    self.x = v;
                    self.update_flags_zn(v);
                    self.advance_pc(len);
                    Ok(())
                },
            },
            Instructions::LDY => match self.resolve_value(mode) {
                None => Err(Self::illegal_op(instr)),
                Some(v) => {
                    self.y = v;
                    self.update_flags_zn(v);
                    self.advance_pc(len);
                    Ok(())
                },
            },
            _ => Err(Self::illegal_op(instr)),
        }
    }

    /// The stores: the named register goes to the effective address.
    fn exec_store_op(&mut self, instr: word, op: Instructions, mode: Mode) -> (r: Result<(), EmuFault>)
        requires
            old(self).wf(),
            op is STA || op is STX || op is STY,
        ensures
            final(self).wf(),
            (match spec_exec_op(old(self)@, instr@, op, mode) {
                Ok(st2) => r == Ok::<(), EmuFault>(()) && final(self)@ == st2,
                Err(f) => r == Err::<(), EmuFault>(f) && final(self)@ == old(self)@,
            }),
    {
        let len = mode_len(mode);
        match op {
            Instructions::STA => match self.resolve_addr(mode) {
                None => Err(Self::illegal_op(instr)),
                Some(ad) => {
                    let a = self.a;
                    match self.store(ad, a) {
                        Err(f) => Err(f),
                        Ok(()) => {
                            self.advance_pc(len);
                            Ok(())
                        },
                    }
                },
            },
            Instructions::STX => match self.resolve_addr(mode) {
                None => Err(Self::illegal_op(instr)),
                Some(ad) => {
                    let x = self.x;
                    match self.store(ad, x) {
                        Err(f) => Err(f),
                        Ok(()) => {
                            self.advance_pc(len);
                            Ok(())
                        },
                    }
                },
            },
            Instructions::STY => match self.resolve_addr(mode) {
                None => Err(Self::illegal_op(instr)),
                Some(ad) => {
                    let y = self.y;
                    match self.store(ad, y) {
                        Err(f) => Err(f),
                        Ok(()) => {
                            self.advance_pc(len);
                            Ok(())
                        },
                    }
                },
            },
            _ => Err(Self::illegal_op(instr)),
        }
    }

    /// The read-modify-write operations: shifts, rotates and the memory
    /// increment and decrement.
    fn exec_rmw_op(&mut self, instr: word, op: Instructions, mode: Mode) -> (r: Result<(), EmuFault>)
        requires
            old(self).wf(),
            op is ASL || op is LSR || op is ROL || op is ROR || op is INC || op is DEC,
        ensures
            final(self).wf(),
            (match spec_exec_op(old(self)@, instr@, op, mode) {
                Ok(st2) => r == Ok::<(), EmuFault>(()) && final(self)@ == st2,
                Err(f) => r == Err::<(), EmuFault>(f) && final(self)@ == old(self)@,
            }),
    {
        let len = mode_len(mode);
        match op {
            Instructions::ASL => match mode {
                Mode::Accumulator => {
                    let a = self.a;
                    let res = self.asl(a);
                    self.a = res;
                    self.advance_pc(len);
                    Ok(())
                },
                _ => match self.resolve_addr(mode) {
                    None => Err(Self::illegal_op(instr)),
                    Some(ad) => {
                        let v = self.load(ad);
                        let (res, carry) = v.arith_shift_left_carry();
                        match self.store(ad, res) {
                            Err(f) => Err(f),
                            Ok(()) => {
                                self.update_flags_zn(res);
                                self.update_C(carry);
                                self.advance_pc(len);
                                Ok(())
                            },
                        }
                    },
                },
            },
            Instructions::LSR => match mode {
                Mode::Accumulator => {
                    let a = self.a;
                    let res = self.lsr(a);
                    self.a = res;
                    self.advance_pc(len);
                    Ok(())
                },
                _ => match self.resolve_addr(mode) {
                    None => Err(Self::illegal_op(instr)),
                    Some(ad) => {
                        let v = self.load(ad);
                        let (res, carry) = v.logical_shift_right_carry();
                        match self.store(ad, res) {
                            Err(f) => Err(f),
                            Ok(()) => {
                                self.update_flags_zn(res);
                                self.update_C(carry);
                                self.advance_pc(len);
                                Ok(())
                            },
                        }
                    },
                },
            },
            Instructions::ROL => match mode {
                Mode::Accumulator => {
                    let a = self.a;
                    let res = self.rol(a);
                    self.a = res;
                    self.advance_pc(len);
                    Ok(())
                },
                _ => match self.resolve_addr(mode) {
                    None => Err(Self::illegal_op(instr)),
                    Some(ad) => {
                        let v = self.load(ad);
                        let carry_in = self.C();
                        let (res, carry) = v.rotate_left_carry(v, carry_in);
                        match self.store(ad, res) {
                            Err(f) => Err(f),
                            Ok(()) => {
                                self.update_C(carry);
                                self.update_flags_zn(res);
                                self.advance_pc(len);
                                Ok(())
                            },
                        }
                    },
                },
            },
            Instructions::ROR => match mode {
                Mode::Accumulator => {
                    let a = self.a;
                    let res = self.ror(a);
                    self.a = res;
                    self.advance_pc(len);
                    Ok(())
                },
                _ => match self.resolve_addr(mode) {
                    None => Err(Self::illegal_op(instr)),
                    Some(ad) => {
                        let v = self.load(ad);
                        let carry_in = self.C();
                        let (res, carry) = v.rotate_right_carry(v, carry_in);
                        match self.store(ad, res) {
                            Err(f) => Err(f),
                            Ok(()) => {
                                self.update_C(carry);
                                self.update_flags_zn(res);
                                self.advance_pc(len);
                                Ok(())
                            },
                        }
                    },
                },
            },
            Instructions::INC => match self.resolve_addr(mode) {
                None => Err(Self::illegal_op(instr)),
                Some(ad) => {
                    let v = self.load(ad);
                    let res = v.carryless_add(word::from_6502_bytes(1));
                    match self.store(ad, res) {
                        Err(f) => Err(f),
                        Ok(()) => {
                            self.update_flags_zn(res);
                            self.advance_pc(len);
                            Ok(())
                        },
                    }
                },
            },
            Instructions::DEC => match self.resolve_addr(mode) {
                None => Err(Self::illegal_op(instr)),
                Some(ad) => {
                    let v = self.load(ad);
                    let res = v.carryless_add(word::from_6502_bytes(255));
                    match self.store(ad, res) {
                        Err(f) => Err(f),
                        Ok(()) => {
                            self.update_flags_zn(res);
                            self.advance_pc(len);
                            Ok(())
                        },
                    }
                },
            },
            _ => Err(Self::illegal_op(instr)),
        }
    }

    /// The control-flow operations: jumps, subroutine and interrupt
    /// returns, the software interrupt and the branches.
    fn exec_flow_op(&mut self, instr: word, op: Instructions, mode: Mode) -> (r: Result<(), EmuFault>)
        requires
            old(self).wf(),
            op is JMP || op is JSR || op is RTS || op is RTI || op is BRK || op is BPL || op is BMI || op is BVC || op is BVS || op is BCC || op is BCS || op is BNE || op is BEQ,
        ensures
            final(self).wf(),
            (match spec_exec_op(old(self)@, instr@, op, mode) {
                Ok(st2) => r == Ok::<(), EmuFault>(()) && final(self)@ == st2,
                Err(f) => r == Err::<(), EmuFault>(f) && final(self)@ == old(self)@,
            }),
    {
        let len = mode_len(mode);
        match op {
            Instructions::JMP => match self.resolve_addr(mode) {
                None => Err(Self::illegal_op(instr)),
                Some(ad) => {
                    self.pc = ad;
                    Ok(())
                },
            },
            Instructions::JSR => match self.resolve_addr(mode) {
                None => Err(Self::illegal_op(instr)),
                Some(ad) => {
                    let ret = self.pc.carryless_add(doubleword::from_6502_bytes(2));
                    self.push_doubleword(ret);
                    self.pc = ad;
                    Ok(())
                },
            },
            Instructions::RTS => {
                let ad = self.pull_doubleword();
                self.pc = ad.carryless_add(doubleword::from_6502_bytes(1));
                Ok(())
            },
            Instructions::RTI => {
                let pv = self.pull_word();
                self.p = pv;
                let ad = self.pull_doubleword();
                self.pc = ad;
                Ok(())
            },
            Instructions::BRK => {
                let ret = self.pc.carryless_add(doubleword::from_6502_bytes(2));
                let pushed_p = word::from_6502_bytes(self.p.native_value() | B_BIT);
                self.push_doubleword(ret);
                self.push_word(pushed_p);
                self.set_I();
                let vector = self.load_doubleword(doubleword::from_6502_bytes(0xFFFE));
                self.pc = vector;
                Ok(())
            },
            Instructions::BPL => {
                let n = self.N();
                self.branch_on(!n);
                Ok(())
            },
            Instructions::BMI => {
                let n = self.N();
                self.branch_on(n);
                Ok(())
            },
            Instructions::BVC => {
                let v = self.V();
                self.branch_on(!v);
                Ok(())
            },
            Instructions::BVS => {
                let v = self.V();
                self.branch_on(v);
                Ok(())
            },
            Instructions::BCC => {
                let c = self.C();
                self.branch_on(!c);
                Ok(())
            },
            Instructions::BCS => {
                let c = self.C();
                self.branch_on(c);
                Ok(())
            },
            Instructions::BNE => {
                let z = self.Z();
                self.branch_on(!z);
                Ok(())
            },
            Instructions::BEQ => {
                let z = self.Z();
                self.branch_on(z);
                Ok(())
            },
            _ => Err(Self::illegal_op(instr)),
        }
    }

    /// The one-byte operations: stack pushes and pulls, register
    /// transfers, register steps and the flag instructions.
    fn exec_implied_op(&mut self, instr: word, op: Instructions, mode: Mode) -> (r: Result<(), EmuFault>)
        requires
            old(self).wf(),
            op is PHA || op is PHP || op is PLA || op is PLP || op is TAX || op is TAY || op is TXA || op is TYA || op is TSX || op is TXS || op is INX || op is INY || op is DEX || op is DEY || op is CLC || op is SEC || op is CLI || op is SEI || op is CLV || op is CLD || op is SED || op is NOP,
        ensures
            final(self).wf(),
            (match spec_exec_op(old(self)@, instr@, op, mode) {
                Ok(st2) => r == Ok::<(), EmuFault>(()) && final(self)@ == st2,
                Err(f) => r == Err::<(), EmuFault>(f) && final(self)@ == old(self)@,
            }),
    {
        let len = mode_len(mode);
        match op {
            Instructions::PHA => {
                let a = self.a;
                self.push_word(a);
                self.advance_pc(len);
                Ok(())
            },
            Instructions::PHP => {
                let p = self.p;
                self.push_word(p);
                self.advance_pc(len);
                Ok(())
            },
            Instructions::PLA => {
                let v = self.pull_word();
                self.a = v;
                self.update_flags_zn(v);
                self.advance_pc(len);
                Ok(())
            },
            Instructions::PLP => {
                let v = self.pull_word();
                self.p = v;
                self.advance_pc(len);
                Ok(())
            },
            Instructions::TAX => {
                let a = self.a;
                self.x = a;
                self.update_flags_zn(a);
                self.advance_pc(len);
                Ok(())
            },
            Instructions::TAY => {
                let a = self.a;
                self.y = a;
                self.update_flags_zn(a);
                self.advance_pc(len);
                Ok(())
            },
            Instructions::TXA => {
                let x = self.x;
                self.a = x;
                self.update_flags_zn(x);
                self.advance_pc(len);
                Ok(())
            },
            Instructions::TYA => {
                let y = self.y;
                self.a = y;
                self.update_flags_zn(y);
                self.advance_pc(len);
                Ok(())
            },
            Instructions::TSX => {
                let s = self.s;
                self.x = s;
                self.update_flags_zn(s);
                self.advance_pc(len);
                Ok(())
            },
            Instructions::TXS => {
                let x = self.x;
                self.s = x;
                self.advance_pc(len);
                Ok(())
            },
            Instructions::INX => {
                let res = self.x.carryless_add(word::from_6502_bytes(1));
                self.x = res;
                self.update_flags_zn(res);
                self.advance_pc(len);
                Ok(())
            },
            Instructions::INY => {
                let res = self.y.carryless_add(word::from_6502_bytes(1));
                self.y = res;
                self.update_flags_zn(res);
                self.advance_pc(len);
                Ok(())
            },
            Instructions::DEX => {
                let res = self.x.carryless_add(word::from_6502_bytes(255));
                self.x = res;
                self.update_flags_zn(res);
                self.advance_pc(len);
                Ok(())
            },
            Instructions::DEY => {
                let res = self.y.carryless_add(word::from_6502_bytes(255));
                self.y = res;
                self.update_flags_zn(res);
                self.advance_pc(len);
                Ok(())
            },
            Instructions::CLC => {
                self.clear_C();
                self.advance_pc(len);
                Ok(())
            },
            Instructions::SEC => {
                self.set_C();
                self.advance_pc(len);
                Ok(())
            },
            Instructions::CLI => {
                self.clear_I();
                self.advance_pc(len);
                Ok(())
            },
            Instructions::SEI => {
                self.set_I();
                self.advance_pc(len);
                Ok(())
            },
            Instructions::CLV => {
                self.clear_V();
                self.advance_pc(len);
                Ok(())
            },
            Instructions::CLD => {
                self.clear_D();
                self.advance_pc(len);
                Ok(())
            },
            Instructions::SED => {
                self.set_D();
                self.advance_pc(len);
                Ok(())
            },
            Instructions::NOP => {
                self.advance_pc(len);
                Ok(())
            },
            _ => Err(Self::illegal_op(instr)),
        }
    }

    /// Loads a program into the cartridge ROM window; execution is left to
    /// the caller.
    pub fn run_program(&mut self, stream: InstructionStream)
        requires
            old(self).wf(),
            stream@.len() <= ROM_SIZE_BYTES,
        ensures
            final(self).wf(),
            final(self)@ == (SysV {
                mem: crate::memory::spec_push_program(old(self)@.mem, stream@),
                ..old(self)@
            }),
    {
        self.mem.push_program(stream);
    }

    /// Loads a program and executes a fixed number of instructions, stopping
    /// early on the first fault, which leaves the machine as the fault found
    /// it.
    pub fn run_programm_for(&mut self, stream: InstructionStream, count: usize) -> (r: Result<
        (),
        EmuFault,
    >)
        requires
            old(self).wf(),
            stream@.len() <= ROM_SIZE_BYTES,
        ensures
            final(self).wf(),
            ({
                let outcome = spec_run(
                    SysV {
                        mem: crate::memory::spec_push_program(old(self)@.mem, stream@),
                        ..old(self)@
                    },
                    count as nat,
                );
                final(self)@ == outcome.0 && (match outcome.1 {
                    None => r == Ok::<(), EmuFault>(()),
                    Some(f) => r == Err::<(), EmuFault>(f),
                })
            }),
    {
        self.run_program(stream);
        self.run(count)
    }

    /// Executes a fixed number of instructions from the current state,
    /// stopping early on the first fault, which leaves the machine as the
    /// fault found it. The host drives longer runs by calling this
    /// repeatedly.
    pub fn run(&mut self, count: usize) -> (r: Result<(), EmuFault>)
        requires
            old(self).wf(),
        ensures
            final(self).wf(),
            final(self)@ == spec_run(old(self)@, count as nat).0,
            spec_run(old(self)@, count as nat).1 is None ==> r == Ok::<(), EmuFault>(()),
            spec_run(old(self)@, count as nat).1 matches Some(f) ==> r == Err::<(), EmuFault>(f),
    {
        let mut x: usize = 0;
        while x < count
            invariant
                self.wf(),
                x <= count,
                spec_run(old(self)@, count as nat) == spec_run(self@, (count - x) as nat),
            decreases count - x,
        {
            let ghost pre = self@;
            match self.advance_exec() {
                Ok(()) => {
                    proof {
                        assert(spec_run(pre, (count - x) as nat) == spec_run(
                            self@,
                            (count - x - 1) as nat,
                        ));
                    }
                },
                Err(f) => {
                    proof {
                        assert(spec_run(pre, (count - x) as nat) == (pre, Some(f)));
                    }
                    return Err(f);
                },
            }
            x += 1;
        }
        Ok(())
    }

    /// One fetch-decode-execute step: loads the opcode byte at the program
    /// counter and executes it.
    #[inline]
    pub fn advance_exec(&mut self) -> (r: Result<(), EmuFault>)
        requires
            old(self).wf(),
        ensures
            final(self).wf(),
            (match spec_step(old(self)@) {
                Ok(st2) => r == Ok::<(), EmuFault>(()) && final(self)@ == st2,
                Err(f) => r == Err::<(), EmuFault>(f) && final(self)@ == old(self)@,
            }),
    {
        let pc = self.pc;
        let next_instr = self.load(pc);
        self.exec(next_instr)
    }
}

} // verus!
