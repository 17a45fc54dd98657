//! The opcode table: the single source of truth shared by the execution
//! engine's decoder and the assembler's encoder.
//!
//! An opcode byte is split into the fields `aaa` (bits 7-5), `bbb` (bits 4-2)
//! and `cc` (bits 1-0). `cc` selects an instruction class; within the two
//! regular classes `aaa` names the operation and `bbb` the addressing mode,
//! while the control class (`cc = 0`) and the one-byte columns follow their
//! own fixed per-opcode assignments. [`spec_decode`] states the whole table;
//! every byte value either decodes to exactly one instruction or to `None`,
//! which the execution engine reports as a decode fault.

use vstd::prelude::*;

verus! {

/// The operations of the instruction set, by their assembler mnemonics.
#[derive(Clone, Copy, Debug, PartialEq, Eq, Structural)]
pub enum Instructions {
    ADC,
    AND,
    ASL,
    BCC,
    BCS,
    BEQ,
    BIT,
    BMI,
    BNE,
    BPL,
    BRK,
    BVC,
    BVS,
    CLC,
    CLD,
    CLI,
    CLV,
    CMP,
    CPX,
    CPY,
    DEC,
    DEX,
    DEY,
    EOR,
    INC,
    INX,
    INY,
    JMP,
    JSR,
    LDA,
    LDX,
    LDY,
    LSR,
    NOP,
    ORA,
    PHA,
    PHP,
    PLA,
    PLP,
    ROL,
    ROR,
    RTI,
    RTS,
    SBC,
    SEC,
    SED,
    SEI,
    STA,
    STX,
    STY,
    TAX,
    TAY,
    TSX,
    TXA,
    TXS,
    TYA,
}

/// The addressing modes of the instruction set, without their operands.
#[derive(Clone, Copy, Debug, PartialEq, Eq, Structural)]
pub enum Mode {
    Implied,
    Accumulator,
    Immediate,
    ZeroPage,
    ZeroPageX,
    ZeroPageY,
    Absolute,
    AbsoluteX,
    AbsoluteY,
    Relative,
    Indirect,
    IndirectX,
    IndirectY,
}

/// The `aaa` field (bits 7-5) of an opcode byte.
pub open spec fn aaa_of(b: u8) -> u8 {
    b / 32
}

/// The `bbb` field (bits 4-2) of an opcode byte.
pub open spec fn bbb_of(b: u8) -> u8 {
    (b / 4) % 8
}

/// The `cc` field (bits 1-0) of an opcode byte.
pub open spec fn cc_of(b: u8) -> u8 {
    b % 4
}

/// Bytes of an instruction, opcode byte included, for each addressing mode.
pub open spec fn spec_mode_len(mode: Mode) -> u16 {
    match mode {
        Mode::Implied => 1,
        Mode::Accumulator => 1,
        Mode::Immediate => 2,
        Mode::ZeroPage => 2,
        Mode::ZeroPageX => 2,
        Mode::ZeroPageY => 2,
        Mode::Relative => 2,
        Mode::IndirectX => 2,
        Mode::IndirectY => 2,
        Mode::Absolute => 3,
        Mode::AbsoluteX => 3,
        Mode::AbsoluteY => 3,
        Mode::Indirect => 3,
    }
}

/// The arithmetic/logical class (`cc = 1`): which operation each `aaa`
/// value names.
pub open spec fn spec_cc1_op(aaa: u8) -> Instructions {
    match aaa {
        0 => Instructions::ORA,
        1 => Instructions::AND,
        2 => Instructions::EOR,
        3 => Instructions::ADC,
        4 => Instructions::STA,
        5 => Instructions::LDA,
        6 => Instructions::CMP,
        _ => Instructions::SBC,
    }
}

/// The arithmetic/logical class (`cc = 1`): which addressing mode each
/// `bbb` value names.
pub open spec fn spec_cc1_mode(bbb: u8) -> Mode {
    match bbb {
        0 => Mode::IndirectX,
        1 => Mode::ZeroPage,
        2 => Mode::Immediate,
        3 => Mode::Absolute,
        4 => Mode::IndirectY,
        5 => Mode::ZeroPageX,
        6 => Mode::AbsoluteY,
        _ => Mode::AbsoluteX,
    }
}

/// The shift/transfer/load-index class (`cc = 2`).
pub open spec fn spec_decode_cc2(aaa: u8, bbb: u8) -> Option<(Instructions, Mode)> {
    match bbb {
        0 => if aaa == 5 {
            Some((Instructions::LDX, Mode::Immediate))
        } else {
            None
        },
        1 => Some((spec_cc2_op(aaa), Mode::ZeroPage)),
        2 => match aaa {
            0 => Some((Instructions::ASL, Mode::Accumulator)),
            1 => Some((Instructions::ROL, Mode::Accumulator)),
            2 => Some((Instructions::LSR, Mode::Accumulator)),
            3 => Some((Instructions::ROR, Mode::Accumulator)),
            4 => Some((Instructions::TXA, Mode::Implied)),
            5 => Some((Instructions::TAX, Mode::Implied)),
            6 => Some((Instructions::DEX, Mode::Implied)),
            _ => Some((Instructions::NOP, Mode::Implied)),
        },
        3 => Some((spec_cc2_op(aaa), Mode::Absolute)),
        5 => Some((spec_cc2_op(aaa), if aaa == 4 || aaa == 5 { Mode::ZeroPageY } else { Mode::ZeroPageX })),
        6 => match aaa {
            4 => Some((Instructions::TXS, Mode::Implied)),
            5 => Some((Instructions::TSX, Mode::Implied)),
            _ => None,
        },
        7 => match aaa {
            4 => None,
            5 => Some((Instructions::LDX, Mode::AbsoluteY)),
            _ => Some((spec_cc2_op(aaa), Mode::AbsoluteX)),
        },
        _ => None,
    }
}

/// The shift/transfer/load-index class (`cc = 2`): which operation each
/// `aaa` value names in the memory-operand columns.
pub open spec fn spec_cc2_op(aaa: u8) -> Instructions {
    match aaa {
        0 => Instructions::ASL,
        1 => Instructions::ROL,
        2 => Instructions::LSR,
        3 => Instructions::ROR,
        4 => Instructions::STX,
        5 => Instructions::LDX,
        6 => Instructions::DEC,
        _ => Instructions::INC,
    }
}

/// The control/branch/misc class (`cc = 0`).
pub open spec fn spec_decode_cc0(aaa: u8, bbb: u8) -> Option<(Instructions, Mode)> {
    match bbb {
        0 => match aaa {
            0 => Some((Instructions::BRK, Mode::Implied)),
            1 => Some((Instructions::JSR, Mode::Absolute)),
            2 => Some((Instructions::RTI, Mode::Implied)),
            3 => Some((Instructions::RTS, Mode::Implied)),
            4 => None,
            5 => Some((Instructions::LDY, Mode::Immediate)),
            6 => Some((Instructions::CPY, Mode::Immediate)),
            _ => Some((Instructions::CPX, Mode::Immediate)),
        },
        1 => match aaa {
            1 => Some((Instructions::BIT, Mode::ZeroPage)),
            4 => Some((Instructions::STY, Mode::ZeroPage)),
            5 => Some((Instructions::LDY, Mode::ZeroPage)),
            6 => Some((Instructions::CPY, Mode::ZeroPage)),
            7 => Some((Instructions::CPX, Mode::ZeroPage)),
            _ => None,
        },
        2 => match aaa {
            0 => Some((Instructions::PHP, Mode::Implied)),
            1 => Some((Instructions::PLP, Mode::Implied)),
            2 => Some((Instructions::PHA, Mode::Implied)),
            3 => Some((Instructions::PLA, Mode::Implied)),
            4 => Some((Instructions::DEY, Mode::Implied)),
            5 => Some((Instructions::TAY, Mode::Implied)),
            6 => Some((Instructions::INY, Mode::Implied)),
            _ => Some((Instructions::INX, Mode::Implied)),
        },
        3 => match aaa {
            1 => Some((Instructions::BIT, Mode::Absolute)),
            2 => Some((Instructions::JMP, Mode::Absolute)),
            3 => Some((Instructions::JMP, Mode::Indirect)),
            4 => Some((Instructions::STY, Mode::Absolute)),
            5 => Some((Instructions::LDY, Mode::Absolute)),
            6 => Some((Instructions::CPY, Mode::Absolute)),
            7 => Some((Instructions::CPX, Mode::Absolute)),
            _ => None,
        },
        4 => match aaa {
            0 => Some((Instructions::BPL, Mode::Relative)),
            1 => Some((Instructions::BMI, Mode::Relative)),
            2 => Some((Instructions::BVC, Mode::Relative)),
            3 => Some((Instructions::BVS, Mode::Relative)),
            4 => Some((Instructions::BCC, Mode::Relative)),
            5 => Some((Instructions::BCS, Mode::Relative)),
            6 => Some((Instructions::BNE, Mode::Relative)),
            _ => Some((Instructions::BEQ, Mode::Relative)),
        },
        5 => match aaa {
            4 => Some((Instructions::STY, Mode::ZeroPageX)),
            5 => Some((Instructions::LDY, Mode::ZeroPageX)),
            _ => None,
        },
        6 => match aaa {
            0 => Some((Instructions::CLC, Mode::Implied)),
            1 => Some((Instructions::SEC, Mode::Implied)),
            2 => Some((Instructions::CLI, Mode::Implied)),
            3 => Some((Instructions::SEI, Mode::Implied)),
            4 => Some((Instructions::TYA, Mode::Implied)),
            5 => Some((Instructions::CLV, Mode::Implied)),
            6 => Some((Instructions::CLD, Mode::Implied)),
            _ => Some((Instructions::SED, Mode::Implied)),
        },
        _ => match aaa {
            5 => Some((Instructions::LDY, Mode::AbsoluteX)),
            _ => None,
        },
    }
}

/// The whole decode table: what each opcode byte means, or `None` where the
/// byte is illegal.
pub open spec fn spec_decode(b: u8) -> Option<(Instructions, Mode)> {
    let aaa = aaa_of(b);
    let bbb = bbb_of(b);
    match cc_of(b) {
        0 => spec_decode_cc0(aaa, bbb),
        1 => if aaa == 4 && bbb == 2 {
            None
        } else {
            Some((spec_cc1_op(aaa), spec_cc1_mode(bbb)))
        },
        2 => spec_decode_cc2(aaa, bbb),
        _ => None,
    }
}

/// Splits an opcode byte and looks it up in the decode table.
pub fn decode(b: u8) -> (r: Option<(Instructions, Mode)>)
    ensures
        r == spec_decode(b),
{
    let aaa: u8 = b / 32;
    let bbb: u8 = (b / 4) % 8;
    match b % 4 {
        0 => decode_cc0(aaa, bbb),
        1 => if aaa == 4 && bbb == 2 {
            None
        } else {
            Some((cc1_op(aaa), cc1_mode(bbb)))
        },
        2 => decode_cc2(aaa, bbb),
        _ => None,
    }
}

/// Bytes of an instruction, opcode byte included, for each addressing mode.
pub fn mode_len(mode: Mode) -> (r: u16)
    ensures
        r == spec_mode_len(mode),
        1 <= r <= 3,
{
    match mode {
        Mode::Implied => 1,
        Mode::Accumulator => 1,
        Mode::Immediate => 2,
        Mode::ZeroPage => 2,
        Mode::ZeroPageX => 2,
        Mode::ZeroPageY => 2,
        Mode::Relative => 2,
        Mode::IndirectX => 2,
        Mode::IndirectY => 2,
        Mode::Absolute => 3,
        Mode::AbsoluteX => 3,
        Mode::AbsoluteY => 3,
        Mode::Indirect => 3,
    }
}

fn cc1_op(aaa: u8) -> (r: Instructions)
    ensures
        r == spec_cc1_op(aaa),
{
    match aaa {
        0 => Instructions::ORA,
        1 => Instructions::AND,
        2 => Instructions::EOR,
        3 => Instructions::ADC,
        4 => Instructions::STA,
        5 => Instructions::LDA,
        6 => Instructions::CMP,
        _ => Instructions::SBC,
    }
}

fn cc1_mode(bbb: u8) -> (r: Mode)
    ensures
        r == spec_cc1_mode(bbb),
{
    match bbb {
        0 => Mode::IndirectX,
        1 => Mode::ZeroPage,
        2 => Mode::Immediate,
        3 => Mode::Absolute,
        4 => Mode::IndirectY,
        5 => Mode::ZeroPageX,
        6 => Mode::AbsoluteY,
        _ => Mode::AbsoluteX,
    }
}

fn cc2_op(aaa: u8) -> (r: Instructions)
    ensures
        r == spec_cc2_op(aaa),
{
    match aaa {
        0 => Instructions::ASL,
        1 => Instructions::ROL,
        2 => Instructions::LSR,
        3 => Instructions::ROR,
        4 => Instructions::STX,
        5 => Instructions::LDX,
        6 => Instructions::DEC,
        _ => Instructions::INC,
    }
}

fn decode_cc2(aaa: u8, bbb: u8) -> (r: Option<(Instructions, Mode)>)
    ensures
        r == spec_decode_cc2(aaa, bbb),
{
    match bbb {
        0 => if aaa == 5 {
            Some((Instructions::LDX, Mode::Immediate))
        } else {
            None
        },
        1 => Some((cc2_op(aaa), Mode::ZeroPage)),
        2 => match aaa {
            0 => Some((Instructions::ASL, Mode::Accumulator)),
            1 => Some((Instructions::ROL, Mode::Accumulator)),
            2 => Some((Instructions::LSR, Mode::Accumulator)),
            3 => Some((Instructions::ROR, Mode::Accumulator)),
            4 => Some((Instructions::TXA, Mode::Implied)),
            5 => Some((Instructions::TAX, Mode::Implied)),
            6 => Some((Instructions::DEX, Mode::Implied)),
            _ => Some((Instructions::NOP, Mode::Implied)),
        },
        3 => Some((cc2_op(aaa), Mode::Absolute)),
        5 => Some((cc2_op(aaa), if aaa == 4 || aaa == 5 { Mode::ZeroPageY } else { Mode::ZeroPageX })),
        6 => match aaa {
            4 => Some((Instructions::TXS, Mode::Implied)),
            5 => Some((Instructions::TSX, Mode::Implied)),
            _ => None,
        },
        7 => match aaa {
            4 => None,
            5 => Some((Instructions::LDX, Mode::AbsoluteY)),
            _ => Some((cc2_op(aaa), Mode::AbsoluteX)),
        },
        _ => None,
    }
}

fn decode_cc0(aaa: u8, bbb: u8) -> (r: Option<(Instructions, Mode)>)
    ensures
        r == spec_decode_cc0(aaa, bbb),
{
    match bbb {
        0 => match aaa {
            0 => Some((Instructions::BRK, Mode::Implied)),
            1 => Some((Instructions::JSR, Mode::Absolute)),
            2 => Some((Instructions::RTI, Mode::Implied)),
            3 => Some((Instructions::RTS, Mode::Implied)),
            4 => None,
            5 => Some((Instructions::LDY, Mode::Immediate)),
            6 => Some((Instructions::CPY, Mode::Immediate)),
            _ => Some((Instructions::CPX, Mode::Immediate)),
        },
        1 => match aaa {
            1 => Some((Instructions::BIT, Mode::ZeroPage)),
            4 => Some((Instructions::STY, Mode::ZeroPage)),
            5 => Some((Instructions::LDY, Mode::ZeroPage)),
            6 => Some((Instructions::CPY, Mode::ZeroPage)),
            7 => Some((Instructions::CPX, Mode::ZeroPage)),
            _ => None,
        },
        2 => match aaa {
            0 => Some((Instructions::PHP, Mode::Implied)),
            1 => Some((Instructions::PLP, Mode::Implied)),
            2 => Some((Instructions::PHA, Mode::Implied)),
            3 => Some((Instructions::PLA, Mode::Implied)),
            4 => Some((Instructions::DEY, Mode::Implied)),
            5 => Some((Instructions::TAY, Mode::Implied)),
            6 => Some((Instructions::INY, Mode::Implied)),
            _ => Some((Instructions::INX, Mode::Implied)),
        },
        3 => match aaa {
            1 => Some((Instructions::BIT, Mode::Absolute)),
            2 => Some((Instructions::JMP, Mode::Absolute)),
            3 => Some((Instructions::JMP, Mode::Indirect)),
            4 => Some((Instructions::STY, Mode::Absolute)),
            5 => Some((Instructions::LDY, Mode::Absolute)),
            6 => Some((Instructions::CPY, Mode::Absolute)),
            7 => Some((Instructions::CPX, Mode::Absolute)),
            _ => None,
        },
        4 => match aaa {
            0 => Some((Instructions::BPL, Mode::Relative)),
            1 => Some((Instructions::BMI, Mode::Relative)),
            2 => Some((Instructions::BVC, Mode::Relative)),
            3 => Some((Instructions::BVS, Mode::Relative)),
            4 => Some((Instructions::BCC, Mode::Relative)),
            5 => Some((Instructions::BCS, Mode::Relative)),
            6 => Some((Instructions::BNE, Mode::Relative)),
            _ => Some((Instructions::BEQ, Mode::Relative)),
        },
        5 => match aaa {
            4 => Some((Instructions::STY, Mode::ZeroPageX)),
            5 => Some((Instructions::LDY, Mode::ZeroPageX)),
            _ => None,
        },
        6 => match aaa {
            0 => Some((Instructions::CLC, Mode::Implied)),
            1 => Some((Instructions::SEC, Mode::Implied)),
            2 => Some((Instructions::CLI, Mode::Implied)),
            3 => Some((Instructions::SEI, Mode::Implied)),
            4 => Some((Instructions::TYA, Mode::Implied)),
            5 => Some((Instructions::CLV, Mode::Implied)),
            6 => Some((Instructions::CLD, Mode::Implied)),
            _ => Some((Instructions::SED, Mode::Implied)),
        },
        _ => match aaa {
            5 => Some((Instructions::LDY, Mode::AbsoluteX)),
            _ => None,
        },
    }
}

/// The arithmetic/logical class seen from the encoder: which `bbb` value
/// each addressing mode takes, inverting [`spec_cc1_mode`].
pub open spec fn spec_cc1_bbb(mode: Mode) -> Option<u8> {
    match mode {
        Mode::IndirectX => Some(0u8),
        Mode::ZeroPage => Some(1u8),
        Mode::Immediate => Some(2u8),
        Mode::Absolute => Some(3u8),
        Mode::IndirectY => Some(4u8),
        Mode::ZeroPageX => Some(5u8),
        Mode::AbsoluteY => Some(6u8),
        Mode::AbsoluteX => Some(7u8),
        _ => None,
    }
}

/// The encode table: the opcode byte of each supported operation and
/// addressing-mode pair, inverting [`spec_decode`] bit-field for bit-field.
pub open spec fn spec_encode(op: Instructions, mode: Mode) -> Option<u8> {
    match op {
        // Arithmetic/logical class: cc = 1, aaa names the operation.
        Instructions::ORA => spec_encode_cc1(0, mode),
        Instructions::AND => spec_encode_cc1(1, mode),
        Instructions::EOR => spec_encode_cc1(2, mode),
        Instructions::ADC => spec_encode_cc1(3, mode),
        Instructions::STA => if mode is Immediate {
            None
        } else {
            spec_encode_cc1(4, mode)
        },
        Instructions::LDA => spec_encode_cc1(5, mode),
        Instructions::CMP => spec_encode_cc1(6, mode),
        Instructions::SBC => spec_encode_cc1(7, mode),
        // Shift/transfer/load-index class: cc = 2.
        Instructions::ASL => spec_encode_shift(0, mode),
        Instructions::ROL => spec_encode_shift(1, mode),
        Instructions::LSR => spec_encode_shift(2, mode),
        Instructions::ROR => spec_encode_shift(3, mode),
        Instructions::STX => match mode {
            Mode::ZeroPage => Some(0x86u8),
            Mode::ZeroPageY => Some(0x96u8),
            Mode::Absolute => Some(0x8Eu8),
            _ => None,
        },
        Instructions::LDX => match mode {
            Mode::Immediate => Some(0xA2u8),
            Mode::ZeroPage => Some(0xA6u8),
            Mode::ZeroPageY => Some(0xB6u8),
            Mode::Absolute => Some(0xAEu8),
            Mode::AbsoluteY => Some(0xBEu8),
            _ => None,
        },
        Instructions::DEC => spec_encode_rmw(6, mode),
        Instructions::INC => spec_encode_rmw(7, mode),
        // Control class: cc = 0.
        Instructions::BIT => match mode {
            Mode::ZeroPage => Some(0x24u8),
            Mode::Absolute => Some(0x2Cu8),
            _ => None,
        },
        Instructions::JMP => match mode {
            Mode::Absolute => Some(0x4Cu8),
            Mode::Indirect => Some(0x6Cu8),
            _ => None,
        },
        Instructions::JSR => if mode is Absolute {
            Some(0x20u8)
        } else {
            None
        },
        Instructions::STY => match mode {
            Mode::ZeroPage => Some(0x84u8),
            Mode::ZeroPageX => Some(0x94u8),
            Mode::Absolute => Some(0x8Cu8),
            _ => None,
        },
        Instructions::LDY => match mode {
            Mode::Immediate => Some(0xA0u8),
            Mode::ZeroPage => Some(0xA4u8),
            Mode::ZeroPageX => Some(0xB4u8),
            Mode::Absolute => Some(0xACu8),
            Mode::AbsoluteX => Some(0xBCu8),
            _ => None,
        },
        Instructions::CPY => match mode {
            Mode::Immediate => Some(0xC0u8),
            Mode::ZeroPage => Some(0xC4u8),
            Mode::Absolute => Some(0xCCu8),
            _ => None,
        },
        Instructions::CPX => match mode {
            Mode::Immediate => Some(0xE0u8),
            Mode::ZeroPage => Some(0xE4u8),
            Mode::Absolute => Some(0xECu8),
            _ => None,
        },
        // Branches: fixed bytes in the relative column.
        Instructions::BPL => spec_encode_rel(0x10, mode),
        Instructions::BMI => spec_encode_rel(0x30, mode),
        Instructions::BVC => spec_encode_rel(0x50, mode),
        Instructions::BVS => spec_encode_rel(0x70, mode),
        Instructions::BCC => spec_encode_rel(0x90, mode),
        Instructions::BCS => spec_encode_rel(0xB0, mode),
        Instructions::BNE => spec_encode_rel(0xD0, mode),
        Instructions::BEQ => spec_encode_rel(0xF0, mode),
        // One-byte instructions.
        Instructions::BRK => spec_encode_impl(0x00, mode),
        Instructions::RTI => spec_encode_impl(0x40, mode),
        Instructions::RTS => spec_encode_impl(0x60, mode),
        Instructions::PHP => spec_encode_impl(0x08, mode),
        Instructions::PLP => spec_encode_impl(0x28, mode),
        Instructions::PHA => spec_encode_impl(0x48, mode),
        Instructions::PLA => spec_encode_impl(0x68, mode),
        Instructions::DEY => spec_encode_impl(0x88, mode),
        Instructions::TAY => spec_encode_impl(0xA8, mode),
        Instructions::INY => spec_encode_impl(0xC8, mode),
        Instructions::INX => spec_encode_impl(0xE8, mode),
        Instructions::CLC => spec_encode_impl(0x18, mode),
        Instructions::SEC => spec_encode_impl(0x38, mode),
        Instructions::CLI => spec_encode_impl(0x58, mode),
        Instructions::SEI => spec_encode_impl(0x78, mode),
        Instructions::TYA => spec_encode_impl(0x98, mode),
        Instructions::CLV => spec_encode_impl(0xB8, mode),
        Instructions::CLD => spec_encode_impl(0xD8, mode),
        Instructions::SED => spec_encode_impl(0xF8, mode),
        Instructions::TXA => spec_encode_impl(0x8A, mode),
        Instructions::TAX => spec_encode_impl(0xAA, mode),
        Instructions::DEX => spec_encode_impl(0xCA, mode),
        Instructions::NOP => spec_encode_impl(0xEA, mode),
        Instructions::TXS => spec_encode_impl(0x9A, mode),
        Instructions::TSX => spec_encode_impl(0xBA, mode),
    }
}

/// Assembles `aaa * 32 + bbb * 4 + 1` for the arithmetic/logical class.
pub open spec fn spec_encode_cc1(aaa: u8, mode: Mode) -> Option<u8> {
    match spec_cc1_bbb(mode) {
        Some(bbb) => Some((aaa * 32 + bbb * 4 + 1) as u8),
        None => None,
    }
}

/// The accumulator/memory shifts and rotates of the `cc = 2` class.
pub open spec fn spec_encode_shift(aaa: u8, mode: Mode) -> Option<u8> {
    match mode {
        Mode::Accumulator => Some((aaa * 32 + 2 * 4 + 2) as u8),
        Mode::ZeroPage => Some((aaa * 32 + 1 * 4 + 2) as u8),
        Mode::ZeroPageX => Some((aaa * 32 + 5 * 4 + 2) as u8),
        Mode::Absolute => Some((aaa * 32 + 3 * 4 + 2) as u8),
        Mode::AbsoluteX => Some((aaa * 32 + 7 * 4 + 2) as u8),
        _ => None,
    }
}

/// The memory increment/decrement rows of the `cc = 2` class.
pub open spec fn spec_encode_rmw(aaa: u8, mode: Mode) -> Option<u8> {
    match mode {
        Mode::ZeroPage => Some((aaa * 32 + 1 * 4 + 2) as u8),
        Mode::ZeroPageX => Some((aaa * 32 + 5 * 4 + 2) as u8),
        Mode::Absolute => Some((aaa * 32 + 3 * 4 + 2) as u8),
        Mode::AbsoluteX => Some((aaa * 32 + 7 * 4 + 2) as u8),
        _ => None,
    }
}

/// A branch instruction: one fixed byte, relative mode only.
pub open spec fn spec_encode_rel(b: u8, mode: Mode) -> Option<u8> {
    if mode is Relative {
        Some(b)
    } else {
        None
    }
}

/// A one-byte instruction: one fixed byte, implied mode only.
pub open spec fn spec_encode_impl(b: u8, mode: Mode) -> Option<u8> {
    if mode is Implied {
        Some(b)
    } else {
        None
    }
}

/// Looks up the opcode byte of an operation and addressing-mode pair.
pub fn encode_opcode(op: Instructions, mode: Mode) -> (r: Option<u8>)
    ensures
        r == spec_encode(op, mode),
{
    match op {
        Instructions::ORA => encode_cc1(0, mode, false),
        Instructions::AND => encode_cc1(1, mode, false),
        Instructions::EOR => encode_cc1(2, mode, false),
        Instructions::ADC => encode_cc1(3, mode, false),
        Instructions::STA => encode_cc1(4, mode, true),
        Instructions::LDA => encode_cc1(5, mode, false),
        Instructions::CMP => encode_cc1(6, mode, false),
        Instructions::SBC => encode_cc1(7, mode, false),
        Instructions::ASL => encode_shift(0, mode),
        Instructions::ROL => encode_shift(1, mode),
        Instructions::LSR => encode_shift(2, mode),
        Instructions::ROR => encode_shift(3, mode),
        Instructions::STX => match mode {
            Mode::ZeroPage => Some(0x86),
            Mode::ZeroPageY => Some(0x96),
            Mode::Absolute => Some(0x8E),
            _ => None,
        },
        Instructions::LDX => match mode {
            Mode::Immediate => Some(0xA2),
            Mode::ZeroPage => Some(0xA6),
            Mode::ZeroPageY => Some(0xB6),
            Mode::Absolute => Some(0xAE),
            Mode::AbsoluteY => Some(0xBE),
            _ => None,
        },
        Instructions::DEC => encode_rmw(6, mode),
        Instructions::INC => encode_rmw(7, mode),
        Instructions::BIT => match mode {
            Mode::ZeroPage => Some(0x24),
            Mode::Absolute => Some(0x2C),
            _ => None,
        },
        Instructions::JMP => match mode {
            Mode::Absolute => Some(0x4C),
            Mode::Indirect => Some(0x6C),
            _ => None,
        },
        Instructions::JSR => match mode {
            Mode::Absolute => Some(0x20),
            _ => None,
        },
        Instructions::STY => match mode {
            Mode::ZeroPage => Some(0x84),
            Mode::ZeroPageX => Some(0x94),
            Mode::Absolute => Some(0x8C),
            _ => None,
        },
        Instructions::LDY => match mode {
            Mode::Immediate => Some(0xA0),
            Mode::ZeroPage => Some(0xA4),
            Mode::ZeroPageX => Some(0xB4),
            Mode::Absolute => Some(0xAC),
            Mode::AbsoluteX => Some(0xBC),
            _ => None,
        },
        Instructions::CPY => match mode {
            Mode::Immediate => Some(0xC0),
            Mode::ZeroPage => Some(0xC4),
            Mode::Absolute => Some(0xCC),
            _ => None,
        },
        Instructions::CPX => match mode {
            Mode::Immediate => Some(0xE0),
            Mode::ZeroPage => Some(0xE4),
            Mode::Absolute => Some(0xEC),
            _ => None,
        },
        Instructions::BPL => encode_rel(0x10, mode),
        Instructions::BMI => encode_rel(0x30, mode),
        Instructions::BVC => encode_rel(0x50, mode),
        Instructions::BVS => encode_rel(0x70, mode),
        Instructions::BCC => encode_rel(0x90, mode),
        Instructions::BCS => encode_rel(0xB0, mode),
        Instructions::BNE => encode_rel(0xD0, mode),
        Instructions::BEQ => encode_rel(0xF0, mode),
        Instructions::BRK => encode_impl(0x00, mode),
        Instructions::RTI => encode_impl(0x40, mode),
        Instructions::RTS => encode_impl(0x60, mode),
        Instructions::PHP => encode_impl(0x08, mode),
        Instructions::PLP => encode_impl(0x28, mode),
        Instructions::PHA => encode_impl(0x48, mode),
        Instructions::PLA => encode_impl(0x68, mode),
        Instructions::DEY => encode_impl(0x88, mode),
        Instructions::TAY => encode_impl(0xA8, mode),
        Instructions::INY => encode_impl(0xC8, mode),
        Instructions::INX => encode_impl(0xE8, mode),
        Instructions::CLC => encode_impl(0x18, mode),
        Instructions::SEC => encode_impl(0x38, mode),
        Instructions::CLI => encode_impl(0x58, mode),
        Instructions::SEI => encode_impl(0x78, mode),
        Instructions::TYA => encode_impl(0x98, mode),
        Instructions::CLV => encode_impl(0xB8, mode),
        Instructions::CLD => encode_impl(0xD8, mode),
        Instructions::SED => encode_impl(0xF8, mode),
        Instructions::TXA => encode_impl(0x8A, mode),
        Instructions::TAX => encode_impl(0xAA, mode),
        Instructions::DEX => encode_impl(0xCA, mode),
        Instructions::NOP => encode_impl(0xEA, mode),
        Instructions::TXS => encode_impl(0x9A, mode),
        Instructions::TSX => encode_impl(0xBA, mode),
    }
}

fn encode_cc1(aaa: u8, mode: Mode, is_store: bool) -> (r: Option<u8>)
    requires
        aaa < 8,
        is_store <==> aaa == 4,
    ensures
        is_store && mode is Immediate ==> r.is_none(),
        !(is_store && mode is Immediate) ==> r == spec_encode_cc1(aaa, mode),
{
    if is_store {
        if let Mode::Immediate = mode {
            return None;
        }
    }
    match mode {
        Mode::IndirectX => Some(aaa * 32 + 0 * 4 + 1),
        Mode::ZeroPage => Some(aaa * 32 + 1 * 4 + 1),
        Mode::Immediate => Some(aaa * 32 + 2 * 4 + 1),
        Mode::Absolute => Some(aaa * 32 + 3 * 4 + 1),
        Mode::IndirectY => Some(aaa * 32 + 4 * 4 + 1),
        Mode::ZeroPageX => Some(aaa * 32 + 5 * 4 + 1),
        Mode::AbsoluteY => Some(aaa * 32 + 6 * 4 + 1),
        Mode::AbsoluteX => Some(aaa * 32 + 7 * 4 + 1),
        _ => None,
    }
}

fn encode_shift(aaa: u8, mode: Mode) -> (r: Option<u8>)
    requires
        aaa < 4,
    ensures
        r == spec_encode_shift(aaa, mode),
{
    match mode {
        Mode::Accumulator => Some(aaa * 32 + 2 * 4 + 2),
        Mode::ZeroPage => Some(aaa * 32 + 1 * 4 + 2),
        Mode::ZeroPageX => Some(aaa * 32 + 5 * 4 + 2),
        Mode::Absolute => Some(aaa * 32 + 3 * 4 + 2),
        Mode::AbsoluteX => Some(aaa * 32 + 7 * 4 + 2),
        _ => None,
    }
}

fn encode_rmw(aaa: u8, mode: Mode) -> (r: Option<u8>)
    requires
        aaa == 6 || aaa == 7,
    ensures
        r == spec_encode_rmw(aaa, mode),
{
    match mode {
        Mode::ZeroPage => Some(aaa * 32 + 1 * 4 + 2),
        Mode::ZeroPageX => Some(aaa * 32 + 5 * 4 + 2),
        Mode::Absolute => Some(aaa * 32 + 3 * 4 + 2),
        Mode::AbsoluteX => Some(aaa * 32 + 7 * 4 + 2),
        _ => None,
    }
}

fn encode_rel(b: u8, mode: Mode) -> (r: Option<u8>)
    ensures
        r == spec_encode_rel(b, mode),
{
    match mode {
        Mode::Relative => Some(b),
        _ => None,
    }
}

fn encode_impl(b: u8, mode: Mode) -> (r: Option<u8>)
    ensures
        r == spec_encode_impl(b, mode),
{
    match mode {
        Mode::Implied => Some(b),
        _ => None,
    }
}

/// The encoder inverts the decoder: every operation and addressing-mode pair
/// the encode table supports decodes back to exactly that pair.
#[verifier::rlimit(100)]
pub proof fn lemma_encode_decode_round_trip(op: Instructions, mode: Mode)
    ensures
        spec_encode(op, mode) matches Some(b) ==> spec_decode(b) == Some((op, mode)),
{
    match op {
        Instructions::ORA | Instructions::AND | Instructions::EOR | Instructions::ADC
            | Instructions::STA | Instructions::LDA | Instructions::CMP | Instructions::SBC => {
            lemma_round_trip_cc1(op, mode);
        },
        _ => {
        },
    }
}

/// The round trip of the arithmetic/logical class, proved on its own because
/// its eight operations each pair with eight addressing modes.
proof fn lemma_round_trip_cc1(op: Instructions, mode: Mode)
    requires
        op is ORA || op is AND || op is EOR || op is ADC || op is STA || op is LDA || op is CMP
            || op is SBC,
    ensures
        spec_encode(op, mode) matches Some(b) ==> spec_decode(b) == Some((op, mode)),
{
}

} // verus!
