//! The assembler: line-oriented text in, the flat byte stream of the
//! encoded program out.
//!
//! Each line is `MNEMONIC [operand]`. The operand grammar is small, regular
//! and fixed, so it is parsed by a direct tokenizer: the textual forms are
//! mutually exclusive by construction, and each picks exactly one addressing
//! mode. Encoding inverts the decode table of [`crate::decode`] bit-field
//! for bit-field and emits the operand bytes in little-endian order.

use vstd::prelude::*;
use vstd::string::StringSliceAdditionalSpecFns;
use crate::datastructures::word;
use crate::datastructures::doubleword;
use crate::datastructures::word_of;
use crate::datastructures::doubleword_of;
use crate::datastructures::InstructionStream;
use crate::decode::Instructions;
use crate::decode::Mode;
use crate::decode::spec_encode;
use crate::decode::encode_opcode;

verus! {

/// What went wrong on one source line.
#[derive(Clone, Copy, Debug, PartialEq, Eq, Structural)]
pub enum AsmErrorKind {
    /// The line's first word is not a known three-letter mnemonic.
    UnknownMnemonic,
    /// The operand text matches none of the fixed textual forms.
    BadOperand,
    /// The mnemonic does not take the addressing mode the operand names.
    IllegalCombination,
}

/// A fatal assembly error: the number of the offending line, counted from
/// one, and what was wrong with it.
#[derive(Clone, Copy, Debug, PartialEq, Eq, Structural)]
pub struct AsmError {
    pub line: usize,
    pub kind: AsmErrorKind,
}

/// An addressing mode together with its parsed operand value. The bare
/// `$xx` form is held as `Zeropage`; for a branch mnemonic the encoder
/// reads the same byte as the relative offset.
#[derive(Clone, Copy, Debug, PartialEq, Eq, Structural)]
pub enum AddrModes {
    Absolute(doubleword),
    Accumulator,
    AbsoluteX(doubleword),
    AbsoluteY(doubleword),
    Immediate(word),
    Implied,
    Indirect(doubleword),
    IndirectX(word),
    IndirectY(word),
    Relative(word),
    Zeropage(word),
    ZeropageX(word),
    ZeropageY(word),
}

/// The addressing mode an operand form selects, without its value.
pub open spec fn spec_mode_of(am: AddrModes) -> Mode {
    match am {
        AddrModes::Absolute(_) => Mode::Absolute,
        AddrModes::Accumulator => Mode::Accumulator,
        AddrModes::AbsoluteX(_) => Mode::AbsoluteX,
        AddrModes::AbsoluteY(_) => Mode::AbsoluteY,
        AddrModes::Immediate(_) => Mode::Immediate,
        AddrModes::Implied => Mode::Implied,
        AddrModes::Indirect(_) => Mode::Indirect,
        AddrModes::IndirectX(_) => Mode::IndirectX,
        AddrModes::IndirectY(_) => Mode::IndirectY,
        AddrModes::Relative(_) => Mode::Relative,
        AddrModes::Zeropage(_) => Mode::ZeroPage,
        AddrModes::ZeropageX(_) => Mode::ZeroPageX,
        AddrModes::ZeropageY(_) => Mode::ZeroPageY,
    }
}

/// The operand bytes an addressing mode emits after the opcode byte:
/// nothing, one byte, or a 16-bit value in little-endian order.
pub open spec fn spec_operand_bytes(am: AddrModes) -> Seq<u8> {
    match am {
        AddrModes::Absolute(dw) => seq![(dw@ % 256) as u8, (dw@ / 256) as u8],
        AddrModes::Accumulator => Seq::empty(),
        AddrModes::AbsoluteX(dw) => seq![(dw@ % 256) as u8, (dw@ / 256) as u8],
        AddrModes::AbsoluteY(dw) => seq![(dw@ % 256) as u8, (dw@ / 256) as u8],
        AddrModes::Immediate(w) => seq![w@],
        AddrModes::Implied => Seq::empty(),
        AddrModes::Indirect(dw) => seq![(dw@ % 256) as u8, (dw@ / 256) as u8],
        AddrModes::IndirectX(w) => seq![w@],
        AddrModes::IndirectY(w) => seq![w@],
        AddrModes::Relative(w) => seq![w@],
        AddrModes::Zeropage(w) => seq![w@],
        AddrModes::ZeropageX(w) => seq![w@],
        AddrModes::ZeropageY(w) => seq![w@],
    }
}

/// Whether the operation is a conditional branch, whose one-byte operand is
/// a relative offset rather than a zero-page address.
pub open spec fn spec_is_branch(op: Instructions) -> bool {
    ||| op is BCC
    ||| op is BCS
    ||| op is BEQ
    ||| op is BMI
    ||| op is BNE
    ||| op is BPL
    ||| op is BVC
    ||| op is BVS
}

/// Whether the operation is a shift or rotate, whose empty operand names
/// the accumulator rather than the implied mode.
pub open spec fn spec_is_shift(op: Instructions) -> bool {
    ||| op is ASL
    ||| op is LSR
    ||| op is ROL
    ||| op is ROR
}

/// A bare one-byte operand read under a branch mnemonic becomes the
/// relative offset, and an empty operand under a shift or rotate names the
/// accumulator; every other pairing stands as parsed.
pub open spec fn spec_adjust(op: Instructions, am: AddrModes) -> AddrModes {
    if spec_is_branch(op) {
        match am {
            AddrModes::Zeropage(w) => AddrModes::Relative(w),
            _ => am,
        }
    } else if spec_is_shift(op) && am is Implied {
        AddrModes::Accumulator
    } else {
        am
    }
}

/// The bytes one instruction assembles to: the opcode byte from the encode
/// table, then the operand bytes; `None` when the table has no entry for
/// the pairing.
pub open spec fn spec_emit_bytes(op: Instructions, am: AddrModes) -> Option<Seq<u8>> {
    let am2 = spec_adjust(op, am);
    match spec_encode(op, spec_mode_of(am2)) {
        None => None,
        Some(b) => Some(seq![b] + spec_operand_bytes(am2)),
    }
}

// ASCII bytes the grammar speaks of: 0x24 `$`, 0x23 `#`, 0x28 `(`,
// 0x29 `)`, 0x2c `,`, 0x58 `X`, 0x59 `Y`; digits are 0x30-0x39 and the
// upper-case letters 0x41-0x5a.

/// A hexadecimal digit: `0`-`9` or upper-case `A`-`F`.
pub open spec fn spec_is_hex(b: u8) -> bool {
    (0x30 <= b && b <= 0x39) || (0x41 <= b && b <= 0x46)
}

/// The value of a hexadecimal digit.
pub open spec fn spec_hex_val(b: u8) -> u8 {
    if b <= 0x39 {
        (b - 0x30) as u8
    } else {
        (b - 0x41 + 10) as u8
    }
}

/// Two hexadecimal digits as a byte, or `None` where the text is not
/// exactly that.
pub open spec fn spec_hex_byte(s: Seq<u8>) -> Option<u8> {
    if s.len() == 2 && spec_is_hex(s[0]) && spec_is_hex(s[1]) {
        Some((spec_hex_val(s[0]) * 16 + spec_hex_val(s[1])) as u8)
    } else {
        None
    }
}

/// Four hexadecimal digits as a 16-bit value, or `None` where the text is
/// not exactly that.
pub open spec fn spec_hex_word(s: Seq<u8>) -> Option<u16> {
    if s.len() == 4 && spec_is_hex(s[0]) && spec_is_hex(s[1]) && spec_is_hex(s[2]) && spec_is_hex(
        s[3],
    ) {
        Some(
            (spec_hex_val(s[0]) as u16 * 4096 + spec_hex_val(s[1]) as u16 * 256 + spec_hex_val(
                s[2],
            ) as u16 * 16 + spec_hex_val(s[3]) as u16) as u16,
        )
    } else {
        None
    }
}

/// The operand grammar: which of the fixed textual forms the text is, with
/// its value. The forms are mutually exclusive, so the first match is the
/// only one. `None` where no form matches.
pub open spec fn spec_operand(s: Seq<u8>) -> Option<AddrModes> {
    if s.len() == 0 {
        Some(AddrModes::Implied)
    } else if s[0] == 0x24 {
        if s.len() == 3 {
            match spec_hex_byte(s.subrange(1, 3)) {
                Some(w) => Some(AddrModes::Zeropage(word_of(w))),
                None => None,
            }
        } else if s.len() == 5 {
            match spec_hex_word(s.subrange(1, 5)) {
                Some(dw) => Some(AddrModes::Absolute(doubleword_of(dw))),
                None => None,
            }
        } else if s.len() == 7 && s[5] == 0x2c && s[6] == 0x58 {
            match spec_hex_word(s.subrange(1, 5)) {
                Some(dw) => Some(AddrModes::AbsoluteX(doubleword_of(dw))),
                None => None,
            }
        } else if s.len() == 7 && s[5] == 0x2c && s[6] == 0x59 {
            match spec_hex_word(s.subrange(1, 5)) {
                Some(dw) => Some(AddrModes::AbsoluteY(doubleword_of(dw))),
                None => None,
            }
        } else {
            None
        }
    } else if s[0] == 0x23 {
        if s.len() == 4 && s[1] == 0x24 {
            match spec_hex_byte(s.subrange(2, 4)) {
                Some(w) => Some(AddrModes::Immediate(word_of(w))),
                None => None,
            }
        } else {
            None
        }
    } else if s[0] == 0x28 {
        if s.len() == 7 && s[1] == 0x24 && s[4] == 0x2c && s[5] == 0x58 && s[6] == 0x29 {
            match spec_hex_byte(s.subrange(2, 4)) {
                Some(w) => Some(AddrModes::IndirectX(word_of(w))),
                None => None,
            }
        } else if s.len() == 7 && s[1] == 0x24 && s[4] == 0x29 && s[5] == 0x2c && s[6] == 0x59 {
            match spec_hex_byte(s.subrange(2, 4)) {
                Some(w) => Some(AddrModes::IndirectY(word_of(w))),
                None => None,
            }
        } else if s.len() == 7 && s[1] == 0x24 && s[6] == 0x29 {
            match spec_hex_word(s.subrange(2, 6)) {
                Some(dw) => Some(AddrModes::Indirect(doubleword_of(dw))),
                None => None,
            }
        } else {
            None
        }
    } else {
        None
    }
}

/// The mnemonic table: which operation a three-letter upper-case name
/// denotes.
pub open spec fn spec_mnemonic(s: Seq<u8>) -> Option<Instructions> {
    if s.len() != 3 {
        None
    } else {
        spec_mnemonic3(s[0], s[1], s[2])
    }
}

/// The mnemonic table over the three name bytes.
pub open spec fn spec_mnemonic3(a: u8, b: u8, c: u8) -> Option<Instructions> {
    if a == 0x41 {
        if b == 0x44 && c == 0x43 {
            Some(Instructions::ADC)
        } else if b == 0x4e && c == 0x44 {
            Some(Instructions::AND)
        } else if b == 0x53 && c == 0x4c {
            Some(Instructions::ASL)
        } else {
            None
        }
    } else if a == 0x42 {
        if b == 0x43 && c == 0x43 {
            Some(Instructions::BCC)
        } else if b == 0x43 && c == 0x53 {
            Some(Instructions::BCS)
        } else if b == 0x45 && c == 0x51 {
            Some(Instructions::BEQ)
        } else if b == 0x49 && c == 0x54 {
            Some(Instructions::BIT)
        } else if b == 0x4d && c == 0x49 {
            Some(Instructions::BMI)
        } else if b == 0x4e && c == 0x45 {
            Some(Instructions::BNE)
        } else if b == 0x50 && c == 0x4c {
            Some(Instructions::BPL)
        } else if b == 0x52 && c == 0x4b {
            Some(Instructions::BRK)
        } else if b == 0x56 && c == 0x43 {
            Some(Instructions::BVC)
        } else if b == 0x56 && c == 0x53 {
            Some(Instructions::BVS)
        } else {
            None
        }
    } else if a == 0x43 {
        if b == 0x4c && c == 0x43 {
            Some(Instructions::CLC)
        } else if b == 0x4c && c == 0x44 {
            Some(Instructions::CLD)
        } else if b == 0x4c && c == 0x49 {
            Some(Instructions::CLI)
        } else if b == 0x4c && c == 0x56 {
            Some(Instructions::CLV)
        } else if b == 0x4d && c == 0x50 {
            Some(Instructions::CMP)
        } else if b == 0x50 && c == 0x58 {
            Some(Instructions::CPX)
        } else if b == 0x50 && c == 0x59 {
            Some(Instructions::CPY)
        } else {
            None
        }
    } else if a == 0x44 {
        if b == 0x45 && c == 0x43 {
            Some(Instructions::DEC)
        } else if b == 0x45 && c == 0x58 {
            Some(Instructions::DEX)
        } else if b == 0x45 && c == 0x59 {
            Some(Instructions::DEY)
        } else {
            None
        }
    } else if a == 0x45 {
        if b == 0x4f && c == 0x52 {
            Some(Instructions::EOR)
        } else {
            None
        }
    } else if a == 0x49 {
        if b == 0x4e && c == 0x43 {
            Some(Instructions::INC)
        } else if b == 0x4e && c == 0x58 {
            Some(Instructions::INX)
        } else if b == 0x4e && c == 0x59 {
            Some(Instructions::INY)
        } else {
            None
        }
    } else if a == 0x4a {
        if b == 0x4d && c == 0x50 {
            Some(Instructions::JMP)
        } else if b == 0x53 && c == 0x52 {
            Some(Instructions::JSR)
        } else {
            None
        }
    } else if a == 0x4c {
        if b == 0x44 && c == 0x41 {
            Some(Instructions::LDA)
        } else if b == 0x44 && c == 0x58 {
            Some(Instructions::LDX)
        } else if b == 0x44 && c == 0x59 {
            Some(Instructions::LDY)
        } else if b == 0x53 && c == 0x52 {
            Some(Instructions::LSR)
        } else {
            None
        }
    } else if a == 0x4e {
        if b == 0x4f && c == 0x50 {
            Some(Instructions::NOP)
        } else {
            None
        }
    } else if a == 0x4f {
        if b == 0x52 && c == 0x41 {
            Some(Instructions::ORA)
        } else {
            None
        }
    } else if a == 0x50 {
        if b == 0x48 && c == 0x41 {
            Some(Instructions::PHA)
        } else if b == 0x48 && c == 0x50 {
            Some(Instructions::PHP)
        } else if b == 0x4c && c == 0x41 {
            Some(Instructions::PLA)
        } else if b == 0x4c && c == 0x50 {
            Some(Instructions::PLP)
        } else {
            None
        }
    } else if a == 0x52 {
        if b == 0x4f && c == 0x4c {
            Some(Instructions::ROL)
        } else if b == 0x4f && c == 0x52 {
            Some(Instructions::ROR)
        } else if b == 0x54 && c == 0x49 {
            Some(Instructions::RTI)
        } else if b == 0x54 && c == 0x53 {
            Some(Instructions::RTS)
        } else {
            None
        }
    } else if a == 0x53 {
        if b == 0x42 && c == 0x43 {
            Some(Instructions::SBC)
        } else if b == 0x45 && c == 0x43 {
            Some(Instructions::SEC)
        } else if b == 0x45 && c == 0x44 {
            Some(Instructions::SED)
        } else if b == 0x45 && c == 0x49 {
            Some(Instructions::SEI)
        } else if b == 0x54 && c == 0x41 {
            Some(Instructions::STA)
        } else if b == 0x54 && c == 0x58 {
            Some(Instructions::STX)
        } else if b == 0x54 && c == 0x59 {
            Some(Instructions::STY)
        } else {
            None
        }
    } else if a == 0x54 {
        if b == 0x41 && c == 0x58 {
            Some(Instructions::TAX)
        } else if b == 0x41 && c == 0x59 {
            Some(Instructions::TAY)
        } else if b == 0x53 && c == 0x58 {
            Some(Instructions::TSX)
        } else if b == 0x58 && c == 0x41 {
            Some(Instructions::TXA)
        } else if b == 0x58 && c == 0x53 {
            Some(Instructions::TXS)
        } else if b == 0x59 && c == 0x41 {
            Some(Instructions::TYA)
        } else {
            None
        }
    } else {
        None
    }
}


/// One parsed source line: the operation and the operand form it came with.
#[derive(Clone, Copy, Debug, PartialEq, Eq, Structural)]
pub struct ParsedInstruction {
    pub instr: Option<Instructions>,
    pub operand: Option<AddrModes>,
}

impl ParsedInstruction {

    /// Looks a three-letter mnemonic up in the table; `None` for an unknown
    /// name, a name of another length, or lower-case letters.
    pub fn eval_operation(op: &[u8]) -> (r: Option<Instructions>)
        ensures
            r == spec_mnemonic(op@),
    {
        if op.len() != 3 {
            return None;
        }
        let a = op[0];
        let b = op[1];
        let c = op[2];
        if a == 0x41 {
            if b == 0x44 && c == 0x43 {
                Some(Instructions::ADC)
            } else if b == 0x4e && c == 0x44 {
                Some(Instructions::AND)
            } else if b == 0x53 && c == 0x4c {
                Some(Instructions::ASL)
            } else {
                None
            }
        } else if a == 0x42 {
            if b == 0x43 && c == 0x43 {
                Some(Instructions::BCC)
            } else if b == 0x43 && c == 0x53 {
                Some(Instructions::BCS)
            } else if b == 0x45 && c == 0x51 {
                Some(Instructions::BEQ)
            } else if b == 0x49 && c == 0x54 {
                Some(Instructions::BIT)
            } else if b == 0x4d && c == 0x49 {
                Some(Instructions::BMI)
            } else if b == 0x4e && c == 0x45 {
                Some(Instructions::BNE)
            } else if b == 0x50 && c == 0x4c {
                Some(Instructions::BPL)
            } else if b == 0x52 && c == 0x4b {
                Some(Instructions::BRK)
            } else if b == 0x56 && c == 0x43 {
                Some(Instructions::BVC)
            } else if b == 0x56 && c == 0x53 {
                Some(Instructions::BVS)
            } else {
                None
            }
        } else if a == 0x43 {
            if b == 0x4c && c == 0x43 {
                Some(Instructions::CLC)
            } else if b == 0x4c && c == 0x44 {
                Some(Instructions::CLD)
            } else if b == 0x4c && c == 0x49 {
                Some(Instructions::CLI)
            } else if b == 0x4c && c == 0x56 {
                Some(Instructions::CLV)
            } else if b == 0x4d && c == 0x50 {
                Some(Instructions::CMP)
            } else if b == 0x50 && c == 0x58 {
                Some(Instructions::CPX)
            } else if b == 0x50 && c == 0x59 {
                Some(Instructions::CPY)
            } else {
                None
            }
        } else if a == 0x44 {
            if b == 0x45 && c == 0x43 {
                Some(Instructions::DEC)
            } else if b == 0x45 && c == 0x58 {
                Some(Instructions::DEX)
            } else if b == 0x45 && c == 0x59 {
                Some(Instructions::DEY)
            } else {
                None
            }
        } else if a == 0x45 {
            if b == 0x4f && c == 0x52 {
                Some(Instructions::EOR)
            } else {
                None
            }
        } else if a == 0x49 {
            if b == 0x4e && c == 0x43 {
                Some(Instructions::INC)
            } else if b == 0x4e && c == 0x58 {
                Some(Instructions::INX)
            } else if b == 0x4e && c == 0x59 {
                Some(Instructions::INY)
            } else {
                None
            }
        } else if a == 0x4a {
            if b == 0x4d && c == 0x50 {
                Some(Instructions::JMP)
            } else if b == 0x53 && c == 0x52 {
                Some(Instructions::JSR)
            } else {
                None
            }
        } else if a == 0x4c {
            if b == 0x44 && c == 0x41 {
                Some(Instructions::LDA)
            } else if b == 0x44 && c == 0x58 {
                Some(Instructions::LDX)
            } else if b == 0x44 && c == 0x59 {
                Some(Instructions::LDY)
            } else if b == 0x53 && c == 0x52 {
                Some(Instructions::LSR)
            } else {
                None
            }
        } else if a == 0x4e {
            if b == 0x4f && c == 0x50 {
                Some(Instructions::NOP)
            } else {
                None
            }
        } else if a == 0x4f {
            if b == 0x52 && c == 0x41 {
                Some(Instructions::ORA)
            } else {
                None
            }
        } else if a == 0x50 {
            if b == 0x48 && c == 0x41 {
                Some(Instructions::PHA)
            } else if b == 0x48 && c == 0x50 {
                Some(Instructions::PHP)
            } else if b == 0x4c && c == 0x41 {
                Some(Instructions::PLA)
            } else if b == 0x4c && c == 0x50 {
                Some(Instructions::PLP)
            } else {
                None
            }
        } else if a == 0x52 {
            if b == 0x4f && c == 0x4c {
                Some(Instructions::ROL)
            } else if b == 0x4f && c == 0x52 {
                Some(Instructions::ROR)
            } else if b == 0x54 && c == 0x49 {
                Some(Instructions::RTI)
            } else if b == 0x54 && c == 0x53 {
                Some(Instructions::RTS)
            } else {
                None
            }
        } else if a == 0x53 {
            if b == 0x42 && c == 0x43 {
                Some(Instructions::SBC)
            } else if b == 0x45 && c == 0x43 {
                Some(Instructions::SEC)
            } else if b == 0x45 && c == 0x44 {
                Some(Instructions::SED)
            } else if b == 0x45 && c == 0x49 {
                Some(Instructions::SEI)
            } else if b == 0x54 && c == 0x41 {
                Some(Instructions::STA)
            } else if b == 0x54 && c == 0x58 {
                Some(Instructions::STX)
            } else if b == 0x54 && c == 0x59 {
                Some(Instructions::STY)
            } else {
                None
            }
        } else if a == 0x54 {
            if b == 0x41 && c == 0x58 {
                Some(Instructions::TAX)
            } else if b == 0x41 && c == 0x59 {
                Some(Instructions::TAY)
            } else if b == 0x53 && c == 0x58 {
                Some(Instructions::TSX)
            } else if b == 0x58 && c == 0x41 {
                Some(Instructions::TXA)
            } else if b == 0x58 && c == 0x53 {
                Some(Instructions::TXS)
            } else if b == 0x59 && c == 0x41 {
                Some(Instructions::TYA)
            } else {
                None
            }
        } else {
            None
        }
    }

    /// Parses exactly two upper-case hexadecimal digits into a byte.
    pub fn parse_word_hex(hex: &[u8]) -> (r: Option<word>)
        ensures
            (match spec_hex_byte(hex@) {
                Some(v) => r == Some(word_of(v)),
                None => r is None,
            }),
    {
        if hex.len() != 2 {
            return None;
        }
        let h = hex_digit(hex[0]);
        let l = hex_digit(hex[1]);
        match (h, l) {
            (Some(hv), Some(lv)) => Some(word::from_6502_bytes(hv * 16 + lv)),
            _ => None,
        }
    }

    /// Parses exactly four upper-case hexadecimal digits into a 16-bit
    /// value.
    pub fn parse_doubleword_hex(hex: &[u8]) -> (r: Option<doubleword>)
        ensures
            (match spec_hex_word(hex@) {
                Some(v) => r == Some(doubleword_of(v)),
                None => r is None,
            }),
    {
        if hex.len() != 4 {
            return None;
        }
        let d0 = hex_digit(hex[0]);
        let d1 = hex_digit(hex[1]);
        let d2 = hex_digit(hex[2]);
        let d3 = hex_digit(hex[3]);
        match (d0, d1, d2, d3) {
            (Some(a), Some(b), Some(c), Some(d)) => Some(
                doubleword::from_6502_bytes(
                    a as u16 * 4096 + b as u16 * 256 + c as u16 * 16 + d as u16,
                ),
            ),
            _ => None,
        }
    }

    /// Matches the operand text against the fixed forms of the grammar.
    pub fn eval_operand(op: &[u8]) -> (r: Option<AddrModes>)
        ensures
            r == spec_operand(op@),
    {
        if op.len() == 0 {
            Some(AddrModes::Implied)
        } else if op[0] == 0x24 {
            if op.len() == 3 {
                match Self::parse_word_hex(slice_part(op, 1, 3)) {
                    Some(w) => Some(AddrModes::Zeropage(w)),
                    None => None,
                }
            } else if op.len() == 5 {
                match Self::parse_doubleword_hex(slice_part(op, 1, 5)) {
                    Some(dw) => Some(AddrModes::Absolute(dw)),
                    None => None,
                }
            } else if op.len() == 7 && op[5] == 0x2c && op[6] == 0x58 {
                match Self::parse_doubleword_hex(slice_part(op, 1, 5)) {
                    Some(dw) => Some(AddrModes::AbsoluteX(dw)),
                    None => None,
                }
            } else if op.len() == 7 && op[5] == 0x2c && op[6] == 0x59 {
                match Self::parse_doubleword_hex(slice_part(op, 1, 5)) {
                    Some(dw) => Some(AddrModes::AbsoluteY(dw)),
                    None => None,
                }
            } else {
                None
            }
        } else if op[0] == 0x23 {
            if op.len() == 4 && op[1] == 0x24 {
                match Self::parse_word_hex(slice_part(op, 2, 4)) {
                    Some(w) => Some(AddrModes::Immediate(w)),
                    None => None,
                }
            } else {
                None
            }
        } else if op[0] == 0x28 {
            if op.len() == 7 && op[1] == 0x24 && op[4] == 0x2c && op[5] == 0x58 && op[6] == 0x29 {
                match Self::parse_word_hex(slice_part(op, 2, 4)) {
                    Some(w) => Some(AddrModes::IndirectX(w)),
                    None => None,
                }
            } else if op.len() == 7 && op[1] == 0x24 && op[4] == 0x29 && op[5] == 0x2c && op[6]
                == 0x59 {
                match Self::parse_word_hex(slice_part(op, 2, 4)) {
                    Some(w) => Some(AddrModes::IndirectY(w)),
                    None => None,
                }
            } else if op.len() == 7 && op[1] == 0x24 && op[6] == 0x29 {
                match Self::parse_doubleword_hex(slice_part(op, 2, 6)) {
                    Some(dw) => Some(AddrModes::Indirect(dw)),
                    None => None,
                }
            } else {
                None
            }
        } else {
            None
        }
    }

    /// Emits the little-endian binary representation of the instruction:
    /// the opcode byte from the encode table, then the operand bytes. A
    /// pairing the table has no entry for is a fatal error that emits
    /// nothing.
    pub fn emit(self, stream: &mut InstructionStream) -> (r: Result<(), AsmErrorKind>)
        requires
            self.instr is Some,
            self.operand is Some,
        ensures
            (match spec_emit_bytes(self.instr.unwrap(), self.operand.unwrap()) {
                Some(bs) => r == Ok::<(), AsmErrorKind>(()) && final(stream)@ == old(stream)@
                    + bs,
                None => r == Err::<(), AsmErrorKind>(AsmErrorKind::IllegalCombination)
                    && final(stream)@ == old(stream)@,
            }),
    {
        let op = self.instr.unwrap();
        let am = self.operand.unwrap();
        let am2 = if Self::is_branch(op) {
            match am {
                AddrModes::Zeropage(w) => AddrModes::Relative(w),
                _ => am,
            }
        } else if Self::is_shift(op) && matches!(am, AddrModes::Implied) {
            AddrModes::Accumulator
        } else {
            am
        };
        let instr_byte = match encode_opcode(op, Self::mode_of(am2)) {
            None => {
                return Err(AsmErrorKind::IllegalCombination);
            },
            Some(b) => b,
        };
        stream.push_word(word::from_6502_bytes(instr_byte));
        match am2 {
            AddrModes::Absolute(dw) => stream.push_doubleword(dw),
            AddrModes::Accumulator => {},
            AddrModes::AbsoluteX(dw) => stream.push_doubleword(dw),
            AddrModes::AbsoluteY(dw) => stream.push_doubleword(dw),
            AddrModes::Immediate(w) => stream.push_word(w),
            AddrModes::Implied => {},
            AddrModes::Indirect(dw) => stream.push_doubleword(dw),
            AddrModes::IndirectX(w) => stream.push_word(w),
            AddrModes::IndirectY(w) => stream.push_word(w),
            AddrModes::Relative(w) => stream.push_word(w),
            AddrModes::Zeropage(w) => stream.push_word(w),
            AddrModes::ZeropageX(w) => stream.push_word(w),
            AddrModes::ZeropageY(w) => stream.push_word(w),
        }
        proof {
            assert(old(stream)@ + spec_emit_bytes(
                self.instr.unwrap(),
                self.operand.unwrap(),
            ).unwrap() =~= stream@);
        }
        Ok(())
    }

    /// Whether the operation is a shift or rotate.
    fn is_shift(op: Instructions) -> (r: bool)
        ensures
            r == spec_is_shift(op),
    {
        match op {
            Instructions::ASL => true,
            Instructions::LSR => true,
            Instructions::ROL => true,
            Instructions::ROR => true,
            _ => false,
        }
    }

    /// Whether the operation is a conditional branch.
    fn is_branch(op: Instructions) -> (r: bool)
        ensures
            r == spec_is_branch(op),
    {
        match op {
            Instructions::BCC => true,
            Instructions::BCS => true,
            Instructions::BEQ => true,
            Instructions::BMI => true,
            Instructions::BNE => true,
            Instructions::BPL => true,
            Instructions::BVC => true,
            Instructions::BVS => true,
            _ => false,
        }
    }

    /// The addressing mode an operand form selects.
    fn mode_of(am: AddrModes) -> (r: Mode)
        ensures
            r == spec_mode_of(am),
    {
        match am {
            AddrModes::Absolute(_) => Mode::Absolute,
            AddrModes::Accumulator => Mode::Accumulator,
            AddrModes::AbsoluteX(_) => Mode::AbsoluteX,
            AddrModes::AbsoluteY(_) => Mode::AbsoluteY,
            AddrModes::Immediate(_) => Mode::Immediate,
            AddrModes::Implied => Mode::Implied,
            AddrModes::Indirect(_) => Mode::Indirect,
            AddrModes::IndirectX(_) => Mode::IndirectX,
            AddrModes::IndirectY(_) => Mode::IndirectY,
            AddrModes::Relative(_) => Mode::Relative,
            AddrModes::Zeropage(_) => Mode::ZeroPage,
            AddrModes::ZeropageX(_) => Mode::ZeroPageX,
            AddrModes::ZeropageY(_) => Mode::ZeroPageY,
        }
    }
}

/// One upper-case hexadecimal digit's value.
fn hex_digit(b: u8) -> (r: Option<u8>)
    ensures
        spec_is_hex(b) ==> r == Some(spec_hex_val(b)),
        !spec_is_hex(b) ==> r is None,
{
    if 0x30 <= b && b <= 0x39 {
        Some(b - 0x30)
    } else if 0x41 <= b && b <= 0x46 {
        Some(b - 0x41 + 10)
    } else {
        None
    }
}

/// The subslice over the half-open index range.
fn slice_part<'a>(s: &'a [u8], from: usize, to: usize) -> (r: &'a [u8])
    requires
        from <= to <= s@.len(),
    ensures
        r@ == s@.subrange(from as int, to as int),
{
    vstd::slice::slice_subrange(s, from, to)
}


/// A whitespace byte a line is trimmed of and fields are separated by:
/// space, tab or carriage return.
pub open spec fn spec_ws(b: u8) -> bool {
    b == 0x20 || b == 0x09 || b == 0x0d
}

/// The index of the first line-feed byte at or after `pos`, or the end of
/// the text.
pub open spec fn spec_eol(s: Seq<u8>, pos: int) -> int
    decreases s.len() - pos,
{
    if pos >= s.len() {
        s.len() as int
    } else if s[pos] == 0x0a {
        pos
    } else {
        spec_eol(s, pos + 1)
    }
}

/// The first line-feed position lies between `pos` and the end.
pub proof fn lemma_eol_bounds(s: Seq<u8>, pos: int)
    requires
        pos <= s.len(),
    ensures
        pos <= spec_eol(s, pos) <= s.len(),
    decreases s.len() - pos,
{
    if pos < s.len() && s[pos] != 0x0a {
        lemma_eol_bounds(s, pos + 1);
    }
}

/// The index of the first non-whitespace byte in `[pos, end)`, or `end`.
pub open spec fn spec_skip_ws(s: Seq<u8>, pos: int, end: int) -> int
    decreases end - pos,
{
    if pos >= end {
        end
    } else if !spec_ws(s[pos]) {
        pos
    } else {
        spec_skip_ws(s, pos + 1, end)
    }
}

/// The end of `[start, end)` with trailing whitespace stripped.
pub open spec fn spec_trim_end(s: Seq<u8>, start: int, end: int) -> int
    decreases end - start,
{
    if end <= start {
        start
    } else if !spec_ws(s[end - 1]) {
        end
    } else {
        spec_trim_end(s, start, end - 1)
    }
}

/// The index of the first whitespace byte in `[pos, end)`, or `end`.
pub open spec fn spec_find_ws(s: Seq<u8>, pos: int, end: int) -> int
    decreases end - pos,
{
    if pos >= end {
        end
    } else if spec_ws(s[pos]) {
        pos
    } else {
        spec_find_ws(s, pos + 1, end)
    }
}

/// What one trimmed, nonempty line means: the word before the first
/// whitespace must be a known mnemonic, what follows the whitespace must
/// match one operand form.
pub open spec fn spec_eval_line(line: Seq<u8>) -> Result<(Instructions, AddrModes), AsmErrorKind> {
    let msp = spec_find_ws(line, 0, line.len() as int);
    let ops = spec_skip_ws(line, msp, line.len() as int);
    let mn = line.subrange(0, msp);
    let opnd = line.subrange(ops, line.len() as int);
    match spec_mnemonic(mn) {
        None => Err(AsmErrorKind::UnknownMnemonic),
        Some(op) => match spec_operand(opnd) {
            None => Err(AsmErrorKind::BadOperand),
            Some(am) => Ok((op, am)),
        },
    }
}

/// The bytes one trimmed, nonempty line assembles to, or what is wrong
/// with it.
pub open spec fn spec_parse_line(line: Seq<u8>) -> Result<Seq<u8>, AsmErrorKind> {
    match spec_eval_line(line) {
        Err(k) => Err(k),
        Ok((op, am)) => match spec_emit_bytes(op, am) {
            None => Err(AsmErrorKind::IllegalCombination),
            Some(bs) => Ok(bs),
        },
    }
}

/// The bytes the text from `pos` on assembles to: each line runs to the
/// next line feed and is trimmed, blank lines are skipped, every other
/// line is encoded in order; the first bad line stops the assembly with
/// its line number.
pub open spec fn spec_asm_from(s: Seq<u8>, pos: int, lineno: nat) -> Result<Seq<u8>, AsmError>
    decreases s.len() - pos,
        via spec_asm_from_dec
{
    if pos >= s.len() {
        Ok(Seq::empty())
    } else {
        let e = spec_eol(s, pos);
        let ts = spec_skip_ws(s, pos, e);
        let te = spec_trim_end(s, ts, e);
        let line = s.subrange(ts, te);
        let here: Result<Seq<u8>, AsmError> = if line.len() == 0 {
            Ok(Seq::empty())
        } else {
            match spec_parse_line(line) {
                Err(k) => Err(AsmError { line: lineno as usize, kind: k }),
                Ok(bs) => Ok(bs),
            }
        };
        match here {
            Err(err) => Err(err),
            Ok(bs) => if e >= s.len() {
                Ok(bs)
            } else {
                match spec_asm_from(s, e + 1, lineno + 1) {
                    Err(err) => Err(err),
                    Ok(rest) => Ok(bs + rest),
                }
            },
        }
    }
}

#[via_fn]
proof fn spec_asm_from_dec(s: Seq<u8>, pos: int, lineno: nat) {
    if pos < s.len() {
        lemma_eol_bounds(s, pos);
    }
}

/// A whitespace byte: space, tab or carriage return.
fn is_ws(b: u8) -> (r: bool)
    ensures
        r == spec_ws(b),
{
    b == 0x20 || b == 0x09 || b == 0x0d
}

impl ParsedInstruction {
    /// Parses a single trimmed, nonempty line into its operation and
    /// operand form.
    pub fn eval(line: &[u8]) -> (r: Result<ParsedInstruction, AsmErrorKind>)
        ensures
            (match spec_eval_line(line@) {
                Ok((op, am)) => r == Ok::<ParsedInstruction, AsmErrorKind>(
                    ParsedInstruction { instr: Some(op), operand: Some(am) },
                ),
                Err(k) => r == Err::<ParsedInstruction, AsmErrorKind>(k),
            }),
    {
        let n = line.len();
        let mut i: usize = 0;
        while i < n && !is_ws(line[i])
            invariant
                i <= n,
                n == line@.len(),
                spec_find_ws(line@, 0, n as int) == spec_find_ws(line@, i as int, n as int),
            decreases n - i,
        {
            i += 1;
        }
        let mut j: usize = i;
        while j < n && is_ws(line[j])
            invariant
                i <= j <= n,
                n == line@.len(),
                spec_skip_ws(line@, i as int, n as int) == spec_skip_ws(line@, j as int, n as int),
            decreases n - j,
        {
            j += 1;
        }
        let mn = slice_part(line, 0, i);
        let opnd = slice_part(line, j, n);
        match Self::eval_operation(mn) {
            None => Err(AsmErrorKind::UnknownMnemonic),
            Some(op) => match Self::eval_operand(opnd) {
                None => Err(AsmErrorKind::BadOperand),
                Some(am) => Ok(ParsedInstruction { instr: Some(op), operand: Some(am) }),
            },
        }
    }
}

/// Parses one trimmed, nonempty line and appends its encoding onto the
/// stream; a bad line appends nothing.
pub fn parse_line(line: &[u8], stream: &mut InstructionStream) -> (r: Result<(), AsmErrorKind>)
    ensures
        (match spec_parse_line(line@) {
            Ok(bs) => r == Ok::<(), AsmErrorKind>(()) && final(stream)@ == old(stream)@ + bs,
            Err(k) => r == Err::<(), AsmErrorKind>(k) && final(stream)@ == old(stream)@,
        }),
{
    let instr = match ParsedInstruction::eval(line) {
        Err(k) => {
            return Err(k);
        },
        Ok(pi) => pi,
    };
    instr.emit(stream)
}

/// Assembles a whole program: one instruction per line, blank lines
/// skipped, each line encoded in order into one flat byte stream. The
/// first bad line is a fatal error naming that line, counted from one.
pub fn parse_program(program: &str) -> (r: Result<InstructionStream, AsmError>)
    requires
        program.spec_bytes().len() + 2 < usize::MAX,
    ensures
        (match spec_asm_from(program.spec_bytes(), 0, 1) {
            Ok(bs) => r matches Ok(st) && st@ == bs,
            Err(e) => r == Err::<InstructionStream, AsmError>(e),
        }),
{
    let bytes = program.as_bytes();
    let n = bytes.len();
    let ghost s = bytes@;
    let mut stream = InstructionStream::new();
    let mut pos: usize = 0;
    let mut lineno: usize = 1;
    while pos < n
        invariant
            n == s.len(),
            n + 2 < usize::MAX,
            s == program.spec_bytes(),
            s == bytes@,
            pos <= n + 1,
            1 <= lineno <= pos + 1,
            (match spec_asm_from(s, pos as int, lineno as nat) {
                Ok(rest) => spec_asm_from(s, 0, 1) == Ok::<Seq<u8>, AsmError>(stream@ + rest),
                Err(e) => spec_asm_from(s, 0, 1) == Err::<Seq<u8>, AsmError>(e),
            }),
        decreases n + 1 - pos,
    {
        let mut e: usize = pos;
        while e < n && bytes[e] != 0x0a
            invariant
                pos <= e <= n,
                n == s.len(),
                s == bytes@,
                spec_eol(s, pos as int) == spec_eol(s, e as int),
            decreases n - e,
        {
            e += 1;
        }
        let mut ts: usize = pos;
        while ts < e && is_ws(bytes[ts])
            invariant
                pos <= ts <= e <= n,
                n == s.len(),
                s == bytes@,
                spec_skip_ws(s, pos as int, e as int) == spec_skip_ws(s, ts as int, e as int),
            decreases e - ts,
        {
            ts += 1;
        }
        let mut te: usize = e;
        while te > ts && is_ws(bytes[te - 1])
            invariant
                ts <= te <= e <= n,
                n == s.len(),
                s == bytes@,
                spec_trim_end(s, ts as int, e as int) == spec_trim_end(s, ts as int, te as int),
            decreases te,
        {
            te -= 1;
        }
        proof {
            assert(spec_eol(s, pos as int) == e);
            assert(spec_skip_ws(s, pos as int, e as int) == ts);
            assert(spec_trim_end(s, ts as int, e as int) == te);
        }
        let line = slice_part(bytes, ts, te);
        let ghost pre = stream@;
        let ghost bs = if line@.len() == 0 {
            Seq::<u8>::empty()
        } else {
            match spec_parse_line(line@) {
                Ok(b) => b,
                Err(_) => Seq::<u8>::empty(),
            }
        };
        if line.len() > 0 {
            match parse_line(line, &mut stream) {
                Err(k) => {
                    proof {
                        assert(spec_asm_from(s, pos as int, lineno as nat) == Err::<
                            Seq<u8>,
                            AsmError,
                        >(AsmError { line: lineno, kind: k }));
                    }
                    return Err(AsmError { line: lineno, kind: k });
                },
                Ok(()) => {
                },
            }
        }
        proof {
            assert(pre + Seq::<u8>::empty() =~= pre);
            assert(stream@ == pre + bs);
            if (e as int) < s.len() {
                match spec_asm_from(s, (e + 1) as int, (lineno + 1) as nat) {
                    Ok(rest2) => {
                        assert(pre + (bs + rest2) =~= (pre + bs) + rest2);
                    },
                    Err(_) => {
                    },
                }
            } else {
                assert(stream@ + Seq::<u8>::empty() =~= stream@);
            }
        }
        pos = e + 1;
        lineno = lineno + 1;
    }
    proof {
        assert(stream@ + Seq::<u8>::empty() =~= stream@);
    }
    Ok(stream)
}

} // verus!
