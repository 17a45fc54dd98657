use mos6502::assembler::parse_program;
use mos6502::assembler::AddrModes;
use mos6502::assembler::ParsedInstruction;
use mos6502::datastructures::doubleword;
use mos6502::datastructures::word;
use mos6502::datastructures::InstructionStream;
use mos6502::decode::Instructions;

#[test]
fn hex_fields_parse_exactly() {
    assert_eq!(ParsedInstruction::parse_word_hex(b"2F"), Some(word::from(0x2Fu8)));
    assert_eq!(ParsedInstruction::parse_word_hex(b"G0"), None);
    assert_eq!(ParsedInstruction::parse_word_hex(b"123"), None);
    assert_eq!(
        ParsedInstruction::parse_doubleword_hex(b"BEEF"),
        Some(doubleword::from(0xBEEFu16))
    );
    assert_eq!(ParsedInstruction::parse_doubleword_hex(b"BEE"), None);
    assert_eq!(ParsedInstruction::parse_doubleword_hex(b"beef"), None);
}

#[test]
fn each_operand_form_picks_exactly_one_mode() {
    assert_eq!(ParsedInstruction::eval_operand(b""), Some(AddrModes::Implied));
    assert_eq!(
        ParsedInstruction::eval_operand(b"$12"),
        Some(AddrModes::Zeropage(word::from(0x12u8)))
    );
    assert_eq!(
        ParsedInstruction::eval_operand(b"$1234"),
        Some(AddrModes::Absolute(doubleword::from(0x1234u16)))
    );
    assert_eq!(
        ParsedInstruction::eval_operand(b"$1234,X"),
        Some(AddrModes::AbsoluteX(doubleword::from(0x1234u16)))
    );
    assert_eq!(
        ParsedInstruction::eval_operand(b"$1234,Y"),
        Some(AddrModes::AbsoluteY(doubleword::from(0x1234u16)))
    );
    assert_eq!(
        ParsedInstruction::eval_operand(b"#$56"),
        Some(AddrModes::Immediate(word::from(0x56u8)))
    );
    assert_eq!(
        ParsedInstruction::eval_operand(b"($1234)"),
        Some(AddrModes::Indirect(doubleword::from(0x1234u16)))
    );
    assert_eq!(
        ParsedInstruction::eval_operand(b"($12,X)"),
        Some(AddrModes::IndirectX(word::from(0x12u8)))
    );
    assert_eq!(
        ParsedInstruction::eval_operand(b"($12),Y"),
        Some(AddrModes::IndirectY(word::from(0x12u8)))
    );
    assert_eq!(ParsedInstruction::eval_operand(b"$12,X"), None);
    assert_eq!(ParsedInstruction::eval_operand(b"#12"), None);
    assert_eq!(ParsedInstruction::eval_operand(b"($123)"), None);
}

#[test]
fn eval_splits_mnemonic_and_operand() {
    let pi = ParsedInstruction::eval(b"LDA #$01").unwrap();
    assert_eq!(pi.instr, Some(Instructions::LDA));
    assert_eq!(pi.operand, Some(AddrModes::Immediate(word::from(0x01u8))));

    let pi = ParsedInstruction::eval(b"NOP").unwrap();
    assert_eq!(pi.instr, Some(Instructions::NOP));
    assert_eq!(pi.operand, Some(AddrModes::Implied));

    assert!(ParsedInstruction::eval(b"lda #$01").is_err());
    assert!(ParsedInstruction::eval(b"LD #$01").is_err());
}

#[test]
fn emit_writes_the_opcode_then_the_operand_bytes() {
    let pi = ParsedInstruction::eval(b"STA $0200").unwrap();
    let mut stream = InstructionStream::new();
    pi.emit(&mut stream).unwrap();
    assert_eq!(
        stream.stream.iter().map(|w| w.native_value()).collect::<Vec<u8>>(),
        vec![0x8D, 0x00, 0x02]
    );

    let pi = ParsedInstruction::eval(b"BNE $F0").unwrap();
    let mut stream = InstructionStream::new();
    pi.emit(&mut stream).unwrap();
    assert_eq!(
        stream.stream.iter().map(|w| w.native_value()).collect::<Vec<u8>>(),
        vec![0xD0, 0xF0]
    );

    let pi = ParsedInstruction::eval(b"LDA ($12),Y").unwrap();
    let mut stream = InstructionStream::new();
    pi.emit(&mut stream).unwrap();
    assert_eq!(
        stream.stream.iter().map(|w| w.native_value()).collect::<Vec<u8>>(),
        vec![0xB1, 0x12]
    );
}

#[test]
fn the_whole_mnemonic_table_assembles() {
    // One line for each of the 56 mnemonics, in a mode each supports.
    let text = "ADC #$01\nAND #$01\nASL $01\nBCC $01\nBCS $01\nBEQ $01\nBIT $01\nBMI $01\n\
                BNE $01\nBPL $01\nBRK\nBVC $01\nBVS $01\nCLC\nCLD\nCLI\nCLV\nCMP #$01\n\
                CPX #$01\nCPY #$01\nDEC $01\nDEX\nDEY\nEOR #$01\nINC $01\nINX\nINY\n\
                JMP $1234\nJSR $1234\nLDA #$01\nLDX #$01\nLDY #$01\nLSR $01\nNOP\nORA #$01\n\
                PHA\nPHP\nPLA\nPLP\nROL $01\nROR $01\nRTI\nRTS\nSBC #$01\nSEC\nSED\nSEI\n\
                STA $01\nSTX $01\nSTY $01\nTAX\nTAY\nTSX\nTXA\nTXS\nTYA\n";
    let stream = parse_program(text).unwrap();
    // 21 two-byte operand lines, 8 two-byte branches, 2 three-byte jumps
    // and 25 one-byte implied lines; spot-check the first opcode.
    let bytes: Vec<u8> = stream.stream.iter().map(|w| w.native_value()).collect();
    assert_eq!(bytes[0], 0x69);
    assert_eq!(bytes.len(), 21 * 2 + 8 * 2 + 2 * 3 + 25);
}

#[test]
fn a_bare_shift_names_the_accumulator() {
    let stream = parse_program("ASL
ROL
LSR
ROR
").unwrap();
    assert_eq!(
        stream.stream.iter().map(|w| w.native_value()).collect::<Vec<u8>>(),
        vec![0x0A, 0x2A, 0x4A, 0x6A]
    );
}

#[test]
fn carriage_returns_and_padding_are_trimmed() {
    let stream = parse_program("  LDA #$01\r\n\tSTA $0200  \r\n").unwrap();
    assert_eq!(
        stream.stream.iter().map(|w| w.native_value()).collect::<Vec<u8>>(),
        vec![0xA9, 0x01, 0x8D, 0x00, 0x02]
    );
}
