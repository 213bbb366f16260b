use instruction_decoding_on_the_8086::decode_instructions;
use instruction_decoding_on_the_8086::errors::FailedDecode;
use instruction_decoding_on_the_8086::extract_instruction;
use instruction_decoding_on_the_8086::tools::{
    get_u16_displacement_from_iterator, get_u8_displacement_from_iterator,
};
use instruction_decoding_on_the_8086::x86_decoder::{
    extract_accumulator_to_memory_or_memory_to_accumulator, extract_immediate_to_register,
    extract_immediate_to_register_or_memory, extract_register_or_memory_to_or_from_register,
    get_expression_register_encoding, get_standard_register_encoding,
};
use instruction_decoding_on_the_8086::x86_definitions::{
    Immediate, Instruction, InstructionSizing, InstructionSizingOptions, Instructions, Memory,
    Reference, Register,
};

fn decode_one(bytes: Vec<u8>) -> Result<Option<Instruction>, FailedDecode<'static>> {
    let mut it = bytes.into_iter();
    extract_instruction(&mut it)
}

fn text_of(bytes: Vec<u8>) -> String {
    decode_one(bytes).unwrap().unwrap().to_string()
}

#[test]
fn test_get_u16_from_iterator() {
    let input: Vec<u8> = vec![0x0C, 0x03];
    let mut input = input.into_iter();

    assert_eq!(get_u16_displacement_from_iterator(&mut input, 0x00, "").unwrap(), 0x030C as u16)
}

#[test]
fn test_get_u16_from_iterator_2() {
    let input: Vec<u8> = vec![0x87, 0x13];
    let mut input = input.into_iter();

    assert_eq!(get_u16_displacement_from_iterator(&mut input, 0x00, "").unwrap(), 0x1387 as u16)
}

#[test]
fn u16_read_fails_on_one_byte() {
    let mut input = vec![0x12u8].into_iter();
    let e = get_u16_displacement_from_iterator(&mut input, 0xAB, "short").unwrap_err();
    assert_eq!(e.bytes, 0xAB);
    assert_eq!(e.message, "short");
    assert_eq!(input.next(), None);
}

#[test]
fn u8_read_takes_one_byte() {
    let mut input = vec![0x12u8, 0x34].into_iter();
    assert_eq!(get_u8_displacement_from_iterator(&mut input, 0, "m").unwrap(), 0x12);
    assert_eq!(input.next(), Some(0x34));
    assert_eq!(input.next(), None);
    assert!(get_u8_displacement_from_iterator(&mut input, 7, "m").is_err());
}

#[test]
fn register_to_register_word() {
    let i = decode_one(vec![0x89, 0xD9]).unwrap().unwrap();
    assert_eq!(i.source, Reference::Reg(Register::BX));
    assert_eq!(i.destination, Reference::Reg(Register::CX));
    assert_eq!(i.to_string(), "mov cx, bx");
}

#[test]
fn immediate_to_byte_register() {
    assert_eq!(text_of(vec![0xB0, 0x05]), "mov al, 5");
}

#[test]
fn immediate_to_word_register() {
    assert_eq!(text_of(vec![0xB9, 0x0C, 0x03]), "mov cx, 780");
    assert_eq!(text_of(vec![0xBA, 0x6C, 0xF6]), "mov dx, 63084");
}

#[test]
fn immediate_byte_to_direct_address() {
    assert_eq!(text_of(vec![0xC6, 0x06, 0x00, 0x00, 0x07]), "mov byte [0], 7");
}

#[test]
fn immediate_word_to_expression() {
    assert_eq!(
        text_of(vec![0xC7, 0x85, 0x85, 0x03, 0x5B, 0x01]),
        "mov word [di + 901], 347"
    );
}

#[test]
fn unknown_opcode_fails() {
    let e = decode_one(vec![0xFF]).unwrap_err();
    assert_eq!(e.bytes, 0xFF);
    assert_eq!(e.message, "Byte matched no known opcodes!");
    let (lines, error) = decode_instructions(vec![0xFF]);
    assert_eq!(lines, vec!["bits 16".to_string()]);
    assert_eq!(error.unwrap().bytes, 0xFF);
}

#[test]
fn memory_to_register_expression() {
    assert_eq!(text_of(vec![0x8B, 0x00]), "mov ax, [bx + si + 0]");
}

#[test]
fn byte_and_word_displacements() {
    assert_eq!(text_of(vec![0x8A, 0x60, 0x04]), "mov ah, [bx + si + 4]");
    assert_eq!(text_of(vec![0x8A, 0x80, 0x87, 0x13]), "mov al, [bx + si + 4999]");
    assert_eq!(text_of(vec![0x8B, 0x41, 0xDB]), "mov ax, [bx + di + -37]");
    assert_eq!(text_of(vec![0x89, 0x8C, 0xD4, 0xFE]), "mov [si + -300], cx");
    assert_eq!(text_of(vec![0x88, 0x6E, 0x00]), "mov [bp + 0], ch");
}

#[test]
fn direct_address_to_register() {
    assert_eq!(text_of(vec![0x8B, 0x2E, 0x05, 0x00]), "mov bp, [5]");
}

#[test]
fn accumulator_forms() {
    assert_eq!(text_of(vec![0xA1, 0xFB, 0x09]), "mov ax, [2555]");
    assert_eq!(text_of(vec![0xA0, 0x10, 0x00]), "mov al, [16]");
    assert_eq!(text_of(vec![0xA3, 0xFA, 0x09]), "mov [2554], ax");
    assert_eq!(text_of(vec![0xA2, 0x0F, 0x00]), "mov [15], al");
}

#[test]
fn empty_input_decodes_to_nothing() {
    assert!(decode_one(vec![]).unwrap().is_none());
    let (lines, error) = decode_instructions(vec![]);
    assert_eq!(lines, vec!["bits 16".to_string()]);
    assert!(error.is_none());
}

#[test]
fn listing_of_several_instructions() {
    let (lines, error) = decode_instructions(vec![0x89, 0xD9, 0xB0, 0x05, 0x8B, 0x00]);
    assert!(error.is_none());
    assert_eq!(lines, vec!["bits 16", "mov cx, bx", "mov al, 5", "mov ax, [bx + si + 0]"]);
}

#[test]
fn failure_keeps_earlier_lines() {
    let (lines, error) = decode_instructions(vec![0x89, 0xD9, 0x8B]);
    assert_eq!(lines, vec!["bits 16", "mov cx, bx"]);
    let e = error.unwrap();
    assert_eq!(e.bytes, 0x8B);
    assert_eq!(e.message, "missing second byte!");
}

#[test]
fn truncation_messages() {
    assert_eq!(decode_one(vec![0x8B, 0x06, 0x01]).unwrap_err().message, "Missing bytes for direct address");
    assert_eq!(decode_one(vec![0x8B, 0x40]).unwrap_err().message, "Missing byte for u8 offset!");
    assert_eq!(decode_one(vec![0x8B, 0x80, 0x01]).unwrap_err().message, "Missing bytes for u16 offset!");
    assert_eq!(decode_one(vec![0xB8, 0x01]).unwrap_err().message, "Missing bytes for u16 immediate!");
    assert_eq!(decode_one(vec![0xC6, 0xC0]).unwrap_err().message, "Missing bytes for u16 immediate!");
    assert_eq!(decode_one(vec![0xA0, 0x01]).unwrap_err().message, "Missing bytes for direct address");
    assert_eq!(decode_one(vec![0xC7]).unwrap_err().bytes, 0xC7);
}

#[test]
fn register_tables_are_complete_and_distinct() {
    let byte_names = ["al", "cl", "dl", "bl", "ah", "ch", "dh", "bh"];
    let word_names = ["ax", "cx", "dx", "bx", "sp", "bp", "si", "di"];
    let mut seen: Vec<String> = Vec::new();
    for bits in 0..8u8 {
        let b = get_standard_register_encoding(bits, false).to_string();
        let w = get_standard_register_encoding(bits, true).to_string();
        assert_eq!(b, byte_names[bits as usize]);
        assert_eq!(w, word_names[bits as usize]);
        seen.push(b);
        seen.push(w);
    }
    seen.sort();
    seen.dedup();
    assert_eq!(seen.len(), 16);
}

#[test]
fn expression_table() {
    assert_eq!(get_expression_register_encoding(2, -3).to_string(), "[bp + si + -3]");
    assert_eq!(get_expression_register_encoding(6, 0).to_string(), "[bp + 0]");
    assert_eq!(get_expression_register_encoding(7, 12).to_string(), "[bx + 12]");
}

#[test]
fn direction_bit_swaps_operands() {
    for byte2 in [0x00u8, 0x46, 0x87, 0xD9, 0x06] {
        let a = decode_one(vec![0x88, byte2, 0x11, 0x22]).unwrap().unwrap();
        let b = decode_one(vec![0x8A, byte2, 0x11, 0x22]).unwrap().unwrap();
        assert_eq!(a.source, b.destination);
        assert_eq!(a.destination, b.source);
        assert_eq!(a.sizing, b.sizing);
    }
}

#[test]
fn mode_zero_reads_no_offset_except_direct() {
    let mut it = vec![0x8Bu8, 0x07, 0x99].into_iter();
    assert_eq!(extract_instruction(&mut it).unwrap().unwrap().to_string(), "mov ax, [bx + 0]");
    assert_eq!(it.next(), Some(0x99));
    let mut it = vec![0x8Bu8, 0x06, 0x34, 0x12, 0x99].into_iter();
    let i = extract_instruction(&mut it).unwrap().unwrap();
    assert_eq!(i.source, Reference::Mem(Memory { registers: [None, None], offset: 0x1234 }));
    assert_eq!(it.next(), Some(0x99));
}

#[test]
fn routines_called_directly() {
    let mut it = vec![0xD9u8].into_iter();
    assert_eq!(
        extract_register_or_memory_to_or_from_register(&mut it, 0x89).unwrap().unwrap().to_string(),
        "mov cx, bx"
    );
    let mut it = vec![0x06u8, 0x00, 0x00, 0x07].into_iter();
    let i = extract_immediate_to_register_or_memory(&mut it, 0xC6).unwrap().unwrap();
    assert_eq!(
        i.sizing,
        Some(InstructionSizing { is_source: false, size: InstructionSizingOptions::Byte })
    );
    assert_eq!(i.source, Reference::Imm(Immediate { value: 7 }));
    let mut it = vec![0x05u8].into_iter();
    assert_eq!(extract_immediate_to_register(&mut it, 0xB0).unwrap().unwrap().to_string(), "mov al, 5");
    let mut it = vec![0x10u8, 0x00].into_iter();
    let i = extract_accumulator_to_memory_or_memory_to_accumulator(&mut it, 0xA2).unwrap().unwrap();
    assert_eq!(i.instruction, Instructions::Move);
    assert_eq!(i.to_string(), "mov [16], al");
}

#[test]
fn rendering_of_parts() {
    assert_eq!(Register::SP.to_string(), "sp");
    assert_eq!(Immediate { value: 65535 }.to_string(), "65535");
    assert_eq!(Memory { registers: [None, None], offset: -32768 }.to_string(), "[-32768]");
    assert_eq!(Instructions::Move.to_string(), "mov");
    assert_eq!(
        InstructionSizing { is_source: true, size: InstructionSizingOptions::Word }.to_string(),
        "word"
    );
    let i = Instruction {
        instruction: Instructions::Move,
        source: Reference::Imm(Immediate { value: 3 }),
        destination: Reference::Mem(Memory { registers: [Some(Register::BX), None], offset: 0 }),
        sizing: Some(InstructionSizing { is_source: true, size: InstructionSizingOptions::Word }),
    };
    assert_eq!(i.to_string(), "mov [bx + 0], word 3");
}

#[test]
fn failure_report_text() {
    let e = decode_one(vec![0xFF]).unwrap_err();
    assert_eq!(e.to_string(), "Failed decode starting from byte FF - Byte matched no known opcodes!");
    let e = FailedDecode { bytes: 0x08, message: "x" };
    assert_eq!(e.to_string(), "Failed decode starting from byte 8 - x");
    let e = FailedDecode { bytes: 0xA0, message: "" };
    assert_eq!(e.to_string(), "Failed decode starting from byte A0 - ");
}
