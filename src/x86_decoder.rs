use vstd::prelude::*;

use crate::errors::{
    FailedDecode, MISSING_DIRECT_ADDRESS, MISSING_IMMEDIATE, MISSING_SECOND_BYTE,
    MISSING_U16_OFFSET, MISSING_U8_OFFSET,
};
use crate::tools::{get_u16_displacement_from_iterator, get_u8_displacement_from_iterator, u16_le};
use crate::x86_definitions::{
    Immediate, Instruction, InstructionSizing, InstructionSizingOptions, Instructions, Memory,
    Reference, Register,
};
use vstd::std_specs::iter::IteratorSpec;

verus! {

/// The byte registers, in the order of their 3-bit codes.
pub open spec fn byte_registers() -> Seq<Register> {
    seq![
        Register::AL,
        Register::CL,
        Register::DL,
        Register::BL,
        Register::AH,
        Register::CH,
        Register::DH,
        Register::BH,
    ]
}

/// The word registers, in the order of their 3-bit codes.
pub open spec fn word_registers() -> Seq<Register> {
    seq![
        Register::AX,
        Register::CX,
        Register::DX,
        Register::BX,
        Register::SP,
        Register::BP,
        Register::SI,
        Register::DI,
    ]
}

/// The register that a 3-bit field names: from the byte registers when `is_word` is
/// clear, from the word registers when it is set.
pub open spec fn standard_register(bits: u8, is_word: bool) -> Register {
    if is_word {
        word_registers()[bits as int]
    } else {
        byte_registers()[bits as int]
    }
}

/// The base registers that the `rm` field of an expression names.
pub open spec fn expression_registers(bits: u8) -> [Option<Register>; 2] {
    if bits == 0 { [Some(Register::BX), Some(Register::SI)] }
    else if bits == 1 { [Some(Register::BX), Some(Register::DI)] }
    else if bits == 2 { [Some(Register::BP), Some(Register::SI)] }
    else if bits == 3 { [Some(Register::BP), Some(Register::DI)] }
    else if bits == 4 { [Some(Register::SI), None] }
    else if bits == 5 { [Some(Register::DI), None] }
    else if bits == 6 { [Some(Register::BP), None] }
    else { [Some(Register::BX), None] }
}

pub open spec fn expression_memory(bits: u8, offset: i16) -> Memory {
    Memory { registers: expression_registers(bits), offset }
}

/// A bare address, with no base register.
pub open spec fn direct_memory(address: i16) -> Memory {
    Memory { registers: [None, None], offset: address }
}

pub open spec fn mode_field(byte2: u8) -> u8 {
    byte2 / 64
}

pub open spec fn reg_field(byte2: u8) -> u8 {
    (byte2 / 8) % 8
}

pub open spec fn rm_field(byte2: u8) -> u8 {
    byte2 % 8
}

/// The operand that the `mod` and `rm` fields of `byte2` describe, read against the bytes
/// `s` that follow `byte2`: the operand and how many bytes of `s` it takes, or the message
/// of the failure when `s` is too short.
pub open spec fn rm_operand(byte2: u8, is_word: bool, s: Seq<u8>) -> Result<
    (Reference, int),
    &'static str,
> {
    let mode = mode_field(byte2);
    let rm = rm_field(byte2);
    if mode == 3 {
        Ok((Reference::Reg(standard_register(rm, is_word)), 0))
    } else if mode == 0 && rm == 6 {
        if s.len() >= 2 {
            Ok((Reference::Mem(direct_memory(u16_le(s[0], s[1]) as i16)), 2))
        } else {
            Err(MISSING_DIRECT_ADDRESS)
        }
    } else if mode == 0 {
        Ok((Reference::Mem(expression_memory(rm, 0)), 0))
    } else if mode == 1 {
        if s.len() >= 1 {
            Ok((Reference::Mem(expression_memory(rm, s[0] as i8 as i16)), 1))
        } else {
            Err(MISSING_U8_OFFSET)
        }
    } else {
        if s.len() >= 2 {
            Ok((Reference::Mem(expression_memory(rm, u16_le(s[0], s[1]) as i16)), 2))
        } else {
            Err(MISSING_U16_OFFSET)
        }
    }
}

/// What decoding one instruction yields, and how many bytes it takes from the stream.
pub type Step = (Result<Option<Instruction>, FailedDecode<'static>>, int);

pub open spec fn move_of(source: Reference, destination: Reference, sizing: Option<InstructionSizing>) -> Instruction {
    Instruction { instruction: Instructions::Move, source, destination, sizing }
}

/// The register/memory to/from register form, `byte1` its leading byte and `s` what follows.
pub open spec fn decode_register_memory(byte1: u8, s: Seq<u8>) -> Step {
    if s.len() == 0 {
        (Err(FailedDecode { bytes: byte1, message: MISSING_SECOND_BYTE }), 0)
    } else {
        let byte2 = s[0];
        let is_word = byte1 % 2 == 1;
        match rm_operand(byte2, is_word, s.drop_first()) {
            Err(message) => (Err(FailedDecode { bytes: byte1, message }), s.len() as int),
            Ok((rm, n)) => {
                let reg = Reference::Reg(standard_register(reg_field(byte2), is_word));
                let instruction = if (byte1 / 2) % 2 == 1 {
                    move_of(rm, reg, None)
                } else {
                    move_of(reg, rm, None)
                };
                (Ok(Some(instruction)), 1 + n)
            },
        }
    }
}

/// The immediate that starts `s`: two bytes, little-endian, when `is_word` is set, else
/// one byte.
pub open spec fn immediate_width(is_word: bool) -> int {
    if is_word { 2 } else { 1 }
}

pub open spec fn immediate_value(is_word: bool, s: Seq<u8>) -> u16 {
    if is_word { u16_le(s[0], s[1]) } else { s[0] as u16 }
}

pub open spec fn size_of(is_word: bool) -> InstructionSizingOptions {
    if is_word { InstructionSizingOptions::Word } else { InstructionSizingOptions::Byte }
}

/// The immediate to register-or-memory form, `byte1` its leading byte and `s` what follows.
/// The width keyword stands in front of the destination.
pub open spec fn decode_immediate_register_memory(byte1: u8, s: Seq<u8>) -> Step {
    if s.len() == 0 {
        (Err(FailedDecode { bytes: byte1, message: MISSING_SECOND_BYTE }), 0)
    } else {
        let byte2 = s[0];
        let is_word = byte1 % 2 == 1;
        match rm_operand(byte2, is_word, s.drop_first()) {
            Err(message) => (Err(FailedDecode { bytes: byte1, message }), s.len() as int),
            Ok((destination, n)) => {
                let t = s.skip(1 + n);
                if t.len() < immediate_width(is_word) {
                    (Err(FailedDecode { bytes: byte1, message: MISSING_IMMEDIATE }), s.len() as int)
                } else {
                    let source = Reference::Imm(Immediate { value: immediate_value(is_word, t) });
                    let sizing = InstructionSizing { is_source: false, size: size_of(is_word) };
                    (
                        Ok(Some(move_of(source, destination, Some(sizing)))),
                        1 + n + immediate_width(is_word),
                    )
                }
            },
        }
    }
}

/// The immediate to register form, `byte1` its leading byte and `s` what follows.
pub open spec fn decode_immediate_register(byte1: u8, s: Seq<u8>) -> Step {
    let is_word = (byte1 / 8) % 2 == 1;
    if s.len() < immediate_width(is_word) {
        (Err(FailedDecode { bytes: byte1, message: MISSING_IMMEDIATE }), s.len() as int)
    } else {
        let destination = Reference::Reg(standard_register(byte1 % 8, is_word));
        let source = Reference::Imm(Immediate { value: immediate_value(is_word, s) });
        (Ok(Some(move_of(source, destination, None))), immediate_width(is_word))
    }
}

/// The accumulator to/from memory form, `byte1` its leading byte and `s` what follows.
pub open spec fn decode_accumulator_memory(byte1: u8, s: Seq<u8>) -> Step {
    if s.len() < 2 {
        (Err(FailedDecode { bytes: byte1, message: MISSING_DIRECT_ADDRESS }), s.len() as int)
    } else {
        let memory = Reference::Mem(direct_memory(u16_le(s[0], s[1]) as i16));
        let accumulator = Reference::Reg(
            if byte1 % 2 == 1 { Register::AX } else { Register::AL },
        );
        let instruction = if (byte1 / 2) % 2 == 1 {
            move_of(accumulator, memory, None)
        } else {
            move_of(memory, accumulator, None)
        };
        (Ok(Some(instruction)), 2)
    }
}

proof fn lemma_byte_fields(b: u8)
    ensures
        b >> 6 == b / 64,
        (b >> 3) & 0x07 == (b / 8) % 8,
        b & 0x07 == b % 8,
        (b & 0x1 == 0x1) == (b % 2 == 1),
        (b & 0x02 == 0x02) == ((b / 2) % 2 == 1),
        (b & 0x8 == 0x8) == ((b / 8) % 2 == 1),
{
    assert(b >> 6 == b / 64) by (bit_vector);
    assert((b >> 3) & 0x07 == (b / 8) % 8) by (bit_vector);
    assert(b & 0x07 == b % 8) by (bit_vector);
    assert((b & 0x1 == 0x1) == (b % 2 == 1)) by (bit_vector);
    assert((b & 0x02 == 0x02) == ((b / 2) % 2 == 1)) by (bit_vector);
    assert((b & 0x8 == 0x8) == ((b / 8) % 2 == 1)) by (bit_vector);
}

/// The register that `bits` names in the byte table (`is_word_encoding` clear) or the
/// word table (set).
pub fn get_standard_register_encoding(bits: u8, is_word_encoding: bool) -> (r: Reference)
    requires
        bits < 8,
    ensures
        r == Reference::Reg(standard_register(bits, is_word_encoding)),
{
    let register = if is_word_encoding {
        match bits {
            0 => Register::AX,
            1 => Register::CX,
            2 => Register::DX,
            3 => Register::BX,
            4 => Register::SP,
            5 => Register::BP,
            6 => Register::SI,
            _ => Register::DI,
        }
    } else {
        match bits {
            0 => Register::AL,
            1 => Register::CL,
            2 => Register::DL,
            3 => Register::BL,
            4 => Register::AH,
            5 => Register::CH,
            6 => Register::DH,
            _ => Register::BH,
        }
    };
    Reference::Reg(register)
}

/// The memory expression that the `rm` field `bits` names, with displacement `offset`.
pub fn get_expression_register_encoding(bits: u8, offset: i16) -> (r: Reference)
    requires
        bits < 8,
    ensures
        r == Reference::Mem(expression_memory(bits, offset)),
{
    let registers = match bits {
        0 => [Some(Register::BX), Some(Register::SI)],
        1 => [Some(Register::BX), Some(Register::DI)],
        2 => [Some(Register::BP), Some(Register::SI)],
        3 => [Some(Register::BP), Some(Register::DI)],
        4 => [Some(Register::SI), None],
        5 => [Some(Register::DI), None],
        6 => [Some(Register::BP), None],
        _ => [Some(Register::BX), None],
    };
    Reference::Mem(Memory { registers, offset })
}

/// Reads the displacement, if any, of the operand that the `mod` and `rm` fields of
/// `byte2` describe, and resolves the operand.
fn extract_register_or_memory(
    machine_code: &mut std::vec::IntoIter<u8>,
    byte1: u8,
    byte2: u8,
    is_word_encoding: bool,
) -> (r: Result<Reference, FailedDecode<'static>>)
    ensures
        ({
            let s = (*old(machine_code)).remaining();
            match rm_operand(byte2, is_word_encoding, s) {
                Ok((operand, n)) => r == Ok::<Reference, FailedDecode<'static>>(operand)
                    && (*final(machine_code)).remaining() == s.skip(n),
                Err(message) => r == Err::<Reference, FailedDecode<'static>>(
                    FailedDecode { bytes: byte1, message },
                ) && (*final(machine_code)).remaining().len() == 0,
            }
        }),
{
    proof {
        lemma_byte_fields(byte2);
    }
    let reg_or_mem_bits = byte2 & 0x07;
    let mode = byte2 >> 6;
    if mode == 0x3 {
        Ok(get_standard_register_encoding(reg_or_mem_bits, is_word_encoding))
    } else if mode == 0x0 && reg_or_mem_bits == 0x6 {
        match get_u16_displacement_from_iterator(machine_code, byte1, MISSING_DIRECT_ADDRESS) {
            Ok(address) => Ok(
                Reference::Mem(Memory { registers: [None, None], offset: address as i16 }),
            ),
            Err(e) => Err(e),
        }
    } else if mode == 0x0 {
        assert((*old(machine_code)).remaining().skip(0) =~= (*old(machine_code)).remaining());
        Ok(get_expression_register_encoding(reg_or_mem_bits, 0))
    } else if mode == 0x1 {
        match get_u8_displacement_from_iterator(machine_code, byte1, MISSING_U8_OFFSET) {
            Ok(offset) => {
                assert((*old(machine_code)).remaining().skip(1)
                    =~= (*old(machine_code)).remaining().drop_first());
                Ok(get_expression_register_encoding(reg_or_mem_bits, offset as i8 as i16))
            },
            Err(e) => Err(e),
        }
    } else {
        match get_u16_displacement_from_iterator(machine_code, byte1, MISSING_U16_OFFSET) {
            Ok(offset) => Ok(get_expression_register_encoding(reg_or_mem_bits, offset as i16)),
            Err(e) => Err(e),
        }
    }
}

/// Decodes the register/memory to/from register form whose leading byte `byte1` has been
/// taken from `machine_code`.
pub fn extract_register_or_memory_to_or_from_register(
    machine_code: &mut std::vec::IntoIter<u8>,
    byte1: u8,
) -> (r: Result<Option<Instruction>, FailedDecode<'static>>)
    ensures
        ({
            let s = (*old(machine_code)).remaining();
            let step = decode_register_memory(byte1, s);
            r == step.0 && 0 <= step.1 <= s.len() && (*final(machine_code)).remaining() == s.skip(step.1)
        }),
{
    let ghost s = (*old(machine_code)).remaining();
    let byte2 = match get_u8_displacement_from_iterator(machine_code, byte1, MISSING_SECOND_BYTE) {
        Ok(value) => value,
        Err(e) => {
            assert(s.skip(0) =~= s);
            return Err(e);
        },
    };
    proof {
        lemma_byte_fields(byte1);
        lemma_byte_fields(byte2);
    }
    let reg_bits = byte2 >> 3 & 0x07;
    let is_word_encoding = byte1 & 0x1 == 0x1;
    let reg_or_mem = match extract_register_or_memory(machine_code, byte1, byte2, is_word_encoding) {
        Ok(operand) => operand,
        Err(e) => {
            assert(s.skip(s.len() as int) =~= (*final(machine_code)).remaining());
            return Err(e);
        },
    };
    let reg = get_standard_register_encoding(reg_bits, is_word_encoding);
    // The direction bit: set when the reg field names the destination.
    let (source, destination) = if byte1 & 0x02 == 0x02 {
        (reg_or_mem, reg)
    } else {
        (reg, reg_or_mem)
    };
    proof {
        let n = match rm_operand(byte2, is_word_encoding, s.drop_first()) {
            Ok((_, n)) => n,
            Err(_) => 0,
        };
        assert(s.drop_first().skip(n) =~= s.skip(1 + n));
    }
    Ok(Some(Instruction { instruction: Instructions::Move, source, destination, sizing: None }))
}

/// Reads an immediate: two bytes when `is_word_encoding` is set, else one.
fn extract_immediate(
    machine_code: &mut std::vec::IntoIter<u8>,
    byte1: u8,
    is_word_encoding: bool,
) -> (r: Result<u16, FailedDecode<'static>>)
    ensures
        ({
            let s = (*old(machine_code)).remaining();
            if s.len() >= immediate_width(is_word_encoding) {
                r == Ok::<u16, FailedDecode<'static>>(immediate_value(is_word_encoding, s))
                    && (*final(machine_code)).remaining() == s.skip(immediate_width(is_word_encoding))
            } else {
                r == Err::<u16, FailedDecode<'static>>(
                    FailedDecode { bytes: byte1, message: MISSING_IMMEDIATE },
                ) && (*final(machine_code)).remaining().len() == 0
            }
        }),
{
    if is_word_encoding {
        get_u16_displacement_from_iterator(machine_code, byte1, MISSING_IMMEDIATE)
    } else {
        match get_u8_displacement_from_iterator(machine_code, byte1, MISSING_IMMEDIATE) {
            Ok(value) => {
                assert((*old(machine_code)).remaining().skip(1)
                    =~= (*old(machine_code)).remaining().drop_first());
                Ok(value as u16)
            },
            Err(e) => Err(e),
        }
    }
}

/// Decodes the immediate to register-or-memory form whose leading byte `byte1` has been
/// taken from `machine_code`.
pub fn extract_immediate_to_register_or_memory(
    machine_code: &mut std::vec::IntoIter<u8>,
    byte1: u8,
) -> (r: Result<Option<Instruction>, FailedDecode<'static>>)
    ensures
        ({
            let s = (*old(machine_code)).remaining();
            let step = decode_immediate_register_memory(byte1, s);
            r == step.0 && 0 <= step.1 <= s.len() && (*final(machine_code)).remaining() == s.skip(step.1)
        }),
{
    let ghost s = (*old(machine_code)).remaining();
    let byte2 = match get_u8_displacement_from_iterator(machine_code, byte1, MISSING_SECOND_BYTE) {
        Ok(value) => value,
        Err(e) => {
            assert(s.skip(0) =~= s);
            return Err(e);
        },
    };
    proof {
        lemma_byte_fields(byte1);
    }
    let is_word_encoding = byte1 & 0x1 == 0x1;
    let reg_or_mem = match extract_register_or_memory(machine_code, byte1, byte2, is_word_encoding) {
        Ok(operand) => operand,
        Err(e) => {
            assert(s.skip(s.len() as int) =~= (*final(machine_code)).remaining());
            return Err(e);
        },
    };
    let ghost n = match rm_operand(byte2, is_word_encoding, s.drop_first()) {
        Ok((_, n)) => n,
        Err(_) => 0,
    };
    assert(s.drop_first().skip(n) =~= s.skip(1 + n));
    let value = match extract_immediate(machine_code, byte1, is_word_encoding) {
        Ok(value) => value,
        Err(e) => {
            assert(s.skip(s.len() as int) =~= (*final(machine_code)).remaining());
            return Err(e);
        },
    };
    assert(s.skip(1 + n).skip(immediate_width(is_word_encoding))
        =~= s.skip(1 + n + immediate_width(is_word_encoding)));
    let size = if is_word_encoding {
        InstructionSizingOptions::Word
    } else {
        InstructionSizingOptions::Byte
    };
    Ok(
        Some(
            Instruction {
                instruction: Instructions::Move,
                source: Reference::Imm(Immediate { value }),
                destination: reg_or_mem,
                sizing: Some(InstructionSizing { is_source: false, size }),
            },
        ),
    )
}

/// Decodes the immediate to register form whose leading byte `byte1` has been taken from
/// `machine_code`.
pub fn extract_immediate_to_register(
    machine_code: &mut std::vec::IntoIter<u8>,
    byte1: u8,
) -> (r: Result<Option<Instruction>, FailedDecode<'static>>)
    ensures
        ({
            let s = (*old(machine_code)).remaining();
            let step = decode_immediate_register(byte1, s);
            r == step.0 && 0 <= step.1 <= s.len() && (*final(machine_code)).remaining() == s.skip(step.1)
        }),
{
    let ghost s = (*old(machine_code)).remaining();
    proof {
        lemma_byte_fields(byte1);
    }
    let reg_bits = byte1 & 0x07;
    let is_word_encoding = byte1 & 0x8 == 0x8;
    let reg = get_standard_register_encoding(reg_bits, is_word_encoding);
    let value = match extract_immediate(machine_code, byte1, is_word_encoding) {
        Ok(value) => value,
        Err(e) => {
            assert(s.skip(s.len() as int) =~= (*final(machine_code)).remaining());
            return Err(e);
        },
    };
    Ok(
        Some(
            Instruction {
                instruction: Instructions::Move,
                source: Reference::Imm(Immediate { value }),
                destination: reg,
                sizing: None,
            },
        ),
    )
}

/// Decodes the accumulator to/from memory form whose leading byte `byte1` has been taken
/// from `machine_code`.
pub fn extract_accumulator_to_memory_or_memory_to_accumulator(
    machine_code: &mut std::vec::IntoIter<u8>,
    byte1: u8,
) -> (r: Result<Option<Instruction>, FailedDecode<'static>>)
    ensures
        ({
            let s = (*old(machine_code)).remaining();
            let step = decode_accumulator_memory(byte1, s);
            r == step.0 && 0 <= step.1 <= s.len() && (*final(machine_code)).remaining() == s.skip(step.1)
        }),
{
    let ghost s = (*old(machine_code)).remaining();
    proof {
        lemma_byte_fields(byte1);
    }
    let address = match get_u16_displacement_from_iterator(
        machine_code,
        byte1,
        MISSING_DIRECT_ADDRESS,
    ) {
        Ok(value) => value,
        Err(e) => {
            assert(s.skip(s.len() as int) =~= (*final(machine_code)).remaining());
            return Err(e);
        },
    };
    let memory = Reference::Mem(Memory { registers: [None, None], offset: address as i16 });
    let accumulator = if byte1 & 0x1 == 0x1 {
        Reference::Reg(Register::AX)
    } else {
        Reference::Reg(Register::AL)
    };
    let is_accumulator_to_memory = byte1 & 0x02 == 0x02;
    let (source, destination) = if is_accumulator_to_memory {
        (accumulator, memory)
    } else {
        (memory, accumulator)
    };
    Ok(Some(Instruction { instruction: Instructions::Move, source, destination, sizing: None }))
}

} // verus!
