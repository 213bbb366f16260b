use vstd::prelude::*;

use crate::errors::FailedDecode;
use crate::tools::u16_le;
use crate::x86_decoder::{
    direct_memory, expression_memory, immediate_value, immediate_width, mode_field, reg_field,
    rm_field, rm_operand, standard_register,
};
use crate::x86_definitions::{
    Immediate, Instruction, InstructionSizing, InstructionSizingOptions, Instructions, Memory,
    Reference, Register,
};
use crate::{
    decode_step, is_accumulator_memory_opcode, is_immediate_register_memory_opcode,
    is_immediate_register_opcode, is_register_memory_opcode,
};

verus! {

/// The 3-bit code of a register within its table.
pub open spec fn register_code(r: Register) -> u8 {
    match r {
        Register::AL | Register::AX => 0,
        Register::CL | Register::CX => 1,
        Register::DL | Register::DX => 2,
        Register::BL | Register::BX => 3,
        Register::AH | Register::SP => 4,
        Register::CH | Register::BP => 5,
        Register::DH | Register::SI => 6,
        Register::BH | Register::DI => 7,
    }
}

/// Whether a register is one of the word registers.
pub open spec fn is_word_register(r: Register) -> bool {
    match r {
        Register::AX | Register::CX | Register::DX | Register::BX | Register::SP | Register::BP
        | Register::SI | Register::DI => true,
        _ => false,
    }
}

pub open spec fn is_accumulator(r: Register) -> bool {
    r == Register::AL || r == Register::AX
}

/// The `rm` code of the base registers of a memory expression, if they form one.
pub open spec fn expression_code(m: Memory) -> Option<u8> {
    match (m.registers[0], m.registers[1]) {
        (Some(Register::BX), Some(Register::SI)) => Some(0),
        (Some(Register::BX), Some(Register::DI)) => Some(1),
        (Some(Register::BP), Some(Register::SI)) => Some(2),
        (Some(Register::BP), Some(Register::DI)) => Some(3),
        (Some(Register::SI), None) => Some(4),
        (Some(Register::DI), None) => Some(5),
        (Some(Register::BP), None) => Some(6),
        (Some(Register::BX), None) => Some(7),
        _ => None,
    }
}

pub open spec fn is_direct(m: Memory) -> bool {
    m.registers[0] is None && m.registers[1] is None
}

/// A memory operand that the encoding can express: a bare address or one of the eight
/// expressions.
pub open spec fn is_encodable_memory(m: Memory) -> bool {
    is_direct(m) || expression_code(m) is Some
}

/// The two bytes of a 16-bit value, low byte first.
pub open spec fn le_bytes(v: u16) -> Seq<u8> {
    seq![(v % 256) as u8, (v / 256) as u8]
}

/// The ModRM byte and the displacement of a memory operand, `reg` in the middle field.
/// The displacement is as short as the value allows: none for a zero offset (but for
/// `[bp]`, whose short form means a bare address), one byte where the offset fits in a
/// signed byte, else two.
pub open spec fn memory_bytes(m: Memory, reg: u8) -> Seq<u8> {
    if is_direct(m) {
        seq![(reg * 8 + 6) as u8] + le_bytes(m.offset as u16)
    } else {
        let rm = expression_code(m)->0;
        if m.offset == 0 && rm != 6 {
            seq![(reg * 8 + rm) as u8]
        } else if -128 <= m.offset <= 127 {
            seq![(64 + reg * 8 + rm) as u8, (m.offset as u16) as u8]
        } else {
            seq![(128 + reg * 8 + rm) as u8] + le_bytes(m.offset as u16)
        }
    }
}

/// The bytes of an immediate: two when `is_word`, else one.
pub open spec fn immediate_bytes(v: u16, is_word: bool) -> Seq<u8> {
    if is_word {
        le_bytes(v)
    } else {
        seq![v as u8]
    }
}

/// The instructions that an assembler writes in one of the four forms: the operands of
/// the register/memory form (register to register, register to and from memory), an
/// immediate to a register, an immediate with its width to memory, and the accumulator
/// to and from a bare address. Operands agree in width and an immediate fits it.
pub open spec fn is_encodable(i: Instruction) -> bool {
    i.instruction == Instructions::Move && match (i.destination, i.source, i.sizing) {
        (Reference::Reg(d), Reference::Imm(v), None) => is_word_register(d) || v.value < 256,
        (Reference::Mem(m), Reference::Imm(v), Some(sz)) => !sz.is_source
            && is_encodable_memory(m) && (sz.size == InstructionSizingOptions::Word
            || v.value < 256),
        (Reference::Reg(d), Reference::Reg(s), None) => is_word_register(d)
            == is_word_register(s),
        (Reference::Mem(m), Reference::Reg(s), None) => is_encodable_memory(m),
        (Reference::Reg(d), Reference::Mem(m), None) => is_encodable_memory(m),
        _ => false,
    }
}

pub open spec fn word_bit(is_word: bool) -> u8 {
    if is_word { 1 } else { 0 }
}

/// The bytes that an assembler writes for an encodable instruction: the form it picks is
/// the shortest, so the accumulator with a bare address takes its own form, and a
/// register to register move is written with the direction bit clear.
pub open spec fn encode(i: Instruction) -> Seq<u8> {
    match (i.destination, i.source, i.sizing) {
        (Reference::Reg(d), Reference::Imm(v), None) => seq![
            (0xB0 + 8 * word_bit(is_word_register(d)) + register_code(d)) as u8,
        ] + immediate_bytes(v.value, is_word_register(d)),
        (Reference::Mem(m), Reference::Imm(v), Some(sz)) => {
            let w = sz.size == InstructionSizingOptions::Word;
            seq![(0xC6 + word_bit(w)) as u8] + memory_bytes(m, 0) + immediate_bytes(v.value, w)
        },
        (Reference::Reg(d), Reference::Reg(s), None) => seq![
            (0x88 + word_bit(is_word_register(s))) as u8,
            (0xC0 + register_code(s) * 8 + register_code(d)) as u8,
        ],
        (Reference::Mem(m), Reference::Reg(s), None) => if is_accumulator(s) && is_direct(m) {
            seq![(0xA2 + word_bit(is_word_register(s))) as u8] + le_bytes(m.offset as u16)
        } else {
            seq![(0x88 + word_bit(is_word_register(s))) as u8] + memory_bytes(
                m,
                register_code(s),
            )
        },
        (Reference::Reg(d), Reference::Mem(m), None) => if is_accumulator(d) && is_direct(m) {
            seq![(0xA0 + word_bit(is_word_register(d))) as u8] + le_bytes(m.offset as u16)
        } else {
            seq![(0x8A + word_bit(is_word_register(d))) as u8] + memory_bytes(
                m,
                register_code(d),
            )
        },
        _ => Seq::empty(),
    }
}

proof fn lemma_register_code(r: Register)
    ensures
        register_code(r) < 8,
        standard_register(register_code(r), is_word_register(r)) == r,
{
}

proof fn lemma_modrm(mode: u8, reg: u8, rm: u8)
    requires
        mode < 4,
        reg < 8,
        rm < 8,
    ensures
        mode_field((mode * 64 + reg * 8 + rm) as u8) == mode,
        reg_field((mode * 64 + reg * 8 + rm) as u8) == reg,
        rm_field((mode * 64 + reg * 8 + rm) as u8) == rm,
{
}

proof fn lemma_le_bytes(v: u16)
    ensures
        u16_le(le_bytes(v)[0], le_bytes(v)[1]) == v,
{
}

proof fn lemma_offset_casts(o: i16)
    ensures
        (o as u16) as i16 == o,
        -128 <= o <= 127 ==> ((o as u16) as u8) as i8 as i16 == o,
{
    assert((o as u16) as i16 == o) by (bit_vector);
    assert(-128 <= o <= 127 ==> ((o as u16) as u8) as i8 as i16 == o) by (bit_vector);
}

proof fn lemma_immediate_round_trip(v: u16, is_word: bool, rest: Seq<u8>)
    requires
        is_word || v < 256,
    ensures
        immediate_bytes(v, is_word).len() == immediate_width(is_word),
        immediate_value(is_word, immediate_bytes(v, is_word) + rest) == v,
{
    if is_word {
        lemma_le_bytes(v);
    }
}

/// The ModRM byte of `memory_bytes(m, reg)` carries `reg`, and its `mod` and `rm` fields,
/// read against the bytes that follow, give `m` back, taking its displacement.
proof fn lemma_memory_round_trip(m: Memory, reg: u8, is_word: bool, rest: Seq<u8>)
    requires
        is_encodable_memory(m),
        reg < 8,
    ensures
        memory_bytes(m, reg).len() >= 1,
        reg_field(memory_bytes(m, reg)[0]) == reg,
        rm_operand(
            memory_bytes(m, reg)[0],
            is_word,
            (memory_bytes(m, reg) + rest).drop_first(),
        ) == Ok::<(Reference, int), &'static str>(
            (Reference::Mem(m), memory_bytes(m, reg).len() - 1),
        ),
{
    let b = memory_bytes(m, reg);
    let t = (b + rest).drop_first();
    lemma_offset_casts(m.offset);
    if is_direct(m) {
        lemma_modrm(0, reg, 6);
        lemma_le_bytes(m.offset as u16);
        assert(m == direct_memory(m.offset)) by {
            assert(m.registers =~= [None, None]);
        }
    } else {
        let rm = expression_code(m)->0;
        assert(m == expression_memory(rm, m.offset)) by {
            assert(m.registers =~= crate::x86_decoder::expression_registers(rm));
        }
        if m.offset == 0 && rm != 6 {
            lemma_modrm(0, reg, rm);
        } else if -128 <= m.offset <= 127 {
            lemma_modrm(1, reg, rm);
        } else {
            lemma_modrm(2, reg, rm);
            lemma_le_bytes(m.offset as u16);
        }
    }
}

proof fn lemma_opcode_patterns(b: u8)
    ensures
        0x88 <= b <= 0x8B ==> is_register_memory_opcode(b),
        0xC6 <= b <= 0xC7 ==> !is_register_memory_opcode(b) && is_immediate_register_memory_opcode(b),
        0xB0 <= b <= 0xBF ==> !is_register_memory_opcode(b) && !is_immediate_register_memory_opcode(b)
            && is_immediate_register_opcode(b),
        0xA0 <= b <= 0xA3 ==> !is_register_memory_opcode(b) && !is_immediate_register_memory_opcode(b)
            && !is_immediate_register_opcode(b) && is_accumulator_memory_opcode(b),
{
    assert(0x88 <= b <= 0x8B ==> b & 0xFC == 0x88) by (bit_vector);
    assert(0xC6 <= b <= 0xC7 ==> b & 0xFC != 0x88 && b & 0xFE == 0xC6) by (bit_vector);
    assert(0xB0 <= b <= 0xBF ==> b & 0xFC != 0x88 && b & 0xFE != 0xC6 && b & 0xF0 == 0xB0)
        by (bit_vector);
    assert(0xA0 <= b <= 0xA3 ==> b & 0xFC != 0x88 && b & 0xFE != 0xC6 && b & 0xF0 != 0xB0 && b
        & 0xFC == 0xA0) by (bit_vector);
}

proof fn lemma_round_trip_immediate_to_register(i: Instruction, rest: Seq<u8>)
    requires
        is_encodable(i),
        i.destination matches Reference::Reg(d),
        i.source matches Reference::Imm(v),
    ensures
        decode_step(encode(i) + rest) == (
            Ok::<Option<Instruction>, FailedDecode<'static>>(Some(i)),
            encode(i).len() as int,
        ),
{
    let e = encode(i);
    let b = e + rest;
    let t = b.drop_first();
    lemma_opcode_patterns(b[0]);
    match (i.destination, i.source, i.sizing) {
        (Reference::Reg(d), Reference::Imm(v), None) => {
            lemma_register_code(d);
            let w = is_word_register(d);
            lemma_immediate_round_trip(v.value, w, rest);
            assert(t =~= immediate_bytes(v.value, w) + rest);
        },
        _ => {},
    }
}

proof fn lemma_round_trip_immediate_to_memory(i: Instruction, rest: Seq<u8>)
    requires
        is_encodable(i),
        i.destination matches Reference::Mem(m),
        i.source matches Reference::Imm(v),
    ensures
        decode_step(encode(i) + rest) == (
            Ok::<Option<Instruction>, FailedDecode<'static>>(Some(i)),
            encode(i).len() as int,
        ),
{
    let e = encode(i);
    let b = e + rest;
    let t = b.drop_first();
    lemma_opcode_patterns(b[0]);
    match (i.destination, i.source, i.sizing) {
        (Reference::Mem(m), Reference::Imm(v), Some(sz)) => {
            let w = sz.size == InstructionSizingOptions::Word;
            let mb = memory_bytes(m, 0);
            lemma_memory_round_trip(m, 0, w, immediate_bytes(v.value, w) + rest);
            lemma_immediate_round_trip(v.value, w, rest);
            assert(t =~= mb + (immediate_bytes(v.value, w) + rest));
            assert(t.skip(mb.len() as int) =~= immediate_bytes(v.value, w) + rest);
        },
        _ => {},
    }
}

proof fn lemma_round_trip_register_to_register(i: Instruction, rest: Seq<u8>)
    requires
        is_encodable(i),
        i.destination matches Reference::Reg(d),
        i.source matches Reference::Reg(s),
    ensures
        decode_step(encode(i) + rest) == (
            Ok::<Option<Instruction>, FailedDecode<'static>>(Some(i)),
            encode(i).len() as int,
        ),
{
    let e = encode(i);
    let b = e + rest;
    let t = b.drop_first();
    lemma_opcode_patterns(b[0]);
    match (i.destination, i.source, i.sizing) {
        (Reference::Reg(d), Reference::Reg(s), None) => {
            lemma_register_code(d);
            lemma_register_code(s);
            lemma_modrm(3, register_code(s), register_code(d));
        },
        _ => {},
    }
}

proof fn lemma_round_trip_register_to_memory(i: Instruction, rest: Seq<u8>)
    requires
        is_encodable(i),
        i.destination matches Reference::Mem(m),
        i.source matches Reference::Reg(s),
    ensures
        decode_step(encode(i) + rest) == (
            Ok::<Option<Instruction>, FailedDecode<'static>>(Some(i)),
            encode(i).len() as int,
        ),
{
    let e = encode(i);
    let b = e + rest;
    let t = b.drop_first();
    lemma_opcode_patterns(b[0]);
    match (i.destination, i.source, i.sizing) {
        (Reference::Mem(m), Reference::Reg(s), None) => {
            lemma_register_code(s);
            if is_accumulator(s) && is_direct(m) {
                lemma_le_bytes(m.offset as u16);
                lemma_offset_casts(m.offset);
                assert(m == direct_memory(m.offset)) by {
                    assert(m.registers =~= [None, None]);
                }
            } else {
                let mb = memory_bytes(m, register_code(s));
                lemma_memory_round_trip(m, register_code(s), is_word_register(s), rest);
                assert(t =~= mb + rest);
            }
        },
        _ => {},
    }
}

proof fn lemma_round_trip_memory_to_register(i: Instruction, rest: Seq<u8>)
    requires
        is_encodable(i),
        i.destination matches Reference::Reg(d),
        i.source matches Reference::Mem(m),
    ensures
        decode_step(encode(i) + rest) == (
            Ok::<Option<Instruction>, FailedDecode<'static>>(Some(i)),
            encode(i).len() as int,
        ),
{
    let e = encode(i);
    let b = e + rest;
    let t = b.drop_first();
    lemma_opcode_patterns(b[0]);
    match (i.destination, i.source, i.sizing) {
        (Reference::Reg(d), Reference::Mem(m), None) => {
            lemma_register_code(d);
            if is_accumulator(d) && is_direct(m) {
                lemma_le_bytes(m.offset as u16);
                lemma_offset_casts(m.offset);
                assert(m == direct_memory(m.offset)) by {
                    assert(m.registers =~= [None, None]);
                }
            } else {
                let mb = memory_bytes(m, register_code(d));
                lemma_memory_round_trip(m, register_code(d), is_word_register(d), rest);
                assert(t =~= mb + rest);
            }
        },
        _ => {},
    }
}

/// Decoding the bytes that an assembler writes for an instruction gives the instruction
/// back and takes exactly those bytes, whatever follows them; so re-encoding what was
/// decoded writes the same bytes again.
pub proof fn lemma_round_trip(i: Instruction, rest: Seq<u8>)
    requires
        is_encodable(i),
    ensures
        decode_step(encode(i) + rest) == (
            Ok::<Option<Instruction>, FailedDecode<'static>>(Some(i)),
            encode(i).len() as int,
        ),
        match decode_step(encode(i) + rest).0 {
            Ok(Some(j)) => encode(j) == encode(i),
            _ => false,
        },
{
    match (i.destination, i.source) {
        (Reference::Reg(_), Reference::Imm(_)) => lemma_round_trip_immediate_to_register(i, rest),
        (Reference::Mem(_), Reference::Imm(_)) => lemma_round_trip_immediate_to_memory(i, rest),
        (Reference::Reg(_), Reference::Reg(_)) => lemma_round_trip_register_to_register(i, rest),
        (Reference::Mem(_), Reference::Reg(_)) => lemma_round_trip_register_to_memory(i, rest),
        (Reference::Reg(_), Reference::Mem(_)) => lemma_round_trip_memory_to_register(i, rest),
        _ => {},
    }
}

} // verus!
