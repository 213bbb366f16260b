use vstd::prelude::*;

use crate::tools::u16_le;
use crate::x86_decoder::{
    byte_registers, direct_memory, expression_memory, mode_field, rm_field, rm_operand,
    standard_register, word_registers,
};
use crate::x86_definitions::{Reference, Register};
use crate::{decode_all, decode_step, listing};

verus! {

/// An empty buffer decodes to no instruction and no failure: the listing is the header
/// alone.
pub proof fn lemma_empty_input()
    ensures
        decode_all(Seq::empty()).0 == Seq::<crate::x86_definitions::Instruction>::empty(),
        decode_all(Seq::empty()).1 is None,
        listing(decode_all(Seq::empty()).0) == seq![seq!['b', 'i', 't', 's', ' ', '1', '6']],
{
    assert(listing(Seq::empty()) =~= seq![seq!['b', 'i', 't', 's', ' ', '1', '6']]);
}

/// Each of the eight codes names, under each operand size, the register of the fixed
/// tables, and no two of the sixteen (code, size) pairs name the same register.
pub proof fn lemma_register_tables(bits: u8, is_word: bool, other_bits: u8, other_is_word: bool)
    requires
        bits < 8,
        other_bits < 8,
    ensures
        standard_register(bits, false) == byte_registers()[bits as int],
        standard_register(bits, true) == word_registers()[bits as int],
        standard_register(bits, is_word) == standard_register(other_bits, other_is_word)
            ==> bits == other_bits && is_word == other_is_word,
{
}

/// Flipping the direction bit of the register/memory form (`0x88` against `0x8A`, `0x89`
/// against `0x8B`) over the same following bytes swaps source and destination and
/// changes nothing else: the same bytes are taken, and a failure is the same failure.
pub proof fn lemma_direction_bit_swaps(is_word: bool, s: Seq<u8>)
    ensures
        ({
            let low: u8 = if is_word { 0x89 } else { 0x88 };
            let high: u8 = if is_word { 0x8B } else { 0x8A };
            let a = decode_step(seq![low] + s);
            let b = decode_step(seq![high] + s);
            &&& a.1 == b.1
            &&& match (a.0, b.0) {
                (Ok(Some(x)), Ok(Some(y))) => x.source == y.destination && x.destination
                    == y.source && x.instruction == y.instruction && x.sizing == y.sizing,
                (Err(e), Err(f)) => e.message == f.message && e.bytes == low && f.bytes == high,
                _ => false,
            }
        }),
{
    let low: u8 = if is_word { 0x89 } else { 0x88 };
    let high: u8 = if is_word { 0x8B } else { 0x8A };
    assert((seq![low] + s).drop_first() =~= s);
    assert((seq![high] + s).drop_first() =~= s);
    assert(0x88u8 & 0xFC == 0x88 && 0x89u8 & 0xFC == 0x88 && 0x8Au8 & 0xFC == 0x88 && 0x8Bu8
        & 0xFC == 0x88) by (bit_vector);
}

/// With `mod == 0` and `rm == 6` the operand is a bare address, read from the next two
/// bytes, with no base register; with `mod == 0` and any other `rm` it is an expression
/// with at least one base register and a zero offset, and no byte is read for it.
pub proof fn lemma_mode_zero_addressing(byte2: u8, is_word: bool, s: Seq<u8>)
    requires
        mode_field(byte2) == 0,
    ensures
        rm_field(byte2) == 6 && s.len() >= 2 ==> rm_operand(byte2, is_word, s) == Ok::<
            (Reference, int),
            &'static str,
        >((Reference::Mem(direct_memory(u16_le(s[0], s[1]) as i16)), 2)),
        rm_field(byte2) == 6 ==> match rm_operand(byte2, is_word, s) {
            Ok((Reference::Mem(m), _)) => m.registers[0] is None && m.registers[1] is None,
            Ok(_) => false,
            Err(_) => s.len() < 2,
        },
        rm_field(byte2) != 6 ==> rm_operand(byte2, is_word, s) == Ok::<
            (Reference, int),
            &'static str,
        >((Reference::Mem(expression_memory(rm_field(byte2), 0)), 0)),
        rm_field(byte2) != 6 ==> expression_memory(rm_field(byte2), 0).registers[0] is Some,
{
}

} // verus!
