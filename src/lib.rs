//! A disassembler for the `mov` forms of the Intel 8086: decodes machine code into
//! instructions and renders them as assembler text.
use vstd::prelude::*;

pub mod encoding;
pub mod errors;
pub mod laws;
pub mod tools;
pub mod x86_decoder;
pub mod x86_definitions;

use crate::errors::{FailedDecode, UNKNOWN_OPCODE};
use crate::tools::next_item;
use crate::x86_decoder::{
    decode_accumulator_memory, decode_immediate_register, decode_immediate_register_memory,
    decode_register_memory, extract_accumulator_to_memory_or_memory_to_accumulator,
    extract_immediate_to_register, extract_immediate_to_register_or_memory,
    extract_register_or_memory_to_or_from_register, Step,
};
use crate::x86_definitions::{instruction_text, Instruction};
use vstd::std_specs::iter::IteratorSpec;
use vstd::string::StringExecFns;

verus! {

pub open spec fn is_register_memory_opcode(byte1: u8) -> bool {
    byte1 & 0xFC == 0x88
}

pub open spec fn is_immediate_register_memory_opcode(byte1: u8) -> bool {
    byte1 & 0xFE == 0xC6
}

pub open spec fn is_immediate_register_opcode(byte1: u8) -> bool {
    byte1 & 0xF0 == 0xB0
}

pub open spec fn is_accumulator_memory_opcode(byte1: u8) -> bool {
    byte1 & 0xFC == 0xA0
}

/// Decoding the instruction at the start of `s`: `Ok(None)` on an empty stream; else the
/// form that the leading byte selects, the first of the four patterns that matches, and
/// the bytes taken counted from the leading byte.
pub open spec fn decode_step(s: Seq<u8>) -> Step {
    if s.len() == 0 {
        (Ok(None), 0)
    } else {
        let byte1 = s[0];
        let t = s.drop_first();
        let step = if is_register_memory_opcode(byte1) {
            decode_register_memory(byte1, t)
        } else if is_immediate_register_memory_opcode(byte1) {
            decode_immediate_register_memory(byte1, t)
        } else if is_immediate_register_opcode(byte1) {
            decode_immediate_register(byte1, t)
        } else if is_accumulator_memory_opcode(byte1) {
            decode_accumulator_memory(byte1, t)
        } else {
            (Err(FailedDecode { bytes: byte1, message: UNKNOWN_OPCODE }), 0)
        };
        (step.0, 1 + step.1)
    }
}

/// The instructions decoded from `s` one after the other, up to its end or to the first
/// failure, and that failure.
pub open spec fn decode_all(s: Seq<u8>) -> (Seq<Instruction>, Option<FailedDecode<'static>>)
    decreases s.len(),
{
    let step = decode_step(s);
    match step.0 {
        Ok(Some(instruction)) => if 1 <= step.1 <= s.len() {
            let rest = decode_all(s.skip(step.1));
            (seq![instruction] + rest.0, rest.1)
        } else {
            (Seq::empty(), None)
        },
        Ok(None) => (Seq::empty(), None),
        Err(e) => (Seq::empty(), Some(e)),
    }
}

/// The text of a listing: the `bits 16` header, then one line per instruction.
pub open spec fn listing(instructions: Seq<Instruction>) -> Seq<Seq<char>> {
    seq![seq!['b', 'i', 't', 's', ' ', '1', '6']] + instructions.map_values(
        |i: Instruction| instruction_text(i),
    )
}

/// Takes the next instruction from `machine_code`: `Ok(None)` when the stream is empty.
pub fn extract_instruction(machine_code: &mut std::vec::IntoIter<u8>) -> (r: Result<
    Option<Instruction>,
    FailedDecode<'static>,
>)
    ensures
        ({
            let s = (*old(machine_code)).remaining();
            let step = decode_step(s);
            &&& r == step.0
            &&& (*final(machine_code)).remaining() == s.skip(step.1)
            &&& s.len() == 0 ==> step.1 == 0
            &&& s.len() > 0 ==> 1 <= step.1 <= s.len()
        }),
{
    let ghost s = (*old(machine_code)).remaining();
    let byte1 = match next_item(machine_code) {
        Some(value) => value,
        None => {
            assert(s.skip(0) =~= s);
            return Ok(None);
        },
    };
    let ghost t = (*machine_code).remaining();
    assert(forall|n: int| 0 <= n <= t.len() ==> t.skip(n) =~= s.skip(1 + n));
    if byte1 & 0xFC == 0x88 {
        return extract_register_or_memory_to_or_from_register(machine_code, byte1);
    }
    if byte1 & 0xFE == 0xC6 {
        return extract_immediate_to_register_or_memory(machine_code, byte1);
    }
    if byte1 & 0xF0 == 0xB0 {
        return extract_immediate_to_register(machine_code, byte1);
    }
    if byte1 & 0xFC == 0xA0 {
        return extract_accumulator_to_memory_or_memory_to_accumulator(machine_code, byte1);
    }
    Err(FailedDecode { bytes: byte1, message: UNKNOWN_OPCODE })
}

/// Decodes the whole of `source_file`: the lines of the listing, the `bits 16` header
/// followed by one line per instruction decoded, up to the end of the bytes or to the
/// first failure; and that failure, if there was one. The lines before a failure are kept.
pub fn decode_instructions(source_file: Vec<u8>) -> (r: (Vec<String>, Option<FailedDecode<'static>>))
    ensures
        r.0@.map_values(|l: String| l@) == listing(decode_all(source_file@).0),
        r.1 == decode_all(source_file@).1,
{
    let ghost all = source_file@;
    let length = source_file.len();
    let mut machine_code = source_file.into_iter();
    proof {
        vstd::std_specs::vec::axiom_spec_into_iter(source_file);
        reveal_strlit("bits 16");
    }
    let mut lines: Vec<String> = Vec::new();
    let header = String::from_str("bits 16");
    lines.push(header);
    assert(lines@[0]@ == seq!['b', 'i', 't', 's', ' ', '1', '6']);
    let ghost mut done: Seq<Instruction> = Seq::empty();
    assert(listing(done) =~= seq![seq!['b', 'i', 't', 's', ' ', '1', '6']]);
    assert(lines@.map_values(|l: String| l@) =~= listing(done));
    let mut count: usize = 0;
    // Each instruction takes at least one byte: `length + 1` rounds reach the end.
    while count <= length
        invariant
            all == source_file@,
            count + machine_code.remaining().len() <= length,
            decode_all(all).0 == done + decode_all(machine_code.remaining()).0,
            decode_all(all).1 == decode_all(machine_code.remaining()).1,
            lines@.map_values(|l: String| l@) == listing(done),
        decreases length + 1 - count,
    {
        let ghost s = machine_code.remaining();
        match extract_instruction(&mut machine_code) {
            Ok(Some(instruction)) => {
                count = count + 1;
                let text = instruction.to_string();
                lines.push(text);
                proof {
                    let rest = machine_code.remaining();
                    assert(decode_all(s).0 == seq![instruction] + decode_all(rest).0);
                    assert(done + decode_all(s).0 =~= done.push(instruction) + decode_all(rest).0);
                    let old_done = done;
                    done = done.push(instruction);
                    assert(listing(done) =~= listing(old_done).push(instruction_text(instruction)));
                    assert(lines@.map_values(|l: String| l@) =~= listing(done));
                }
            },
            Ok(None) => {
                assert(decode_all(s).0 =~= Seq::<Instruction>::empty());
                assert(done + decode_all(s).0 =~= done);
                return (lines, None);
            },
            Err(e) => {
                assert(done + decode_all(s).0 =~= done);
                return (lines, Some(e));
            },
        }
    }
    (lines, None)
}

} // verus!
