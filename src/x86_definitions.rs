use vstd::prelude::*;
use vstd::string::StringExecFns;

verus! {

/// The mnemonic of a decoded instruction.
#[derive(Clone, Copy, Debug, PartialEq, Eq)]
pub enum Instructions {
    Move,
}

/// One of the sixteen general registers of the 8086.
#[derive(Clone, Copy, Debug, PartialEq, Eq)]
pub enum Register {
    AL,
    CL,
    DL,
    BL,
    AH,
    CH,
    DH,
    BH,
    AX,
    CX,
    DX,
    BX,
    SP,
    BP,
    SI,
    DI,
}

/// A memory operand: up to two base registers and a displacement.
#[derive(Clone, Copy, Debug, PartialEq, Eq)]
pub struct Memory {
    pub registers: [Option<Register>; 2],
    pub offset: i16,
}

/// An immediate operand.
#[derive(Clone, Copy, Debug, PartialEq, Eq)]
pub struct Immediate {
    pub value: u16,
}

/// An operand: a register, a memory location or an immediate value.
#[derive(Clone, Copy, Debug, PartialEq, Eq)]
pub enum Reference {
    Reg(Register),
    Mem(Memory),
    Imm(Immediate),
}

/// The width keyword that makes an operand size explicit.
#[derive(Clone, Copy, Debug, PartialEq, Eq)]
pub enum InstructionSizingOptions {
    Word,
    Byte,
}

/// An explicit operand width, written in front of the source or of the destination.
#[derive(Clone, Copy, Debug, PartialEq, Eq)]
pub struct InstructionSizing {
    pub is_source: bool,
    pub size: InstructionSizingOptions,
}

/// A decoded instruction.
#[derive(Clone, Copy, Debug, PartialEq, Eq)]
pub struct Instruction {
    pub instruction: Instructions,
    pub source: Reference,
    pub destination: Reference,
    pub sizing: Option<InstructionSizing>,
}

/// The assembler name of a register.
pub open spec fn register_text(r: Register) -> Seq<char> {
    match r {
        Register::AL => seq!['a', 'l'],
        Register::CL => seq!['c', 'l'],
        Register::DL => seq!['d', 'l'],
        Register::BL => seq!['b', 'l'],
        Register::AH => seq!['a', 'h'],
        Register::CH => seq!['c', 'h'],
        Register::DH => seq!['d', 'h'],
        Register::BH => seq!['b', 'h'],
        Register::AX => seq!['a', 'x'],
        Register::CX => seq!['c', 'x'],
        Register::DX => seq!['d', 'x'],
        Register::BX => seq!['b', 'x'],
        Register::SP => seq!['s', 'p'],
        Register::BP => seq!['b', 'p'],
        Register::SI => seq!['s', 'i'],
        Register::DI => seq!['d', 'i'],
    }
}

/// The character of a decimal digit.
pub open spec fn digit_char(d: nat) -> char {
    seq!['0', '1', '2', '3', '4', '5', '6', '7', '8', '9'][d as int]
}

/// The decimal digits of `n`, most significant first, without leading zeros.
pub open spec fn digits_of(n: nat) -> Seq<char>
    decreases n,
{
    if n < 10 {
        seq![digit_char(n)]
    } else {
        digits_of(n / 10) + seq![digit_char(n % 10)]
    }
}

/// `v` in decimal, with a leading `-` when it is negative.
pub open spec fn decimal_text(v: int) -> Seq<char> {
    if v < 0 {
        seq!['-'] + digits_of((-v) as nat)
    } else {
        digits_of(v as nat)
    }
}

/// A base register of a memory operand followed by ` + `; nothing for an absent one.
pub open spec fn base_text(r: Option<Register>) -> Seq<char> {
    match r {
        Some(reg) => register_text(reg) + seq![' ', '+', ' '],
        None => Seq::empty(),
    }
}

/// `[`, each present base register followed by ` + `, the offset in decimal, `]`.
pub open spec fn memory_text(m: Memory) -> Seq<char> {
    seq!['['] + base_text(m.registers[0]) + base_text(m.registers[1]) + decimal_text(
        m.offset as int,
    ) + seq![']']
}

pub open spec fn immediate_text(i: Immediate) -> Seq<char> {
    decimal_text(i.value as int)
}

pub open spec fn reference_text(r: Reference) -> Seq<char> {
    match r {
        Reference::Reg(reg) => register_text(reg),
        Reference::Mem(m) => memory_text(m),
        Reference::Imm(i) => immediate_text(i),
    }
}

pub open spec fn mnemonic_text(i: Instructions) -> Seq<char> {
    match i {
        Instructions::Move => seq!['m', 'o', 'v'],
    }
}

pub open spec fn sizing_text(s: InstructionSizingOptions) -> Seq<char> {
    match s {
        InstructionSizingOptions::Word => seq!['w', 'o', 'r', 'd'],
        InstructionSizingOptions::Byte => seq!['b', 'y', 't', 'e'],
    }
}

/// The width keyword and a space, in front of the source (`for_source`) or of the
/// destination; nothing where the instruction has no explicit width there.
pub open spec fn sizing_prefix(s: Option<InstructionSizing>, for_source: bool) -> Seq<char> {
    match s {
        Some(sz) => if sz.is_source == for_source {
            sizing_text(sz.size) + seq![' ']
        } else {
            Seq::empty()
        },
        None => Seq::empty(),
    }
}

/// `<mnemonic> <destination>, <source>`, each operand after its width keyword, if any.
pub open spec fn instruction_text(i: Instruction) -> Seq<char> {
    mnemonic_text(i.instruction) + seq![' '] + sizing_prefix(i.sizing, false) + reference_text(
        i.destination,
    ) + seq![',', ' '] + sizing_prefix(i.sizing, true) + reference_text(i.source)
}

fn digit_str(d: u32) -> (r: &'static str)
    requires
        d < 10,
    ensures
        r@ == seq![digit_char(d as nat)],
{
    match d {
        0 => {
            proof { reveal_strlit("0"); }
            "0"
        },
        1 => {
            proof { reveal_strlit("1"); }
            "1"
        },
        2 => {
            proof { reveal_strlit("2"); }
            "2"
        },
        3 => {
            proof { reveal_strlit("3"); }
            "3"
        },
        4 => {
            proof { reveal_strlit("4"); }
            "4"
        },
        5 => {
            proof { reveal_strlit("5"); }
            "5"
        },
        6 => {
            proof { reveal_strlit("6"); }
            "6"
        },
        7 => {
            proof { reveal_strlit("7"); }
            "7"
        },
        8 => {
            proof { reveal_strlit("8"); }
            "8"
        },
        9 => {
            proof { reveal_strlit("9"); }
            "9"
        },
        _ => {
            proof { reveal_strlit("9"); }
            "9"
        },
    }
}

fn push_digits(s: &mut String, n: u32)
    ensures
        final(s)@ == old(s)@ + digits_of(n as nat),
    decreases n,
{
    if n >= 10 {
        push_digits(s, n / 10);
    }
    s.append(digit_str(n % 10));
    assert(final(s)@ =~= old(s)@ + digits_of(n as nat));
}

/// Appends `v` in decimal to `s`.
fn push_decimal(s: &mut String, v: i32)
    ensures
        final(s)@ == old(s)@ + decimal_text(v as int),
{
    if v < 0 {
        proof { reveal_strlit("-"); }
        s.append("-");
        let magnitude: u32 = (-(v as i64)) as u32;
        push_digits(s, magnitude);
        assert(final(s)@ =~= old(s)@ + decimal_text(v as int));
    } else {
        push_digits(s, v as u32);
    }
}

impl Register {
    /// The assembler name of the register.
    pub fn name(&self) -> (r: &'static str)
        ensures
            r@ == register_text(*self),
    {
        match self {
            Register::AL => {
                proof { reveal_strlit("al"); }
                "al"
            },
            Register::CL => {
                proof { reveal_strlit("cl"); }
                "cl"
            },
            Register::DL => {
                proof { reveal_strlit("dl"); }
                "dl"
            },
            Register::BL => {
                proof { reveal_strlit("bl"); }
                "bl"
            },
            Register::AH => {
                proof { reveal_strlit("ah"); }
                "ah"
            },
            Register::CH => {
                proof { reveal_strlit("ch"); }
                "ch"
            },
            Register::DH => {
                proof { reveal_strlit("dh"); }
                "dh"
            },
            Register::BH => {
                proof { reveal_strlit("bh"); }
                "bh"
            },
            Register::AX => {
                proof { reveal_strlit("ax"); }
                "ax"
            },
            Register::CX => {
                proof { reveal_strlit("cx"); }
                "cx"
            },
            Register::DX => {
                proof { reveal_strlit("dx"); }
                "dx"
            },
            Register::BX => {
                proof { reveal_strlit("bx"); }
                "bx"
            },
            Register::SP => {
                proof { reveal_strlit("sp"); }
                "sp"
            },
            Register::BP => {
                proof { reveal_strlit("bp"); }
                "bp"
            },
            Register::SI => {
                proof { reveal_strlit("si"); }
                "si"
            },
            Register::DI => {
                proof { reveal_strlit("di"); }
                "di"
            },
        }
    }

    pub fn to_string(&self) -> (r: String)
        ensures
            r@ == register_text(*self),
    {
        String::from_str(self.name())
    }
}

fn push_base(s: &mut String, r: Option<Register>)
    ensures
        final(s)@ == old(s)@ + base_text(r),
{
    match r {
        Some(reg) => {
            proof { reveal_strlit(" + "); }
            s.append(reg.name());
            s.append(" + ");
            assert(final(s)@ =~= old(s)@ + base_text(r));
        },
        None => {
            assert(final(s)@ =~= old(s)@ + base_text(r));
        },
    }
}

impl Memory {
    pub fn to_string(&self) -> (r: String)
        ensures
            r@ == memory_text(*self),
    {
        proof {
            reveal_strlit("[");
            reveal_strlit("]");
        }
        let mut s = String::from_str("[");
        push_base(&mut s, self.registers[0]);
        push_base(&mut s, self.registers[1]);
        push_decimal(&mut s, self.offset as i32);
        s.append("]");
        assert(s@ =~= memory_text(*self));
        s
    }
}

impl Immediate {
    pub fn to_string(&self) -> (r: String)
        ensures
            r@ == immediate_text(*self),
    {
        let mut s = String::new();
        push_decimal(&mut s, self.value as i32);
        assert(s@ =~= immediate_text(*self));
        s
    }
}

impl Reference {
    pub fn to_string(&self) -> (r: String)
        ensures
            r@ == reference_text(*self),
    {
        match self {
            Reference::Reg(register) => register.to_string(),
            Reference::Mem(memory) => memory.to_string(),
            Reference::Imm(immediate) => immediate.to_string(),
        }
    }
}

impl Instructions {
    /// The mnemonic of the instruction.
    pub fn mnemonic(&self) -> (r: &'static str)
        ensures
            r@ == mnemonic_text(*self),
    {
        match self {
            Instructions::Move => {
                proof { reveal_strlit("mov"); }
                "mov"
            },
        }
    }

    pub fn to_string(&self) -> (r: String)
        ensures
            r@ == mnemonic_text(*self),
    {
        String::from_str(self.mnemonic())
    }
}

impl InstructionSizingOptions {
    /// The width keyword: `word` or `byte`.
    pub fn keyword(&self) -> (r: &'static str)
        ensures
            r@ == sizing_text(*self),
    {
        match self {
            InstructionSizingOptions::Word => {
                proof { reveal_strlit("word"); }
                "word"
            },
            InstructionSizingOptions::Byte => {
                proof { reveal_strlit("byte"); }
                "byte"
            },
        }
    }
}

impl InstructionSizing {
    pub fn to_string(&self) -> (r: String)
        ensures
            r@ == sizing_text(self.size),
    {
        String::from_str(self.size.keyword())
    }
}

fn push_sizing(s: &mut String, sizing: Option<InstructionSizing>, for_source: bool)
    ensures
        final(s)@ == old(s)@ + sizing_prefix(sizing, for_source),
{
    proof { reveal_strlit(" "); }
    match sizing {
        Some(sz) => {
            if sz.is_source == for_source {
                s.append(sz.size.keyword());
                s.append(" ");
            }
        },
        None => {},
    }
    assert(final(s)@ =~= old(s)@ + sizing_prefix(sizing, for_source));
}

impl Instruction {
    /// The instruction in assembler syntax, destination first.
    pub fn to_string(&self) -> (r: String)
        ensures
            r@ == instruction_text(*self),
    {
        proof {
            reveal_strlit(" ");
            reveal_strlit(", ");
        }
        let mut s = String::from_str(self.instruction.mnemonic());
        s.append(" ");
        push_sizing(&mut s, self.sizing, false);
        let destination = self.destination.to_string();
        s.append(destination.as_str());
        s.append(", ");
        push_sizing(&mut s, self.sizing, true);
        let source = self.source.to_string();
        s.append(source.as_str());
        assert(s@ =~= instruction_text(*self));
        s
    }
}

} // verus!
