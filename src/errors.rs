use vstd::prelude::*;
use vstd::string::StringExecFns;

verus! {

/// A failure to decode: the leading byte of the instruction being decoded
/// and a short description of what went wrong.
#[derive(Debug, Clone, Copy, PartialEq, Eq)]
pub struct FailedDecode<'a> {
    pub bytes: u8,
    pub message: &'a str,
}

/// The character of a hexadecimal digit, in upper case.
pub open spec fn hex_digit_char(d: nat) -> char {
    seq!['0', '1', '2', '3', '4', '5', '6', '7', '8', '9', 'A', 'B', 'C', 'D', 'E', 'F'][d as int]
}

/// `b` in hexadecimal, upper case, without leading zeros.
pub open spec fn hex_text(b: u8) -> Seq<char> {
    if b < 16 {
        seq![hex_digit_char(b as nat)]
    } else {
        seq![hex_digit_char((b / 16) as nat), hex_digit_char((b % 16) as nat)]
    }
}

/// The report of a failure: `Failed decode starting from byte <byte in hex> - <message>`.
pub open spec fn failure_text(bytes: u8, message: Seq<char>) -> Seq<char> {
    seq![
        'F', 'a', 'i', 'l', 'e', 'd', ' ', 'd', 'e', 'c', 'o', 'd', 'e', ' ', 's', 't', 'a', 'r',
        't', 'i', 'n', 'g', ' ', 'f', 'r', 'o', 'm', ' ', 'b', 'y', 't', 'e', ' ',
    ] + hex_text(bytes) + seq![' ', '-', ' '] + message
}

fn hex_digit_str(d: u8) -> (r: &'static str)
    requires
        d < 16,
    ensures
        r@ == seq![hex_digit_char(d as nat)],
{
    match d {
        0 => {
            proof { reveal_strlit("0"); }
            "0"
        },
        1 => {
            proof { reveal_strlit("1"); }
            "1"
        },
        2 => {
            proof { reveal_strlit("2"); }
            "2"
        },
        3 => {
            proof { reveal_strlit("3"); }
            "3"
        },
        4 => {
            proof { reveal_strlit("4"); }
            "4"
        },
        5 => {
            proof { reveal_strlit("5"); }
            "5"
        },
        6 => {
            proof { reveal_strlit("6"); }
            "6"
        },
        7 => {
            proof { reveal_strlit("7"); }
            "7"
        },
        8 => {
            proof { reveal_strlit("8"); }
            "8"
        },
        9 => {
            proof { reveal_strlit("9"); }
            "9"
        },
        10 => {
            proof { reveal_strlit("A"); }
            "A"
        },
        11 => {
            proof { reveal_strlit("B"); }
            "B"
        },
        12 => {
            proof { reveal_strlit("C"); }
            "C"
        },
        13 => {
            proof { reveal_strlit("D"); }
            "D"
        },
        14 => {
            proof { reveal_strlit("E"); }
            "E"
        },
        _ => {
            proof { reveal_strlit("F"); }
            "F"
        },
    }
}

impl<'a> FailedDecode<'a> {
    /// The report of the failure, the leading byte in hexadecimal.
    pub fn to_string(&self) -> (r: String)
        ensures
            r@ == failure_text(self.bytes, self.message@),
    {
        proof {
            reveal_strlit("Failed decode starting from byte ");
            reveal_strlit(" - ");
        }
        let mut s = String::from_str("Failed decode starting from byte ");
        if self.bytes >= 16 {
            s.append(hex_digit_str(self.bytes / 16));
        }
        s.append(hex_digit_str(self.bytes % 16));
        s.append(" - ");
        s.append(self.message);
        assert(s@ =~= failure_text(self.bytes, self.message@));
        s
    }
}

pub const MISSING_SECOND_BYTE: &'static str = "missing second byte!";

pub const MISSING_DIRECT_ADDRESS: &'static str = "Missing bytes for direct address";

pub const MISSING_U8_OFFSET: &'static str = "Missing byte for u8 offset!";

pub const MISSING_U16_OFFSET: &'static str = "Missing bytes for u16 offset!";

pub const MISSING_IMMEDIATE: &'static str = "Missing bytes for u16 immediate!";

pub const UNKNOWN_OPCODE: &'static str = "Byte matched no known opcodes!";

} // verus!
