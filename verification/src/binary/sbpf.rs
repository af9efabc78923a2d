//! The SBPF operation set and how an opcode byte selects an operation.

use crate::text::{dec_nat, push_dec_u64};
use vstd::prelude::*;
use vstd::string::StringExecFns;

verus! {

/// An SBPF operation.
#[derive(Debug, Clone, Copy, PartialEq, Eq, Structural)]
pub enum Opcode {
    LdAbs,
    LdInd,
    Ldx,
    St,
    Stx,
    Add,
    Sub,
    Mul,
    Div,
    Or,
    And,
    Lsh,
    Rsh,
    Mod,
    Xor,
    Mov,
    Arsh,
    Ja,
    Jeq,
    Jgt,
    Jge,
    Jlt,
    Jle,
    Jset,
    Jne,
    Jsgt,
    Jsge,
    Jslt,
    Jsle,
    Call,
    Exit,
    /// An opcode byte that selects no operation.
    Unknown(u8),
}

/// The operation selected by the low nibble `low` (0..=15) of an opcode byte
/// whose high nibble is `0xF`.
pub open spec fn extended_opcode(low: int) -> Opcode {
    if low == 0 {
        Opcode::Mov
    } else if low == 1 {
        Opcode::Arsh
    } else if low == 2 {
        Opcode::Ja
    } else if low == 3 {
        Opcode::Jeq
    } else if low == 4 {
        Opcode::Jgt
    } else if low == 5 {
        Opcode::Jge
    } else if low == 6 {
        Opcode::Jlt
    } else if low == 7 {
        Opcode::Jle
    } else if low == 8 {
        Opcode::Jset
    } else if low == 9 {
        Opcode::Jne
    } else if low == 10 {
        Opcode::Jsgt
    } else if low == 11 {
        Opcode::Jsge
    } else if low == 12 {
        Opcode::Jslt
    } else if low == 13 {
        Opcode::Jsle
    } else if low == 14 {
        Opcode::Call
    } else {
        Opcode::Exit
    }
}

/// The operation selected by an opcode byte: the high nibble picks the
/// operation, except that high nibble `0xF` defers to the low nibble.
pub open spec fn opcode_of_byte(byte: u8) -> Opcode {
    let high = byte as int / 16;
    let low = byte as int % 16;
    if high == 0 {
        Opcode::LdAbs
    } else if high == 1 {
        Opcode::LdInd
    } else if high == 2 {
        Opcode::Ldx
    } else if high == 3 {
        Opcode::St
    } else if high == 4 {
        Opcode::Stx
    } else if high == 5 {
        Opcode::Add
    } else if high == 6 {
        Opcode::Sub
    } else if high == 7 {
        Opcode::Mul
    } else if high == 8 {
        Opcode::Div
    } else if high == 9 {
        Opcode::Or
    } else if high == 10 {
        Opcode::And
    } else if high == 11 {
        Opcode::Lsh
    } else if high == 12 {
        Opcode::Rsh
    } else if high == 13 {
        Opcode::Mod
    } else if high == 14 {
        Opcode::Xor
    } else {
        extended_opcode(low)
    }
}

impl Opcode {
    /// Classifies an opcode byte.
    pub fn from_u8(byte: u8) -> (op: Opcode)
        ensures
            op == opcode_of_byte(byte),
    {
        let high: u8 = byte / 16;
        let low: u8 = byte % 16;
        match high {
            0 => Opcode::LdAbs,
            1 => Opcode::LdInd,
            2 => Opcode::Ldx,
            3 => Opcode::St,
            4 => Opcode::Stx,
            5 => Opcode::Add,
            6 => Opcode::Sub,
            7 => Opcode::Mul,
            8 => Opcode::Div,
            9 => Opcode::Or,
            10 => Opcode::And,
            11 => Opcode::Lsh,
            12 => Opcode::Rsh,
            13 => Opcode::Mod,
            14 => Opcode::Xor,
            15 => match low {
                0 => Opcode::Mov,
                1 => Opcode::Arsh,
                2 => Opcode::Ja,
                3 => Opcode::Jeq,
                4 => Opcode::Jgt,
                5 => Opcode::Jge,
                6 => Opcode::Jlt,
                7 => Opcode::Jle,
                8 => Opcode::Jset,
                9 => Opcode::Jne,
                10 => Opcode::Jsgt,
                11 => Opcode::Jsge,
                12 => Opcode::Jslt,
                13 => Opcode::Jsle,
                14 => Opcode::Call,
                15 => Opcode::Exit,
                _ => Opcode::Unknown(byte),
            },
            _ => Opcode::Unknown(byte),
        }
    }
}

/// No opcode byte is classified as `Unknown`: all sixteen high nibbles and,
/// under `0xF`, all sixteen low nibbles select an operation.
pub proof fn lemma_every_byte_is_known(byte: u8)
    ensures
        !(opcode_of_byte(byte) is Unknown),
{
}

/// The name of an operation as its variant is written; an unknown opcode
/// byte is written `Unknown(` byte in decimal `)`.
pub open spec fn variant_text(op: Opcode) -> Seq<char> {
    match op {
        Opcode::LdAbs => "LdAbs"@,
        Opcode::LdInd => "LdInd"@,
        Opcode::Ldx => "Ldx"@,
        Opcode::St => "St"@,
        Opcode::Stx => "Stx"@,
        Opcode::Add => "Add"@,
        Opcode::Sub => "Sub"@,
        Opcode::Mul => "Mul"@,
        Opcode::Div => "Div"@,
        Opcode::Or => "Or"@,
        Opcode::And => "And"@,
        Opcode::Lsh => "Lsh"@,
        Opcode::Rsh => "Rsh"@,
        Opcode::Mod => "Mod"@,
        Opcode::Xor => "Xor"@,
        Opcode::Mov => "Mov"@,
        Opcode::Arsh => "Arsh"@,
        Opcode::Ja => "Ja"@,
        Opcode::Jeq => "Jeq"@,
        Opcode::Jgt => "Jgt"@,
        Opcode::Jge => "Jge"@,
        Opcode::Jlt => "Jlt"@,
        Opcode::Jle => "Jle"@,
        Opcode::Jset => "Jset"@,
        Opcode::Jne => "Jne"@,
        Opcode::Jsgt => "Jsgt"@,
        Opcode::Jsge => "Jsge"@,
        Opcode::Jslt => "Jslt"@,
        Opcode::Jsle => "Jsle"@,
        Opcode::Call => "Call"@,
        Opcode::Exit => "Exit"@,
        Opcode::Unknown(b) => "Unknown("@ + dec_nat(b as nat) + ")"@,
    }
}

/// The name of an operation as its variant is written.
pub fn variant_name(op: Opcode) -> (s: String)
    ensures
        s@ == variant_text(op),
{
    match op {
        Opcode::LdAbs => String::from_str("LdAbs"),
        Opcode::LdInd => String::from_str("LdInd"),
        Opcode::Ldx => String::from_str("Ldx"),
        Opcode::St => String::from_str("St"),
        Opcode::Stx => String::from_str("Stx"),
        Opcode::Add => String::from_str("Add"),
        Opcode::Sub => String::from_str("Sub"),
        Opcode::Mul => String::from_str("Mul"),
        Opcode::Div => String::from_str("Div"),
        Opcode::Or => String::from_str("Or"),
        Opcode::And => String::from_str("And"),
        Opcode::Lsh => String::from_str("Lsh"),
        Opcode::Rsh => String::from_str("Rsh"),
        Opcode::Mod => String::from_str("Mod"),
        Opcode::Xor => String::from_str("Xor"),
        Opcode::Mov => String::from_str("Mov"),
        Opcode::Arsh => String::from_str("Arsh"),
        Opcode::Ja => String::from_str("Ja"),
        Opcode::Jeq => String::from_str("Jeq"),
        Opcode::Jgt => String::from_str("Jgt"),
        Opcode::Jge => String::from_str("Jge"),
        Opcode::Jlt => String::from_str("Jlt"),
        Opcode::Jle => String::from_str("Jle"),
        Opcode::Jset => String::from_str("Jset"),
        Opcode::Jne => String::from_str("Jne"),
        Opcode::Jsgt => String::from_str("Jsgt"),
        Opcode::Jsge => String::from_str("Jsge"),
        Opcode::Jslt => String::from_str("Jslt"),
        Opcode::Jsle => String::from_str("Jsle"),
        Opcode::Call => String::from_str("Call"),
        Opcode::Exit => String::from_str("Exit"),
        Opcode::Unknown(b) => {
            let mut s = String::from_str("Unknown(");
            push_dec_u64(&mut s, b as u64);
            s.append(")");
            s
        },
    }
}

} // verus!
