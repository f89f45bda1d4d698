//! How a word of source text reads as an operand or as an opcode.

use crate::isa::{Opcode, Operand, Register};
use crate::semantics::wrap16;
use crate::symbols::SymbolTable;
use crate::text::{number, parse_number, reads, to_chars};
use vstd::prelude::*;
use vstd::slice::slice_subrange;

verus! {

/// An immediate operand, if there is a number for it.
pub open spec fn immediate(value: Option<u16>) -> Option<Operand> {
    match value {
        Some(v) => Some(Operand::Immediate(v)),
        None => None,
    }
}

/// The operand that `word` writes, given the labels in `symbols`. The first
/// rule that applies decides: the register names `IX` and `ACC`; a number
/// in base 16 behind `&`, in base 2 behind `B`, in base 10 behind `#`, each
/// an immediate; a number in base 10, an address; a label, the address of
/// its slot reduced to 16 bits. A word that starts with `&`, `B` or `#` and
/// does not go on as a number writes no operand.
pub open spec fn operand_of(word: Seq<char>, symbols: Map<Seq<char>, usize>) -> Option<Operand> {
    if word == "IX"@ {
        Some(Operand::Register(Register::Ix))
    } else if word == "ACC"@ {
        Some(Operand::Register(Register::Acc))
    } else if word.len() > 0 && word[0] == '&' {
        immediate(number(word.drop_first(), 16))
    } else if word.len() > 0 && word[0] == 'B' {
        immediate(number(word.drop_first(), 2))
    } else if word.len() > 0 && word[0] == '#' {
        immediate(number(word.drop_first(), 10))
    } else if number(word, 10) is Some {
        Some(Operand::Address(number(word, 10)->0))
    } else if symbols.dom().contains(word) {
        Some(Operand::Address(wrap16(symbols[word] as int)))
    } else {
        None
    }
}

/// The opcode whose mnemonic is `word`.
pub open spec fn mnemonic(word: Seq<char>) -> Option<Opcode> {
    if word == "LDM"@ {
        Some(Opcode::Ldm)
    } else if word == "LDD"@ {
        Some(Opcode::Ldd)
    } else if word == "LDI"@ {
        Some(Opcode::Ldi)
    } else if word == "LDX"@ {
        Some(Opcode::Ldx)
    } else if word == "LDR"@ {
        Some(Opcode::Ldr)
    } else if word == "MOV"@ {
        Some(Opcode::Mov)
    } else if word == "STO"@ {
        Some(Opcode::Sto)
    } else if word == "ADD"@ {
        Some(Opcode::Add)
    } else if word == "SUB"@ {
        Some(Opcode::Sub)
    } else if word == "INC"@ {
        Some(Opcode::Inc)
    } else if word == "DEC"@ {
        Some(Opcode::Dec)
    } else if word == "JMP"@ {
        Some(Opcode::Jmp)
    } else if word == "CMP"@ {
        Some(Opcode::Cmp)
    } else if word == "CMI"@ {
        Some(Opcode::Cmi)
    } else if word == "JPE"@ {
        Some(Opcode::Jpe)
    } else if word == "JPN"@ {
        Some(Opcode::Jpn)
    } else if word == "IN"@ {
        Some(Opcode::In)
    } else if word == "OUT"@ {
        Some(Opcode::Out)
    } else if word == "END"@ {
        Some(Opcode::End)
    } else if word == "AND"@ {
        Some(Opcode::And)
    } else if word == "XOR"@ {
        Some(Opcode::Xor)
    } else if word == "OR"@ {
        Some(Opcode::Or)
    } else if word == "LSL"@ {
        Some(Opcode::Lsl)
    } else if word == "LSR"@ {
        Some(Opcode::Lsr)
    } else {
        None
    }
}

/// The opcode that `word` writes: the one whose mnemonic it is, or, for a
/// word that is no mnemonic and reads as an immediate without any label, a
/// literal word of that value.
pub open spec fn opcode_of(word: Seq<char>) -> Option<Opcode> {
    match mnemonic(word) {
        Some(opcode) => Some(opcode),
        None => match operand_of(word, Map::empty()) {
            Some(Operand::Immediate(v)) => Some(Opcode::Data(v)),
            _ => None,
        },
    }
}

/// The number in base `radix` that follows the first character of `word`,
/// as an immediate.
fn prefixed(word: &[char], radix: u32) -> (r: Option<Operand>)
    requires
        word@.len() > 0,
        2 <= radix <= 36,
    ensures
        r == immediate(number(word@.drop_first(), radix as int)),
{
    let rest = slice_subrange(word, 1, word.len());
    match parse_number(rest, radix) {
        Some(v) => Some(Operand::Immediate(v)),
        None => None,
    }
}

/// Executable form of [`operand_of`].
pub(crate) fn read_operand(word: &[char], symbols: &SymbolTable) -> (r: Option<Operand>)
    ensures
        r == operand_of(word@, symbols@),
{
    if reads(word, "IX") {
        return Some(Operand::Register(Register::Ix));
    }
    if reads(word, "ACC") {
        return Some(Operand::Register(Register::Acc));
    }
    if word.len() > 0 {
        let first = word[0];
        if first == '&' {
            return prefixed(word, 16);
        }
        if first == 'B' {
            return prefixed(word, 2);
        }
        if first == '#' {
            return prefixed(word, 10);
        }
    }
    match parse_number(word, 10) {
        Some(v) => Some(Operand::Address(v)),
        None => match symbols.find(word) {
            Some(slot) => Some(Operand::Address((slot % 0x1_0000) as u16)),
            None => None,
        },
    }
}

/// Executable form of [`mnemonic`].
fn read_mnemonic(word: &[char]) -> (r: Option<Opcode>)
    ensures
        r == mnemonic(word@),
{
    if reads(word, "LDM") {
        Some(Opcode::Ldm)
    } else if reads(word, "LDD") {
        Some(Opcode::Ldd)
    } else if reads(word, "LDI") {
        Some(Opcode::Ldi)
    } else if reads(word, "LDX") {
        Some(Opcode::Ldx)
    } else if reads(word, "LDR") {
        Some(Opcode::Ldr)
    } else if reads(word, "MOV") {
        Some(Opcode::Mov)
    } else if reads(word, "STO") {
        Some(Opcode::Sto)
    } else if reads(word, "ADD") {
        Some(Opcode::Add)
    } else if reads(word, "SUB") {
        Some(Opcode::Sub)
    } else if reads(word, "INC") {
        Some(Opcode::Inc)
    } else if reads(word, "DEC") {
        Some(Opcode::Dec)
    } else if reads(word, "JMP") {
        Some(Opcode::Jmp)
    } else if reads(word, "CMP") {
        Some(Opcode::Cmp)
    } else if reads(word, "CMI") {
        Some(Opcode::Cmi)
    } else if reads(word, "JPE") {
        Some(Opcode::Jpe)
    } else if reads(word, "JPN") {
        Some(Opcode::Jpn)
    } else if reads(word, "IN") {
        Some(Opcode::In)
    } else if reads(word, "OUT") {
        Some(Opcode::Out)
    } else if reads(word, "END") {
        Some(Opcode::End)
    } else if reads(word, "AND") {
        Some(Opcode::And)
    } else if reads(word, "XOR") {
        Some(Opcode::Xor)
    } else if reads(word, "OR") {
        Some(Opcode::Or)
    } else if reads(word, "LSL") {
        Some(Opcode::Lsl)
    } else if reads(word, "LSR") {
        Some(Opcode::Lsr)
    } else {
        None
    }
}

/// Executable form of [`opcode_of`].
pub(crate) fn read_opcode(word: &[char]) -> (r: Option<Opcode>)
    ensures
        r == opcode_of(word@),
{
    match read_mnemonic(word) {
        Some(opcode) => Some(opcode),
        None => {
            let no_labels = SymbolTable::new();
            match read_operand(word, &no_labels) {
                Some(Operand::Immediate(v)) => Some(Opcode::Data(v)),
                _ => None,
            }
        },
    }
}

impl Operand {
    /// Reads `s` as an operand, with the labels of `symbol_table`: see
    /// [`operand_of`]. The result is `Err` exactly where `s` writes no
    /// operand.
    pub fn str_to_operand(s: &str, symbol_table: &SymbolTable) -> (r: Result<Operand, ()>)
        ensures
            r == match operand_of(s@, symbol_table@) {
                Some(operand) => Ok::<Operand, ()>(operand),
                None => Err::<Operand, ()>(()),
            },
    {
        let word = to_chars(s);
        match read_operand(word.as_slice(), symbol_table) {
            Some(operand) => Ok(operand),
            None => Err(()),
        }
    }
}

impl Opcode {
    /// Reads `s` as an opcode: see [`opcode_of`]. The result is `Err`
    /// exactly where `s` is neither a mnemonic nor an immediate.
    pub fn try_from(s: &str) -> (r: Result<Opcode, ()>)
        ensures
            r == match opcode_of(s@) {
                Some(opcode) => Ok::<Opcode, ()>(opcode),
                None => Err::<Opcode, ()>(()),
            },
    {
        let word = to_chars(s);
        match read_opcode(word.as_slice()) {
            Some(opcode) => Ok(opcode),
            None => Err(()),
        }
    }
}

} // verus!
