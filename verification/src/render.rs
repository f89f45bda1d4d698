//! How the library's values are written out for a reader: numbers in
//! decimal, opcodes by their mnemonics, and errors as sentences.

use crate::isa::{AssemblerError, AssemblerErrorView, Opcode, Operand, Register};
use crate::text::{digits_value, number};
use vstd::prelude::*;
use vstd::string::StringExecFns;

verus! {

/// The character of the decimal digit `d`.
pub open spec fn digit_char(d: nat) -> char {
    if d == 0 {
        '0'
    } else if d == 1 {
        '1'
    } else if d == 2 {
        '2'
    } else if d == 3 {
        '3'
    } else if d == 4 {
        '4'
    } else if d == 5 {
        '5'
    } else if d == 6 {
        '6'
    } else if d == 7 {
        '7'
    } else if d == 8 {
        '8'
    } else {
        '9'
    }
}

/// `n` in decimal, without leading zeros.
pub open spec fn decimal(n: nat) -> Seq<char>
    decreases n,
{
    if n < 10 {
        seq![digit_char(n)]
    } else {
        decimal(n / 10).push(digit_char(n % 10))
    }
}

/// The name of `register`.
pub open spec fn register_text(register: Register) -> Seq<char> {
    match register {
        Register::Ix => "IX"@,
        Register::Acc => "ACC"@,
    }
}

/// The mnemonic of `opcode`; for a literal word, its value in decimal.
pub open spec fn opcode_text(opcode: Opcode) -> Seq<char> {
    match opcode {
        Opcode::Ldm => "LDM"@,
        Opcode::Ldd => "LDD"@,
        Opcode::Ldi => "LDI"@,
        Opcode::Ldx => "LDX"@,
        Opcode::Ldr => "LDR"@,
        Opcode::Mov => "MOV"@,
        Opcode::Sto => "STO"@,
        Opcode::Add => "ADD"@,
        Opcode::Sub => "SUB"@,
        Opcode::Inc => "INC"@,
        Opcode::Dec => "DEC"@,
        Opcode::Jmp => "JMP"@,
        Opcode::Cmp => "CMP"@,
        Opcode::Cmi => "CMI"@,
        Opcode::Jpe => "JPE"@,
        Opcode::Jpn => "JPN"@,
        Opcode::In => "IN"@,
        Opcode::Out => "OUT"@,
        Opcode::End => "END"@,
        Opcode::And => "AND"@,
        Opcode::Xor => "XOR"@,
        Opcode::Or => "OR"@,
        Opcode::Lsl => "LSL"@,
        Opcode::Lsr => "LSR"@,
        Opcode::Data(v) => decimal(v as nat),
    }
}

/// `operand` with its kind: `Register(IX)`, `Address(12)`, `Number(7)`; an
/// empty operand is written as nothing.
pub open spec fn operand_text(operand: Operand) -> Seq<char> {
    match operand {
        Operand::Register(r) => "Register("@ + register_text(r) + ")"@,
        Operand::Address(a) => "Address("@ + decimal(a as nat) + ")"@,
        Operand::Immediate(v) => "Number("@ + decimal(v as nat) + ")"@,
        Operand::Empty => Seq::empty(),
    }
}

/// The sentence that tells of `error`.
pub open spec fn error_text(error: AssemblerErrorView) -> Seq<char> {
    match error {
        AssemblerErrorView::TooManyOperands { line_index, operands_found } => {
            "too many operands on line "@ + decimal(line_index as nat) + ": found "@ + decimal(
                operands_found as nat,
            ) + " operands"@
        },
        AssemblerErrorView::UnknownOpcode { line_index, opcode } => {
            "unknown opcode on line "@ + decimal(line_index as nat) + ": "@ + opcode
        },
        AssemblerErrorView::MalformedOperand { line_index, operand } => {
            "malformed operand on line "@ + decimal(line_index as nat) + ": "@ + operand
        },
        AssemblerErrorView::RedundantOperand { line_index, opcode, operand } => {
            "redunant operand on line "@ + decimal(line_index as nat) + ": "@ + opcode_text(opcode)
                + " does not need an operand, but "@ + operand_text(operand) + " is given"@
        },
        AssemblerErrorView::IncorrectOperand {
            line_index,
            opcode,
            operand_given,
            operand_type_expected,
        } => {
            "incorrect operand on line "@ + decimal(line_index as nat) + ": "@ + opcode_text(opcode)
                + " expects an operand of type "@ + operand_type_expected + ", but "@
                + operand_text(operand_given) + " is given"@
        },
        AssemblerErrorView::MissingOperand { line_index, opcode } => {
            "missing operand on line "@ + decimal(line_index as nat) + ": "@ + opcode_text(opcode)
                + " expects an operand"@
        },
        AssemblerErrorView::ProgramTooLong { program_size, memory_available } => {
            "program too long: program size is "@ + decimal(program_size as nat) + ", but only "@
                + decimal(memory_available as nat) + " unit of memory space is available"@
        },
    }
}

/// What is written in decimal reads back as the same number: the digits of
/// `n` are decimal digits, none of them a sign, and their value is `n`.
pub proof fn decimal_reads_back(n: nat)
    ensures
        decimal(n).len() > 0,
        decimal(n)[0] != '+',
        digits_value(decimal(n), 10) == Some(n as int),
        n <= u16::MAX ==> number(decimal(n), 10) == Some(n as u16),
    decreases n,
{
    if n < 10 {
    } else {
        decimal_reads_back(n / 10);
        assert(decimal(n).drop_last() =~= decimal(n / 10));
    }
}

/// The decimal digit `d` as text.
fn digit_text(d: u64) -> (text: &'static str)
    requires
        d < 10,
    ensures
        text@ == seq![digit_char(d as nat)],
{
    proof {
        reveal_strlit("0");
        reveal_strlit("1");
        reveal_strlit("2");
        reveal_strlit("3");
        reveal_strlit("4");
        reveal_strlit("5");
        reveal_strlit("6");
        reveal_strlit("7");
        reveal_strlit("8");
        reveal_strlit("9");
    }
    let text = if d == 0 {
        "0"
    } else if d == 1 {
        "1"
    } else if d == 2 {
        "2"
    } else if d == 3 {
        "3"
    } else if d == 4 {
        "4"
    } else if d == 5 {
        "5"
    } else if d == 6 {
        "6"
    } else if d == 7 {
        "7"
    } else if d == 8 {
        "8"
    } else {
        "9"
    };
    text
}

/// `n` in decimal.
pub fn decimal_text(n: u64) -> (text: String)
    ensures
        text@ == decimal(n as nat),
    decreases n,
{
    if n < 10 {
        digit_text(n).to_owned()
    } else {
        let mut text = decimal_text(n / 10);
        text.append(digit_text(n % 10));
        text
    }
}

impl Register {
    /// The name of the register.
    pub fn name(&self) -> (text: String)
        ensures
            text@ == register_text(*self),
    {
        match self {
            Register::Ix => "IX".to_owned(),
            Register::Acc => "ACC".to_owned(),
        }
    }
}

impl Opcode {
    /// The mnemonic of the opcode; for a literal word, its value in decimal.
    pub fn name(&self) -> (text: String)
        ensures
            text@ == opcode_text(*self),
    {
        match self {
            Opcode::Ldm => "LDM".to_owned(),
            Opcode::Ldd => "LDD".to_owned(),
            Opcode::Ldi => "LDI".to_owned(),
            Opcode::Ldx => "LDX".to_owned(),
            Opcode::Ldr => "LDR".to_owned(),
            Opcode::Mov => "MOV".to_owned(),
            Opcode::Sto => "STO".to_owned(),
            Opcode::Add => "ADD".to_owned(),
            Opcode::Sub => "SUB".to_owned(),
            Opcode::Inc => "INC".to_owned(),
            Opcode::Dec => "DEC".to_owned(),
            Opcode::Jmp => "JMP".to_owned(),
            Opcode::Cmp => "CMP".to_owned(),
            Opcode::Cmi => "CMI".to_owned(),
            Opcode::Jpe => "JPE".to_owned(),
            Opcode::Jpn => "JPN".to_owned(),
            Opcode::In => "IN".to_owned(),
            Opcode::Out => "OUT".to_owned(),
            Opcode::End => "END".to_owned(),
            Opcode::And => "AND".to_owned(),
            Opcode::Xor => "XOR".to_owned(),
            Opcode::Or => "OR".to_owned(),
            Opcode::Lsl => "LSL".to_owned(),
            Opcode::Lsr => "LSR".to_owned(),
            Opcode::Data(v) => decimal_text(*v as u64),
        }
    }
}

impl Operand {
    /// The operand with its kind, as an error names it.
    pub fn describe(&self) -> (text: String)
        ensures
            text@ == operand_text(*self),
    {
        match self {
            Operand::Register(r) => {
                let mut text = "Register(".to_owned();
                text.append(r.name().as_str());
                text.append(")");
                text
            },
            Operand::Address(a) => {
                let mut text = "Address(".to_owned();
                text.append(decimal_text(*a as u64).as_str());
                text.append(")");
                text
            },
            Operand::Immediate(v) => {
                let mut text = "Number(".to_owned();
                text.append(decimal_text(*v as u64).as_str());
                text.append(")");
                text
            },
            Operand::Empty => String::new(),
        }
    }
}

impl AssemblerError {
    /// The sentence that tells of the error.
    pub fn message(&self) -> (text: String)
        ensures
            text@ == error_text(self@),
    {
        match self {
            AssemblerError::TooManyOperands { line_index, operands_found } => {
                let mut text = "too many operands on line ".to_owned();
                text.append(decimal_text(*line_index as u64).as_str());
                text.append(": found ");
                text.append(decimal_text(*operands_found as u64).as_str());
                text.append(" operands");
                text
            },
            AssemblerError::UnknownOpcode { line_index, opcode } => {
                let mut text = "unknown opcode on line ".to_owned();
                text.append(decimal_text(*line_index as u64).as_str());
                text.append(": ");
                text.append(opcode.as_str());
                text
            },
            AssemblerError::MalformedOperand { line_index, operand } => {
                let mut text = "malformed operand on line ".to_owned();
                text.append(decimal_text(*line_index as u64).as_str());
                text.append(": ");
                text.append(operand.as_str());
                text
            },
            AssemblerError::RedundantOperand { line_index, opcode, operand } => {
                let mut text = "redunant operand on line ".to_owned();
                text.append(decimal_text(*line_index as u64).as_str());
                text.append(": ");
                text.append(opcode.name().as_str());
                text.append(" does not need an operand, but ");
                text.append(operand.describe().as_str());
                text.append(" is given");
                text
            },
            AssemblerError::IncorrectOperand {
                line_index,
                opcode,
                operand_given,
                operand_type_expected,
            } => {
                let mut text = "incorrect operand on line ".to_owned();
                text.append(decimal_text(*line_index as u64).as_str());
                text.append(": ");
                text.append(opcode.name().as_str());
                text.append(" expects an operand of type ");
                text.append(operand_type_expected.as_str());
                text.append(", but ");
                text.append(operand_given.describe().as_str());
                text.append(" is given");
                text
            },
            AssemblerError::MissingOperand { line_index, opcode } => {
                let mut text = "missing operand on line ".to_owned();
                text.append(decimal_text(*line_index as u64).as_str());
                text.append(": ");
                text.append(opcode.name().as_str());
                text.append(" expects an operand");
                text
            },
            AssemblerError::ProgramTooLong { program_size, memory_available } => {
                let mut text = "program too long: program size is ".to_owned();
                text.append(decimal_text(*program_size as u64).as_str());
                text.append(", but only ");
                text.append(decimal_text(*memory_available as u64).as_str());
                text.append(" unit of memory space is available");
                text
            },
        }
    }
}

} // verus!
