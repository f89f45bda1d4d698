//! The instruction set: registers, operands, opcodes, memory cells, and the
//! two families of diagnostics (assembly errors and run-time reports).

use vstd::prelude::*;

verus! {

/// The two registers that an instruction can name.
#[derive(Clone, Copy, Debug, PartialEq, Eq, Structural)]
pub enum Register {
    Ix,
    Acc,
}

/// A fully resolved operand. Labels never survive assembly: an `Address`
/// always carries a number.
#[derive(Clone, Copy, Debug, PartialEq, Eq, Structural)]
pub enum Operand {
    Register(Register),
    Address(u16),
    Immediate(u16),
    Empty,
}

/// The mnemonics of the machine, and `Data` for a literal word that takes up
/// an instruction slot of its own.
#[derive(Clone, Copy, Debug, PartialEq, Eq, Structural)]
pub enum Opcode {
    Ldm,
    Ldd,
    Ldi,
    Ldx,
    Ldr,
    Mov,
    Sto,
    Add,
    Sub,
    Inc,
    Dec,
    Jmp,
    Cmp,
    Cmi,
    Jpe,
    Jpn,
    In,
    Out,
    End,
    And,
    Xor,
    Or,
    Lsl,
    Lsr,
    Data(u16),
}

/// One cell of memory: an instruction or a plain word.
#[derive(Clone, Copy, Debug, PartialEq, Eq, Structural)]
pub enum MemoryData {
    Instruction(Opcode, Operand),
    Value(u16),
}

/// Where the engine stands between two steps.
#[derive(Clone, Copy, Debug, PartialEq, Eq, Structural)]
pub enum ExecutionState {
    Executing,
    ExecutingAwaitingInput,
    SteppingAwaitingInput,
    Stopped,
}

/// What a step reports to the host.
#[derive(Clone, Copy, Debug, PartialEq, Eq, Structural)]
pub enum ExecutionInfo {
    ExecutionTerminated { ins_address: u16 },
    ExecutionAbortedValueMet { ins_address: u16, value: u16 },
    TooManySteps { steps: u64 },
    AddressNotInMemory { ins_address: u16, requested_address: u16 },
    InvalidLoad { ins_address: u16, requested_address: u16 },
}

/// Why a source text was not assembled, or an assembled program not loaded.
/// Line numbers count source lines from 1.
#[derive(Clone, Debug)]
pub enum AssemblerError {
    TooManyOperands { line_index: usize, operands_found: usize },
    UnknownOpcode { line_index: usize, opcode: String },
    MalformedOperand { line_index: usize, operand: String },
    RedundantOperand { line_index: usize, opcode: Opcode, operand: Operand },
    IncorrectOperand {
        line_index: usize,
        opcode: Opcode,
        operand_given: Operand,
        operand_type_expected: String,
    },
    MissingOperand { line_index: usize, opcode: Opcode },
    ProgramTooLong { program_size: usize, memory_available: usize },
}

/// An [`AssemblerError`] with its texts as sequences of characters.
pub enum AssemblerErrorView {
    TooManyOperands { line_index: usize, operands_found: usize },
    UnknownOpcode { line_index: usize, opcode: Seq<char> },
    MalformedOperand { line_index: usize, operand: Seq<char> },
    RedundantOperand { line_index: usize, opcode: Opcode, operand: Operand },
    IncorrectOperand {
        line_index: usize,
        opcode: Opcode,
        operand_given: Operand,
        operand_type_expected: Seq<char>,
    },
    MissingOperand { line_index: usize, opcode: Opcode },
    ProgramTooLong { program_size: usize, memory_available: usize },
}

impl AssemblerErrorView {
    /// The number of the source line that the error names. An error of
    /// loading names none.
    pub open spec fn line(self) -> Option<usize> {
        match self {
            AssemblerErrorView::TooManyOperands { line_index, .. } => Some(line_index),
            AssemblerErrorView::UnknownOpcode { line_index, .. } => Some(line_index),
            AssemblerErrorView::MalformedOperand { line_index, .. } => Some(line_index),
            AssemblerErrorView::RedundantOperand { line_index, .. } => Some(line_index),
            AssemblerErrorView::IncorrectOperand { line_index, .. } => Some(line_index),
            AssemblerErrorView::MissingOperand { line_index, .. } => Some(line_index),
            AssemblerErrorView::ProgramTooLong { .. } => None,
        }
    }
}

impl View for AssemblerError {
    type V = AssemblerErrorView;

    open spec fn view(&self) -> AssemblerErrorView {
        match *self {
            AssemblerError::TooManyOperands { line_index, operands_found } => {
                AssemblerErrorView::TooManyOperands { line_index, operands_found }
            },
            AssemblerError::UnknownOpcode { line_index, opcode } => {
                AssemblerErrorView::UnknownOpcode { line_index, opcode: opcode@ }
            },
            AssemblerError::MalformedOperand { line_index, operand } => {
                AssemblerErrorView::MalformedOperand { line_index, operand: operand@ }
            },
            AssemblerError::RedundantOperand { line_index, opcode, operand } => {
                AssemblerErrorView::RedundantOperand { line_index, opcode, operand }
            },
            AssemblerError::IncorrectOperand {
                line_index,
                opcode,
                operand_given,
                operand_type_expected,
            } => AssemblerErrorView::IncorrectOperand {
                line_index,
                opcode,
                operand_given,
                operand_type_expected: operand_type_expected@,
            },
            AssemblerError::MissingOperand { line_index, opcode } => {
                AssemblerErrorView::MissingOperand { line_index, opcode }
            },
            AssemblerError::ProgramTooLong { program_size, memory_available } => {
                AssemblerErrorView::ProgramTooLong { program_size, memory_available }
            },
        }
    }
}

impl Opcode {
    /// The opcodes that stand alone on a line: `IN`, `OUT` and `END`.
    pub open spec fn stands_alone(self) -> bool {
        self is In || self is Out || self is End
    }

    /// Whether `operand`, written after this opcode, is of the kind that the
    /// opcode asks for. No operand is right for `IN`, `OUT`, `END` or a
    /// literal word.
    pub open spec fn accepts(self, operand: Operand) -> bool {
        match self {
            Opcode::Ldm | Opcode::Ldr | Opcode::Lsl | Opcode::Lsr => operand is Immediate,
            Opcode::Ldd
            | Opcode::Ldi
            | Opcode::Ldx
            | Opcode::Sto
            | Opcode::Jmp
            | Opcode::Cmi
            | Opcode::Jpe
            | Opcode::Jpn => operand is Address,
            Opcode::Mov | Opcode::Inc | Opcode::Dec => operand is Register,
            Opcode::Add
            | Opcode::Sub
            | Opcode::Cmp
            | Opcode::And
            | Opcode::Xor
            | Opcode::Or => operand is Address || operand is Immediate,
            Opcode::In | Opcode::Out | Opcode::End | Opcode::Data(_) => false,
        }
    }

    /// The words by which an error names the kind of operand that this
    /// opcode asks for.
    pub open spec fn expected_kind(self) -> Seq<char> {
        match self {
            Opcode::Ldm | Opcode::Ldr | Opcode::Lsl | Opcode::Lsr => "Number"@,
            Opcode::Ldd
            | Opcode::Ldi
            | Opcode::Ldx
            | Opcode::Sto
            | Opcode::Jmp
            | Opcode::Cmi
            | Opcode::Jpe
            | Opcode::Jpn => "Address"@,
            Opcode::Mov | Opcode::Inc | Opcode::Dec => "Register"@,
            Opcode::Add
            | Opcode::Sub
            | Opcode::Cmp
            | Opcode::And
            | Opcode::Xor
            | Opcode::Or => "Address/Number"@,
            Opcode::In | Opcode::Out | Opcode::End | Opcode::Data(_) => Seq::empty(),
        }
    }

    /// Whether the pair `(self, operand)` is one that the assembler emits:
    /// an operand of the right kind, none for `IN`, `OUT` and `END`, and for
    /// a literal word the word itself as an immediate.
    pub open spec fn well_formed_with(self, operand: Operand) -> bool {
        match self {
            Opcode::In | Opcode::Out | Opcode::End => operand is Empty,
            Opcode::Data(v) => operand == Operand::Immediate(v),
            _ => self.accepts(operand),
        }
    }

    /// Whether the engine can execute the instruction `(self, operand)`.
    /// That holds of every well-formed pair but a literal word; the two
    /// shifts also run with an address.
    pub open spec fn runs_with(self, operand: Operand) -> bool {
        &&& !(self is Data)
        &&& (self.well_formed_with(operand) || ((self is Lsl || self is Lsr)
            && operand is Address))
    }

    /// Executable form of [`Opcode::accepts`].
    pub fn takes(&self, operand: &Operand) -> (r: bool)
        ensures
            r == self.accepts(*operand),
    {
        match self {
            Opcode::Ldm | Opcode::Ldr | Opcode::Lsl | Opcode::Lsr => match operand {
                Operand::Immediate(_) => true,
                _ => false,
            },
            Opcode::Ldd
            | Opcode::Ldi
            | Opcode::Ldx
            | Opcode::Sto
            | Opcode::Jmp
            | Opcode::Cmi
            | Opcode::Jpe
            | Opcode::Jpn => match operand {
                Operand::Address(_) => true,
                _ => false,
            },
            Opcode::Mov | Opcode::Inc | Opcode::Dec => match operand {
                Operand::Register(_) => true,
                _ => false,
            },
            Opcode::Add
            | Opcode::Sub
            | Opcode::Cmp
            | Opcode::And
            | Opcode::Xor
            | Opcode::Or => match operand {
                Operand::Address(_) | Operand::Immediate(_) => true,
                _ => false,
            },
            Opcode::In | Opcode::Out | Opcode::End | Opcode::Data(_) => false,
        }
    }

    /// Executable form of [`Opcode::well_formed_with`].
    pub fn is_well_formed_with(&self, operand: &Operand) -> (r: bool)
        ensures
            r == self.well_formed_with(*operand),
    {
        match self {
            Opcode::In | Opcode::Out | Opcode::End => match operand {
                Operand::Empty => true,
                _ => false,
            },
            Opcode::Data(v) => match operand {
                Operand::Immediate(w) => *v == *w,
                _ => false,
            },
            _ => self.takes(operand),
        }
    }

    /// Executable form of [`Opcode::runs_with`].
    pub fn can_run_with(&self, operand: &Operand) -> (r: bool)
        ensures
            r == self.runs_with(*operand),
    {
        match self {
            Opcode::Data(_) => false,
            Opcode::Lsl | Opcode::Lsr => match operand {
                Operand::Immediate(_) | Operand::Address(_) => true,
                _ => false,
            },
            _ => self.is_well_formed_with(operand),
        }
    }
}

impl MemoryData {
    /// A cell is sound if it is a word, or an instruction that the engine
    /// can execute.
    pub open spec fn sound(self) -> bool {
        match self {
            MemoryData::Value(_) => true,
            MemoryData::Instruction(opcode, operand) => opcode.runs_with(operand),
        }
    }

    /// Executable form of [`MemoryData::sound`].
    pub fn is_sound(&self) -> (r: bool)
        ensures
            r == self.sound(),
    {
        match self {
            MemoryData::Value(_) => true,
            MemoryData::Instruction(opcode, operand) => opcode.can_run_with(operand),
        }
    }
}

} // verus!
