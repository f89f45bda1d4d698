//! The program loader: an assembled program placed into memory at a base
//! address, its addresses moved by that base.

use crate::isa::{MemoryData, Opcode, Operand};
use vstd::prelude::*;

verus! {

/// The cell that the loader writes for `instruction` of a program loaded at
/// `base`: a literal word becomes a plain word; an address moves up by
/// `base`; every other operand stays as it is.
pub open spec fn relocated(instruction: (Opcode, Operand), base: u8) -> MemoryData {
    match instruction.0 {
        Opcode::Data(v) => MemoryData::Value(v),
        opcode => match instruction.1 {
            Operand::Address(a) => MemoryData::Instruction(
                opcode,
                Operand::Address((a + base) as u16),
            ),
            operand => MemoryData::Instruction(opcode, operand),
        },
    }
}

/// Memory after `program` was written to the cells from `base` on. Every
/// other cell is as before.
pub open spec fn loaded(memory: Seq<MemoryData>, program: Seq<(Opcode, Operand)>, base: u8) -> Seq<
    MemoryData,
> {
    Seq::new(
        memory.len(),
        |i: int|
            if base <= i < base + program.len() {
                relocated(program[i - base], base)
            } else {
                memory[i]
            },
    )
}

/// Whether `instruction` can be placed by a load at `base`: the engine can
/// run it, and its address, moved by `base`, is still a 16-bit number. A
/// literal word can always be placed.
pub open spec fn placeable(instruction: (Opcode, Operand), base: u8) -> bool {
    match instruction.0 {
        Opcode::Data(_) => true,
        opcode => {
            &&& opcode.runs_with(instruction.1)
            &&& (instruction.1 matches Operand::Address(a) ==> a + base <= u16::MAX)
        },
    }
}

/// Whether every instruction of `program` can be placed by a load at `base`.
pub open spec fn loadable(program: Seq<(Opcode, Operand)>, base: u8) -> bool {
    forall|i: int| 0 <= i < program.len() ==> placeable(#[trigger] program[i], base)
}

/// Executable form of [`placeable`].
fn can_place(instruction: &(Opcode, Operand), base: u8) -> (r: bool)
    ensures
        r == placeable(*instruction, base),
{
    match instruction.0 {
        Opcode::Data(_) => true,
        opcode => {
            let fits = match instruction.1 {
                Operand::Address(a) => a <= u16::MAX - base as u16,
                _ => true,
            };
            fits && opcode.can_run_with(&instruction.1)
        },
    }
}

/// Whether `program` can be handed to [`Emulator::load_program`] with this
/// `base`.
pub fn can_load(program: &[(Opcode, Operand)], base: u8) -> (r: bool)
    ensures
        r == loadable(program@, base),
{
    let mut i: usize = 0;
    while i < program.len()
        invariant
            i <= program.len(),
            forall|j: int| 0 <= j < i ==> placeable(#[trigger] program@[j], base),
        decreases program.len() - i,
    {
        if !can_place(&program[i], base) {
            return false;
        }
        i = i + 1;
    }
    true
}

/// The cell that the loader writes for `instruction`.
pub(crate) fn relocate(instruction: &(Opcode, Operand), base: u8) -> (cell: MemoryData)
    requires
        placeable(*instruction, base),
    ensures
        cell == relocated(*instruction, base),
        cell.sound(),
{
    match instruction.0 {
        Opcode::Data(v) => MemoryData::Value(v),
        opcode => match instruction.1 {
            Operand::Address(a) => MemoryData::Instruction(
                opcode,
                Operand::Address(a + base as u16),
            ),
            operand => MemoryData::Instruction(opcode, operand),
        },
    }
}

} // verus!
