//! Laws of the assembler, the loader and the engine, each proved from the
//! definitions that the contracts of the library are stated in.

use crate::assembler::{
    assembled, assembled_lines_well_formed, error_names_a_line, one_instruction_per_statement,
    slots, symbol_table, well_formed,
};
use crate::isa::{ExecutionInfo, MemoryData, Opcode, Operand};
use crate::loader::{loadable, loaded, placeable};
use crate::semantics::{indexed, MachineState, STEP_LIMIT};
use crate::text::lines;
use vstd::prelude::*;

verus! {

/// Assembly is a function of the source text alone: the same source gives
/// the same instructions, or the same error, and the same symbol table.
pub proof fn assembly_is_deterministic(first: Seq<char>, second: Seq<char>)
    requires
        first == second,
    ensures
        assembled(first) == assembled(second),
        symbol_table(first) == symbol_table(second),
{
}

/// Whatever the assembler emits is well-formed: no instruction of an
/// assembled program has an operand of a kind that its opcode is not
/// written with.
pub proof fn assembled_is_well_formed(source: Seq<char>)
    requires
        assembled(source) is Ok,
    ensures
        well_formed(assembled(source)->Ok_0),
{
    assembled_lines_well_formed(lines(source), symbol_table(source), lines(source).len() as int);
}

/// Assembly that succeeds gives one instruction for each statement of the
/// source, in the order of the lines.
pub proof fn assembled_fills_every_slot(source: Seq<char>)
    requires
        assembled(source) is Ok,
    ensures
        assembled(source)->Ok_0.len() == slots(lines(source), lines(source).len() as int),
{
    one_instruction_per_statement(
        lines(source),
        symbol_table(source),
        lines(source).len() as int,
    );
}

/// Assembly that fails names a line of the source, counted from 1, and is
/// never the error of a program too long, which only loading gives.
pub proof fn assembly_error_names_a_line(source: Seq<char>)
    requires
        lines(source).len() <= usize::MAX,
        assembled(source) is Err,
    ensures
        assembled(source)->Err_0.line() is Some,
        1 <= assembled(source)->Err_0.line()->0 <= lines(source).len(),
{
    error_names_a_line(lines(source), symbol_table(source), lines(source).len() as int);
}

/// Every instruction that the assembler emits can run, once its address has
/// room to move: a program of well-formed instructions whose addresses stay
/// 16-bit numbers is loadable.
pub proof fn well_formed_is_loadable(program: Seq<(Opcode, Operand)>, base: u8)
    requires
        well_formed(program),
        forall|i: int|
            0 <= i < program.len() ==> ((#[trigger] program[i]).1 matches Operand::Address(a)
                ==> a + base <= u16::MAX),
    ensures
        loadable(program, base),
{
}

/// A load at `base` moves the address of each instruction up by exactly
/// `base` and leaves every other operand as it is; a literal word is stored
/// as a plain word; and no cell outside the program changes.
pub proof fn load_relocates(
    memory: Seq<MemoryData>,
    program: Seq<(Opcode, Operand)>,
    base: u8,
    i: int,
)
    requires
        memory.len() == 256,
        program.len() <= 256 - base,
        0 <= i < 256,
        base <= i < base + program.len() ==> placeable(program[i - base], base),
    ensures
        !(base <= i < base + program.len()) ==> loaded(memory, program, base)[i] == memory[i],
        base <= i < base + program.len() ==> match program[i - base] {
            (Opcode::Data(v), _) => loaded(memory, program, base)[i] == MemoryData::Value(v),
            (opcode, Operand::Address(a)) => {
                &&& loaded(memory, program, base)[i] matches MemoryData::Instruction(
                    placed,
                    Operand::Address(moved),
                )
                &&& placed == opcode
                &&& moved == a + base
            },
            (opcode, operand) => loaded(memory, program, base)[i] == MemoryData::Instruction(
                opcode,
                operand,
            ),
        },
{
}

/// A step of a valid machine onto `END` reports that execution terminated
/// at the address of that `END`, stops the machine, and leaves ACC, IX and
/// the flags as they were.
pub proof fn end_terminates(m: MachineState)
    requires
        m.valid(),
        !m.awaits_input(),
        m.memory[m.pc as int] == MemoryData::Instruction(Opcode::End, Operand::Empty),
    ensures
        m.step().1.info == Some(ExecutionInfo::ExecutionTerminated { ins_address: m.pc }),
        m.step().0.state is Stopped,
        m.step().0.acc == m.acc,
        m.step().0.ix == m.ix,
        m.step().0.flags == m.flags,
{
}

/// The machine after `n` times `ADD #1`.
pub open spec fn after_increments(m: MachineState, n: nat) -> MachineState
    decreases n,
{
    if n == 0 {
        m
    } else {
        after_increments(m, (n - 1) as nat).compute(Opcode::Add, 1)
    }
}

/// `ADD #1`, done `n` times from ACC 0 with `n` up to 65536, leaves ACC at
/// `n` modulo 65536. The addition that wraps ACC back to 0, the 65536th,
/// is the only one that sets the carry, overflow and zero flags.
pub proof fn increments_wrap_once(m: MachineState, n: nat)
    requires
        m.acc == 0,
        1 <= n <= 65536,
    ensures
        after_increments(m, n).acc == n % 65536,
        after_increments(m, n).flags.carry == (n == 65536),
        after_increments(m, n).flags.overflow == (n == 65536),
        after_increments(m, n).flags.zero == (n == 65536),
    decreases n,
{
    if n > 1 {
        increments_wrap_once(m, (n - 1) as nat);
    } else {
        assert(after_increments(m, 0) == m);
    }
}

/// A comparison sets the zero flag exactly if ACC equals the word compared
/// with, and the carry flag exactly if ACC is less, a borrow. It leaves ACC.
pub proof fn comparison_orders(m: MachineState, v: u16)
    ensures
        m.compute(Opcode::Cmp, v).flags.zero == (m.acc == v),
        m.compute(Opcode::Cmp, v).flags.carry == (m.acc < v),
        m.compute(Opcode::Cmp, v).flags.overflow == (m.acc < v),
        m.compute(Opcode::Cmp, v).acc == m.acc,
{
}

/// `LDD` of a cell that holds an instruction is an invalid load: the step
/// reports it with the address of the `LDD` and of the cell, leaves ACC as
/// it was, and stops the machine.
pub proof fn load_of_instruction_fails(m: MachineState, address: u16)
    requires
        m.valid(),
        !m.awaits_input(),
        m.memory[m.pc as int] == MemoryData::Instruction(Opcode::Ldd, Operand::Address(address)),
        address <= 255,
        m.memory[address as int] is Instruction,
    ensures
        m.step().1.info == Some(
            ExecutionInfo::InvalidLoad { ins_address: m.pc, requested_address: address },
        ),
        m.step().0.acc == m.acc,
        m.step().0.state is Stopped,
{
}

/// An instruction whose address lies outside the 256 cells fails when it
/// is executed: the step reports the address, or for `LDX` the address past
/// the index register, stops the machine and leaves ACC and memory as they
/// were. The one exception is a conditional jump that is not taken, whose
/// address is not looked at.
pub proof fn address_outside_memory_fails(m: MachineState, opcode: Opcode, address: u16)
    requires
        m.valid(),
        !m.awaits_input(),
        m.memory[m.pc as int] == MemoryData::Instruction(opcode, Operand::Address(address)),
        address > 255,
        !(opcode is Jpe && !m.flags.zero),
        !(opcode is Jpn && m.flags.zero),
    ensures
        m.step().1.info == Some(
            ExecutionInfo::AddressNotInMemory {
                ins_address: m.pc,
                requested_address: if opcode is Ldx {
                    indexed(address, m.ix)
                } else {
                    address
                },
            },
        ),
        m.step().0.state is Stopped,
        m.step().0.acc == m.acc,
        m.step().0.memory == m.memory,
{
    assert(m.memory[m.pc as int].sound());
}

/// Only `STO` writes to memory: a step leaves every cell as it was, but for
/// a `STO` to an address in memory, which puts ACC into that one cell.
pub proof fn only_store_writes(m: MachineState)
    requires
        m.valid(),
    ensures
        m.step().0.memory == match m.memory[m.pc as int] {
            MemoryData::Instruction(Opcode::Sto, Operand::Address(a)) if a <= 255
                && !m.awaits_input() => m.memory.update(a as int, MemoryData::Value(m.acc)),
            _ => m.memory,
        },
{
}

/// A run that steps onto `IN` is suspended: the machine waits for input,
/// its program counter already behind the `IN`, and further steps change
/// nothing.
pub proof fn input_suspends(m: MachineState)
    requires
        m.valid(),
        m.state is Executing,
        m.pc < 255,
        m.memory[m.pc as int] == MemoryData::Instruction(Opcode::In, Operand::Empty),
    ensures
        m.step().0.state is ExecutingAwaitingInput,
        m.step().0.pc == m.pc + 1,
        m.step().1.info is None,
        m.step().0.step().0 == m.step().0,
{
}

/// A suspended run that is handed a character of the Basic Multilingual
/// Plane, and then steps onto `OUT`, writes that same character and runs on.
pub proof fn input_is_echoed(m: MachineState, c: char)
    requires
        m.valid(),
        m.state is ExecutingAwaitingInput,
        m.memory[m.pc as int] == MemoryData::Instruction(Opcode::Out, Operand::Empty),
        c as int <= 0xFFFF,
    ensures
        m.supply_input(c).state is Executing,
        m.supply_input(c).step().0.output == m.output.push(c),
        m.supply_input(c).step().0.state is Executing,
        m.supply_input(c).step().1.info is None,
{
}

/// What a step reports. It warns exactly when a machine that does not wait
/// has counted the step limit, and the warning is `TooManySteps` with that
/// count. A step that reports why it stopped leaves the machine stopped
/// with no steps counted, and that report is never the warning. A machine
/// that was not stopped and is stopped after the step has reported why. An
/// address reported as not in memory lies outside the 256 cells.
pub proof fn reports_are_faithful(m: MachineState)
    requires
        m.valid(),
    ensures
        m.step().1.warning is Some <==> !m.awaits_input() && m.steps >= STEP_LIMIT,
        m.step().1.warning is Some ==> m.step().1.warning == Some(
            ExecutionInfo::TooManySteps { steps: m.steps },
        ),
        m.step().1.info is Some ==> m.step().0.state is Stopped && m.step().0.steps == 0,
        !(m.step().1.info matches Some(ExecutionInfo::TooManySteps { .. })),
        !(m.state is Stopped) && m.step().0.state is Stopped ==> m.step().1.info is Some,
        m.step().1.info matches Some(ExecutionInfo::AddressNotInMemory { requested_address, .. })
            ==> requested_address > 255,
{
}

} // verus!
