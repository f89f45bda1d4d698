//! Two small programs, followed through the definitions: what they assemble
//! to and what the machine does with them.

use crate::assembler::{assembled, assembled_lines, statement, symbol_table};
use crate::isa::{AssemblerErrorView, ExecutionInfo, ExecutionState, Opcode, Operand};
use crate::loader::loaded;
use crate::semantics::MachineState;
use crate::syntax::{opcode_of, operand_of};
use crate::text::{
    code_part, comment_from, digits_value, is_space, line_end, lines, lines_from, number,
    word_end, words, words_from,
};
use vstd::prelude::*;

verus! {

/// The first letters of the mnemonics up to `END`.
proof fn first_letters()
    ensures
        "LDM"@[0] == 'L',
        "LDD"@[0] == 'L',
        "LDI"@[0] == 'L',
        "LDX"@[0] == 'L',
        "LDR"@[0] == 'L',
        "MOV"@[0] == 'M',
        "STO"@[0] == 'S',
        "ADD"@[0] == 'A',
        "SUB"@[0] == 'S',
        "INC"@[0] == 'I',
        "DEC"@[0] == 'D',
        "JMP"@[0] == 'J',
        "CMP"@[0] == 'C',
        "CMI"@[0] == 'C',
        "JPE"@[0] == 'J',
        "JPN"@[0] == 'J',
        "IN"@[0] == 'I',
        "OUT"@[0] == 'O',
        "END"@[0] == 'E',
{
    reveal_strlit("LDM");
    reveal_strlit("LDD");
    reveal_strlit("LDI");
    reveal_strlit("LDX");
    reveal_strlit("LDR");
    reveal_strlit("MOV");
    reveal_strlit("STO");
    reveal_strlit("ADD");
    reveal_strlit("SUB");
    reveal_strlit("INC");
    reveal_strlit("DEC");
    reveal_strlit("JMP");
    reveal_strlit("CMP");
    reveal_strlit("CMI");
    reveal_strlit("JPE");
    reveal_strlit("JPN");
    reveal_strlit("IN");
    reveal_strlit("OUT");
    reveal_strlit("END");
}

/// `LDM`, `OUT` and `END` read as their opcodes.
proof fn three_mnemonics()
    ensures
        opcode_of("LDM"@) == Some(Opcode::Ldm),
        opcode_of("OUT"@) == Some(Opcode::Out),
        opcode_of("END"@) == Some(Opcode::End),
{
    first_letters();
}

/// A line that is one word of three characters is a statement of that word.
proof fn one_word_line(line: Seq<char>)
    requires
        line.len() == 3,
        forall|i: int|
            0 <= i < 3 ==> !is_space(#[trigger] line[i]) && line[i] != '/' && line[i] != ':',
    ensures
        statement(line) == seq![line],
{
    reveal_with_fuel(comment_from, 5);
    reveal_with_fuel(word_end, 5);
    reveal_with_fuel(words_from, 5);
    assert(line.subrange(0, 3) =~= line);
}

/// The three lines of the program that writes `H`.
proof fn hello_lines()
    ensures
        lines("LDM #72\nOUT\nEND"@) == seq!["LDM #72"@, "OUT"@, "END"@],
{
    reveal_strlit("LDM #72\nOUT\nEND");
    reveal_strlit("LDM #72");
    reveal_strlit("OUT");
    reveal_strlit("END");
    let source = "LDM #72\nOUT\nEND"@;
    reveal_with_fuel(line_end, 9);
    reveal_with_fuel(lines_from, 4);
    assert(line_end(source, 0) == 7);
    assert(source.subrange(0, 7) =~= "LDM #72"@);
    assert(source.subrange(8, 11) =~= "OUT"@);
    assert(source.subrange(12, 15) =~= "END"@);
}

/// The two words of its first line.
proof fn hello_first_statement()
    ensures
        statement("LDM #72"@) == seq!["LDM"@, "#72"@],
{
    reveal_strlit("LDM #72");
    reveal_strlit("LDM");
    reveal_strlit("#72");
    let line = "LDM #72"@;
    reveal_with_fuel(comment_from, 9);
    reveal_with_fuel(word_end, 9);
    reveal_with_fuel(words_from, 9);
    assert(code_part(line) =~= line);
    assert(line.subrange(0, 3) =~= "LDM"@);
    assert(line.subrange(4, 7) =~= "#72"@);
}

/// `#72` reads as the immediate 72, whatever the labels.
proof fn hello_operand(symbols: Map<Seq<char>, usize>)
    ensures
        operand_of("#72"@, symbols) == Some(Operand::Immediate(72)),
{
    reveal_strlit("#72");
    reveal_strlit("72");
    reveal_strlit("IX");
    reveal_strlit("ACC");
    assert(number("72"@, 10) == Some(72u16)) by {
        reveal_with_fuel(digits_value, 4);
        assert("72"@.drop_last() =~= seq!['7']);
    }
    assert("#72"@.drop_first() =~= "72"@);
}

/// The program of three instructions that writes `H`.
pub open spec fn hello_program() -> Seq<(Opcode, Operand)> {
    seq![
        (Opcode::Ldm, Operand::Immediate(72)),
        (Opcode::Out, Operand::Empty),
        (Opcode::End, Operand::Empty),
    ]
}

/// The source `END` assembles to the one instruction `END`.
pub proof fn lone_end_assembles()
    ensures
        assembled("END"@) == Ok::<Seq<(Opcode, Operand)>, AssemblerErrorView>(
            seq![(Opcode::End, Operand::Empty)],
        ),
{
    reveal_strlit("END");
    three_mnemonics();
    one_word_line("END"@);
    let source = "END"@;
    assert(lines(source) =~= seq![source]) by {
        reveal_with_fuel(line_end, 5);
        reveal_with_fuel(lines_from, 2);
        assert(source.subrange(0, 3) =~= source);
    }
    reveal_with_fuel(assembled_lines, 3);
    assert(Seq::<(Opcode, Operand)>::empty().push((Opcode::End, Operand::Empty)) =~= seq![
        (Opcode::End, Operand::Empty),
    ]);
}

/// A new machine with the program `END` loaded at 0 terminates on its first
/// step, at address 0, and is otherwise as it was but for the registers of
/// the fetch.
pub proof fn lone_end_runs()
    ensures
        ({
            let start = MachineState {
                memory: loaded(
                    MachineState::initial().memory,
                    seq![(Opcode::End, Operand::Empty)],
                    0,
                ),
                ..MachineState::initial()
            };
            &&& start.valid()
            &&& start.step().1.info == Some(ExecutionInfo::ExecutionTerminated { ins_address: 0 })
            &&& start.step().1.warning is None
            &&& start.step().0.state is Stopped
            &&& start.step().0.acc == 0
            &&& start.step().0.ix == 0
            &&& start.step().0.flags == start.flags
            &&& start.step().0.memory == start.memory
        }),
{
}

/// The source `LDM #72`, `OUT`, `END`, one to a line, assembles to
/// [`hello_program`].
pub proof fn hello_assembles()
    ensures
        assembled("LDM #72\nOUT\nEND"@) == Ok::<Seq<(Opcode, Operand)>, AssemblerErrorView>(
            hello_program(),
        ),
{
    let source = "LDM #72\nOUT\nEND"@;
    hello_lines();
    three_mnemonics();
    hello_first_statement();
    reveal_strlit("OUT");
    reveal_strlit("END");
    one_word_line("OUT"@);
    one_word_line("END"@);
    let symbols = symbol_table(source);
    hello_operand(symbols);
    reveal_with_fuel(assembled_lines, 5);
    assert(Seq::<(Opcode, Operand)>::empty().push((Opcode::Ldm, Operand::Immediate(72))).push(
        (Opcode::Out, Operand::Empty),
    ).push((Opcode::End, Operand::Empty)) =~= hello_program());
}

/// A run of [`hello_program`], loaded at 0 into a new machine, writes `H`
/// in its second step and terminates in its third, at address 2.
pub proof fn hello_runs()
    ensures
        ({
            let start = MachineState {
                memory: loaded(MachineState::initial().memory, hello_program(), 0),
                state: ExecutionState::Executing,
                ..MachineState::initial()
            };
            let first = start.step();
            let second = first.0.step();
            let third = second.0.step();
            &&& start.valid()
            &&& first.1.info is None
            &&& first.0.acc == 72
            &&& second.1.info is None
            &&& second.0.output == seq!['H']
            &&& third.1.info == Some(ExecutionInfo::ExecutionTerminated { ins_address: 2 })
            &&& third.0.state is Stopped
            &&& third.0.output == seq!['H']
        }),
{
}

} // verus!
