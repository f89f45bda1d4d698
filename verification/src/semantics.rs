//! What one step of the machine does, as a function on machine states.
//!
//! The engine in [`crate::engine`] is proved to compute exactly these
//! functions. Addresses and the program counter are checked against the 256
//! cells of memory; everything else is 16-bit arithmetic.

use crate::isa::{ExecutionInfo, ExecutionState, MemoryData, Opcode, Operand, Register};
use vstd::prelude::*;

verus! {

/// The number of steps in one run after which each further step warns.
pub const STEP_LIMIT: u64 = 1000;

/// The four condition flags.
#[derive(Clone, Copy, Debug, PartialEq, Eq, Structural)]
pub struct Flags {
    pub carry: bool,
    pub zero: bool,
    pub overflow: bool,
    pub sign: bool,
}

/// What one step reports: at most one advisory warning, and at most one
/// report of why the machine stopped.
#[derive(Clone, Copy, Debug, PartialEq, Eq)]
pub struct StepReport {
    pub warning: Option<ExecutionInfo>,
    pub info: Option<ExecutionInfo>,
}

/// The whole state of the machine.
pub struct MachineState {
    pub memory: Seq<MemoryData>,
    pub pc: u16,
    pub cir: (Opcode, Operand),
    pub ix: u16,
    pub mdr: MemoryData,
    pub mar: u16,
    pub acc: u16,
    pub flags: Flags,
    pub output: Seq<char>,
    pub state: ExecutionState,
    pub steps: u64,
}

/// What reading memory gives: the state with MAR and MDR updated, and the
/// word read or the reason why there is none.
pub type Access = (MachineState, Result<u16, ExecutionInfo>);

/// The state after an instruction, and the report if it stopped the machine.
pub type Effect = (MachineState, Option<ExecutionInfo>);

/// `n` reduced to 16 bits.
pub open spec fn wrap16(n: int) -> u16 {
    (n % 0x1_0000) as u16
}

/// `n`, or the largest 16-bit number if `n` is larger.
pub open spec fn clamp16(n: int) -> u16 {
    if n > 0xFFFF {
        0xFFFFu16
    } else {
        n as u16
    }
}

/// Bit 15 of `v`.
pub open spec fn sign_bit(v: u16) -> bool {
    v >= 0x8000
}

/// The 16-bit sum of `a` and `b`, and whether it wrapped.
pub open spec fn sum16(a: u16, b: u16) -> (u16, bool) {
    (wrap16(a + b), a + b > 0xFFFF)
}

/// The 16-bit difference of `a` and `b`, and whether it borrowed.
pub open spec fn difference16(a: u16, b: u16) -> (u16, bool) {
    (wrap16(a - b), a < b)
}

/// `a` shifted left by `by` modulo 16 places.
pub open spec fn shift_left(a: u16, by: u16) -> u16 {
    a << (by % 16)
}

/// `a` shifted right by `by` modulo 16 places.
pub open spec fn shift_right(a: u16, by: u16) -> u16 {
    a >> (by % 16)
}

/// The flags after an addition, a subtraction or a comparison.
pub open spec fn arithmetic_flags(outcome: (u16, bool)) -> Flags {
    Flags {
        carry: outcome.1,
        zero: outcome.0 == 0,
        overflow: outcome.1,
        sign: sign_bit(outcome.0),
    }
}

/// The flags after `INC` or `DEC`: carry is kept.
pub open spec fn counting_flags(before: Flags, outcome: (u16, bool)) -> Flags {
    Flags {
        carry: before.carry,
        zero: outcome.0 == 0,
        overflow: outcome.1,
        sign: sign_bit(outcome.0),
    }
}

/// The flags after a bitwise operation or a shift: carry and overflow are
/// kept.
pub open spec fn logic_flags(before: Flags, result: u16) -> Flags {
    Flags {
        carry: before.carry,
        zero: result == 0,
        overflow: before.overflow,
        sign: sign_bit(result),
    }
}

/// The character that `OUT` writes for the word `code`: the character with
/// that code point, or U+FFFD where `code` is a surrogate.
pub open spec fn output_char(code: u16) -> char {
    if 0xD800 <= code <= 0xDFFF {
        '\u{FFFD}'
    } else {
        code as char
    }
}

/// The word that `IN` stores for `c`: its code point, reduced to 16 bits.
pub open spec fn input_word(c: char) -> u16 {
    wrap16(c as int)
}

/// The address after `pc`. It wraps from the last cell to the first.
pub open spec fn next_pc(pc: u16) -> u16 {
    if pc >= 255 {
        0u16
    } else {
        (pc + 1) as u16
    }
}

/// The address that `LDX` reads: base plus index, clamped to 16 bits.
pub open spec fn indexed(base: u16, index: u16) -> u16 {
    clamp16(base + index)
}

/// The step counter after one more step.
pub open spec fn one_more(steps: u64) -> u64 {
    if steps < u64::MAX {
        (steps + 1) as u64
    } else {
        steps
    }
}

impl StepReport {
    /// The report of a step in which nothing happened.
    pub open spec fn silent() -> StepReport {
        StepReport { warning: None, info: None }
    }
}

impl MachineState {
    /// The state of a machine that was just made or reset.
    pub open spec fn initial() -> MachineState {
        MachineState {
            memory: Seq::new(256, |i: int| MemoryData::Value(0)),
            pc: 0,
            cir: (Opcode::End, Operand::Empty),
            ix: 0,
            mdr: MemoryData::Value(0),
            mar: 0,
            acc: 0,
            flags: Flags { carry: false, zero: false, overflow: false, sign: false },
            output: Seq::empty(),
            state: ExecutionState::Stopped,
            steps: 0,
        }
    }

    /// The invariant of the machine: 256 cells, each a word or an
    /// instruction that can run; a program counter inside memory; and no
    /// steps counted while stopped.
    pub open spec fn valid(self) -> bool {
        &&& self.memory.len() == 256
        &&& self.pc <= 255
        &&& forall|i: int| 0 <= i < 256 ==> (#[trigger] self.memory[i]).sound()
        &&& (self.state is Stopped ==> self.steps == 0)
    }

    /// Whether the machine waits for a character.
    pub open spec fn awaits_input(self) -> bool {
        self.state is ExecutingAwaitingInput || self.state is SteppingAwaitingInput
    }

    /// The machine stopped, its step counter cleared.
    pub open spec fn halted(self) -> MachineState {
        MachineState { state: ExecutionState::Stopped, steps: 0, ..self }
    }

    /// Stops the machine and reports `info`.
    pub open spec fn fail(self, info: ExecutionInfo) -> Effect {
        (self.halted(), Some(info))
    }

    /// Reads the word at `address` for the instruction at `at`. MAR takes
    /// the address; MDR takes the cell if the address is in memory. An
    /// address outside memory and a cell that holds an instruction are
    /// faults.
    pub open spec fn read(self, at: u16, address: u16) -> Access {
        let aimed = MachineState { mar: address, ..self };
        if address > 255 {
            (
                aimed,
                Err(
                    ExecutionInfo::AddressNotInMemory {
                        ins_address: at,
                        requested_address: address,
                    },
                ),
            )
        } else {
            let cell = self.memory[address as int];
            let seen = MachineState { mdr: cell, ..aimed };
            match cell {
                MemoryData::Value(v) => (seen, Ok(v)),
                MemoryData::Instruction(_, _) => (
                    seen,
                    Err(ExecutionInfo::InvalidLoad { ins_address: at, requested_address: address }),
                ),
            }
        }
    }

    /// Reads the word at `address` and then the word that it points to.
    pub open spec fn read_indirect(self, at: u16, address: u16) -> Access {
        let first = self.read(at, address);
        match first.1 {
            Ok(pointer) => first.0.read(at, pointer),
            Err(_) => first,
        }
    }

    /// The word that `opcode` works on, for the opcodes that take one:
    /// an immediate as it stands, an address read from memory (through a
    /// pointer for `LDI` and `CMI`, past the index register for `LDX`).
    pub open spec fn operand_word(self, at: u16, opcode: Opcode, operand: Operand) -> Access {
        match operand {
            Operand::Immediate(v) => (self, Ok(v)),
            Operand::Address(a) => match opcode {
                Opcode::Ldi | Opcode::Cmi => self.read_indirect(at, a),
                Opcode::Ldx => self.read(at, indexed(a, self.ix)),
                _ => self.read(at, a),
            },
            _ => (self, Ok(0u16)),
        }
    }

    /// What `opcode` does with the word `v` that its operand gave.
    pub open spec fn compute(self, opcode: Opcode, v: u16) -> MachineState {
        match opcode {
            Opcode::Ldm | Opcode::Ldd | Opcode::Ldi | Opcode::Ldx => MachineState {
                acc: v,
                ..self
            },
            Opcode::Ldr => MachineState { ix: v, ..self },
            Opcode::Add => MachineState {
                acc: sum16(self.acc, v).0,
                flags: arithmetic_flags(sum16(self.acc, v)),
                ..self
            },
            Opcode::Sub => MachineState {
                acc: difference16(self.acc, v).0,
                flags: arithmetic_flags(difference16(self.acc, v)),
                ..self
            },
            Opcode::Cmp | Opcode::Cmi => MachineState {
                flags: arithmetic_flags(difference16(self.acc, v)),
                ..self
            },
            Opcode::And => self.with_logic(self.acc & v),
            Opcode::Xor => self.with_logic(self.acc ^ v),
            Opcode::Or => self.with_logic(self.acc | v),
            Opcode::Lsl => self.with_logic(shift_left(self.acc, v)),
            Opcode::Lsr => self.with_logic(shift_right(self.acc, v)),
            _ => self,
        }
    }

    /// ACC set to the result of a bitwise operation or a shift.
    pub open spec fn with_logic(self, result: u16) -> MachineState {
        MachineState { acc: result, flags: logic_flags(self.flags, result), ..self }
    }

    /// `INC` and `DEC`: the register moved by one, wrapping.
    pub open spec fn count(self, register: Register, up: bool) -> MachineState {
        let before = match register {
            Register::Ix => self.ix,
            Register::Acc => self.acc,
        };
        let outcome = if up {
            sum16(before, 1)
        } else {
            difference16(before, 1)
        };
        let flags = counting_flags(self.flags, outcome);
        match register {
            Register::Ix => MachineState { ix: outcome.0, flags, ..self },
            Register::Acc => MachineState { acc: outcome.0, flags, ..self },
        }
    }

    /// `STO`: ACC written to the cell at `address`, whatever it held.
    pub open spec fn store(self, at: u16, address: u16) -> Effect {
        let word = MemoryData::Value(self.acc);
        let aimed = MachineState { mar: address, mdr: word, ..self };
        if address > 255 {
            aimed.fail(
                ExecutionInfo::AddressNotInMemory { ins_address: at, requested_address: address },
            )
        } else {
            (MachineState { memory: self.memory.update(address as int, word), ..aimed }, None)
        }
    }

    /// A jump to `address`.
    pub open spec fn jump(self, at: u16, address: u16) -> Effect {
        if address > 255 {
            self.fail(
                ExecutionInfo::AddressNotInMemory { ins_address: at, requested_address: address },
            )
        } else {
            (MachineState { pc: address, ..self }, None)
        }
    }

    /// What the instruction `(opcode, operand)`, fetched from `at`, does to
    /// a machine whose program counter has already moved on.
    pub open spec fn execute(self, at: u16, opcode: Opcode, operand: Operand) -> Effect {
        match opcode {
            Opcode::Ldm
            | Opcode::Ldd
            | Opcode::Ldi
            | Opcode::Ldx
            | Opcode::Ldr
            | Opcode::Add
            | Opcode::Sub
            | Opcode::Cmp
            | Opcode::Cmi
            | Opcode::And
            | Opcode::Xor
            | Opcode::Or
            | Opcode::Lsl
            | Opcode::Lsr => {
                let access = self.operand_word(at, opcode, operand);
                match access.1 {
                    Ok(v) => (access.0.compute(opcode, v), None),
                    Err(info) => access.0.fail(info),
                }
            },
            Opcode::Mov => match operand {
                Operand::Register(Register::Ix) => (MachineState { ix: self.acc, ..self }, None),
                _ => (self, None),
            },
            Opcode::Sto => match operand {
                Operand::Address(a) => self.store(at, a),
                _ => (self, None),
            },
            Opcode::Inc => match operand {
                Operand::Register(r) => (self.count(r, true), None),
                _ => (self, None),
            },
            Opcode::Dec => match operand {
                Operand::Register(r) => (self.count(r, false), None),
                _ => (self, None),
            },
            Opcode::Jmp => match operand {
                Operand::Address(a) => self.jump(at, a),
                _ => (self, None),
            },
            Opcode::Jpe => match operand {
                Operand::Address(a) if self.flags.zero => self.jump(at, a),
                _ => (self, None),
            },
            Opcode::Jpn => match operand {
                Operand::Address(a) if !self.flags.zero => self.jump(at, a),
                _ => (self, None),
            },
            Opcode::In => (
                MachineState {
                    state: if self.state is Executing {
                        ExecutionState::ExecutingAwaitingInput
                    } else {
                        ExecutionState::SteppingAwaitingInput
                    },
                    ..self
                },
                None,
            ),
            Opcode::Out => (
                MachineState { output: self.output.push(output_char(self.acc)), ..self },
                None,
            ),
            Opcode::End => self.fail(ExecutionInfo::ExecutionTerminated { ins_address: at }),
            Opcode::Data(_) => (self, None),
        }
    }

    /// The step counter after a step that began in state `before`: cleared
    /// if the machine stopped, one more if the step was part of a run.
    pub open spec fn counted(self, before: ExecutionState) -> MachineState {
        if self.state is Stopped {
            MachineState { steps: 0, ..self }
        } else if before is Executing {
            MachineState { steps: one_more(self.steps), ..self }
        } else {
            self
        }
    }

    /// One step. A machine that waits for input does nothing. Any other
    /// warns if the run has reached the step limit, fetches the cell at the
    /// program counter, stops on a word, and otherwise executes the
    /// instruction.
    pub open spec fn step(self) -> (MachineState, StepReport) {
        if self.awaits_input() {
            (self, StepReport::silent())
        } else {
            let warning = if self.steps >= STEP_LIMIT {
                Some(ExecutionInfo::TooManySteps { steps: self.steps })
            } else {
                None
            };
            let cell = self.memory[self.pc as int];
            let fetched = MachineState { mar: self.pc, mdr: cell, ..self };
            match cell {
                MemoryData::Value(v) => {
                    let info = if v == 0 {
                        ExecutionInfo::ExecutionTerminated { ins_address: self.pc }
                    } else {
                        ExecutionInfo::ExecutionAbortedValueMet { ins_address: self.pc, value: v }
                    };
                    (fetched.halted(), StepReport { warning, info: Some(info) })
                },
                MemoryData::Instruction(opcode, operand) => {
                    let decoded = MachineState {
                        cir: (opcode, operand),
                        pc: next_pc(self.pc),
                        ..fetched
                    };
                    let effect = decoded.execute(self.pc, opcode, operand);
                    (effect.0.counted(self.state), StepReport { warning, info: effect.1 })
                },
            }
        }
    }

    /// A step of a valid machine gives a valid machine: the program counter
    /// stays inside memory, no cell comes to hold an instruction that cannot
    /// run, and a stopped machine has counted no steps.
    pub proof fn step_keeps_valid(self)
        requires
            self.valid(),
        ensures
            self.step().0.valid(),
    {
    }

    /// The machine after the host supplied the character `c`: while it
    /// waits, ACC takes the character's word and the run goes on, or, if
    /// the machine was stepped by hand, stops. A machine that does not wait
    /// is unchanged.
    pub open spec fn supply_input(self, c: char) -> MachineState {
        match self.state {
            ExecutionState::ExecutingAwaitingInput => MachineState {
                acc: input_word(c),
                state: ExecutionState::Executing,
                ..self
            },
            ExecutionState::SteppingAwaitingInput => MachineState {
                acc: input_word(c),
                ..self
            }.halted(),
            _ => self,
        }
    }

    /// The machine after the host's command to run or to stop. Stopping
    /// works in every state; running starts from a stopped machine only.
    /// No other target is a command.
    pub open spec fn set_run_state(self, target: ExecutionState) -> MachineState {
        match target {
            ExecutionState::Stopped => self.halted(),
            ExecutionState::Executing if self.state is Stopped => MachineState {
                state: ExecutionState::Executing,
                ..self
            },
            _ => self,
        }
    }
}

} // verus!
