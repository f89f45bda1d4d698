//! The execution engine: registers, flags, memory and console output, and
//! the single step that drives them.

use crate::isa::{
    AssemblerError, AssemblerErrorView, ExecutionInfo, ExecutionState, MemoryData, Opcode,
    Operand, Register,
};
use crate::loader::{loadable, loaded, relocate, relocated};
use crate::semantics::{
    arithmetic_flags, difference16, input_word, output_char, sum16, Flags, MachineState,
    StepReport, STEP_LIMIT,
};
use vstd::pervasive::unreached;
use vstd::prelude::*;

verus! {

/// The machine. Its fields are reached through methods, which keep it
/// [well-formed](Emulator::wf).
pub struct Emulator {
    pub(crate) memory: [MemoryData; 256],
    pub(crate) pc: u16,
    pub(crate) cir: (Opcode, Operand),
    pub(crate) ix: u16,
    pub(crate) mdr: MemoryData,
    pub(crate) mar: u16,
    pub(crate) acc: u16,
    pub(crate) flags: Flags,
    pub(crate) output: String,
    pub(crate) state: ExecutionState,
    pub(crate) steps: u64,
}

impl View for Emulator {
    type V = MachineState;

    closed spec fn view(&self) -> MachineState {
        MachineState {
            memory: self.memory@,
            pc: self.pc,
            cir: self.cir,
            ix: self.ix,
            mdr: self.mdr,
            mar: self.mar,
            acc: self.acc,
            flags: self.flags,
            output: self.output@,
            state: self.state,
            steps: self.steps,
        }
    }
}

/// The whole state of a machine as plain values, for the host to store and
/// to bring back: see [`Emulator::snapshot`] and [`Emulator::restore`].
#[derive(Debug)]
pub struct Snapshot {
    pub memory: [MemoryData; 256],
    pub pc: u16,
    pub cir: (Opcode, Operand),
    pub ix: u16,
    pub mdr: MemoryData,
    pub mar: u16,
    pub acc: u16,
    pub flags: Flags,
    pub output: String,
    pub execution_state: ExecutionState,
    pub ins_executed: u64,
}

impl View for Snapshot {
    type V = MachineState;

    open spec fn view(&self) -> MachineState {
        MachineState {
            memory: self.memory@,
            pc: self.pc,
            cir: self.cir,
            ix: self.ix,
            mdr: self.mdr,
            mar: self.mar,
            acc: self.acc,
            flags: self.flags,
            output: self.output@,
            state: self.execution_state,
            steps: self.ins_executed,
        }
    }
}

/// Whether a run at `clock_speed` steps a second is due for its next step
/// when `elapsed_ms` milliseconds have passed since the last one. At speed
/// 0 a step is always due.
pub open spec fn step_due(clock_speed: u16, elapsed_ms: i64) -> bool {
    clock_speed == 0 || elapsed_ms * clock_speed >= 1000
}

/// Executable form of [`step_due`].
pub fn is_step_due(clock_speed: u16, elapsed_ms: i64) -> (due: bool)
    ensures
        due == step_due(clock_speed, elapsed_ms),
{
    if clock_speed == 0 {
        return true;
    }
    if elapsed_ms <= 0 {
        assert(elapsed_ms * clock_speed <= 0) by (nonlinear_arith)
            requires
                elapsed_ms <= 0,
                clock_speed > 0,
        ;
        return false;
    }
    if elapsed_ms >= 1000 {
        assert(elapsed_ms * clock_speed >= 1000) by (nonlinear_arith)
            requires
                elapsed_ms >= 1000,
                clock_speed >= 1,
        ;
        return true;
    }
    assert(0 < elapsed_ms * clock_speed < 1000 * 65536) by (nonlinear_arith)
        requires
            0 < elapsed_ms < 1000,
            0 < clock_speed < 65536,
    ;
    elapsed_ms * (clock_speed as i64) >= 1000
}

/// `char::from_u32` of std: the character whose code point is `code`, and
/// `None` where `code` is a surrogate or lies above U+10FFFF.
#[verifier::external_body]
fn char_of(code: u32) -> (r: Option<char>)
    ensures
        r == if code <= 0xD7FF || (0xE000 <= code && code <= 0x10_FFFF) {
            Some(code as char)
        } else {
            None::<char>
        },
{
    char::from_u32(code)
}

/// `String::push` of std: `c` appended to `text`.
#[verifier::external_body]
fn push_char(text: &mut String, c: char)
    ensures
        final(text)@ == old(text)@.push(c),
{
    text.push(c)
}

/// The 16-bit sum of `a` and `b`, and whether it wrapped.
fn add_words(a: u16, b: u16) -> (r: (u16, bool))
    ensures
        r == sum16(a, b),
{
    (a.wrapping_add(b), a > u16::MAX - b)
}

/// The 16-bit difference of `a` and `b`, and whether it borrowed.
fn subtract_words(a: u16, b: u16) -> (r: (u16, bool))
    ensures
        r == difference16(a, b),
{
    (a.wrapping_sub(b), a < b)
}

/// The flags after an addition, a subtraction or a comparison.
fn flags_of(outcome: (u16, bool)) -> (r: Flags)
    ensures
        r == arithmetic_flags(outcome),
{
    Flags {
        carry: outcome.1,
        zero: outcome.0 == 0,
        overflow: outcome.1,
        sign: outcome.0 >= 0x8000,
    }
}

impl Emulator {
    /// Whether the machine is well-formed: see [`MachineState::valid`].
    pub open spec fn wf(&self) -> bool {
        self@.valid()
    }

    /// A stopped machine with all registers, flags and cells zero and no
    /// output.
    pub fn new() -> (e: Emulator)
        ensures
            e.wf(),
            e@ == MachineState::initial(),
    {
        let e = Emulator {
            memory: [MemoryData::Value(0);256],
            pc: 0,
            cir: (Opcode::End, Operand::Empty),
            ix: 0,
            mdr: MemoryData::Value(0),
            mar: 0,
            acc: 0,
            flags: Flags { carry: false, zero: false, overflow: false, sign: false },
            output: String::new(),
            state: ExecutionState::Stopped,
            steps: 0,
        };
        assert(e@.memory =~= MachineState::initial().memory);
        e
    }

    /// Stops the machine and clears its step counter.
    fn halt(&mut self)
        ensures
            final(self)@ == old(self)@.halted(),
    {
        self.state = ExecutionState::Stopped;
        self.steps = 0;
    }

    /// See [`MachineState::read`].
    fn read(&mut self, at: u16, address: u16) -> (r: Result<u16, ExecutionInfo>)
        ensures
            (final(self)@, r) == old(self)@.read(at, address),
    {
        self.mar = address;
        if address > 255 {
            return Err(
                ExecutionInfo::AddressNotInMemory { ins_address: at, requested_address: address },
            );
        }
        let cell = self.memory[address as usize];
        self.mdr = cell;
        match cell {
            MemoryData::Value(v) => Ok(v),
            MemoryData::Instruction(_, _) => Err(
                ExecutionInfo::InvalidLoad { ins_address: at, requested_address: address },
            ),
        }
    }

    /// See [`MachineState::read_indirect`].
    fn read_indirect(&mut self, at: u16, address: u16) -> (r: Result<u16, ExecutionInfo>)
        ensures
            (final(self)@, r) == old(self)@.read_indirect(at, address),
    {
        match self.read(at, address) {
            Ok(pointer) => self.read(at, pointer),
            Err(info) => Err(info),
        }
    }

    /// See [`MachineState::operand_word`].
    fn operand_word(&mut self, at: u16, opcode: Opcode, operand: Operand) -> (r: Result<
        u16,
        ExecutionInfo,
    >)
        requires
            operand is Immediate || operand is Address,
        ensures
            (final(self)@, r) == old(self)@.operand_word(at, opcode, operand),
    {
        match operand {
            Operand::Immediate(v) => Ok(v),
            Operand::Address(a) => match opcode {
                Opcode::Ldi | Opcode::Cmi => self.read_indirect(at, a),
                Opcode::Ldx => {
                    let address: u16 = a.saturating_add(self.ix);
                    self.read(at, address)
                },
                _ => self.read(at, a),
            },
            _ => unreached(),
        }
    }

    /// ACC and the flags after a bitwise operation or a shift.
    fn set_logic(&mut self, result: u16)
        ensures
            final(self)@ == old(self)@.with_logic(result),
    {
        self.acc = result;
        self.flags.zero = result == 0;
        self.flags.sign = result >= 0x8000;
    }

    /// See [`MachineState::compute`].
    fn compute(&mut self, opcode: Opcode, v: u16)
        ensures
            final(self)@ == old(self)@.compute(opcode, v),
    {
        match opcode {
            Opcode::Ldm | Opcode::Ldd | Opcode::Ldi | Opcode::Ldx => {
                self.acc = v;
            },
            Opcode::Ldr => {
                self.ix = v;
            },
            Opcode::Add => {
                let outcome = add_words(self.acc, v);
                self.acc = outcome.0;
                self.flags = flags_of(outcome);
            },
            Opcode::Sub => {
                let outcome = subtract_words(self.acc, v);
                self.acc = outcome.0;
                self.flags = flags_of(outcome);
            },
            Opcode::Cmp | Opcode::Cmi => {
                self.flags = flags_of(subtract_words(self.acc, v));
            },
            Opcode::And => self.set_logic(self.acc & v),
            Opcode::Xor => self.set_logic(self.acc ^ v),
            Opcode::Or => self.set_logic(self.acc | v),
            Opcode::Lsl => self.set_logic(self.acc << (v % 16)),
            Opcode::Lsr => self.set_logic(self.acc >> (v % 16)),
            _ => {},
        }
    }

    /// See [`MachineState::count`].
    fn count(&mut self, register: Register, up: bool)
        ensures
            final(self)@ == old(self)@.count(register, up),
    {
        let before = match register {
            Register::Ix => self.ix,
            Register::Acc => self.acc,
        };
        let outcome = if up {
            add_words(before, 1)
        } else {
            subtract_words(before, 1)
        };
        self.flags.zero = outcome.0 == 0;
        self.flags.overflow = outcome.1;
        self.flags.sign = outcome.0 >= 0x8000;
        match register {
            Register::Ix => {
                self.ix = outcome.0;
            },
            Register::Acc => {
                self.acc = outcome.0;
            },
        }
    }

    /// See [`MachineState::store`].
    fn store(&mut self, at: u16, address: u16) -> (r: Option<ExecutionInfo>)
        ensures
            (final(self)@, r) == old(self)@.store(at, address),
    {
        let word = MemoryData::Value(self.acc);
        self.mar = address;
        self.mdr = word;
        if address > 255 {
            self.halt();
            return Some(
                ExecutionInfo::AddressNotInMemory { ins_address: at, requested_address: address },
            );
        }
        self.memory[address as usize] = word;
        None
    }

    /// See [`MachineState::jump`].
    fn jump(&mut self, at: u16, address: u16) -> (r: Option<ExecutionInfo>)
        ensures
            (final(self)@, r) == old(self)@.jump(at, address),
    {
        if address > 255 {
            self.halt();
            return Some(
                ExecutionInfo::AddressNotInMemory { ins_address: at, requested_address: address },
            );
        }
        self.pc = address;
        None
    }

    /// `OUT`: the character of ACC appended to the output.
    fn write_out(&mut self)
        ensures
            final(self)@ == (MachineState {
                output: old(self)@.output.push(output_char(old(self)@.acc)),
                ..old(self)@
            }),
    {
        let c = match char_of(self.acc as u32) {
            Some(c) => c,
            None => '\u{FFFD}',
        };
        push_char(&mut self.output, c);
    }

    /// Executes the instruction `(opcode, operand)` that was fetched from
    /// `at`. The operand is of a kind that the opcode runs with: the cells
    /// of a well-formed machine hold no other instruction.
    fn execute(&mut self, at: u16, opcode: Opcode, operand: Operand) -> (r: Option<
        ExecutionInfo,
    >)
        requires
            opcode.runs_with(operand),
        ensures
            (final(self)@, r) == old(self)@.execute(at, opcode, operand),
    {
        match opcode {
            Opcode::Ldm
            | Opcode::Ldd
            | Opcode::Ldi
            | Opcode::Ldx
            | Opcode::Ldr
            | Opcode::Add
            | Opcode::Sub
            | Opcode::Cmp
            | Opcode::Cmi
            | Opcode::And
            | Opcode::Xor
            | Opcode::Or
            | Opcode::Lsl
            | Opcode::Lsr => match self.operand_word(at, opcode, operand) {
                Ok(v) => {
                    self.compute(opcode, v);
                    None
                },
                Err(info) => {
                    self.halt();
                    Some(info)
                },
            },
            Opcode::Mov => match operand {
                Operand::Register(Register::Ix) => {
                    self.ix = self.acc;
                    None
                },
                Operand::Register(Register::Acc) => None,
                _ => unreached(),
            },
            Opcode::Sto => match operand {
                Operand::Address(a) => self.store(at, a),
                _ => unreached(),
            },
            Opcode::Inc => match operand {
                Operand::Register(r) => {
                    self.count(r, true);
                    None
                },
                _ => unreached(),
            },
            Opcode::Dec => match operand {
                Operand::Register(r) => {
                    self.count(r, false);
                    None
                },
                _ => unreached(),
            },
            Opcode::Jmp => match operand {
                Operand::Address(a) => self.jump(at, a),
                _ => unreached(),
            },
            Opcode::Jpe => match operand {
                Operand::Address(a) => if self.flags.zero {
                    self.jump(at, a)
                } else {
                    None
                },
                _ => unreached(),
            },
            Opcode::Jpn => match operand {
                Operand::Address(a) => if !self.flags.zero {
                    self.jump(at, a)
                } else {
                    None
                },
                _ => unreached(),
            },
            Opcode::In => {
                self.state = match self.state {
                    ExecutionState::Executing => ExecutionState::ExecutingAwaitingInput,
                    _ => ExecutionState::SteppingAwaitingInput,
                };
                None
            },
            Opcode::Out => {
                self.write_out();
                None
            },
            Opcode::End => {
                self.halt();
                Some(ExecutionInfo::ExecutionTerminated { ins_address: at })
            },
            Opcode::Data(_) => unreached(),
        }
    }

    /// Executes one step: one fetch, decode and execute, unless the machine
    /// waits for input, in which case nothing happens. The report holds the
    /// warning of a run that has reached the step limit, and the reason if
    /// the step stopped the machine.
    pub fn step(&mut self) -> (report: StepReport)
        requires
            old(self).wf(),
        ensures
            final(self).wf(),
            (final(self)@, report) == old(self)@.step(),
    {
        let before = self.state;
        match before {
            ExecutionState::ExecutingAwaitingInput | ExecutionState::SteppingAwaitingInput => {
                return StepReport { warning: None, info: None };
            },
            _ => {},
        }
        proof {
            old(self)@.step_keeps_valid();
        }
        let warning = if self.steps >= STEP_LIMIT {
            Some(ExecutionInfo::TooManySteps { steps: self.steps })
        } else {
            None
        };
        let at: u16 = self.pc;
        let cell = self.memory[at as usize];
        self.mar = at;
        self.mdr = cell;
        match cell {
            MemoryData::Value(v) => {
                self.halt();
                let info = if v == 0 {
                    ExecutionInfo::ExecutionTerminated { ins_address: at }
                } else {
                    ExecutionInfo::ExecutionAbortedValueMet { ins_address: at, value: v }
                };
                StepReport { warning, info: Some(info) }
            },
            MemoryData::Instruction(opcode, operand) => {
                self.cir = (opcode, operand);
                self.pc = if at >= 255 {
                    0
                } else {
                    at + 1
                };
                let info = self.execute(at, opcode, operand);
                match self.state {
                    ExecutionState::Stopped => {
                        self.steps = 0;
                    },
                    _ => match before {
                        ExecutionState::Executing => if self.steps < u64::MAX {
                            self.steps = self.steps + 1;
                        },
                        _ => {},
                    },
                }
                StepReport { warning, info }
            },
        }
    }

    /// Hands the machine the character that it waits for. While it waits,
    /// ACC takes the character's code point, reduced to 16 bits; a run then
    /// goes on, and a machine that was stepped by hand stops. A machine
    /// that does not wait takes no input: it is unchanged and the result is
    /// `false`.
    pub fn supply_input(&mut self, c: char) -> (accepted: bool)
        requires
            old(self).wf(),
        ensures
            final(self).wf(),
            final(self)@ == old(self)@.supply_input(c),
            accepted == old(self)@.awaits_input(),
    {
        match self.state {
            ExecutionState::ExecutingAwaitingInput => {
                self.acc = word_of(c);
                self.state = ExecutionState::Executing;
                true
            },
            ExecutionState::SteppingAwaitingInput => {
                self.acc = word_of(c);
                self.halt();
                true
            },
            _ => false,
        }
    }

    /// The host's command to run or to stop. `Stopped` stops the machine in
    /// whatever state it is; `Executing` starts a run if the machine is
    /// stopped. The result says whether the machine is in the state asked
    /// for by a command that applied; for the two waiting states, which are
    /// no commands, it is `false`.
    pub fn set_run_state(&mut self, target: ExecutionState) -> (applied: bool)
        requires
            old(self).wf(),
        ensures
            final(self).wf(),
            final(self)@ == old(self)@.set_run_state(target),
            applied == (target is Stopped || (target is Executing && old(self)@.state is Stopped)),
    {
        match target {
            ExecutionState::Stopped => {
                self.halt();
                true
            },
            ExecutionState::Executing => match self.state {
                ExecutionState::Stopped => {
                    self.state = ExecutionState::Executing;
                    true
                },
                _ => false,
            },
            _ => false,
        }
    }

    /// Clears registers, flags, memory and output, and stops the machine.
    pub fn reset(&mut self)
        ensures
            final(self).wf(),
            final(self)@ == MachineState::initial(),
    {
        *self = Emulator::new();
    }

    /// Loads `program` at `base`. A program longer than the memory from
    /// `base` on is refused with `ProgramTooLong`, and the machine is left
    /// as it was. Otherwise instruction `i` goes to cell `base + i`, with
    /// its address moved by `base`; a literal word goes there as a plain
    /// word; the cells outside the program, the registers and the flags stay
    /// as they were.
    pub fn load_program(&mut self, program: &[(Opcode, Operand)], base: u8) -> (r: Result<
        (),
        AssemblerError,
    >)
        requires
            old(self).wf(),
            loadable(program@, base),
        ensures
            final(self).wf(),
            match r {
                Ok(_) => {
                    &&& program@.len() <= 256 - base
                    &&& final(self)@ == (MachineState {
                        memory: loaded(old(self)@.memory, program@, base),
                        ..old(self)@
                    })
                },
                Err(e) => {
                    &&& program@.len() > 256 - base
                    &&& e@ == (AssemblerErrorView::ProgramTooLong {
                        program_size: program@.len() as usize,
                        memory_available: (256 - base) as usize,
                    })
                    &&& final(self)@ == old(self)@
                },
            },
    {
        let available: usize = 256 - base as usize;
        if program.len() > available {
            return Err(
                AssemblerError::ProgramTooLong {
                    program_size: program.len(),
                    memory_available: available,
                },
            );
        }
        let mut i: usize = 0;
        while i < program.len()
            invariant
                i <= program.len() <= 256 - base,
                loadable(program@, base),
                forall|j: int| 0 <= j < 256 ==> (#[trigger] self.memory@[j]).sound(),
                forall|j: int|
                    0 <= j < 256 ==> self.memory@[j] == if base <= j < base + i {
                        relocated(program@[j - base], base)
                    } else {
                        old(self).memory@[j]
                    },
                self.pc == old(self).pc,
                self.cir == old(self).cir,
                self.ix == old(self).ix,
                self.mdr == old(self).mdr,
                self.mar == old(self).mar,
                self.acc == old(self).acc,
                self.flags == old(self).flags,
                self.output == old(self).output,
                self.state == old(self).state,
                self.steps == old(self).steps,
            decreases program.len() - i,
        {
            let cell = relocate(&program[i], base);
            self.memory[base as usize + i] = cell;
            i = i + 1;
        }
        assert(self@.memory =~= loaded(old(self)@.memory, program@, base));
        Ok(())
    }

    /// One turn of the host's loop: a running machine that is due for a step
    /// at `clock_speed` steps a second, `elapsed_ms` milliseconds after its
    /// last one, executes that step. The result is the step's report, and
    /// `None` where no step was executed.
    pub fn tick(&mut self, clock_speed: u16, elapsed_ms: i64) -> (r: Option<StepReport>)
        requires
            old(self).wf(),
        ensures
            final(self).wf(),
            if old(self)@.state is Executing && step_due(clock_speed, elapsed_ms) {
                r == Some(old(self)@.step().1) && final(self)@ == old(self)@.step().0
            } else {
                r is None && final(self)@ == old(self)@
            },
    {
        match self.state {
            ExecutionState::Executing => if is_step_due(clock_speed, elapsed_ms) {
                Some(self.step())
            } else {
                None
            },
            _ => None,
        }
    }

    /// The state of the machine as plain values.
    pub fn snapshot(&self) -> (s: Snapshot)
        ensures
            s@ == self@,
    {
        Snapshot {
            memory: self.memory,
            pc: self.pc,
            cir: self.cir,
            ix: self.ix,
            mdr: self.mdr,
            mar: self.mar,
            acc: self.acc,
            flags: self.flags,
            output: self.output.clone(),
            execution_state: self.state,
            ins_executed: self.steps,
        }
    }

    /// The machine in the state that `snapshot` holds, if that state is
    /// valid; `None` if it is not.
    pub fn restore(snapshot: Snapshot) -> (r: Option<Emulator>)
        ensures
            match r {
                Some(e) => snapshot@.valid() && e.wf() && e@ == snapshot@,
                None => !snapshot@.valid(),
            },
    {
        if snapshot.pc > 255 {
            return None;
        }
        match snapshot.execution_state {
            ExecutionState::Stopped => if snapshot.ins_executed != 0 {
                return None;
            },
            _ => {},
        }
        let mut i: usize = 0;
        while i < 256
            invariant
                i <= 256,
                forall|j: int| 0 <= j < i ==> (#[trigger] snapshot.memory@[j]).sound(),
            decreases 256 - i,
        {
            if !snapshot.memory[i].is_sound() {
                return None;
            }
            i = i + 1;
        }
        Some(
            Emulator {
                memory: snapshot.memory,
                pc: snapshot.pc,
                cir: snapshot.cir,
                ix: snapshot.ix,
                mdr: snapshot.mdr,
                mar: snapshot.mar,
                acc: snapshot.acc,
                flags: snapshot.flags,
                output: snapshot.output,
                state: snapshot.execution_state,
                steps: snapshot.ins_executed,
            },
        )
    }

    /// The program counter.
    pub fn pc(&self) -> (r: u16)
        ensures
            r == self@.pc,
    {
        self.pc
    }

    /// The instruction that was fetched last.
    pub fn cir(&self) -> (r: (Opcode, Operand))
        ensures
            r == self@.cir,
    {
        self.cir
    }

    /// The index register.
    pub fn ix(&self) -> (r: u16)
        ensures
            r == self@.ix,
    {
        self.ix
    }

    /// The cell that was read or written last.
    pub fn mdr(&self) -> (r: MemoryData)
        ensures
            r == self@.mdr,
    {
        self.mdr
    }

    /// The address that was read or written last.
    pub fn mar(&self) -> (r: u16)
        ensures
            r == self@.mar,
    {
        self.mar
    }

    /// The accumulator.
    pub fn acc(&self) -> (r: u16)
        ensures
            r == self@.acc,
    {
        self.acc
    }

    /// The condition flags.
    pub fn flags(&self) -> (r: Flags)
        ensures
            r == self@.flags,
    {
        self.flags
    }

    /// What the program has written so far.
    pub fn output(&self) -> (r: &str)
        ensures
            r@ == self@.output,
    {
        self.output.as_str()
    }

    /// The state of execution.
    pub fn execution_state(&self) -> (r: ExecutionState)
        ensures
            r == self@.state,
    {
        self.state
    }

    /// The number of steps counted in the current run.
    pub fn steps(&self) -> (r: u64)
        ensures
            r == self@.steps,
    {
        self.steps
    }

    /// The cell at `address`.
    pub fn cell(&self, address: u8) -> (r: MemoryData)
        ensures
            r == self@.memory[address as int],
    {
        self.memory[address as usize]
    }

    /// All of memory.
    pub fn memory(&self) -> (r: &[MemoryData; 256])
        ensures
            r@ == self@.memory,
    {
        &self.memory
    }

    /// Sets the program counter.
    pub fn set_pc(&mut self, pc: u8)
        requires
            old(self).wf(),
        ensures
            final(self).wf(),
            final(self)@ == (MachineState { pc: pc as u16, ..old(self)@ }),
    {
        self.pc = pc as u16;
    }

    /// Sets the index register.
    pub fn set_ix(&mut self, ix: u16)
        requires
            old(self).wf(),
        ensures
            final(self).wf(),
            final(self)@ == (MachineState { ix, ..old(self)@ }),
    {
        self.ix = ix;
    }

    /// Sets the register of the address last touched.
    pub fn set_mar(&mut self, mar: u16)
        requires
            old(self).wf(),
        ensures
            final(self).wf(),
            final(self)@ == (MachineState { mar, ..old(self)@ }),
    {
        self.mar = mar;
    }

    /// Sets the register of the cell last read or written.
    pub fn set_mdr(&mut self, mdr: MemoryData)
        requires
            old(self).wf(),
        ensures
            final(self).wf(),
            final(self)@ == (MachineState { mdr, ..old(self)@ }),
    {
        self.mdr = mdr;
    }

    /// Sets the accumulator.
    pub fn set_acc(&mut self, acc: u16)
        requires
            old(self).wf(),
        ensures
            final(self).wf(),
            final(self)@ == (MachineState { acc, ..old(self)@ }),
    {
        self.acc = acc;
    }

    /// Sets the condition flags.
    pub fn set_flags(&mut self, flags: Flags)
        requires
            old(self).wf(),
        ensures
            final(self).wf(),
            final(self)@ == (MachineState { flags, ..old(self)@ }),
    {
        self.flags = flags;
    }

    /// Writes the word `value` into the cell at `address`, whatever it held.
    pub fn set_value(&mut self, address: u8, value: u16)
        requires
            old(self).wf(),
        ensures
            final(self).wf(),
            final(self)@ == (MachineState {
                memory: old(self)@.memory.update(address as int, MemoryData::Value(value)),
                ..old(self)@
            }),
    {
        self.memory[address as usize] = MemoryData::Value(value);
    }
}

/// The word that `IN` stores for `c`.
fn word_of(c: char) -> (w: u16)
    ensures
        w == input_word(c),
{
    let code: u32 = c as u32;
    (code % 0x1_0000) as u16
}

} // verus!
