use caie_asm::loader::can_load;
use caie_asm::{
    assemble, AssemblerError, Emulator, ExecutionInfo, ExecutionState, MemoryData, Opcode,
    Operand, StepReport,
};

fn machine_with(source: &str, base: u8) -> Emulator {
    let program = assemble(source).unwrap();
    let mut emulator = Emulator::new();
    assert!(can_load(&program, base));
    emulator.load_program(&program, base).unwrap();
    emulator.set_pc(base);
    emulator
}

fn run(emulator: &mut Emulator, limit: usize) -> Vec<ExecutionInfo> {
    let mut seen = Vec::new();
    assert!(emulator.set_run_state(ExecutionState::Executing));
    for _ in 0..limit {
        if emulator.execution_state() != ExecutionState::Executing {
            break;
        }
        let report = emulator.step();
        if let Some(w) = report.warning {
            seen.push(w);
        }
        if let Some(i) = report.info {
            seen.push(i);
        }
    }
    seen
}

#[test]
fn hello_letter_runs_to_completion() {
    let mut emulator = machine_with("LDM #72\nOUT\nEND", 0);
    let seen = run(&mut emulator, 10);
    assert_eq!(seen, vec![ExecutionInfo::ExecutionTerminated { ins_address: 2 }]);
    assert_eq!(emulator.output(), "H");
    assert_eq!(emulator.execution_state(), ExecutionState::Stopped);
    assert_eq!(emulator.acc(), 0x48);
}

#[test]
fn lone_end_terminates_at_once() {
    let mut emulator = machine_with("END", 0);
    let before = emulator.flags();
    let report = emulator.step();
    assert_eq!(
        report,
        StepReport {
            warning: None,
            info: Some(ExecutionInfo::ExecutionTerminated { ins_address: 0 }),
        }
    );
    assert_eq!(emulator.execution_state(), ExecutionState::Stopped);
    assert_eq!(emulator.acc(), 0);
    assert_eq!(emulator.ix(), 0);
    assert_eq!(emulator.flags(), before);
}

#[test]
fn empty_memory_terminates_on_zero_word() {
    let mut emulator = Emulator::new();
    let report = emulator.step();
    assert_eq!(report.info, Some(ExecutionInfo::ExecutionTerminated { ins_address: 0 }));
    assert_eq!(emulator.pc(), 0);
    assert_eq!(emulator.mdr(), MemoryData::Value(0));
}

#[test]
fn nonzero_word_aborts() {
    let mut emulator = machine_with("#7", 0);
    assert_eq!(emulator.cell(0), MemoryData::Value(7));
    let report = emulator.step();
    assert_eq!(
        report.info,
        Some(ExecutionInfo::ExecutionAbortedValueMet { ins_address: 0, value: 7 })
    );
    assert_eq!(emulator.execution_state(), ExecutionState::Stopped);
}

#[test]
fn store_assembles_and_loads_at_the_top_of_memory() {
    let program = assemble("STO 5").unwrap();
    assert_eq!(program, vec![(Opcode::Sto, Operand::Address(5))]);
    let mut at_254 = Emulator::new();
    assert!(at_254.load_program(&program, 254).is_ok());
    assert_eq!(
        at_254.cell(254),
        MemoryData::Instruction(Opcode::Sto, Operand::Address(259))
    );
    let mut at_255 = Emulator::new();
    assert!(at_255.load_program(&program, 255).is_ok());
    assert_eq!(
        at_255.cell(255),
        MemoryData::Instruction(Opcode::Sto, Operand::Address(260))
    );
}

#[test]
fn program_too_long_is_refused() {
    let program = assemble("IN\nOUT\nEND").unwrap();
    let mut emulator = Emulator::new();
    let result = emulator.load_program(&program, 254);
    match result {
        Err(AssemblerError::ProgramTooLong { program_size, memory_available }) => {
            assert_eq!(program_size, 3);
            assert_eq!(memory_available, 2);
        }
        other => panic!("{:?}", other),
    }
    assert_eq!(emulator.cell(254), MemoryData::Value(0));
    assert_eq!(emulator.cell(255), MemoryData::Value(0));
}

#[test]
fn load_relocates_addresses_only() {
    let source = "LDD 3\nLDM #3\nINC ACC\nOUT\n#9\nJMP 0";
    let program = assemble(source).unwrap();
    let mut emulator = Emulator::new();
    emulator.set_value(9, 77);
    emulator.set_value(16, 78);
    emulator.load_program(&program, 10).unwrap();
    assert_eq!(emulator.cell(9), MemoryData::Value(77));
    assert_eq!(emulator.cell(10), MemoryData::Instruction(Opcode::Ldd, Operand::Address(13)));
    assert_eq!(emulator.cell(11), MemoryData::Instruction(Opcode::Ldm, Operand::Immediate(3)));
    assert_eq!(
        emulator.cell(12),
        MemoryData::Instruction(Opcode::Inc, Operand::Register(caie_asm::Register::Acc))
    );
    assert_eq!(emulator.cell(13), MemoryData::Instruction(Opcode::Out, Operand::Empty));
    assert_eq!(emulator.cell(14), MemoryData::Value(9));
    assert_eq!(emulator.cell(15), MemoryData::Instruction(Opcode::Jmp, Operand::Address(10)));
    assert_eq!(emulator.cell(16), MemoryData::Value(78));
}

#[test]
fn relocation_past_sixteen_bits_is_not_loadable() {
    let program = assemble("STO 65535").unwrap();
    assert!(can_load(&program, 0));
    assert!(!can_load(&program, 1));
}

#[test]
fn add_one_wraps_after_65536_additions() {
    let mut emulator = machine_with("ADD #1\nJMP 0", 0);
    for n in 1..=65536u32 {
        let report = emulator.step();
        assert_eq!(report.info, None);
        let wrapped = n == 65536;
        assert_eq!(emulator.acc() as u32, n % 65536);
        assert_eq!(emulator.flags().carry, wrapped);
        assert_eq!(emulator.flags().overflow, wrapped);
        assert_eq!(emulator.flags().zero, wrapped);
        let jump = emulator.step();
        assert_eq!(jump.info, None);
        assert_eq!(emulator.pc(), 0);
    }
    assert_eq!(emulator.acc(), 0);
}

#[test]
fn compare_sets_zero_and_borrow() {
    let mut equal = machine_with("LDM #5\nCMP #5", 0);
    equal.step();
    equal.step();
    assert!(equal.flags().zero);
    assert!(!equal.flags().carry);
    assert_eq!(equal.acc(), 5);
    let mut less = machine_with("LDM #5\nCMP #6", 0);
    less.step();
    less.step();
    assert!(!less.flags().zero);
    assert!(less.flags().carry);
    assert!(less.flags().overflow);
    assert!(less.flags().sign);
    assert_eq!(less.acc(), 5);
}

#[test]
fn load_of_an_instruction_is_invalid() {
    let mut emulator = machine_with("LDM #9\nLDD 0", 0);
    emulator.step();
    let report = emulator.step();
    assert_eq!(
        report.info,
        Some(ExecutionInfo::InvalidLoad { ins_address: 1, requested_address: 0 })
    );
    assert_eq!(emulator.acc(), 9);
    assert_eq!(emulator.execution_state(), ExecutionState::Stopped);
}

#[test]
fn input_suspends_a_run_and_is_echoed() {
    let mut emulator = machine_with("IN\nOUT\nEND", 0);
    assert!(emulator.set_run_state(ExecutionState::Executing));
    let report = emulator.step();
    assert_eq!(report, StepReport { warning: None, info: None });
    assert_eq!(emulator.execution_state(), ExecutionState::ExecutingAwaitingInput);
    assert_eq!(emulator.pc(), 1);
    let idle = emulator.step();
    assert_eq!(idle, StepReport { warning: None, info: None });
    assert_eq!(emulator.pc(), 1);
    assert_eq!(emulator.output(), "");
    assert!(emulator.supply_input('q'));
    assert_eq!(emulator.execution_state(), ExecutionState::Executing);
    assert_eq!(emulator.acc(), 'q' as u16);
    assert!(!emulator.supply_input('z'));
    emulator.step();
    assert_eq!(emulator.output(), "q");
    let end = emulator.step();
    assert_eq!(end.info, Some(ExecutionInfo::ExecutionTerminated { ins_address: 2 }));
}

#[test]
fn input_while_stepping_by_hand_stops() {
    let mut emulator = machine_with("IN\nOUT", 0);
    emulator.step();
    assert_eq!(emulator.execution_state(), ExecutionState::SteppingAwaitingInput);
    assert!(!emulator.set_run_state(ExecutionState::Executing));
    assert_eq!(emulator.execution_state(), ExecutionState::SteppingAwaitingInput);
    assert!(emulator.supply_input('A'));
    assert_eq!(emulator.execution_state(), ExecutionState::Stopped);
    assert_eq!(emulator.acc(), 65);
}

#[test]
fn input_above_the_basic_plane_is_reduced_to_16_bits() {
    let mut emulator = machine_with("IN\nOUT", 0);
    emulator.step();
    assert!(emulator.supply_input('\u{1F600}'));
    assert_eq!(emulator.acc(), 0xF600);
    emulator.step();
    assert_eq!(emulator.output(), "\u{F600}");
}

#[test]
fn out_of_a_surrogate_writes_the_replacement_character() {
    let mut emulator = machine_with("LDM &D800\nOUT\nLDM &DFFF\nOUT\nLDM &E000\nOUT", 0);
    for _ in 0..6 {
        emulator.step();
    }
    assert_eq!(emulator.output(), "\u{FFFD}\u{FFFD}\u{E000}");
}

#[test]
fn stop_abandons_a_wait() {
    let mut emulator = machine_with("IN", 0);
    emulator.set_run_state(ExecutionState::Executing);
    emulator.step();
    assert_eq!(emulator.steps(), 1);
    assert!(emulator.set_run_state(ExecutionState::Stopped));
    assert_eq!(emulator.execution_state(), ExecutionState::Stopped);
    assert_eq!(emulator.steps(), 0);
    assert_eq!(emulator.acc(), 0);
    assert!(!emulator.set_run_state(ExecutionState::ExecutingAwaitingInput));
    assert_eq!(emulator.execution_state(), ExecutionState::Stopped);
}

#[test]
fn a_long_run_warns_from_the_thousandth_step_on() {
    let mut emulator = machine_with("JMP 0", 0);
    emulator.set_run_state(ExecutionState::Executing);
    for _ in 0..1000 {
        let report = emulator.step();
        assert_eq!(report.warning, None);
    }
    assert_eq!(emulator.steps(), 1000);
    let report = emulator.step();
    assert_eq!(report.warning, Some(ExecutionInfo::TooManySteps { steps: 1000 }));
    assert_eq!(report.info, None);
    assert_eq!(emulator.execution_state(), ExecutionState::Executing);
    let next = emulator.step();
    assert_eq!(next.warning, Some(ExecutionInfo::TooManySteps { steps: 1001 }));
    emulator.set_run_state(ExecutionState::Stopped);
    assert_eq!(emulator.steps(), 0);
}

#[test]
fn steps_by_hand_are_not_counted() {
    let mut emulator = machine_with("JMP 0", 0);
    for _ in 0..1500 {
        let report = emulator.step();
        assert_eq!(report.warning, None);
    }
    assert_eq!(emulator.steps(), 0);
}

#[test]
fn program_counter_wraps_at_the_end_of_memory() {
    let mut emulator = machine_with("LDM #1", 255);
    assert_eq!(emulator.pc(), 255);
    let report = emulator.step();
    assert_eq!(report.info, None);
    assert_eq!(emulator.pc(), 0);
    assert_eq!(emulator.acc(), 1);
}

#[test]
fn default_program_prints_its_greeting() {
    let source = "loop:
    LDX string
    OUT
    INC IX
    LDD count
    DEC ACC
    STO count
    CMP #0
    JPN loop
    END

count:  #12

string:
        &48
        &65
        &6c
        &6c
        &6f
        &2c
        &20
        &77
        &6f
        &72
        &6c
        &64
";
    let mut emulator = machine_with(source, 0);
    let seen = run(&mut emulator, 1000);
    assert_eq!(seen, vec![ExecutionInfo::ExecutionTerminated { ins_address: 8 }]);
    assert_eq!(emulator.output(), "Hello, world");
    assert_eq!(emulator.cell(9), MemoryData::Value(0));
}

#[test]
fn default_program_runs_the_same_when_relocated() {
    let source = "loop: LDX text\nOUT\nINC IX\nLDD left\nDEC ACC\nSTO left\nCMP #0\nJPN loop\nEND\nleft: #2\ntext: &4f\n&4b";
    let mut emulator = machine_with(source, 100);
    let seen = run(&mut emulator, 100);
    assert_eq!(seen, vec![ExecutionInfo::ExecutionTerminated { ins_address: 108 }]);
    assert_eq!(emulator.output(), "OK");
}
