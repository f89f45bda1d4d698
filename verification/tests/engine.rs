use caie_asm::engine::is_step_due;
use caie_asm::loader::can_load;
use caie_asm::{
    assemble, Emulator, ExecutionInfo, ExecutionState, Flags, MemoryData, Opcode, Operand,
    Register, Snapshot,
};

fn loaded(source: &str) -> Emulator {
    let program = assemble(source).unwrap();
    let mut emulator = Emulator::new();
    assert!(can_load(&program, 0));
    emulator.load_program(&program, 0).unwrap();
    emulator
}

fn stepped(source: &str, steps: usize) -> Emulator {
    let mut emulator = loaded(source);
    for _ in 0..steps {
        let report = emulator.step();
        assert_eq!(report.info, None);
    }
    emulator
}

fn flags(carry: bool, zero: bool, overflow: bool, sign: bool) -> Flags {
    Flags { carry, zero, overflow, sign }
}

#[test]
fn new_machine_is_cleared_and_stopped() {
    let emulator = Emulator::new();
    assert_eq!(emulator.pc(), 0);
    assert_eq!(emulator.cir(), (Opcode::End, Operand::Empty));
    assert_eq!(emulator.ix(), 0);
    assert_eq!(emulator.mdr(), MemoryData::Value(0));
    assert_eq!(emulator.mar(), 0);
    assert_eq!(emulator.acc(), 0);
    assert_eq!(emulator.flags(), flags(false, false, false, false));
    assert_eq!(emulator.output(), "");
    assert_eq!(emulator.execution_state(), ExecutionState::Stopped);
    assert_eq!(emulator.steps(), 0);
    assert!(emulator.memory().iter().all(|c| *c == MemoryData::Value(0)));
}

#[test]
fn ldm_and_ldr_load_immediates() {
    let e = stepped("LDM #300\nLDR &10", 2);
    assert_eq!(e.acc(), 300);
    assert_eq!(e.ix(), 16);
    assert_eq!(e.pc(), 2);
    assert_eq!(e.cir(), (Opcode::Ldr, Operand::Immediate(16)));
    assert_eq!(e.flags(), flags(false, false, false, false));
}

#[test]
fn ldd_loads_a_word_and_sets_mar_and_mdr() {
    let e = stepped("LDD 2\nEND\n#41", 1);
    assert_eq!(e.acc(), 41);
    assert_eq!(e.mar(), 2);
    assert_eq!(e.mdr(), MemoryData::Value(41));
}

#[test]
fn ldd_outside_memory_fails() {
    let mut e = loaded("LDM #3\nLDD 256");
    e.step();
    let report = e.step();
    assert_eq!(
        report.info,
        Some(ExecutionInfo::AddressNotInMemory { ins_address: 1, requested_address: 256 })
    );
    assert_eq!(e.acc(), 3);
    assert_eq!(e.mar(), 256);
    assert_eq!(e.execution_state(), ExecutionState::Stopped);
}

#[test]
fn ldi_follows_a_pointer() {
    let e = stepped("LDI 2\nEND\n#3\n#99", 1);
    assert_eq!(e.acc(), 99);
    assert_eq!(e.mar(), 3);
    assert_eq!(e.mdr(), MemoryData::Value(99));
}

#[test]
fn ldi_with_a_pointer_outside_memory_fails() {
    let mut e = loaded("LDI 1\n#1000");
    let report = e.step();
    assert_eq!(
        report.info,
        Some(ExecutionInfo::AddressNotInMemory { ins_address: 0, requested_address: 1000 })
    );
    assert_eq!(e.acc(), 0);
    assert_eq!(e.mdr(), MemoryData::Value(1000));
}

#[test]
fn ldi_through_an_instruction_fails() {
    let mut first = loaded("LDI 0");
    assert_eq!(
        first.step().info,
        Some(ExecutionInfo::InvalidLoad { ins_address: 0, requested_address: 0 })
    );
    let mut second = loaded("LDI 1\n#0");
    assert_eq!(
        second.step().info,
        Some(ExecutionInfo::InvalidLoad { ins_address: 0, requested_address: 0 })
    );
}

#[test]
fn ldx_adds_the_index() {
    let e = stepped("LDR #2\nLDX 1\nEND\n#55", 2);
    assert_eq!(e.acc(), 55);
    assert_eq!(e.mar(), 3);
}

#[test]
fn ldx_past_memory_fails() {
    let mut e = loaded("LDR #255\nLDX 1");
    e.step();
    assert_eq!(
        e.step().info,
        Some(ExecutionInfo::AddressNotInMemory { ins_address: 1, requested_address: 256 })
    );
    let mut far = loaded("LDR &FFFF\nLDX 10");
    far.step();
    assert_eq!(
        far.step().info,
        Some(ExecutionInfo::AddressNotInMemory { ins_address: 1, requested_address: 65535 })
    );
    assert_eq!(far.mar(), 65535);
}

#[test]
fn ldx_of_an_instruction_fails() {
    let mut e = loaded("LDR #1\nLDX 0");
    e.step();
    assert_eq!(
        e.step().info,
        Some(ExecutionInfo::InvalidLoad { ins_address: 1, requested_address: 1 })
    );
}

#[test]
fn mov_copies_acc_to_ix_only() {
    let e = stepped("LDM #7\nMOV IX\nLDM #9\nMOV ACC", 4);
    assert_eq!(e.ix(), 7);
    assert_eq!(e.acc(), 9);
}

#[test]
fn sto_overwrites_data_and_code() {
    let e = stepped("LDM #5\nSTO 3\nSTO 0\nEND", 3);
    assert_eq!(e.cell(3), MemoryData::Value(5));
    assert_eq!(e.cell(0), MemoryData::Value(5));
    assert_eq!(e.mar(), 0);
    assert_eq!(e.mdr(), MemoryData::Value(5));
}

#[test]
fn sto_outside_memory_fails() {
    let mut e = loaded("LDM #5\nSTO 256");
    e.step();
    assert_eq!(
        e.step().info,
        Some(ExecutionInfo::AddressNotInMemory { ins_address: 1, requested_address: 256 })
    );
    assert_eq!(e.mar(), 256);
    assert_eq!(e.mdr(), MemoryData::Value(5));
    assert_eq!(e.execution_state(), ExecutionState::Stopped);
}

#[test]
fn add_sets_all_four_flags() {
    let e = stepped("LDM &7FFF\nADD #1", 2);
    assert_eq!(e.acc(), 0x8000);
    assert_eq!(e.flags(), flags(false, false, false, true));
    let w = stepped("LDM &FFFF\nADD #2", 2);
    assert_eq!(w.acc(), 1);
    assert_eq!(w.flags(), flags(true, false, true, false));
    let z = stepped("LDM &FFFF\nADD #1", 2);
    assert_eq!(z.acc(), 0);
    assert_eq!(z.flags(), flags(true, true, true, false));
}

#[test]
fn add_from_memory() {
    let e = stepped("LDM #10\nADD 3\nEND\n#32", 2);
    assert_eq!(e.acc(), 42);
    assert_eq!(e.mar(), 3);
    assert_eq!(e.mdr(), MemoryData::Value(32));
}

#[test]
fn add_of_an_instruction_or_outside_memory_fails() {
    let mut e = loaded("ADD 0");
    assert_eq!(
        e.step().info,
        Some(ExecutionInfo::InvalidLoad { ins_address: 0, requested_address: 0 })
    );
    assert_eq!(e.mdr(), MemoryData::Instruction(Opcode::Add, Operand::Address(0)));
    let mut f = loaded("ADD 700");
    assert_eq!(
        f.step().info,
        Some(ExecutionInfo::AddressNotInMemory { ins_address: 0, requested_address: 700 })
    );
}

#[test]
fn sub_borrows_below_zero() {
    let e = stepped("LDM #3\nSUB #5", 2);
    assert_eq!(e.acc(), 0xFFFE);
    assert_eq!(e.flags(), flags(true, false, true, true));
    let z = stepped("LDM #5\nSUB #5", 2);
    assert_eq!(z.acc(), 0);
    assert_eq!(z.flags(), flags(false, true, false, false));
}

#[test]
fn inc_and_dec_keep_carry() {
    let e = stepped("LDM &FFFF\nADD #1\nINC ACC", 3);
    assert_eq!(e.acc(), 1);
    assert_eq!(e.flags(), flags(true, false, false, false));
    let d = stepped("DEC IX", 1);
    assert_eq!(d.ix(), 0xFFFF);
    assert_eq!(d.acc(), 0);
    assert_eq!(d.flags(), flags(false, false, true, true));
    let i = stepped("LDR &FFFF\nINC IX", 2);
    assert_eq!(i.ix(), 0);
    assert_eq!(i.flags(), flags(false, true, true, false));
    let a = stepped("LDM #1\nDEC ACC", 2);
    assert_eq!(a.acc(), 0);
    assert_eq!(a.flags(), flags(false, true, false, false));
}

#[test]
fn jmp_sets_the_program_counter() {
    let e = stepped("JMP 7", 1);
    assert_eq!(e.pc(), 7);
    assert_eq!(e.mar(), 0);
    let mut f = loaded("JMP 256");
    assert_eq!(
        f.step().info,
        Some(ExecutionInfo::AddressNotInMemory { ins_address: 0, requested_address: 256 })
    );
    assert_eq!(f.pc(), 1);
}

#[test]
fn jpe_and_jpn_follow_the_zero_flag() {
    let taken = stepped("CMP #0\nJPE 9", 2);
    assert_eq!(taken.pc(), 9);
    let not_taken = stepped("CMP #1\nJPE 9", 2);
    assert_eq!(not_taken.pc(), 2);
    let n_taken = stepped("CMP #1\nJPN 9", 2);
    assert_eq!(n_taken.pc(), 9);
    let n_not = stepped("CMP #0\nJPN 9", 2);
    assert_eq!(n_not.pc(), 2);
}

#[test]
fn conditional_jumps_check_bounds_only_when_taken() {
    let skipped = stepped("CMP #1\nJPE 999", 2);
    assert_eq!(skipped.pc(), 2);
    let mut taken = loaded("CMP #0\nJPE 999");
    taken.step();
    assert_eq!(
        taken.step().info,
        Some(ExecutionInfo::AddressNotInMemory { ins_address: 1, requested_address: 999 })
    );
    let mut n = loaded("JPN 999");
    assert_eq!(
        n.step().info,
        Some(ExecutionInfo::AddressNotInMemory { ins_address: 0, requested_address: 999 })
    );
}

#[test]
fn cmp_with_memory_and_cmi() {
    let e = stepped("LDM #4\nCMP 3\nEND\n#4", 2);
    assert!(e.flags().zero);
    assert_eq!(e.acc(), 4);
    let i = stepped("LDM #4\nCMI 3\nEND\n#4\n#9", 2);
    assert_eq!(i.flags(), flags(true, false, true, true));
    assert_eq!(i.acc(), 4);
    assert_eq!(i.mar(), 4);
    assert_eq!(i.mdr(), MemoryData::Value(9));
}

#[test]
fn cmi_faults() {
    let mut a = loaded("CMI 300");
    assert_eq!(
        a.step().info,
        Some(ExecutionInfo::AddressNotInMemory { ins_address: 0, requested_address: 300 })
    );
    let mut b = loaded("CMI 1\n#300");
    assert_eq!(
        b.step().info,
        Some(ExecutionInfo::AddressNotInMemory { ins_address: 0, requested_address: 300 })
    );
    let mut c = loaded("CMI 1\n#0");
    assert_eq!(
        c.step().info,
        Some(ExecutionInfo::InvalidLoad { ins_address: 0, requested_address: 0 })
    );
    let mut d = loaded("CMI 0");
    assert_eq!(
        d.step().info,
        Some(ExecutionInfo::InvalidLoad { ins_address: 0, requested_address: 0 })
    );
}

#[test]
fn bitwise_operations_keep_carry_and_overflow() {
    let e = stepped("LDM &FFFF\nADD #1\nLDM &F0F0\nAND &FF00", 4);
    assert_eq!(e.acc(), 0xF000);
    assert_eq!(e.flags(), flags(true, false, true, true));
    let x = stepped("LDM &00FF\nXOR &00FF", 2);
    assert_eq!(x.acc(), 0);
    assert_eq!(x.flags(), flags(false, true, false, false));
    let o = stepped("LDM &000F\nOR 3\nEND\n&8000", 2);
    assert_eq!(o.acc(), 0x800F);
    assert_eq!(o.flags(), flags(false, false, false, true));
}

#[test]
fn shifts_take_their_amount_modulo_16() {
    let l = stepped("LDM #1\nLSL #15", 2);
    assert_eq!(l.acc(), 0x8000);
    assert!(l.flags().sign);
    let out = stepped("LDM &8001\nLSL #1", 2);
    assert_eq!(out.acc(), 2);
    let r = stepped("LDM &8000\nLSR #15", 2);
    assert_eq!(r.acc(), 1);
    let wrapped = stepped("LDM #3\nLSL #17", 2);
    assert_eq!(wrapped.acc(), 6);
    let same = stepped("LDM #3\nLSR #16", 2);
    assert_eq!(same.acc(), 3);
    let zero = stepped("LDM #1\nLSR #1", 2);
    assert_eq!(zero.acc(), 0);
    assert!(zero.flags().zero);
}

#[test]
fn shift_by_a_word_in_memory_runs_when_restored() {
    let mut snapshot = Emulator::new().snapshot();
    snapshot.memory[0] = MemoryData::Instruction(Opcode::Lsl, Operand::Address(1));
    snapshot.memory[1] = MemoryData::Value(4);
    snapshot.acc = 1;
    let mut e = Emulator::restore(snapshot).unwrap();
    assert_eq!(e.step().info, None);
    assert_eq!(e.acc(), 16);
}

#[test]
fn reset_clears_everything() {
    let mut e = loaded("LDM #72\nOUT\nIN");
    e.set_run_state(ExecutionState::Executing);
    e.step();
    e.step();
    e.step();
    assert_eq!(e.execution_state(), ExecutionState::ExecutingAwaitingInput);
    e.reset();
    let fresh = Emulator::new();
    assert_eq!(e.snapshot().memory, fresh.snapshot().memory);
    assert_eq!(e.pc(), 0);
    assert_eq!(e.acc(), 0);
    assert_eq!(e.output(), "");
    assert_eq!(e.cir(), (Opcode::End, Operand::Empty));
    assert_eq!(e.execution_state(), ExecutionState::Stopped);
    assert_eq!(e.steps(), 0);
}

#[test]
fn snapshot_and_restore_round_trip() {
    let mut e = loaded("LDM #72\nOUT\nIN\nEND");
    e.set_run_state(ExecutionState::Executing);
    e.step();
    e.step();
    e.step();
    let s = e.snapshot();
    assert_eq!(s.pc, 3);
    assert_eq!(s.acc, 72);
    assert_eq!(s.output, "H");
    assert_eq!(s.execution_state, ExecutionState::ExecutingAwaitingInput);
    assert_eq!(s.ins_executed, 3);
    let mut back = Emulator::restore(s).unwrap();
    assert_eq!(back.pc(), e.pc());
    assert_eq!(back.cir(), e.cir());
    assert_eq!(back.ix(), e.ix());
    assert_eq!(back.mdr(), e.mdr());
    assert_eq!(back.mar(), e.mar());
    assert_eq!(back.acc(), e.acc());
    assert_eq!(back.flags(), e.flags());
    assert_eq!(back.output(), e.output());
    assert_eq!(back.execution_state(), e.execution_state());
    assert_eq!(back.steps(), e.steps());
    assert_eq!(back.memory(), e.memory());
    assert!(back.supply_input('x'));
    assert_eq!(
        back.step().info,
        Some(ExecutionInfo::ExecutionTerminated { ins_address: 3 })
    );
}

fn blank() -> Snapshot {
    Emulator::new().snapshot()
}

#[test]
fn restore_refuses_invalid_states() {
    let mut pc = blank();
    pc.pc = 256;
    assert!(Emulator::restore(pc).is_none());
    let mut counted = blank();
    counted.ins_executed = 1;
    assert!(Emulator::restore(counted).is_none());
    let mut running = blank();
    running.ins_executed = 1;
    running.execution_state = ExecutionState::Executing;
    assert!(Emulator::restore(running).is_some());
    let mut data = blank();
    data.memory[7] = MemoryData::Instruction(Opcode::Data(3), Operand::Immediate(3));
    assert!(Emulator::restore(data).is_none());
    let mut kind = blank();
    kind.memory[255] = MemoryData::Instruction(Opcode::Mov, Operand::Address(3));
    assert!(Emulator::restore(kind).is_none());
    let mut fine = blank();
    fine.memory[255] = MemoryData::Instruction(Opcode::Mov, Operand::Register(Register::Ix));
    assert!(Emulator::restore(fine).is_some());
}

#[test]
fn setters_change_one_thing() {
    let mut e = Emulator::new();
    e.set_pc(200);
    e.set_ix(3);
    e.set_acc(4);
    e.set_flags(flags(true, false, true, false));
    e.set_value(255, 9);
    e.set_mar(77);
    e.set_mdr(MemoryData::Value(78));
    assert_eq!(e.mar(), 77);
    assert_eq!(e.mdr(), MemoryData::Value(78));
    assert_eq!(e.pc(), 200);
    assert_eq!(e.ix(), 3);
    assert_eq!(e.acc(), 4);
    assert_eq!(e.flags(), flags(true, false, true, false));
    assert_eq!(e.cell(255), MemoryData::Value(9));
    assert_eq!(e.cell(254), MemoryData::Value(0));
}

#[test]
fn a_step_is_due_once_its_period_has_passed() {
    assert!(is_step_due(0, 0));
    assert!(is_step_due(0, -5));
    assert!(is_step_due(1, 1000));
    assert!(!is_step_due(1, 999));
    assert!(is_step_due(4, 250));
    assert!(!is_step_due(4, 249));
    assert!(is_step_due(3, 334));
    assert!(!is_step_due(3, 333));
    assert!(is_step_due(32, 32));
    assert!(!is_step_due(32, 31));
    assert!(!is_step_due(65535, 0));
    assert!(is_step_due(65535, 1));
    assert!(!is_step_due(7, -1));
    assert!(!is_step_due(7, i64::MIN));
    assert!(is_step_due(7, i64::MAX));
}

#[test]
fn tick_steps_a_running_machine_when_due() {
    let mut e = loaded("LDM #1\nEND");
    assert_eq!(e.tick(0, 5000), None);
    assert_eq!(e.pc(), 0);
    e.set_run_state(ExecutionState::Executing);
    assert_eq!(e.tick(4, 100), None);
    assert_eq!(e.pc(), 0);
    let first = e.tick(4, 250).unwrap();
    assert_eq!(first.info, None);
    assert_eq!(e.acc(), 1);
    assert_eq!(e.steps(), 1);
    let second = e.tick(0, 0).unwrap();
    assert_eq!(second.info, Some(ExecutionInfo::ExecutionTerminated { ins_address: 1 }));
    assert_eq!(e.steps(), 0);
    assert_eq!(e.tick(0, 0), None);
}
