use evm_core::host::SnapshotHost;
use evm_core::interpreter::{ErrorKind, Interpreter, SpecId, Status};
use evm_core::opcode::tables::{
    BoxedInstruction, Instruction, InstructionTables, Wrap, OP_BASEFEE, OP_CHAINID, OP_MLOAD,
    OP_MSIZE,
};
use evm_core::word::Word;

fn make_host() -> SnapshotHost {
    SnapshotHost {
        chain_id: 7,
        coinbase: Word::from_u64(0xc01),
        timestamp: Word::from_u64(1_700_000_000),
        number: Word::from_u64(19_000_000),
        difficulty: Word::from_u64(0xd1ff),
        randomness: Word::from_u64(0x9a9d0),
        basefee: Word::from_u64(1000),
        gas_limit: Word::from_u64(30_000_000),
        caller: Word::from_u64(0xca11e4),
        blob_hashes: vec![Word::from_u64(0xb10b0), Word::from_u64(0xb10b1)],
        effective_gas_price: Word::from_u64(55),
        blob_gasprice: Some(12),
    }
}

fn fresh(spec: SpecId, gas: u64) -> Interpreter {
    Interpreter::new(spec, gas)
}

fn drain_stack(interp: &mut Interpreter) -> Vec<Vec<u8>> {
    let mut out = Vec::new();
    while interp.stack.len() > 0 {
        out.push(interp.stack.pop().to_bytes());
    }
    out
}

fn memory_bytes(interp: &Interpreter) -> Vec<u8> {
    let mut out = Vec::new();
    let n = interp.memory.len();
    let mut i = 0;
    while i < n {
        out.push(interp.memory.read_byte(i));
        i += 1;
    }
    out
}

#[test]
fn chainid_pushes_chain_id() {
    let mut host = make_host();
    let mut interp = fresh(SpecId::Cancun, 100);
    evm_core::instructions::host_env::chainid(&mut interp, &mut host);
    assert_eq!(interp.status, Status::Running);
    assert_eq!(interp.gas.remaining, 98);
    assert_eq!(interp.stack.len(), 1);
    assert!(interp.stack.peek().eq_word(&Word::from_u64(7)));
}

#[test]
fn chainid_gated_before_istanbul() {
    let mut host = make_host();
    let mut interp = fresh(SpecId::Frontier, 100);
    evm_core::instructions::host_env::chainid(&mut interp, &mut host);
    assert_eq!(interp.status, Status::Error(ErrorKind::UnsupportedOpcode));
    assert_eq!(interp.gas.remaining, 100);
    assert_eq!(interp.stack.len(), 0);
}

#[test]
fn basefee_gated_before_london() {
    let mut host = make_host();
    let mut interp = fresh(SpecId::Istanbul, 100);
    evm_core::instructions::host_env::basefee(&mut interp, &mut host);
    assert_eq!(interp.status, Status::Error(ErrorKind::UnsupportedOpcode));
}

#[test]
fn gas_deduction_failure_mutates_nothing() {
    let mut host = make_host();
    let mut interp = fresh(SpecId::Cancun, 1);
    evm_core::instructions::host_env::coinbase(&mut interp, &mut host);
    assert_eq!(interp.status, Status::Error(ErrorKind::OutOfGas));
    assert_eq!(interp.gas.remaining, 1);
    assert_eq!(interp.stack.len(), 0);
    assert_eq!(interp.memory.len(), 0);
}

#[test]
fn stack_overflow_reported_after_charge() {
    let mut host = make_host();
    let mut interp = fresh(SpecId::Cancun, 10_000);
    let mut i = 0;
    while i < 1024 {
        interp.stack.push(Word::from_u64(1));
        i += 1;
    }
    evm_core::instructions::host_env::coinbase(&mut interp, &mut host);
    assert_eq!(interp.status, Status::Error(ErrorKind::StackOverflow));
    assert_eq!(interp.gas.remaining, 10_000 - 2);
    assert_eq!(interp.stack.len(), 1024);
}

#[test]
fn mload_underflow_on_empty_stack() {
    let mut host = make_host();
    let mut interp = fresh(SpecId::Cancun, 100);
    evm_core::instructions::memory::mload(&mut interp, &mut host);
    assert_eq!(interp.status, Status::Error(ErrorKind::StackUnderflow));
    assert_eq!(interp.gas.remaining, 97);
}

#[test]
fn mload_offset_too_large_fails() {
    let mut host = make_host();
    let mut interp = fresh(SpecId::Cancun, 100);
    let mut bytes = vec![0u8; 32];
    bytes[0] = 1;
    interp.stack.push(Word::from_bytes(bytes));
    evm_core::instructions::memory::mload(&mut interp, &mut host);
    assert_eq!(interp.status, Status::Error(ErrorKind::InvalidMemoryOffset));
    assert_eq!(interp.memory.len(), 0);
}

#[test]
fn msize_then_mload_on_empty_memory() {
    let mut host = make_host();
    let mut interp = fresh(SpecId::Cancun, 100);
    interp.stack.push(Word::from_u64(5));
    evm_core::instructions::memory::msize(&mut interp, &mut host);
    assert_eq!(interp.status, Status::Running);
    assert!(interp.stack.peek().is_zero());
    evm_core::instructions::memory::mload(&mut interp, &mut host);
    assert_eq!(interp.status, Status::Running);
    assert_eq!(interp.memory.len(), 32);
    assert!(interp.stack.peek().is_zero());
    assert_eq!(interp.stack.len(), 2);
    // base cost 2, very-low cost 3, one-word expansion cost 3
    assert_eq!(interp.gas.remaining, 100 - 2 - 3 - 3);
}

#[test]
fn mstore_roundtrip_through_memory() {
    let mut host = make_host();
    let mut interp = fresh(SpecId::Cancun, 100);
    interp.stack.push(Word::from_u64(0xabcdef));
    interp.stack.push(Word::from_u64(0));
    evm_core::instructions::memory::mstore(&mut interp, &mut host);
    assert_eq!(interp.status, Status::Running);
    assert_eq!(interp.stack.len(), 0);
    assert_eq!(interp.memory.len(), 32);
    interp.stack.push(Word::from_u64(0));
    evm_core::instructions::memory::mload(&mut interp, &mut host);
    assert_eq!(interp.status, Status::Running);
    assert!(interp.stack.peek().eq_word(&Word::from_u64(0xabcdef)));
}

#[test]
fn mstore8_writes_least_byte_word_aligned() {
    let mut host = make_host();
    let mut interp = fresh(SpecId::Cancun, 100);
    interp.stack.push(Word::from_u64(0x1234));
    interp.stack.push(Word::from_u64(0));
    evm_core::instructions::memory::mstore8(&mut interp, &mut host);
    assert_eq!(interp.status, Status::Running);
    assert_eq!(interp.memory.len(), 32);
    assert_eq!(interp.memory.read_byte(0), 0x34);
    assert_eq!(interp.memory.read_byte(1), 0);
}

#[test]
fn memory_is_non_decreasing_across_operations() {
    let mut host = make_host();
    let mut interp = fresh(SpecId::Cancun, 10_000);
    let mut last = interp.memory.len();
    let offsets = [64usize, 0, 32, 5, 100, 1];
    for off in offsets {
        interp.stack.push(Word::from_u64(7));
        interp.stack.push(Word::from_u64(off as u64));
        evm_core::instructions::memory::mstore(&mut interp, &mut host);
        assert_eq!(interp.status, Status::Running);
        assert!(interp.memory.len() >= last);
        assert_eq!(interp.memory.len() % 32, 0);
        last = interp.memory.len();
    }
    assert_eq!(interp.memory.len(), 160);
}

#[test]
fn mcopy_zero_length_charges_fixed_cost_only() {
    let mut host = make_host();
    let mut interp = fresh(SpecId::Cancun, 100);
    interp.stack.push(Word::from_u64(0)); // length
    interp.stack.push(Word::from_u64(3)); // source
    interp.stack.push(Word::from_u64(9)); // destination
    evm_core::instructions::memory::mcopy(&mut interp, &mut host);
    assert_eq!(interp.status, Status::Running);
    assert_eq!(interp.memory.len(), 0);
    assert_eq!(interp.gas.remaining, 97);
    assert_eq!(interp.stack.len(), 0);
}

#[test]
fn mcopy_overlapping_matches_buffered_copy() {
    let mut host = make_host();
    let mut interp = fresh(SpecId::Cancun, 10_000);
    // write a recognizable pattern into the first 64 bytes
    interp.stack.push(Word::from_u64(0x0102030405060708));
    interp.stack.push(Word::from_u64(0));
    evm_core::instructions::memory::mstore(&mut interp, &mut host);
    interp.stack.push(Word::from_u64(0x1112131415161718));
    interp.stack.push(Word::from_u64(32));
    evm_core::instructions::memory::mstore(&mut interp, &mut host);
    let before = memory_bytes(&interp);
    // overlapping copy: dst = 10, src = 0, len = 40
    interp.stack.push(Word::from_u64(40));
    interp.stack.push(Word::from_u64(0));
    interp.stack.push(Word::from_u64(10));
    evm_core::instructions::memory::mcopy(&mut interp, &mut host);
    assert_eq!(interp.status, Status::Running);
    let mut expected = before.clone();
    let buffer: Vec<u8> = before[0..40].to_vec();
    expected[10..50].copy_from_slice(&buffer);
    assert_eq!(memory_bytes(&interp), expected);
}

#[test]
fn blob_hash_in_range_replaces_index() {
    let mut host = make_host();
    let mut interp = fresh(SpecId::Cancun, 100);
    interp.stack.push(Word::from_u64(1));
    evm_core::instructions::host_env::blob_hash(&mut interp, &mut host);
    assert_eq!(interp.status, Status::Running);
    assert!(interp.stack.peek().eq_word(&Word::from_u64(0xb10b1)));
}

#[test]
fn blob_hash_out_of_range_yields_zero_word() {
    let mut host = make_host();
    let mut interp = fresh(SpecId::Cancun, 100);
    interp.stack.push(Word::from_u64(2));
    evm_core::instructions::host_env::blob_hash(&mut interp, &mut host);
    assert_eq!(interp.status, Status::Running);
    assert_eq!(interp.stack.len(), 1);
    assert!(interp.stack.peek().is_zero());
}

#[test]
fn blob_basefee_defaults_to_zero() {
    let mut host = make_host();
    host.blob_gasprice = None;
    let mut interp = fresh(SpecId::Cancun, 100);
    evm_core::instructions::host_env::blob_basefee(&mut interp, &mut host);
    assert_eq!(interp.status, Status::Running);
    assert!(interp.stack.peek().is_zero());
}

#[test]
fn difficulty_branches_on_merge_stage() {
    let mut host = make_host();
    let mut early = fresh(SpecId::London, 100);
    let mut late = fresh(SpecId::Merge, 100);
    evm_core::instructions::host_env::difficulty(&mut early, &mut host);
    evm_core::instructions::host_env::difficulty(&mut late, &mut host);
    assert_eq!(early.status, Status::Running);
    assert_eq!(late.status, Status::Running);
    assert!(early.stack.peek().eq_word(&Word::from_u64(0xd1ff)));
    assert!(late.stack.peek().eq_word(&Word::from_u64(0x9a9d0)));
}

#[test]
fn tx_info_handlers_match_host_env_handlers() {
    let mut host = make_host();
    let mut a = fresh(SpecId::Cancun, 100);
    let mut b = fresh(SpecId::Cancun, 100);
    evm_core::instructions::host_env::origin(&mut a, &mut host);
    evm_core::instructions::tx_info::origin(&mut b, &mut host);
    assert!(a.stack.peek().eq_word(&b.stack.peek()));
    evm_core::instructions::tx_info::gasprice(&mut b, &mut host);
    assert!(b.stack.peek().eq_word(&Word::from_u64(55)));
    b.stack.push(Word::from_u64(0));
    evm_core::instructions::tx_info::blob_hash(&mut b, &mut host);
    assert!(b.stack.peek().eq_word(&Word::from_u64(0xb10b0)));
}

#[test]
fn every_table_slot_is_defined() {
    let table = evm_core::opcode::tables::make_instruction_table();
    assert_eq!(table.len(), 256);
    // an unassigned byte resolves to the failure handler
    assert_eq!(table[0x00], Instruction::Unknown);
    assert_eq!(table[0xff], Instruction::Unknown);
    assert_eq!(table[OP_CHAINID as usize], Instruction::ChainId);
    assert_eq!(table[OP_MLOAD as usize], Instruction::MLoad);
    let mut host = make_host();
    let tables = InstructionTables::new_plain();
    let mut b: usize = 0;
    while b < 256 {
        let mut interp = fresh(SpecId::Cancun, 1000);
        tables.run_opcode(b as u8, &mut interp, &mut host);
        b += 1;
    }
}

#[test]
fn unknown_opcode_sets_failure_status() {
    let mut host = make_host();
    let tables = InstructionTables::new_plain();
    let mut interp = fresh(SpecId::Cancun, 1000);
    tables.run_opcode(0x00, &mut interp, &mut host);
    assert_eq!(interp.status, Status::Error(ErrorKind::UnsupportedOpcode));
}

#[test]
fn conversion_to_patchable_preserves_behavior() {
    let mut host = make_host();
    let plain = InstructionTables::new_plain();
    let mut boxed = InstructionTables::new_plain();
    boxed.to_boxed();
    let mut b: usize = 0;
    while b < 256 {
        let mut x = fresh(SpecId::Cancun, 1000);
        x.stack.push(Word::from_u64(1));
        x.stack.push(Word::from_u64(2));
        x.stack.push(Word::from_u64(3));
        let mut y = fresh(SpecId::Cancun, 1000);
        y.stack.push(Word::from_u64(1));
        y.stack.push(Word::from_u64(2));
        y.stack.push(Word::from_u64(3));
        plain.run_opcode(b as u8, &mut x, &mut host);
        boxed.run_opcode(b as u8, &mut y, &mut host);
        assert_eq!(x.status, y.status);
        assert_eq!(x.gas.remaining, y.gas.remaining);
        assert_eq!(memory_bytes(&x), memory_bytes(&y));
        assert_eq!(drain_stack(&mut x), drain_stack(&mut y));
        b += 1;
    }
}

#[test]
fn insert_replaces_single_slot() {
    let mut host = make_host();
    let mut tables = InstructionTables::new_plain();
    tables.insert(OP_MSIZE, Instruction::Unknown);
    let mut interp = fresh(SpecId::Cancun, 1000);
    tables.run_opcode(OP_MSIZE, &mut interp, &mut host);
    assert_eq!(interp.status, Status::Error(ErrorKind::UnsupportedOpcode));
}

#[test]
fn replace_boxed_returns_previous_entry() {
    let mut host = make_host();
    let mut tables = InstructionTables::new_plain();
    let prev = tables.replace_boxed(OP_CHAINID, BoxedInstruction::Base(Instruction::Unknown));
    let mut interp = fresh(SpecId::Cancun, 1000);
    evm_core::opcode::tables::run_boxed(&prev, &mut interp, &mut host);
    assert_eq!(interp.status, Status::Running);
    assert!(interp.stack.peek().eq_word(&Word::from_u64(7)));
    let mut interp2 = fresh(SpecId::Cancun, 1000);
    tables.run_opcode(OP_CHAINID, &mut interp2, &mut host);
    assert_eq!(interp2.status, Status::Error(ErrorKind::UnsupportedOpcode));
}

#[test]
fn update_boxed_layers_one_slot() {
    let mut host = make_host();
    let mut tables = InstructionTables::new_plain();
    tables.update_boxed(OP_CHAINID, &Wrap::GasSurcharge(10));
    let mut interp = fresh(SpecId::Cancun, 1000);
    tables.run_opcode(OP_CHAINID, &mut interp, &mut host);
    assert_eq!(interp.status, Status::Running);
    assert_eq!(interp.gas.remaining, 1000 - 10 - 2);
    // untouched slot pays no surcharge
    let mut interp2 = fresh(SpecId::Cancun, 1000);
    tables.run_opcode(OP_BASEFEE, &mut interp2, &mut host);
    assert_eq!(interp2.gas.remaining, 998);
}

#[test]
fn update_all_composed_twice_equals_layered_update() {
    let mut host = make_host();
    let mut twice = InstructionTables::new_plain();
    twice.update_all(&Wrap::GasSurcharge(5));
    twice.update_all(&Wrap::OnlyWhenRunning);
    let mut once = InstructionTables::new_plain();
    once.update_all(&Wrap::Layered(
        Box::new(Wrap::GasSurcharge(5)),
        Box::new(Wrap::OnlyWhenRunning),
    ));
    let mut b: usize = 0;
    while b < 256 {
        let mut x = fresh(SpecId::Cancun, 1000);
        x.stack.push(Word::from_u64(4));
        let mut y = fresh(SpecId::Cancun, 1000);
        y.stack.push(Word::from_u64(4));
        twice.run_opcode(b as u8, &mut x, &mut host);
        once.run_opcode(b as u8, &mut y, &mut host);
        assert_eq!(x.status, y.status);
        assert_eq!(x.gas.remaining, y.gas.remaining);
        assert_eq!(drain_stack(&mut x), drain_stack(&mut y));
        b += 1;
    }
}

#[test]
fn gas_surcharge_wrap_charges_before_inner_runs() {
    let mut host = make_host();
    let mut tables = InstructionTables::new_plain();
    tables.update_all(&Wrap::GasSurcharge(999));
    let mut interp = fresh(SpecId::Cancun, 100);
    tables.run_opcode(OP_CHAINID, &mut interp, &mut host);
    assert_eq!(interp.status, Status::Error(ErrorKind::OutOfGas));
    assert_eq!(interp.stack.len(), 0);
    assert_eq!(interp.gas.remaining, 100);
}

#[test]
fn only_when_running_wrap_skips_halted_interpreter() {
    let mut host = make_host();
    let mut tables = InstructionTables::new_plain();
    tables.update_all(&Wrap::OnlyWhenRunning);
    let mut interp = fresh(SpecId::Cancun, 100);
    interp.status = Status::Revert;
    tables.run_opcode(OP_CHAINID, &mut interp, &mut host);
    assert_eq!(interp.status, Status::Revert);
    assert_eq!(interp.gas.remaining, 100);
    assert_eq!(interp.stack.len(), 0);
}

#[test]
fn gas_cost_formulas_exact_values() {
    assert_eq!(evm_core::gas::copy_cost(0), 3);
    assert_eq!(evm_core::gas::copy_cost(1), 6);
    assert_eq!(evm_core::gas::copy_cost(32), 6);
    assert_eq!(evm_core::gas::copy_cost(33), 9);
    // quadratic memory expansion: growing to 1024 words costs
    // 3*1024 + 1024*1024/512 = 5120
    let mut host = make_host();
    let mut interp = fresh(SpecId::Cancun, 100_000);
    interp.stack.push(Word::from_u64(0));
    interp.stack.push(Word::from_u64(32736));
    evm_core::instructions::memory::mstore(&mut interp, &mut host);
    assert_eq!(interp.status, Status::Running);
    assert_eq!(interp.memory.len(), 32768);
    assert_eq!(interp.gas.remaining, 100_000 - 3 - 5120);
}

#[test]
fn out_of_gas_on_memory_expansion_leaves_memory() {
    let mut host = make_host();
    let mut interp = fresh(SpecId::Cancun, 4);
    interp.stack.push(Word::from_u64(7));
    interp.stack.push(Word::from_u64(0));
    evm_core::instructions::memory::mstore(&mut interp, &mut host);
    assert_eq!(interp.status, Status::Error(ErrorKind::OutOfGas));
    assert_eq!(interp.memory.len(), 0);
    // the fixed charge happened, the expansion charge did not
    assert_eq!(interp.gas.remaining, 1);
}
