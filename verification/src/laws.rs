//! Laws the library states of itself, proved over the instruction
//! specifications rather than over chosen values.

use crate::gas;
use crate::host::HostModel;
use crate::instructions::host_env;
use crate::instructions::memory;
use crate::interpreter::{spec_resize, spec_resize_ok, ErrorKind, SpecId, Status, VmState};
use crate::opcode::tables::{
    boxed_size, spec_boxed, spec_instruction, spec_opcode_instruction, wrap_size, BoxedInstruction,
    Instruction, Wrap, OP_BASEFEE, OP_BLOBBASEFEE, OP_BLOBHASH, OP_CHAINID, OP_COINBASE,
    OP_DIFFICULTY, OP_GASLIMIT, OP_GASPRICE, OP_MCOPY, OP_MLOAD, OP_MSIZE, OP_MSTORE, OP_MSTORE8,
    OP_NUMBER, OP_ORIGIN, OP_TIMESTAMP,
};
use crate::word::{bytes_as_nat, word_zero};
use vstd::prelude::*;

verus! {

/// Every opcode byte has a defined slot, and a byte that carries no
/// assigned instruction resolves to the failure handler.
pub proof fn lemma_unassigned_byte_resolves_to_unknown(b: u8)
    requires
        b != OP_ORIGIN,
        b != OP_GASPRICE,
        b != OP_COINBASE,
        b != OP_TIMESTAMP,
        b != OP_NUMBER,
        b != OP_DIFFICULTY,
        b != OP_GASLIMIT,
        b != OP_CHAINID,
        b != OP_BASEFEE,
        b != OP_BLOBHASH,
        b != OP_BLOBBASEFEE,
        b != OP_MLOAD,
        b != OP_MSTORE,
        b != OP_MSTORE8,
        b != OP_MSIZE,
        b != OP_MCOPY,
    ensures
        spec_opcode_instruction(b) == Instruction::Unknown,
{
}

/// The common frame of the environment-reading instructions: they never
/// touch memory, never gain gas, and on a failed charge they leave stack
/// and gas untouched.
pub proof fn lemma_env_push_frame(pre: VmState, gate: Option<SpecId>, cost: u64, w: Seq<u8>)
    ensures
        crate::instructions::spec_env_push(pre, gate, cost, w).memory == pre.memory,
        crate::instructions::spec_env_push(pre, gate, cost, w).gas <= pre.gas,
        crate::instructions::spec_env_push(pre, gate, cost, w).status == Status::Error(
            ErrorKind::OutOfGas,
        ) && pre.status == Status::Running ==> crate::instructions::spec_env_push(
            pre,
            gate,
            cost,
            w,
        ).stack == pre.stack && crate::instructions::spec_env_push(pre, gate, cost, w).gas
            == pre.gas,
{
}

/// Gas is deducted before any corresponding mutation becomes visible: a
/// running instruction that ends out of gas has mutated no memory, has
/// consumed at most its already-validated operands from the stack (never
/// pushed or stored), and has not gained gas.
#[verifier::rlimit(100)]
pub proof fn lemma_gas_before_effect(i: Instruction, pre: VmState, h: HostModel)
    requires
        pre.status == Status::Running,
    ensures
        spec_instruction(i, pre, h).status == Status::Error(ErrorKind::OutOfGas) ==> {
            let post = spec_instruction(i, pre, h);
            &&& post.memory == pre.memory
            &&& post.stack == pre.stack.take(post.stack.len() as int)
            &&& post.gas <= pre.gas
        },
{
    let post = spec_instruction(i, pre, h);
    assert(pre.stack.take(pre.stack.len() as int) =~= pre.stack);
    if pre.stack.len() >= 2 {
        assert(pre.stack.take(pre.stack.len() - 2).len() == pre.stack.len() - 2);
    }
    if pre.stack.len() >= 3 {
        assert(pre.stack.take(pre.stack.len() - 3).len() == pre.stack.len() - 3);
    }
    match i {
        Instruction::ChainId => lemma_env_push_frame(
            pre,
            Option::Some(SpecId::Istanbul),
            gas::BASE,
            crate::word::word_from_u64(h.chain_id),
        ),
        Instruction::Coinbase => lemma_env_push_frame(pre, Option::None, gas::BASE, h.coinbase),
        Instruction::Timestamp => lemma_env_push_frame(pre, Option::None, gas::BASE, h.timestamp),
        Instruction::Number => lemma_env_push_frame(pre, Option::None, gas::BASE, h.number),
        Instruction::Difficulty => {
            if pre.spec_id.spec_enabled(SpecId::Merge) {
                lemma_env_push_frame(pre, Option::None, gas::BASE, h.randomness);
            } else {
                lemma_env_push_frame(pre, Option::None, gas::BASE, h.difficulty);
            }
        },
        Instruction::GasLimit => lemma_env_push_frame(pre, Option::None, gas::BASE, h.gas_limit),
        Instruction::GasPrice => lemma_env_push_frame(
            pre,
            Option::None,
            gas::BASE,
            h.effective_gas_price,
        ),
        Instruction::BaseFee => lemma_env_push_frame(
            pre,
            Option::Some(SpecId::London),
            gas::BASE,
            h.basefee,
        ),
        Instruction::Origin => lemma_env_push_frame(pre, Option::None, gas::BASE, h.caller),
        Instruction::BlobBaseFee => lemma_env_push_frame(
            pre,
            Option::Some(SpecId::Cancun),
            gas::BASE,
            crate::word::word_from_u64(
                match h.blob_gasprice {
                    Option::Some(p) => p,
                    Option::None => 0,
                },
            ),
        ),
        Instruction::MSize => lemma_env_push_frame(
            pre,
            Option::None,
            gas::BASE,
            crate::word::word_from_u64(pre.memory.len() as u64),
        ),
        _ => {},
    }
}

/// Whether an instruction can touch memory at all.
pub open spec fn spec_touches_memory(i: Instruction) -> bool {
    match i {
        Instruction::MLoad => true,
        Instruction::MStore => true,
        Instruction::MStore8 => true,
        Instruction::MCopy => true,
        _ => false,
    }
}

/// Every instruction outside the memory group leaves memory untouched.
#[verifier::rlimit(100)]
pub proof fn lemma_non_memory_frame(i: Instruction, pre: VmState, h: HostModel)
    requires
        !spec_touches_memory(i),
    ensures
        spec_instruction(i, pre, h).memory == pre.memory,
{
    match i {
        Instruction::ChainId => lemma_env_push_frame(
            pre,
            Option::Some(SpecId::Istanbul),
            gas::BASE,
            crate::word::word_from_u64(h.chain_id),
        ),
        Instruction::Coinbase => lemma_env_push_frame(pre, Option::None, gas::BASE, h.coinbase),
        Instruction::Timestamp => lemma_env_push_frame(pre, Option::None, gas::BASE, h.timestamp),
        Instruction::Number => lemma_env_push_frame(pre, Option::None, gas::BASE, h.number),
        Instruction::Difficulty => {
            if pre.spec_id.spec_enabled(SpecId::Merge) {
                lemma_env_push_frame(pre, Option::None, gas::BASE, h.randomness);
            } else {
                lemma_env_push_frame(pre, Option::None, gas::BASE, h.difficulty);
            }
        },
        Instruction::GasLimit => lemma_env_push_frame(pre, Option::None, gas::BASE, h.gas_limit),
        Instruction::GasPrice => lemma_env_push_frame(
            pre,
            Option::None,
            gas::BASE,
            h.effective_gas_price,
        ),
        Instruction::BaseFee => lemma_env_push_frame(
            pre,
            Option::Some(SpecId::London),
            gas::BASE,
            h.basefee,
        ),
        Instruction::Origin => lemma_env_push_frame(pre, Option::None, gas::BASE, h.caller),
        Instruction::BlobHash => {
            assert(host_env::spec_blob_hash(pre, h).memory == pre.memory);
        },
        Instruction::BlobBaseFee => lemma_env_push_frame(
            pre,
            Option::Some(SpecId::Cancun),
            gas::BASE,
            crate::word::word_from_u64(
                match h.blob_gasprice {
                    Option::Some(p) => p,
                    Option::None => 0,
                },
            ),
        ),
        Instruction::MSize => lemma_env_push_frame(
            pre,
            Option::None,
            gas::BASE,
            crate::word::word_from_u64(pre.memory.len() as u64),
        ),
        _ => {},
    }
}

/// Memory never shrinks: every instruction leaves memory at least as long
/// as it found it, whatever the outcome.
#[verifier::rlimit(100)]
pub proof fn lemma_memory_never_shrinks(i: Instruction, pre: VmState, h: HostModel)
    requires
        pre.wf(),
    ensures
        spec_instruction(i, pre, h).memory.len() >= pre.memory.len(),
{
    if !spec_touches_memory(i) {
        lemma_non_memory_frame(i, pre, h);
    }
    match i {
        Instruction::MLoad => {
            if pre.gas >= gas::VERYLOW && pre.stack.len() > 0 {
                let off = bytes_as_nat(pre.stack.last());
                if off <= usize::MAX {
                    gas::lemma_aligned_covers(off + 32);
                }
            }
            assert(memory::spec_mload(pre).memory.len() >= pre.memory.len());
        },
        Instruction::MStore => {
            if pre.gas >= gas::VERYLOW && pre.stack.len() >= 2 {
                let off = bytes_as_nat(pre.stack[pre.stack.len() - 1]);
                if off <= usize::MAX {
                    gas::lemma_aligned_covers(off + 32);
                }
            }
            assert(memory::spec_mstore(pre).memory.len() >= pre.memory.len());
        },
        Instruction::MStore8 => {
            if pre.gas >= gas::VERYLOW && pre.stack.len() >= 2 {
                let off = bytes_as_nat(pre.stack[pre.stack.len() - 1]);
                if off <= usize::MAX {
                    gas::lemma_aligned_covers(off + 1);
                }
            }
            assert(memory::spec_mstore8(pre).memory.len() >= pre.memory.len());
        },
        Instruction::MCopy => {
            if pre.stack.len() >= 3 {
                let d = bytes_as_nat(pre.stack[pre.stack.len() - 1]);
                let s = bytes_as_nat(pre.stack[pre.stack.len() - 2]);
                let l = bytes_as_nat(pre.stack[pre.stack.len() - 3]);
                let m = if d > s {
                    d
                } else {
                    s
                };
                gas::lemma_aligned_covers(m + l);
            }
            assert(memory::spec_mcopy(pre).memory.len() >= pre.memory.len());
        },
        _ => {
            assert(spec_instruction(i, pre, h).memory == pre.memory);
        },
    }
}

/// Memory never shrinks through a patchable entry either, under any
/// layering of instrumentation.
pub proof fn lemma_boxed_memory_never_shrinks(e: BoxedInstruction, pre: VmState, h: HostModel)
    requires
        pre.wf(),
    ensures
        spec_boxed(e, pre, h).memory.len() >= pre.memory.len(),
    decreases boxed_size(e),
{
    match e {
        BoxedInstruction::Base(i) => lemma_memory_never_shrinks(i, pre, h),
        BoxedInstruction::Wrapped(prev, w) => match w {
            Wrap::Passthrough => lemma_boxed_memory_never_shrinks(*prev, pre, h),
            Wrap::GasSurcharge(c) => {
                if pre.gas >= c {
                    lemma_boxed_memory_never_shrinks(
                        *prev,
                        VmState { gas: (pre.gas - c) as u64, ..pre },
                        h,
                    );
                }
            },
            Wrap::OnlyWhenRunning => {
                if pre.status is Running {
                    lemma_boxed_memory_never_shrinks(*prev, pre, h);
                }
            },
            Wrap::Layered(a, b) => {
                let inner = BoxedInstruction::Wrapped(prev, *a);
                let full = BoxedInstruction::Wrapped(Box::new(inner), *b);
                assert(boxed_size(inner) == 1 + boxed_size(*prev) + wrap_size(*a));
                assert(boxed_size(full) == 1 + boxed_size(inner) + wrap_size(*b));
                assert(wrap_size(w) == 2 + wrap_size(*a) + wrap_size(*b));
                assert(boxed_size(e) == 1 + boxed_size(*prev) + wrap_size(w));
                lemma_boxed_memory_never_shrinks(full, pre, h);
            },
        },
    }
}

/// Word-aligned growth: growing to cover an access that ends at byte
/// `end` keeps the memory length a multiple of 32, and when the charge
/// succeeds the new length covers `end`.
pub proof fn lemma_resize_word_aligned(pre: VmState, end: nat)
    requires
        pre.memory.len() % 32 == 0,
    ensures
        spec_resize(pre, end).memory.len() % 32 == 0,
        spec_resize_ok(pre, end) ==> spec_resize(pre, end).memory.len() >= end,
{
    gas::lemma_aligned_covers(end);
    vstd::arithmetic::div_mod::lemma_mod_multiples_basic(
        gas::spec_num_words(end) as int,
        32,
    );
}

/// Every instruction keeps the memory length word-aligned.
#[verifier::rlimit(100)]
pub proof fn lemma_growth_word_aligned(i: Instruction, pre: VmState, h: HostModel)
    requires
        pre.wf(),
    ensures
        spec_instruction(i, pre, h).memory.len() % 32 == 0,
{
    if !spec_touches_memory(i) {
        lemma_non_memory_frame(i, pre, h);
    }
    match i {
        Instruction::MLoad => {
            if pre.gas >= gas::VERYLOW && pre.stack.len() > 0 {
                let off = bytes_as_nat(pre.stack.last());
                if off <= usize::MAX {
                    let p = VmState { gas: (pre.gas - gas::VERYLOW) as u64, ..pre };
                    lemma_resize_word_aligned(p, off + 32);
                }
            }
        },
        Instruction::MStore => {
            if pre.gas >= gas::VERYLOW && pre.stack.len() >= 2 {
                let off = bytes_as_nat(pre.stack[pre.stack.len() - 1]);
                if off <= usize::MAX {
                    let p2 = VmState {
                        gas: (pre.gas - gas::VERYLOW) as u64,
                        stack: pre.stack.take(pre.stack.len() - 2),
                        ..pre
                    };
                    lemma_resize_word_aligned(p2, off + 32);
                    gas::lemma_aligned_covers(off + 32);
                }
            }
        },
        Instruction::MStore8 => {
            if pre.gas >= gas::VERYLOW && pre.stack.len() >= 2 {
                let off = bytes_as_nat(pre.stack[pre.stack.len() - 1]);
                if off <= usize::MAX {
                    let p2 = VmState {
                        gas: (pre.gas - gas::VERYLOW) as u64,
                        stack: pre.stack.take(pre.stack.len() - 2),
                        ..pre
                    };
                    lemma_resize_word_aligned(p2, off + 1);
                }
            }
        },
        Instruction::MCopy => {
            if pre.spec_id.spec_enabled(SpecId::Cancun) && pre.stack.len() >= 3 {
                let d = bytes_as_nat(pre.stack[pre.stack.len() - 1]);
                let s = bytes_as_nat(pre.stack[pre.stack.len() - 2]);
                let l = bytes_as_nat(pre.stack[pre.stack.len() - 3]);
                let m = if d > s {
                    d
                } else {
                    s
                };
                let p = VmState { stack: pre.stack.take(pre.stack.len() - 3), ..pre };
                if l <= usize::MAX && p.gas >= gas::spec_copy_cost(l) {
                    let p2 = VmState { gas: (p.gas - gas::spec_copy_cost(l)) as u64, ..p };
                    lemma_resize_word_aligned(p2, m + l);
                    gas::lemma_aligned_covers(m + l);
                }
            }
        },
        _ => {},
    }
}

/// An out-of-range blob-hash index yields the zero word and no error:
/// the status is untouched and the top of the stack becomes zero.
pub proof fn lemma_blob_hash_out_of_range(pre: VmState, h: HostModel)
    requires
        pre.spec_id.spec_enabled(SpecId::Cancun),
        pre.gas >= gas::VERYLOW,
        pre.stack.len() > 0,
        bytes_as_nat(pre.stack.last()) >= h.blob_hashes.len(),
    ensures
        host_env::spec_blob_hash(pre, h).status == pre.status,
        host_env::spec_blob_hash(pre, h).stack.len() == pre.stack.len(),
        host_env::spec_blob_hash(pre, h).stack.last() == word_zero(),
{
}

/// With the same host state and interpreter states differing only in the
/// stage flag, the difficulty instruction pushes the raw difficulty value
/// before the merge stage and the randomness value from it on.
pub proof fn lemma_difficulty_stage(pre_early: VmState, pre_late: VmState, h: HostModel)
    requires
        pre_late == (VmState { spec_id: pre_late.spec_id, ..pre_early }),
        !pre_early.spec_id.spec_enabled(SpecId::Merge),
        pre_late.spec_id.spec_enabled(SpecId::Merge),
        pre_early.gas >= gas::BASE,
        pre_early.stack.len() < 1024,
    ensures
        host_env::spec_difficulty(pre_early, h).stack == pre_early.stack.push(h.difficulty),
        host_env::spec_difficulty(pre_late, h).stack == pre_late.stack.push(h.randomness),
{
}

/// A zero-length copy charges exactly the fixed cost for length zero and
/// performs no memory mutation.
pub proof fn lemma_mcopy_zero_length(pre: VmState)
    requires
        pre.spec_id.spec_enabled(SpecId::Cancun),
        pre.stack.len() >= 3,
        bytes_as_nat(pre.stack[pre.stack.len() - 3]) == 0,
        pre.gas >= gas::spec_copy_cost(0),
    ensures
        memory::spec_mcopy(pre).memory == pre.memory,
        memory::spec_mcopy(pre).gas == pre.gas - gas::spec_copy_cost(0),
        memory::spec_mcopy(pre).status == pre.status,
        memory::spec_mcopy(pre).stack == pre.stack.take(pre.stack.len() - 3),
{
}

/// A bare patchable entry transitions states exactly as its instruction:
/// converting the static table to the patchable one changes no behaviour.
pub proof fn lemma_plain_boxed_equivalence(i: Instruction, pre: VmState, h: HostModel)
    ensures
        spec_boxed(BoxedInstruction::Base(i), pre, h) == spec_instruction(i, pre, h),
{
}

/// Updating every entry twice, first with `w1` and then with `w2`, is
/// equivalent to a single update with the two layers in composition
/// order.
pub proof fn lemma_update_all_composes(
    e: BoxedInstruction,
    w1: Wrap,
    w2: Wrap,
    pre: VmState,
    h: HostModel,
)
    ensures
        spec_boxed(
            BoxedInstruction::Wrapped(Box::new(BoxedInstruction::Wrapped(Box::new(e), w1)), w2),
            pre,
            h,
        ) == spec_boxed(
            BoxedInstruction::Wrapped(Box::new(e), Wrap::Layered(Box::new(w1), Box::new(w2))),
            pre,
            h,
        ),
{
}

} // verus!
