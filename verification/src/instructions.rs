//! Instruction handlers, one function per opcode, each a pure
//! transformation of (interpreter state, host). Every handler follows the
//! same protocol: availability check, static gas charge, operand retrieval,
//! dynamic cost and side effect, result push — short-circuiting by setting
//! a status and returning.

pub mod host_env;
pub mod memory;
pub mod tx_info;

use crate::interpreter::{ErrorKind, Interpreter, SpecId, Status, VmState};
use crate::stack::STACK_LIMIT;
use crate::word::Word;
use vstd::prelude::*;

verus! {

/// The shared shape of the environment-reading instructions: an optional
/// stage gate, a fixed gas charge, then one word pushed.
pub open spec fn spec_env_push(pre: VmState, gate: Option<SpecId>, cost: u64, w: Seq<u8>) -> VmState {
    if (match gate {
        Option::Some(g) => !pre.spec_id.spec_enabled(g),
        Option::None => false,
    }) {
        pre.with_error(ErrorKind::UnsupportedOpcode)
    } else if pre.gas < cost {
        pre.with_error(ErrorKind::OutOfGas)
    } else {
        let p = VmState { gas: (pre.gas - cost) as u64, ..pre };
        if pre.stack.len() >= 1024 {
            p.with_error(ErrorKind::StackOverflow)
        } else {
            VmState { stack: p.stack.push(w), ..p }
        }
    }
}

/// Gate on a stage, charge a fixed cost, push one word.
pub fn push_env_word(interpreter: &mut Interpreter, gate: Option<SpecId>, cost: u64, w: Word)
    requires
        old(interpreter).wf(),
        w.wf(),
    ensures
        final(interpreter).wf(),
        final(interpreter)@ == spec_env_push(old(interpreter)@, gate, cost, w@),
{
    match gate {
        Option::Some(g) => {
            if !interpreter.spec_id.is_enabled(g) {
                interpreter.status = Status::Error(ErrorKind::UnsupportedOpcode);
                proof {
                    assert(interpreter@ =~= spec_env_push(old(interpreter)@, gate, cost, w@));
                }
                return;
            }
        },
        Option::None => {},
    }
    if !interpreter.gas.record_cost(cost) {
        interpreter.status = Status::Error(ErrorKind::OutOfGas);
        proof {
            assert(interpreter@ =~= spec_env_push(old(interpreter)@, gate, cost, w@));
        }
        return;
    }
    if interpreter.stack.len() >= STACK_LIMIT {
        interpreter.status = Status::Error(ErrorKind::StackOverflow);
        proof {
            assert(interpreter@ =~= spec_env_push(old(interpreter)@, gate, cost, w@));
        }
        return;
    }
    interpreter.stack.push(w);
    proof {
        assert(interpreter@ =~= spec_env_push(old(interpreter)@, gate, cost, w@));
    }
}

/// The failure handler of every unassigned opcode byte.
pub open spec fn spec_unknown(pre: VmState) -> VmState {
    pre.with_error(ErrorKind::UnsupportedOpcode)
}

/// Handler installed in every table slot whose byte has no instruction.
pub fn unknown(interpreter: &mut Interpreter)
    requires
        old(interpreter).wf(),
    ensures
        final(interpreter).wf(),
        final(interpreter)@ == spec_unknown(old(interpreter)@),
{
    interpreter.status = Status::Error(ErrorKind::UnsupportedOpcode);
    proof {
        assert(interpreter@ =~= spec_unknown(old(interpreter)@));
    }
}

} // verus!
