//! Memory instructions: word and byte access, the memory-size read, and
//! the overlap-safe memory-to-memory copy. Each computes its byte offsets
//! from popped words, charges the word-aligned growth cost, and only then
//! touches memory.

use crate::gas;
use crate::host::Host;
use crate::instructions::{push_env_word, spec_env_push};
use crate::interpreter::{
    spec_resize, spec_resize_ok, ErrorKind, Interpreter, SpecId, Status, VmState,
};
use crate::word::{bytes_as_nat, word_from_u64, Word};
use vstd::prelude::*;

verus! {

/// MLOAD: replaces the top word (an offset) with the 32 memory bytes at
/// that offset, growing memory to cover them.
pub open spec fn spec_mload(pre: VmState) -> VmState {
    if pre.gas < gas::VERYLOW {
        pre.with_error(ErrorKind::OutOfGas)
    } else {
        let p = VmState { gas: (pre.gas - gas::VERYLOW) as u64, ..pre };
        if pre.stack.len() == 0 {
            p.with_error(ErrorKind::StackUnderflow)
        } else {
            let off = bytes_as_nat(pre.stack.last());
            if off > usize::MAX {
                p.with_error(ErrorKind::InvalidMemoryOffset)
            } else if !spec_resize_ok(p, off + 32) {
                p.with_error(ErrorKind::OutOfGas)
            } else {
                let q = spec_resize(p, off + 32);
                VmState {
                    stack: q.stack.update(
                        q.stack.len() - 1,
                        q.memory.subrange(off as int, off as int + 32),
                    ),
                    ..q
                }
            }
        }
    }
}

pub fn mload<H: Host>(interpreter: &mut Interpreter, _host: &mut H)
    requires
        old(interpreter).wf(),
    ensures
        final(interpreter).wf(),
        final(interpreter)@ == spec_mload(old(interpreter)@),
        *final(_host) == *old(_host),
{
    if !interpreter.gas.record_cost(gas::VERYLOW) {
        interpreter.status = Status::Error(ErrorKind::OutOfGas);
        proof {
            assert(interpreter@ =~= spec_mload(old(interpreter)@));
        }
        return;
    }
    if interpreter.stack.len() == 0 {
        interpreter.status = Status::Error(ErrorKind::StackUnderflow);
        proof {
            assert(interpreter@ =~= spec_mload(old(interpreter)@));
        }
        return;
    }
    let top = interpreter.stack.peek();
    match top.to_usize() {
        Option::None => {
            interpreter.status = Status::Error(ErrorKind::InvalidMemoryOffset);
            proof {
                assert(interpreter@ =~= spec_mload(old(interpreter)@));
            }
        },
        Option::Some(offset) => {
            if !interpreter.resize_memory(offset, 32) {
                proof {
                    assert(interpreter@ =~= spec_mload(old(interpreter)@));
                }
                return;
            }
            proof {
                gas::lemma_aligned_covers(offset as nat + 32);
            }
            let w = interpreter.memory.get_word(offset);
            interpreter.stack.set_top(w);
            proof {
                assert(interpreter@ =~= spec_mload(old(interpreter)@));
            }
        },
    }
}

/// MSTORE: pops an offset and a value, grows memory to cover the 32 bytes
/// at the offset, and writes the value there.
pub open spec fn spec_mstore(pre: VmState) -> VmState {
    if pre.gas < gas::VERYLOW {
        pre.with_error(ErrorKind::OutOfGas)
    } else {
        let p = VmState { gas: (pre.gas - gas::VERYLOW) as u64, ..pre };
        if pre.stack.len() < 2 {
            p.with_error(ErrorKind::StackUnderflow)
        } else {
            let off_b = pre.stack[pre.stack.len() - 1];
            let val_b = pre.stack[pre.stack.len() - 2];
            let p2 = VmState { stack: pre.stack.take(pre.stack.len() - 2), ..p };
            let off = bytes_as_nat(off_b);
            if off > usize::MAX {
                p2.with_error(ErrorKind::InvalidMemoryOffset)
            } else if !spec_resize_ok(p2, off + 32) {
                p2.with_error(ErrorKind::OutOfGas)
            } else {
                let q = spec_resize(p2, off + 32);
                VmState {
                    memory: q.memory.subrange(0, off as int) + val_b + q.memory.subrange(
                        off as int + 32,
                        q.memory.len() as int,
                    ),
                    ..q
                }
            }
        }
    }
}

pub fn mstore<H: Host>(interpreter: &mut Interpreter, _host: &mut H)
    requires
        old(interpreter).wf(),
    ensures
        final(interpreter).wf(),
        final(interpreter)@ == spec_mstore(old(interpreter)@),
        *final(_host) == *old(_host),
{
    if !interpreter.gas.record_cost(gas::VERYLOW) {
        interpreter.status = Status::Error(ErrorKind::OutOfGas);
        proof {
            assert(interpreter@ =~= spec_mstore(old(interpreter)@));
        }
        return;
    }
    if interpreter.stack.len() < 2 {
        interpreter.status = Status::Error(ErrorKind::StackUnderflow);
        proof {
            assert(interpreter@ =~= spec_mstore(old(interpreter)@));
        }
        return;
    }
    let off_w = interpreter.stack.pop();
    let value = interpreter.stack.pop();
    proof {
        assert(interpreter@.stack =~= old(interpreter)@.stack.take(
            old(interpreter)@.stack.len() - 2,
        ));
    }
    match off_w.to_usize() {
        Option::None => {
            interpreter.status = Status::Error(ErrorKind::InvalidMemoryOffset);
            proof {
                assert(interpreter@ =~= spec_mstore(old(interpreter)@));
            }
        },
        Option::Some(offset) => {
            if !interpreter.resize_memory(offset, 32) {
                proof {
                    assert(interpreter@ =~= spec_mstore(old(interpreter)@));
                }
                return;
            }
            proof {
                gas::lemma_aligned_covers(offset as nat + 32);
            }
            interpreter.memory.set_word(offset, &value);
            proof {
                assert(interpreter@ =~= spec_mstore(old(interpreter)@));
            }
        },
    }
}

/// MSTORE8: pops an offset and a value, grows memory to cover one byte at
/// the offset, and writes the value's least significant byte there.
pub open spec fn spec_mstore8(pre: VmState) -> VmState {
    if pre.gas < gas::VERYLOW {
        pre.with_error(ErrorKind::OutOfGas)
    } else {
        let p = VmState { gas: (pre.gas - gas::VERYLOW) as u64, ..pre };
        if pre.stack.len() < 2 {
            p.with_error(ErrorKind::StackUnderflow)
        } else {
            let off_b = pre.stack[pre.stack.len() - 1];
            let val_b = pre.stack[pre.stack.len() - 2];
            let p2 = VmState { stack: pre.stack.take(pre.stack.len() - 2), ..p };
            let off = bytes_as_nat(off_b);
            if off > usize::MAX {
                p2.with_error(ErrorKind::InvalidMemoryOffset)
            } else if !spec_resize_ok(p2, off + 1) {
                p2.with_error(ErrorKind::OutOfGas)
            } else {
                let q = spec_resize(p2, off + 1);
                VmState { memory: q.memory.update(off as int, val_b[31]), ..q }
            }
        }
    }
}

pub fn mstore8<H: Host>(interpreter: &mut Interpreter, _host: &mut H)
    requires
        old(interpreter).wf(),
    ensures
        final(interpreter).wf(),
        final(interpreter)@ == spec_mstore8(old(interpreter)@),
        *final(_host) == *old(_host),
{
    if !interpreter.gas.record_cost(gas::VERYLOW) {
        interpreter.status = Status::Error(ErrorKind::OutOfGas);
        proof {
            assert(interpreter@ =~= spec_mstore8(old(interpreter)@));
        }
        return;
    }
    if interpreter.stack.len() < 2 {
        interpreter.status = Status::Error(ErrorKind::StackUnderflow);
        proof {
            assert(interpreter@ =~= spec_mstore8(old(interpreter)@));
        }
        return;
    }
    let off_w = interpreter.stack.pop();
    let value = interpreter.stack.pop();
    proof {
        assert(interpreter@.stack =~= old(interpreter)@.stack.take(
            old(interpreter)@.stack.len() - 2,
        ));
    }
    match off_w.to_usize() {
        Option::None => {
            interpreter.status = Status::Error(ErrorKind::InvalidMemoryOffset);
            proof {
                assert(interpreter@ =~= spec_mstore8(old(interpreter)@));
            }
        },
        Option::Some(offset) => {
            if !interpreter.resize_memory(offset, 1) {
                proof {
                    assert(interpreter@ =~= spec_mstore8(old(interpreter)@));
                }
                return;
            }
            proof {
                gas::lemma_aligned_covers(offset as nat + 1);
            }
            interpreter.memory.set_byte(offset, value.least_byte());
            proof {
                assert(interpreter@ =~= spec_mstore8(old(interpreter)@));
            }
        },
    }
}

/// MSIZE: pushes the current memory length in bytes.
pub open spec fn spec_msize(pre: VmState) -> VmState {
    spec_env_push(pre, Option::None, gas::BASE, word_from_u64(pre.memory.len() as u64))
}

pub fn msize<H: Host>(interpreter: &mut Interpreter, _host: &mut H)
    requires
        old(interpreter).wf(),
    ensures
        final(interpreter).wf(),
        final(interpreter)@ == spec_msize(old(interpreter)@),
        *final(_host) == *old(_host),
{
    let n = interpreter.memory.len();
    let w = Word::from_u64(n as u64);
    push_env_word(interpreter, Option::None, gas::BASE, w);
}

/// MCOPY: gated on Cancun; pops destination, source and length, charges
/// the length-dependent copy cost, then grows memory to cover the larger
/// range and copies as if through an intermediate buffer. A zero length
/// charges the fixed cost and performs no memory mutation.
pub open spec fn spec_mcopy(pre: VmState) -> VmState {
    if !pre.spec_id.spec_enabled(SpecId::Cancun) {
        pre.with_error(ErrorKind::UnsupportedOpcode)
    } else if pre.stack.len() < 3 {
        pre.with_error(ErrorKind::StackUnderflow)
    } else {
        let dst_b = pre.stack[pre.stack.len() - 1];
        let src_b = pre.stack[pre.stack.len() - 2];
        let len_b = pre.stack[pre.stack.len() - 3];
        let p = VmState { stack: pre.stack.take(pre.stack.len() - 3), ..pre };
        let l = bytes_as_nat(len_b);
        if l > usize::MAX {
            p.with_error(ErrorKind::InvalidMemoryOffset)
        } else if p.gas < gas::spec_copy_cost(l) {
            p.with_error(ErrorKind::OutOfGas)
        } else {
            let p2 = VmState { gas: (p.gas - gas::spec_copy_cost(l)) as u64, ..p };
            if l == 0 {
                p2
            } else {
                let d = bytes_as_nat(dst_b);
                let s = bytes_as_nat(src_b);
                if d > usize::MAX || s > usize::MAX {
                    p2.with_error(ErrorKind::InvalidMemoryOffset)
                } else {
                    let m = if d > s {
                        d
                    } else {
                        s
                    };
                    if !spec_resize_ok(p2, m + l) {
                        p2.with_error(ErrorKind::OutOfGas)
                    } else {
                        let q = spec_resize(p2, m + l);
                        VmState {
                            memory: q.memory.subrange(0, d as int) + q.memory.subrange(
                                s as int,
                                s as int + l,
                            ) + q.memory.subrange(d as int + l, q.memory.len() as int),
                            ..q
                        }
                    }
                }
            }
        }
    }
}

pub fn mcopy<H: Host>(interpreter: &mut Interpreter, _host: &mut H)
    requires
        old(interpreter).wf(),
    ensures
        final(interpreter).wf(),
        final(interpreter)@ == spec_mcopy(old(interpreter)@),
        *final(_host) == *old(_host),
{
    if !interpreter.spec_id.is_enabled(SpecId::Cancun) {
        interpreter.status = Status::Error(ErrorKind::UnsupportedOpcode);
        proof {
            assert(interpreter@ =~= spec_mcopy(old(interpreter)@));
        }
        return;
    }
    if interpreter.stack.len() < 3 {
        interpreter.status = Status::Error(ErrorKind::StackUnderflow);
        proof {
            assert(interpreter@ =~= spec_mcopy(old(interpreter)@));
        }
        return;
    }
    let dst_w = interpreter.stack.pop();
    let src_w = interpreter.stack.pop();
    let len_w = interpreter.stack.pop();
    proof {
        assert(interpreter@.stack =~= old(interpreter)@.stack.take(
            old(interpreter)@.stack.len() - 3,
        ));
    }
    let l = match len_w.to_usize() {
        Option::None => {
            interpreter.status = Status::Error(ErrorKind::InvalidMemoryOffset);
            proof {
                assert(interpreter@ =~= spec_mcopy(old(interpreter)@));
            }
            return;
        },
        Option::Some(l) => l,
    };
    let c = gas::copy_cost(l);
    if !interpreter.gas.record_cost(c) {
        interpreter.status = Status::Error(ErrorKind::OutOfGas);
        proof {
            assert(interpreter@ =~= spec_mcopy(old(interpreter)@));
        }
        return;
    }
    if l == 0 {
        proof {
            assert(interpreter@ =~= spec_mcopy(old(interpreter)@));
        }
        return;
    }
    let d = match dst_w.to_usize() {
        Option::None => {
            interpreter.status = Status::Error(ErrorKind::InvalidMemoryOffset);
            proof {
                assert(interpreter@ =~= spec_mcopy(old(interpreter)@));
            }
            return;
        },
        Option::Some(d) => d,
    };
    let s = match src_w.to_usize() {
        Option::None => {
            interpreter.status = Status::Error(ErrorKind::InvalidMemoryOffset);
            proof {
                assert(interpreter@ =~= spec_mcopy(old(interpreter)@));
            }
            return;
        },
        Option::Some(s) => s,
    };
    let m = if d > s {
        d
    } else {
        s
    };
    if !interpreter.resize_memory(m, l) {
        proof {
            assert(interpreter@ =~= spec_mcopy(old(interpreter)@));
        }
        return;
    }
    proof {
        gas::lemma_aligned_covers(m as nat + l as nat);
    }
    interpreter.memory.copy_within(d, s, l);
    proof {
        assert(interpreter@ =~= spec_mcopy(old(interpreter)@));
    }
}

} // verus!
