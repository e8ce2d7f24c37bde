//! Interpreter state: the protocol stage tag, the status taxonomy, the
//! mathematical state record, and the executable state with its memory
//! growth and gas charging step.

use crate::gas::{
    spec_aligned_len, spec_expansion_cost, spec_grown, spec_memory_gas, spec_num_words, Gas,
};
use crate::shared_memory::SharedMemory;
use crate::stack::Stack;
use vstd::prelude::*;

verus! {

/// Protocol upgrade stages, oldest first. A later stage enables every
/// earlier stage's features.
#[derive(Clone, Copy, PartialEq, Eq, Structural, Debug)]
pub enum SpecId {
    Frontier,
    Istanbul,
    London,
    Merge,
    Cancun,
}

impl SpecId {
    pub open spec fn spec_rank(self) -> int {
        match self {
            SpecId::Frontier => 0,
            SpecId::Istanbul => 1,
            SpecId::London => 2,
            SpecId::Merge => 3,
            SpecId::Cancun => 4,
        }
    }

    /// Whether the features of stage `base` are active at stage `self`.
    pub open spec fn spec_enabled(self, base: SpecId) -> bool {
        self.spec_rank() >= base.spec_rank()
    }

    fn rank(self) -> (r: u8)
        ensures
            r == self.spec_rank(),
    {
        match self {
            SpecId::Frontier => 0,
            SpecId::Istanbul => 1,
            SpecId::London => 2,
            SpecId::Merge => 3,
            SpecId::Cancun => 4,
        }
    }

    pub fn is_enabled(self, base: SpecId) -> (r: bool)
        ensures
            r == self.spec_enabled(base),
    {
        self.rank() >= base.rank()
    }
}

/// The error outcomes an instruction can set.
#[derive(Clone, Copy, PartialEq, Eq, Structural, Debug)]
pub enum ErrorKind {
    OutOfGas,
    StackUnderflow,
    StackOverflow,
    UnsupportedOpcode,
    InvalidMemoryOffset,
}

/// Execution status, observed by the driving loop after every instruction;
/// any status other than `Running` is terminal for the execution.
#[derive(Clone, Copy, PartialEq, Eq, Structural, Debug)]
pub enum Status {
    Running,
    Success,
    Revert,
    Error(ErrorKind),
}

/// The mathematical model of interpreter state.
#[verifier::ext_equal]
pub struct VmState {
    pub pc: nat,
    pub stack: Seq<Seq<u8>>,
    pub memory: Seq<u8>,
    pub gas: u64,
    pub status: Status,
    pub return_data: Seq<u8>,
    pub spec_id: SpecId,
}

impl VmState {
    pub open spec fn with_status(self, st: Status) -> VmState {
        VmState { status: st, ..self }
    }

    pub open spec fn with_error(self, e: ErrorKind) -> VmState {
        VmState { status: Status::Error(e), ..self }
    }

    /// Stack within bounds with full words, memory word-aligned.
    pub open spec fn wf(self) -> bool {
        &&& self.stack.len() <= 1024
        &&& forall|i: int| 0 <= i < self.stack.len() ==> (#[trigger] self.stack[i]).len() == 32
        &&& self.memory.len() % 32 == 0
    }
}

/// Outcome of charging for and performing word-aligned memory growth to
/// cover bytes `[0, end)`: the expansion gas is deducted first; when the
/// budget does not cover it (or the grown size is not addressable) only the
/// status changes.
pub open spec fn spec_resize(pre: VmState, end: nat) -> VmState {
    if spec_resize_ok(pre, end) {
        VmState {
            gas: (pre.gas - spec_expansion_cost(pre.memory.len(), end)) as u64,
            memory: spec_grown(pre.memory, end),
            ..pre
        }
    } else {
        pre.with_error(ErrorKind::OutOfGas)
    }
}

/// Whether the growth to cover `end` bytes is payable and addressable.
pub open spec fn spec_resize_ok(pre: VmState, end: nat) -> bool {
    &&& spec_expansion_cost(pre.memory.len(), end) <= pre.gas
    &&& spec_aligned_len(end) <= usize::MAX || spec_aligned_len(end) <= pre.memory.len()
}

/// For a word-aligned length, the word count and aligned size are exact.
pub proof fn lemma_num_words_aligned(c: nat)
    requires
        c % 32 == 0,
    ensures
        spec_num_words(c) == c / 32,
        spec_num_words(c) * 32 == c,
{
    vstd::arithmetic::div_mod::lemma_fundamental_div_mod(c as int, 32);
    let q = c as int / 32;
    assert(c == 32 * q);
    vstd::arithmetic::div_mod::lemma_div_multiples_vanish_fancy(q as int, 31, 32);
    assert((32 * q + 31) / 32 == q);
    vstd::arithmetic::div_mod::lemma_div_multiples_vanish(q as int, 32);
}

/// State of one interpreter for the duration of one program execution.
pub struct Interpreter {
    pub pc: usize,
    pub stack: Stack,
    pub memory: SharedMemory,
    pub gas: Gas,
    pub status: Status,
    pub return_data: Vec<u8>,
    pub spec_id: SpecId,
}

impl View for Interpreter {
    type V = VmState;

    open spec fn view(&self) -> VmState {
        VmState {
            pc: self.pc as nat,
            stack: self.stack@,
            memory: self.memory@,
            gas: self.gas.remaining,
            status: self.status,
            return_data: self.return_data@,
            spec_id: self.spec_id,
        }
    }
}

impl Interpreter {
    pub open spec fn wf(&self) -> bool {
        &&& self.stack.wf()
        &&& self.memory.wf()
    }

    /// A fresh interpreter: empty stack and memory, full gas budget,
    /// running.
    pub fn new(spec_id: SpecId, gas_limit: u64) -> (r: Interpreter)
        ensures
            r.wf(),
            r@.pc == 0,
            r@.stack =~= Seq::<Seq<u8>>::empty(),
            r@.memory =~= Seq::<u8>::empty(),
            r@.gas == gas_limit,
            r@.status == Status::Running,
            r@.return_data =~= Seq::<u8>::empty(),
            r@.spec_id == spec_id,
    {
        Interpreter {
            pc: 0,
            stack: Stack::new(),
            memory: SharedMemory::new(),
            gas: Gas::new(gas_limit),
            status: Status::Running,
            return_data: Vec::new(),
            spec_id,
        }
    }

    /// Charges the word-aligned expansion cost for an access ending at byte
    /// `offset + width` and grows memory accordingly; on an unpayable charge
    /// it sets the out-of-gas status and mutates nothing else.
    pub fn resize_memory(&mut self, offset: usize, width: usize) -> (ok: bool)
        requires
            old(self).wf(),
        ensures
            final(self).wf(),
            ok == spec_resize_ok(old(self)@, offset as nat + width as nat),
            final(self)@ == spec_resize(old(self)@, offset as nat + width as nat),
    {
        let end: u128 = offset as u128 + width as u128;
        let cur_len: usize = self.memory.len();
        proof {
            lemma_num_words_aligned(cur_len as nat);
        }
        let cur_words: u128 = (cur_len as u128 + 31) / 32;
        let new_words: u128 = (end + 31) / 32;
        if new_words <= cur_words {
            proof {
                assert(spec_expansion_cost(old(self)@.memory.len(), end as nat) == 0);
                assert(spec_aligned_len(end as nat) <= old(self)@.memory.len());
                assert(self@ =~= spec_resize(old(self)@, end as nat));
            }
            return true;
        }
        proof {
            crate::gas::lemma_memory_gas_mono(cur_words as nat, new_words as nat);
            assert(new_words * new_words <= 0x4000000000000000 * 0x4000000000000000)
                by (nonlinear_arith)
                requires
                    new_words <= 0x4000000000000000,
            ;
        }
        let cost: u128 = (3 * new_words + (new_words * new_words) / 512) - (3 * cur_words + (
        cur_words * cur_words) / 512);
        let new_len_wide: u128 = new_words * 32;
        if cost <= self.gas.remaining() as u128 && new_len_wide <= usize::MAX as u128 {
            let _charged = self.gas.record_cost(cost as u64);
            self.memory.grow_to(new_len_wide as usize);
            proof {
                assert(spec_grown(old(self)@.memory, end as nat) =~= self@.memory);
                assert(self@ =~= spec_resize(old(self)@, end as nat));
            }
            true
        } else {
            self.status = Status::Error(ErrorKind::OutOfGas);
            proof {
                assert(!spec_resize_ok(old(self)@, end as nat));
                assert(self@ =~= spec_resize(old(self)@, end as nat));
            }
            false
        }
    }
}

} // verus!
