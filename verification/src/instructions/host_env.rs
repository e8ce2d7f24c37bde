//! Environment and block-context instructions: each reads host-exposed
//! fields and pushes a single word, gated by the relevant stage check
//! where the protocol requires one.

use crate::gas;
use crate::host::{Host, HostModel};
use crate::instructions::{push_env_word, spec_env_push};
use crate::interpreter::{ErrorKind, Interpreter, SpecId, VmState};
use crate::word::{bytes_as_nat, word_from_u64, word_zero, Word};
use vstd::prelude::*;

verus! {

/// CHAINID: gated on Istanbul, pushes the chain identifier.
pub open spec fn spec_chainid(pre: VmState, h: HostModel) -> VmState {
    spec_env_push(pre, Option::Some(SpecId::Istanbul), gas::BASE, word_from_u64(h.chain_id))
}

pub fn chainid<H: Host>(interpreter: &mut Interpreter, host: &mut H)
    requires
        old(interpreter).wf(),
        old(host).wf(),
    ensures
        final(interpreter).wf(),
        final(interpreter)@ == spec_chainid(old(interpreter)@, old(host).model()),
        *final(host) == *old(host),
{
    let w = Word::from_u64(host.chain_id());
    push_env_word(interpreter, Option::Some(SpecId::Istanbul), gas::BASE, w);
}

/// COINBASE: pushes the block's coinbase address as a word.
pub open spec fn spec_coinbase(pre: VmState, h: HostModel) -> VmState {
    spec_env_push(pre, Option::None, gas::BASE, h.coinbase)
}

pub fn coinbase<H: Host>(interpreter: &mut Interpreter, host: &mut H)
    requires
        old(interpreter).wf(),
        old(host).wf(),
    ensures
        final(interpreter).wf(),
        final(interpreter)@ == spec_coinbase(old(interpreter)@, old(host).model()),
        *final(host) == *old(host),
{
    let w = host.coinbase();
    push_env_word(interpreter, Option::None, gas::BASE, w);
}

/// TIMESTAMP: pushes the block's timestamp.
pub open spec fn spec_timestamp(pre: VmState, h: HostModel) -> VmState {
    spec_env_push(pre, Option::None, gas::BASE, h.timestamp)
}

pub fn timestamp<H: Host>(interpreter: &mut Interpreter, host: &mut H)
    requires
        old(interpreter).wf(),
        old(host).wf(),
    ensures
        final(interpreter).wf(),
        final(interpreter)@ == spec_timestamp(old(interpreter)@, old(host).model()),
        *final(host) == *old(host),
{
    let w = host.timestamp();
    push_env_word(interpreter, Option::None, gas::BASE, w);
}

/// NUMBER: pushes the block number.
pub open spec fn spec_block_number(pre: VmState, h: HostModel) -> VmState {
    spec_env_push(pre, Option::None, gas::BASE, h.number)
}

pub fn block_number<H: Host>(interpreter: &mut Interpreter, host: &mut H)
    requires
        old(interpreter).wf(),
        old(host).wf(),
    ensures
        final(interpreter).wf(),
        final(interpreter)@ == spec_block_number(old(interpreter)@, old(host).model()),
        *final(host) == *old(host),
{
    let w = host.number();
    push_env_word(interpreter, Option::None, gas::BASE, w);
}

/// DIFFICULTY / PREVRANDAO: pushes the raw difficulty value before the
/// merge stage and the randomness value from the merge stage on.
pub open spec fn spec_difficulty(pre: VmState, h: HostModel) -> VmState {
    if pre.spec_id.spec_enabled(SpecId::Merge) {
        spec_env_push(pre, Option::None, gas::BASE, h.randomness)
    } else {
        spec_env_push(pre, Option::None, gas::BASE, h.difficulty)
    }
}

pub fn difficulty<H: Host>(interpreter: &mut Interpreter, host: &mut H)
    requires
        old(interpreter).wf(),
        old(host).wf(),
    ensures
        final(interpreter).wf(),
        final(interpreter)@ == spec_difficulty(old(interpreter)@, old(host).model()),
        *final(host) == *old(host),
{
    if interpreter.spec_id.is_enabled(SpecId::Merge) {
        let w = host.randomness();
        push_env_word(interpreter, Option::None, gas::BASE, w);
    } else {
        let w = host.difficulty();
        push_env_word(interpreter, Option::None, gas::BASE, w);
    }
}

/// GASLIMIT: pushes the block's gas limit.
pub open spec fn spec_gaslimit(pre: VmState, h: HostModel) -> VmState {
    spec_env_push(pre, Option::None, gas::BASE, h.gas_limit)
}

pub fn gaslimit<H: Host>(interpreter: &mut Interpreter, host: &mut H)
    requires
        old(interpreter).wf(),
        old(host).wf(),
    ensures
        final(interpreter).wf(),
        final(interpreter)@ == spec_gaslimit(old(interpreter)@, old(host).model()),
        *final(host) == *old(host),
{
    let w = host.gas_limit();
    push_env_word(interpreter, Option::None, gas::BASE, w);
}

/// GASPRICE: pushes the transaction's effective gas price.
pub open spec fn spec_gasprice(pre: VmState, h: HostModel) -> VmState {
    spec_env_push(pre, Option::None, gas::BASE, h.effective_gas_price)
}

pub fn gasprice<H: Host>(interpreter: &mut Interpreter, host: &mut H)
    requires
        old(interpreter).wf(),
        old(host).wf(),
    ensures
        final(interpreter).wf(),
        final(interpreter)@ == spec_gasprice(old(interpreter)@, old(host).model()),
        *final(host) == *old(host),
{
    let w = host.effective_gas_price();
    push_env_word(interpreter, Option::None, gas::BASE, w);
}

/// BASEFEE: gated on London, pushes the block's base fee.
pub open spec fn spec_basefee(pre: VmState, h: HostModel) -> VmState {
    spec_env_push(pre, Option::Some(SpecId::London), gas::BASE, h.basefee)
}

pub fn basefee<H: Host>(interpreter: &mut Interpreter, host: &mut H)
    requires
        old(interpreter).wf(),
        old(host).wf(),
    ensures
        final(interpreter).wf(),
        final(interpreter)@ == spec_basefee(old(interpreter)@, old(host).model()),
        *final(host) == *old(host),
{
    let w = host.basefee();
    push_env_word(interpreter, Option::Some(SpecId::London), gas::BASE, w);
}

/// ORIGIN: pushes the transaction caller's address as a word.
pub open spec fn spec_origin(pre: VmState, h: HostModel) -> VmState {
    spec_env_push(pre, Option::None, gas::BASE, h.caller)
}

pub fn origin<H: Host>(interpreter: &mut Interpreter, host: &mut H)
    requires
        old(interpreter).wf(),
        old(host).wf(),
    ensures
        final(interpreter).wf(),
        final(interpreter)@ == spec_origin(old(interpreter)@, old(host).model()),
        *final(host) == *old(host),
{
    let w = host.caller();
    push_env_word(interpreter, Option::None, gas::BASE, w);
}

/// BLOBHASH: gated on Cancun; replaces the top word (an index) with the
/// blob hash at that index, or with the zero word when the index is out of
/// range — never an error.
pub open spec fn spec_blob_hash(pre: VmState, h: HostModel) -> VmState {
    if !pre.spec_id.spec_enabled(SpecId::Cancun) {
        pre.with_error(ErrorKind::UnsupportedOpcode)
    } else if pre.gas < gas::VERYLOW {
        pre.with_error(ErrorKind::OutOfGas)
    } else {
        let p = VmState { gas: (pre.gas - gas::VERYLOW) as u64, ..pre };
        if pre.stack.len() == 0 {
            p.with_error(ErrorKind::StackUnderflow)
        } else {
            let idx = bytes_as_nat(pre.stack.last());
            let w = if idx < h.blob_hashes.len() {
                h.blob_hashes[idx as int]
            } else {
                word_zero()
            };
            VmState { stack: p.stack.update(p.stack.len() - 1, w), ..p }
        }
    }
}

pub fn blob_hash<H: Host>(interpreter: &mut Interpreter, host: &mut H)
    requires
        old(interpreter).wf(),
        old(host).wf(),
        old(host).model().blob_hashes.len() <= usize::MAX,
    ensures
        final(interpreter).wf(),
        final(interpreter)@ == spec_blob_hash(old(interpreter)@, old(host).model()),
        *final(host) == *old(host),
{
    if !interpreter.spec_id.is_enabled(SpecId::Cancun) {
        interpreter.status = crate::interpreter::Status::Error(ErrorKind::UnsupportedOpcode);
        proof {
            assert(interpreter@ =~= spec_blob_hash(old(interpreter)@, old(host).model()));
        }
        return;
    }
    if !interpreter.gas.record_cost(gas::VERYLOW) {
        interpreter.status = crate::interpreter::Status::Error(ErrorKind::OutOfGas);
        proof {
            assert(interpreter@ =~= spec_blob_hash(old(interpreter)@, old(host).model()));
        }
        return;
    }
    if interpreter.stack.len() == 0 {
        interpreter.status = crate::interpreter::Status::Error(ErrorKind::StackUnderflow);
        proof {
            assert(interpreter@ =~= spec_blob_hash(old(interpreter)@, old(host).model()));
        }
        return;
    }
    let index = interpreter.stack.peek();
    let i = index.to_usize_saturated();
    let w = match host.blob_hash(i) {
        Option::Some(hash) => hash,
        Option::None => Word::zero(),
    };
    interpreter.stack.set_top(w);
    proof {
        assert(interpreter@ =~= spec_blob_hash(old(interpreter)@, old(host).model()));
    }
}

/// BLOBBASEFEE: gated on Cancun, pushes the blob gas price, or zero when
/// the block carries none.
pub open spec fn spec_blob_basefee(pre: VmState, h: HostModel) -> VmState {
    spec_env_push(
        pre,
        Option::Some(SpecId::Cancun),
        gas::BASE,
        word_from_u64(
            match h.blob_gasprice {
                Option::Some(p) => p,
                Option::None => 0,
            },
        ),
    )
}

pub fn blob_basefee<H: Host>(interpreter: &mut Interpreter, host: &mut H)
    requires
        old(interpreter).wf(),
        old(host).wf(),
    ensures
        final(interpreter).wf(),
        final(interpreter)@ == spec_blob_basefee(old(interpreter)@, old(host).model()),
        *final(host) == *old(host),
{
    let p = match host.blob_gasprice() {
        Option::Some(p) => p,
        Option::None => 0,
    };
    let w = Word::from_u64(p);
    push_env_word(interpreter, Option::Some(SpecId::Cancun), gas::BASE, w);
}

} // verus!
