//! Transaction-context instructions in the granular host style: the same
//! observable behaviour as their counterparts in `host_env`, stated
//! against the same specifications.

use crate::gas;
use crate::host::Host;
use crate::instructions::host_env::{spec_blob_hash, spec_gasprice, spec_origin};
use crate::instructions::push_env_word;
use crate::interpreter::{ErrorKind, Interpreter, SpecId, Status};
use crate::word::Word;
use vstd::prelude::*;

verus! {

/// GASPRICE: pushes the transaction's effective gas price.
pub fn gasprice<H: Host>(interpreter: &mut Interpreter, host: &mut H)
    requires
        old(interpreter).wf(),
        old(host).wf(),
    ensures
        final(interpreter).wf(),
        final(interpreter)@ == spec_gasprice(old(interpreter)@, old(host).model()),
        *final(host) == *old(host),
{
    let w = host.effective_gas_price();
    push_env_word(interpreter, Option::None, gas::BASE, w);
}

/// ORIGIN: pushes the transaction caller's address as a word.
pub fn origin<H: Host>(interpreter: &mut Interpreter, host: &mut H)
    requires
        old(interpreter).wf(),
        old(host).wf(),
    ensures
        final(interpreter).wf(),
        final(interpreter)@ == spec_origin(old(interpreter)@, old(host).model()),
        *final(host) == *old(host),
{
    let w = host.caller();
    push_env_word(interpreter, Option::None, gas::BASE, w);
}

/// BLOBHASH: replaces the top word with the blob hash it indexes, or with
/// the zero word when the index is out of range.
pub fn blob_hash<H: Host>(interpreter: &mut Interpreter, host: &mut H)
    requires
        old(interpreter).wf(),
        old(host).wf(),
        old(host).model().blob_hashes.len() <= usize::MAX,
    ensures
        final(interpreter).wf(),
        final(interpreter)@ == spec_blob_hash(old(interpreter)@, old(host).model()),
        *final(host) == *old(host),
{
    if !interpreter.spec_id.is_enabled(SpecId::Cancun) {
        interpreter.status = Status::Error(ErrorKind::UnsupportedOpcode);
        proof {
            assert(interpreter@ =~= spec_blob_hash(old(interpreter)@, old(host).model()));
        }
        return;
    }
    if !interpreter.gas.record_cost(gas::VERYLOW) {
        interpreter.status = Status::Error(ErrorKind::OutOfGas);
        proof {
            assert(interpreter@ =~= spec_blob_hash(old(interpreter)@, old(host).model()));
        }
        return;
    }
    if interpreter.stack.len() == 0 {
        interpreter.status = Status::Error(ErrorKind::StackUnderflow);
        proof {
            assert(interpreter@ =~= spec_blob_hash(old(interpreter)@, old(host).model()));
        }
        return;
    }
    let index = interpreter.stack.peek();
    let i = index.to_usize_saturated();
    let w = match host.blob_hash(i) {
        Option::Some(hash) => hash,
        Option::None => Word::zero(),
    };
    interpreter.stack.set_top(w);
    proof {
        assert(interpreter@ =~= spec_blob_hash(old(interpreter)@, old(host).model()));
    }
}

} // verus!
