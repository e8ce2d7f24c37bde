//! The host capability contract: everything an instruction may read from
//! the environment, and a snapshot-backed implementation of it.

use crate::word::Word;
use vstd::prelude::*;

verus! {

/// The abstract content of a host: chain identity, block attributes,
/// transaction attributes and derived prices. Word-sized attributes are
/// 32-byte big-endian strings.
pub struct HostModel {
    pub chain_id: u64,
    pub coinbase: Seq<u8>,
    pub timestamp: Seq<u8>,
    pub number: Seq<u8>,
    pub difficulty: Seq<u8>,
    pub randomness: Seq<u8>,
    pub basefee: Seq<u8>,
    pub gas_limit: Seq<u8>,
    pub caller: Seq<u8>,
    pub blob_hashes: Seq<Seq<u8>>,
    pub effective_gas_price: Seq<u8>,
    pub blob_gasprice: Option<u64>,
}

/// Every word-sized attribute holds exactly 32 bytes.
pub open spec fn host_model_wf(m: HostModel) -> bool {
    &&& m.coinbase.len() == 32
    &&& m.timestamp.len() == 32
    &&& m.number.len() == 32
    &&& m.difficulty.len() == 32
    &&& m.randomness.len() == 32
    &&& m.basefee.len() == 32
    &&& m.gas_limit.len() == 32
    &&& m.caller.len() == 32
    &&& m.effective_gas_price.len() == 32
    &&& forall|i: int| 0 <= i < m.blob_hashes.len() ==> (#[trigger] m.blob_hashes[i]).len() == 32
}

/// The capability surface an instruction may use. A handler borrows the
/// host for the duration of one call and never retains it; all methods are
/// synchronous in-process reads.
pub trait Host {
    /// Whether this host is in a state fit to serve reads.
    spec fn wf(&self) -> bool;

    /// The abstract content served by this host.
    spec fn model(&self) -> HostModel;

    fn chain_id(&self) -> (r: u64)
        requires
            self.wf(),
        ensures
            r == self.model().chain_id,
    ;

    fn coinbase(&self) -> (r: Word)
        requires
            self.wf(),
        ensures
            r.wf(),
            r@ == self.model().coinbase,
    ;

    fn timestamp(&self) -> (r: Word)
        requires
            self.wf(),
        ensures
            r.wf(),
            r@ == self.model().timestamp,
    ;

    fn number(&self) -> (r: Word)
        requires
            self.wf(),
        ensures
            r.wf(),
            r@ == self.model().number,
    ;

    /// The block's difficulty value, meaningful before the merge stage.
    fn difficulty(&self) -> (r: Word)
        requires
            self.wf(),
        ensures
            r.wf(),
            r@ == self.model().difficulty,
    ;

    /// The block's randomness value, meaningful from the merge stage on.
    fn randomness(&self) -> (r: Word)
        requires
            self.wf(),
        ensures
            r.wf(),
            r@ == self.model().randomness,
    ;

    fn basefee(&self) -> (r: Word)
        requires
            self.wf(),
        ensures
            r.wf(),
            r@ == self.model().basefee,
    ;

    fn gas_limit(&self) -> (r: Word)
        requires
            self.wf(),
        ensures
            r.wf(),
            r@ == self.model().gas_limit,
    ;

    fn caller(&self) -> (r: Word)
        requires
            self.wf(),
        ensures
            r.wf(),
            r@ == self.model().caller,
    ;

    /// The blob hash at `i`, or `None` when `i` is out of range.
    fn blob_hash(&self, i: usize) -> (r: Option<Word>)
        requires
            self.wf(),
        ensures
            match r {
                Option::Some(w) => i < self.model().blob_hashes.len() && w.wf() && w@
                    == self.model().blob_hashes[i as int],
                Option::None => i >= self.model().blob_hashes.len(),
            },
    ;

    fn effective_gas_price(&self) -> (r: Word)
        requires
            self.wf(),
        ensures
            r.wf(),
            r@ == self.model().effective_gas_price,
    ;

    /// The blob gas price, when the block carries one.
    fn blob_gasprice(&self) -> (r: Option<u64>)
        requires
            self.wf(),
        ensures
            r == self.model().blob_gasprice,
    ;
}

/// A host backed by an immutable snapshot of environment values.
pub struct SnapshotHost {
    pub chain_id: u64,
    pub coinbase: Word,
    pub timestamp: Word,
    pub number: Word,
    pub difficulty: Word,
    pub randomness: Word,
    pub basefee: Word,
    pub gas_limit: Word,
    pub caller: Word,
    pub blob_hashes: Vec<Word>,
    pub effective_gas_price: Word,
    pub blob_gasprice: Option<u64>,
}

impl Host for SnapshotHost {
    open spec fn wf(&self) -> bool {
        &&& self.coinbase.wf()
        &&& self.timestamp.wf()
        &&& self.number.wf()
        &&& self.difficulty.wf()
        &&& self.randomness.wf()
        &&& self.basefee.wf()
        &&& self.gas_limit.wf()
        &&& self.caller.wf()
        &&& self.effective_gas_price.wf()
        &&& forall|i: int| 0 <= i < self.blob_hashes@.len() ==> (
        #[trigger] self.blob_hashes@[i]).wf()
    }

    open spec fn model(&self) -> HostModel {
        HostModel {
            chain_id: self.chain_id,
            coinbase: self.coinbase@,
            timestamp: self.timestamp@,
            number: self.number@,
            difficulty: self.difficulty@,
            randomness: self.randomness@,
            basefee: self.basefee@,
            gas_limit: self.gas_limit@,
            caller: self.caller@,
            blob_hashes: self.blob_hashes@.map_values(|w: Word| w@),
            effective_gas_price: self.effective_gas_price@,
            blob_gasprice: self.blob_gasprice,
        }
    }

    fn chain_id(&self) -> u64 {
        self.chain_id
    }

    fn coinbase(&self) -> Word {
        self.coinbase.clone()
    }

    fn timestamp(&self) -> Word {
        self.timestamp.clone()
    }

    fn number(&self) -> Word {
        self.number.clone()
    }

    fn difficulty(&self) -> Word {
        self.difficulty.clone()
    }

    fn randomness(&self) -> Word {
        self.randomness.clone()
    }

    fn basefee(&self) -> Word {
        self.basefee.clone()
    }

    fn gas_limit(&self) -> Word {
        self.gas_limit.clone()
    }

    fn caller(&self) -> Word {
        self.caller.clone()
    }

    fn blob_hash(&self, i: usize) -> (r: Option<Word>) {
        if i < self.blob_hashes.len() {
            let w = self.blob_hashes[i].clone();
            proof {
                assert(self.model().blob_hashes[i as int] == self.blob_hashes@[i as int]@);
            }
            Option::Some(w)
        } else {
            Option::None
        }
    }

    fn effective_gas_price(&self) -> Word {
        self.effective_gas_price.clone()
    }

    fn blob_gasprice(&self) -> Option<u64> {
        self.blob_gasprice
    }
}

} // verus!
