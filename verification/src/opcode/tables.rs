//! The opcode dispatch table: a total 256-slot map from opcode byte to
//! instruction, in a static representation (cheap, immutable entries) and
//! a patchable one (replaceable entries that can be layered with
//! instrumentation), with one-way lazy conversion from the first to the
//! second.

use crate::host::{Host, HostModel};
use crate::instructions::host_env;
use crate::instructions::memory;
use crate::instructions::{spec_unknown, unknown};
use crate::interpreter::{Interpreter, VmState};
use vstd::prelude::*;

verus! {

pub const OP_ORIGIN: u8 = 0x32;

pub const OP_GASPRICE: u8 = 0x3a;

pub const OP_COINBASE: u8 = 0x41;

pub const OP_TIMESTAMP: u8 = 0x42;

pub const OP_NUMBER: u8 = 0x43;

pub const OP_DIFFICULTY: u8 = 0x44;

pub const OP_GASLIMIT: u8 = 0x45;

pub const OP_CHAINID: u8 = 0x46;

pub const OP_BASEFEE: u8 = 0x48;

pub const OP_BLOBHASH: u8 = 0x49;

pub const OP_BLOBBASEFEE: u8 = 0x4a;

pub const OP_MLOAD: u8 = 0x51;

pub const OP_MSTORE: u8 = 0x52;

pub const OP_MSTORE8: u8 = 0x53;

pub const OP_MSIZE: u8 = 0x59;

pub const OP_MCOPY: u8 = 0x5e;

/// One instruction of the core, identified by name; `Unknown` is the
/// failure handler of every unassigned opcode byte.
#[derive(Clone, Copy, PartialEq, Eq, Structural, Debug)]
pub enum Instruction {
    ChainId,
    Coinbase,
    Timestamp,
    Number,
    Difficulty,
    GasLimit,
    GasPrice,
    BaseFee,
    Origin,
    BlobHash,
    BlobBaseFee,
    MLoad,
    MStore,
    MStore8,
    MSize,
    MCopy,
    Unknown,
}

/// What running one instruction does to the interpreter state, as a
/// function of the prior state and the host content.
pub open spec fn spec_instruction(i: Instruction, pre: VmState, h: HostModel) -> VmState {
    match i {
        Instruction::ChainId => host_env::spec_chainid(pre, h),
        Instruction::Coinbase => host_env::spec_coinbase(pre, h),
        Instruction::Timestamp => host_env::spec_timestamp(pre, h),
        Instruction::Number => host_env::spec_block_number(pre, h),
        Instruction::Difficulty => host_env::spec_difficulty(pre, h),
        Instruction::GasLimit => host_env::spec_gaslimit(pre, h),
        Instruction::GasPrice => host_env::spec_gasprice(pre, h),
        Instruction::BaseFee => host_env::spec_basefee(pre, h),
        Instruction::Origin => host_env::spec_origin(pre, h),
        Instruction::BlobHash => host_env::spec_blob_hash(pre, h),
        Instruction::BlobBaseFee => host_env::spec_blob_basefee(pre, h),
        Instruction::MLoad => memory::spec_mload(pre),
        Instruction::MStore => memory::spec_mstore(pre),
        Instruction::MStore8 => memory::spec_mstore8(pre),
        Instruction::MSize => memory::spec_msize(pre),
        Instruction::MCopy => memory::spec_mcopy(pre),
        Instruction::Unknown => spec_unknown(pre),
    }
}

/// Executes one instruction against the interpreter and host.
pub fn run_instruction<H: Host>(i: Instruction, interpreter: &mut Interpreter, host: &mut H)
    requires
        old(interpreter).wf(),
        old(host).wf(),
        old(host).model().blob_hashes.len() <= usize::MAX,
    ensures
        final(interpreter).wf(),
        final(interpreter)@ == spec_instruction(i, old(interpreter)@, old(host).model()),
        *final(host) == *old(host),
{
    match i {
        Instruction::ChainId => host_env::chainid(interpreter, host),
        Instruction::Coinbase => host_env::coinbase(interpreter, host),
        Instruction::Timestamp => host_env::timestamp(interpreter, host),
        Instruction::Number => host_env::block_number(interpreter, host),
        Instruction::Difficulty => host_env::difficulty(interpreter, host),
        Instruction::GasLimit => host_env::gaslimit(interpreter, host),
        Instruction::GasPrice => host_env::gasprice(interpreter, host),
        Instruction::BaseFee => host_env::basefee(interpreter, host),
        Instruction::Origin => host_env::origin(interpreter, host),
        Instruction::BlobHash => host_env::blob_hash(interpreter, host),
        Instruction::BlobBaseFee => host_env::blob_basefee(interpreter, host),
        Instruction::MLoad => memory::mload(interpreter, host),
        Instruction::MStore => memory::mstore(interpreter, host),
        Instruction::MStore8 => memory::mstore8(interpreter, host),
        Instruction::MSize => memory::msize(interpreter, host),
        Instruction::MCopy => memory::mcopy(interpreter, host),
        Instruction::Unknown => unknown(interpreter),
    }
}

/// The instruction assigned to each opcode byte: total over all 256
/// values, `Unknown` for every unassigned byte.
pub open spec fn spec_opcode_instruction(b: u8) -> Instruction {
    if b == OP_ORIGIN {
        Instruction::Origin
    } else if b == OP_GASPRICE {
        Instruction::GasPrice
    } else if b == OP_COINBASE {
        Instruction::Coinbase
    } else if b == OP_TIMESTAMP {
        Instruction::Timestamp
    } else if b == OP_NUMBER {
        Instruction::Number
    } else if b == OP_DIFFICULTY {
        Instruction::Difficulty
    } else if b == OP_GASLIMIT {
        Instruction::GasLimit
    } else if b == OP_CHAINID {
        Instruction::ChainId
    } else if b == OP_BASEFEE {
        Instruction::BaseFee
    } else if b == OP_BLOBHASH {
        Instruction::BlobHash
    } else if b == OP_BLOBBASEFEE {
        Instruction::BlobBaseFee
    } else if b == OP_MLOAD {
        Instruction::MLoad
    } else if b == OP_MSTORE {
        Instruction::MStore
    } else if b == OP_MSTORE8 {
        Instruction::MStore8
    } else if b == OP_MSIZE {
        Instruction::MSize
    } else if b == OP_MCOPY {
        Instruction::MCopy
    } else {
        Instruction::Unknown
    }
}

/// The per-opcode selector: maps a byte to its instruction.
pub fn instruction(b: u8) -> (i: Instruction)
    ensures
        i == spec_opcode_instruction(b),
{
    if b == OP_ORIGIN {
        Instruction::Origin
    } else if b == OP_GASPRICE {
        Instruction::GasPrice
    } else if b == OP_COINBASE {
        Instruction::Coinbase
    } else if b == OP_TIMESTAMP {
        Instruction::Timestamp
    } else if b == OP_NUMBER {
        Instruction::Number
    } else if b == OP_DIFFICULTY {
        Instruction::Difficulty
    } else if b == OP_GASLIMIT {
        Instruction::GasLimit
    } else if b == OP_CHAINID {
        Instruction::ChainId
    } else if b == OP_BASEFEE {
        Instruction::BaseFee
    } else if b == OP_BLOBHASH {
        Instruction::BlobHash
    } else if b == OP_BLOBBASEFEE {
        Instruction::BlobBaseFee
    } else if b == OP_MLOAD {
        Instruction::MLoad
    } else if b == OP_MSTORE {
        Instruction::MStore
    } else if b == OP_MSTORE8 {
        Instruction::MStore8
    } else if b == OP_MSIZE {
        Instruction::MSize
    } else if b == OP_MCOPY {
        Instruction::MCopy
    } else {
        Instruction::Unknown
    }
}

/// Builds the static table: a fold over the opcode values 0..256 through
/// the per-opcode selector, exhaustive and total.
pub fn make_instruction_table() -> (t: Vec<Instruction>)
    ensures
        t@.len() == 256,
        forall|j: int| 0 <= j < 256 ==> t@[j] == spec_opcode_instruction(j as u8),
{
    let mut t: Vec<Instruction> = Vec::new();
    let mut i: usize = 0;
    while i < 256
        invariant
            i <= 256,
            t@.len() == i,
            forall|j: int| 0 <= j < i ==> t@[j] == spec_opcode_instruction(j as u8),
        decreases 256 - i,
    {
        t.push(instruction(i as u8));
        i += 1;
    }
    t
}

/// An instrumentation layer wrapped around a prior table entry.
pub enum Wrap {
    /// Call the prior entry unchanged.
    Passthrough,
    /// Charge an extra gas cost first; on a failed charge set the
    /// out-of-gas status and do not call the prior entry.
    GasSurcharge(u64),
    /// Call the prior entry only while execution is still running.
    OnlyWhenRunning,
    /// Apply the first layer around the prior entry, then the second
    /// around the result.
    Layered(Box<Wrap>, Box<Wrap>),
}

/// A replaceable table entry: a base instruction under zero or more
/// instrumentation layers, each layer calling the entry beneath it.
pub enum BoxedInstruction {
    Base(Instruction),
    Wrapped(Box<BoxedInstruction>, Wrap),
}

pub open spec fn wrap_size(w: Wrap) -> nat
    decreases w,
{
    match w {
        Wrap::Layered(a, b) => 2 + wrap_size(*a) + wrap_size(*b),
        _ => 1,
    }
}

pub open spec fn boxed_size(e: BoxedInstruction) -> nat
    decreases e,
{
    match e {
        BoxedInstruction::Base(_) => 1,
        BoxedInstruction::Wrapped(p, w) => 1 + boxed_size(*p) + wrap_size(w),
    }
}

/// What invoking a patchable entry does: layers run outside-in around the
/// base instruction.
pub open spec fn spec_boxed(e: BoxedInstruction, pre: VmState, h: HostModel) -> VmState
    decreases boxed_size(e),
    via spec_boxed_decreases
{
    match e {
        BoxedInstruction::Base(i) => spec_instruction(i, pre, h),
        BoxedInstruction::Wrapped(prev, w) => match w {
            Wrap::Passthrough => spec_boxed(*prev, pre, h),
            Wrap::GasSurcharge(c) => if pre.gas >= c {
                spec_boxed(*prev, VmState { gas: (pre.gas - c) as u64, ..pre }, h)
            } else {
                pre.with_error(crate::interpreter::ErrorKind::OutOfGas)
            },
            Wrap::OnlyWhenRunning => if pre.status is Running {
                spec_boxed(*prev, pre, h)
            } else {
                pre
            },
            Wrap::Layered(a, b) => spec_boxed(
                BoxedInstruction::Wrapped(
                    Box::new(BoxedInstruction::Wrapped(prev, *a)),
                    *b,
                ),
                pre,
                h,
            ),
        },
    }
}

#[via_fn]
proof fn spec_boxed_decreases(e: BoxedInstruction, pre: VmState, h: HostModel) {
    match e {
        BoxedInstruction::Wrapped(prev, w) => match w {
            Wrap::Layered(a, b) => {
                let inner = BoxedInstruction::Wrapped(prev, *a);
                let full = BoxedInstruction::Wrapped(Box::new(inner), *b);
                assert(boxed_size(inner) == 1 + boxed_size(*prev) + wrap_size(*a));
                assert(boxed_size(full) == 1 + boxed_size(inner) + wrap_size(*b));
                assert(wrap_size(w) == 2 + wrap_size(*a) + wrap_size(*b));
                assert(boxed_size(e) == 1 + boxed_size(*prev) + wrap_size(w));
            },
            _ => {},
        },
        _ => {},
    }
}

impl Clone for Wrap {
    fn clone(&self) -> (r: Wrap)
        ensures
            r == *self,
        decreases *self,
    {
        match self {
            Wrap::Passthrough => Wrap::Passthrough,
            Wrap::GasSurcharge(c) => Wrap::GasSurcharge(*c),
            Wrap::OnlyWhenRunning => Wrap::OnlyWhenRunning,
            Wrap::Layered(a, b) => Wrap::Layered(
                Box::new((**a).clone()),
                Box::new((**b).clone()),
            ),
        }
    }
}

impl Clone for BoxedInstruction {
    fn clone(&self) -> (r: BoxedInstruction)
        ensures
            r == *self,
        decreases *self,
    {
        match self {
            BoxedInstruction::Base(i) => BoxedInstruction::Base(*i),
            BoxedInstruction::Wrapped(p, w) => BoxedInstruction::Wrapped(
                Box::new((**p).clone()),
                w.clone(),
            ),
        }
    }
}

/// Invokes a patchable entry against the interpreter and host.
pub fn run_boxed<H: Host>(e: &BoxedInstruction, interpreter: &mut Interpreter, host: &mut H)
    requires
        old(interpreter).wf(),
        old(host).wf(),
        old(host).model().blob_hashes.len() <= usize::MAX,
    ensures
        final(interpreter).wf(),
        final(interpreter)@ == spec_boxed(*e, old(interpreter)@, old(host).model()),
        *final(host) == *old(host),
    decreases boxed_size(*e),
{
    match e {
        BoxedInstruction::Base(i) => run_instruction(*i, interpreter, host),
        BoxedInstruction::Wrapped(prev, w) => match w {
            Wrap::Passthrough => run_boxed(prev, interpreter, host),
            Wrap::GasSurcharge(c) => {
                if interpreter.gas.record_cost(*c) {
                    run_boxed(prev, interpreter, host);
                } else {
                    interpreter.status = crate::interpreter::Status::Error(
                        crate::interpreter::ErrorKind::OutOfGas,
                    );
                    proof {
                        assert(interpreter@ =~= spec_boxed(
                            *e,
                            old(interpreter)@,
                            old(host).model(),
                        ));
                    }
                }
            },
            Wrap::OnlyWhenRunning => {
                match interpreter.status {
                    crate::interpreter::Status::Running => {
                        run_boxed(prev, interpreter, host);
                    },
                    _ => {},
                }
            },
            Wrap::Layered(a, b) => {
                let inner = BoxedInstruction::Wrapped(
                    Box::new((**prev).clone()),
                    (**a).clone(),
                );
                let full = BoxedInstruction::Wrapped(Box::new(inner), (**b).clone());
                proof {
                    assert(boxed_size(inner) == 1 + boxed_size(**prev) + wrap_size(**a));
                    assert(boxed_size(full) == 1 + boxed_size(inner) + wrap_size(**b));
                    assert(wrap_size(*w) == 2 + wrap_size(**a) + wrap_size(**b));
                    assert(boxed_size(*e) == 1 + boxed_size(**prev) + wrap_size(*w));
                    assert(boxed_size(full) < boxed_size(*e));
                }
                run_boxed(&full, interpreter, host);
            },
        },
    }
}

/// Either the static table of plain instructions or the patchable table
/// of replaceable, layerable entries. The static variant is the cheaper
/// one to dispatch through and is the default.
pub enum InstructionTables {
    Plain(Vec<Instruction>),
    Boxed(Vec<BoxedInstruction>),
}

impl InstructionTables {
    /// Both representations hold exactly 256 slots.
    pub open spec fn wf(&self) -> bool {
        match self {
            InstructionTables::Plain(t) => t@.len() == 256,
            InstructionTables::Boxed(t) => t@.len() == 256,
        }
    }

    pub open spec fn is_plain(&self) -> bool {
        self is Plain
    }

    pub open spec fn is_boxed(&self) -> bool {
        self is Boxed
    }

    pub open spec fn plain_entries(&self) -> Seq<Instruction> {
        match self {
            InstructionTables::Plain(t) => t@,
            InstructionTables::Boxed(_) => Seq::empty(),
        }
    }

    pub open spec fn boxed_entries(&self) -> Seq<BoxedInstruction> {
        match self {
            InstructionTables::Plain(_) => Seq::empty(),
            InstructionTables::Boxed(t) => t@,
        }
    }

    /// The meaning of slot `b`: what invoking it does to a state.
    pub open spec fn spec_slot(&self, b: int, pre: VmState, h: HostModel) -> VmState {
        match self {
            InstructionTables::Plain(t) => spec_instruction(t@[b], pre, h),
            InstructionTables::Boxed(t) => spec_boxed(t@[b], pre, h),
        }
    }

    /// A fresh static table over the built-in opcode assignment.
    pub fn new_plain() -> (r: InstructionTables)
        ensures
            r.wf(),
            r.is_plain(),
            forall|j: int|
                0 <= j < 256 ==> r.plain_entries()[j] == spec_opcode_instruction(j as u8),
    {
        InstructionTables::Plain(make_instruction_table())
    }

    /// Replaces one slot with a plain instruction, in either mode.
    pub fn insert(&mut self, opcode: u8, instruction: Instruction)
        requires
            old(self).wf(),
        ensures
            final(self).wf(),
            old(self).is_plain() ==> final(self).is_plain() && final(self).plain_entries()
                == old(self).plain_entries().update(opcode as int, instruction),
            old(self).is_boxed() ==> final(self).is_boxed() && final(self).boxed_entries()
                == old(self).boxed_entries().update(
                opcode as int,
                BoxedInstruction::Base(instruction),
            ),
    {
        match self {
            InstructionTables::Plain(t) => {
                t[opcode as usize] = instruction;
            },
            InstructionTables::Boxed(t) => {
                t[opcode as usize] = BoxedInstruction::Base(instruction);
            },
        }
    }

    /// Converts the table in place to the patchable representation; a
    /// no-op when it is already patchable. Every converted slot keeps its
    /// behaviour: invoking any opcode before and after the conversion
    /// yields the same state transition.
    pub fn to_boxed(&mut self)
        requires
            old(self).wf(),
        ensures
            final(self).wf(),
            final(self).is_boxed(),
            final(self).boxed_entries() =~= spec_pre_boxed(*old(self)),
            old(self).is_boxed() ==> *final(self) == *old(self),
            forall|b: int, pre: VmState, h: HostModel|
                0 <= b < 256 ==> final(self).spec_slot(b, pre, h) == old(self).spec_slot(b, pre, h),
    {
        match self {
            InstructionTables::Plain(t) => {
                let boxed = make_boxed_instruction_table(t, Option::None);
                *self = InstructionTables::Boxed(boxed);
            },
            InstructionTables::Boxed(_) => {},
        }
    }

    /// Converts to the patchable representation, laying the given wrap
    /// around every entry; a no-op when the table is already patchable.
    pub fn to_boxed_with(&mut self, w: &Wrap)
        requires
            old(self).wf(),
        ensures
            final(self).wf(),
            final(self).is_boxed(),
            old(self).is_plain() ==> final(self).boxed_entries().len() == 256 && forall|j: int|
                0 <= j < 256 ==> #[trigger] final(self).boxed_entries()[j]
                    == BoxedInstruction::Wrapped(
                    Box::new(BoxedInstruction::Base(old(self).plain_entries()[j])),
                    *w,
                ),
            old(self).is_boxed() ==> *final(self) == *old(self),
    {
        match self {
            InstructionTables::Plain(t) => {
                let boxed = make_boxed_instruction_table(t, Option::Some(w));
                *self = InstructionTables::Boxed(boxed);
            },
            InstructionTables::Boxed(_) => {},
        }
    }

    /// A copy of the patchable entry at `opcode`, converting first when
    /// the table is still static.
    pub fn get_boxed(&mut self, opcode: u8) -> (r: BoxedInstruction)
        requires
            old(self).wf(),
        ensures
            final(self).wf(),
            final(self).is_boxed(),
            r == final(self).boxed_entries()[opcode as int],
            final(self).boxed_entries() == spec_pre_boxed(*old(self)),
            forall|b: int, pre: VmState, h: HostModel|
                0 <= b < 256 ==> final(self).spec_slot(b, pre, h) == old(self).spec_slot(b, pre, h),
    {
        self.to_boxed();
        match self {
            InstructionTables::Boxed(t) => t[opcode as usize].clone(),
            InstructionTables::Plain(_) => {
                proof {
                    assert(false);
                }
                BoxedInstruction::Base(Instruction::Unknown)
            },
        }
    }

    /// Installs a patchable entry at `opcode`, converting first when the
    /// table is still static.
    pub fn insert_boxed(&mut self, opcode: u8, instruction: BoxedInstruction)
        requires
            old(self).wf(),
        ensures
            final(self).wf(),
            final(self).is_boxed(),
            final(self).boxed_entries() == spec_pre_boxed(*old(self)).update(
                opcode as int,
                instruction,
            ),
    {
        self.to_boxed();
        match self {
            InstructionTables::Boxed(t) => {
                t[opcode as usize] = instruction;
            },
            InstructionTables::Plain(_) => {
                proof {
                    assert(false);
                }
            },
        }
        proof {
            assert(self.boxed_entries() =~= spec_pre_boxed(*old(self)).update(
                opcode as int,
                instruction,
            ));
        }
    }

    /// Replaces the entry at `opcode`, returning the previous entry so
    /// callers can chain it; converts first when the table is static.
    pub fn replace_boxed(&mut self, opcode: u8, instruction: BoxedInstruction) -> (prev:
        BoxedInstruction)
        requires
            old(self).wf(),
        ensures
            final(self).wf(),
            final(self).is_boxed(),
            prev == spec_pre_boxed(*old(self))[opcode as int],
            final(self).boxed_entries()[opcode as int] == instruction,
            forall|b: int|
                0 <= b < 256 && b != opcode as int ==> final(self).boxed_entries()[b] == spec_pre_boxed(
                    *old(self),
                )[b],
    {
        let prev = self.get_boxed(opcode);
        self.insert_boxed(opcode, instruction);
        prev
    }

    /// Rewraps the entry at `opcode` with one more instrumentation layer.
    pub fn update_boxed(&mut self, opcode: u8, w: &Wrap)
        requires
            old(self).wf(),
        ensures
            final(self).wf(),
            final(self).is_boxed(),
            final(self).boxed_entries()[opcode as int] == BoxedInstruction::Wrapped(
                Box::new(spec_pre_boxed(*old(self))[opcode as int]),
                *w,
            ),
            forall|b: int|
                0 <= b < 256 && b != opcode as int ==> final(self).boxed_entries()[b] == spec_pre_boxed(
                    *old(self),
                )[b],
    {
        let prev = self.get_boxed(opcode);
        self.insert_boxed(opcode, BoxedInstruction::Wrapped(Box::new(prev), w.clone()));
    }

    /// Rewraps every entry with one more instrumentation layer.
    pub fn update_all(&mut self, w: &Wrap)
        requires
            old(self).wf(),
        ensures
            final(self).wf(),
            final(self).is_boxed(),
            final(self).boxed_entries().len() == 256,
            forall|b: int|
                0 <= b < 256 ==> #[trigger] final(self).boxed_entries()[b]
                    == BoxedInstruction::Wrapped(Box::new(spec_pre_boxed(*old(self))[b]), *w),
    {
        match self {
            InstructionTables::Plain(_) => {
                self.to_boxed_with(w);
            },
            InstructionTables::Boxed(t) => {
                let mut i: usize = 0;
                while i < t.len()
                    invariant
                        t@.len() == 256,
                        i <= 256,
                        forall|b: int|
                            0 <= b < i ==> #[trigger] t@[b] == BoxedInstruction::Wrapped(
                                Box::new(old(self).boxed_entries()[b]),
                                *w,
                            ),
                        forall|b: int| i <= b < 256 ==> t@[b] == old(self).boxed_entries()[b],
                    decreases 256 - i,
                {
                    update_boxed_instruction(&mut t[i], w);
                    i += 1;
                }
            },
        }
    }

    /// Invokes the entry at `opcode` against the interpreter and host.
    pub fn run_opcode<H: Host>(&self, opcode: u8, interpreter: &mut Interpreter, host: &mut H)
        requires
            self.wf(),
            old(interpreter).wf(),
            old(host).wf(),
            old(host).model().blob_hashes.len() <= usize::MAX,
        ensures
            final(interpreter).wf(),
            final(interpreter)@ == self.spec_slot(opcode as int, old(interpreter)@, old(
                host,
            ).model()),
            *final(host) == *old(host),
    {
        match self {
            InstructionTables::Plain(t) => {
                run_instruction(t[opcode as usize], interpreter, host);
            },
            InstructionTables::Boxed(t) => {
                run_boxed(&t[opcode as usize], interpreter, host);
            },
        }
    }
}

/// The entries a table would hold right after conversion to the patchable
/// form: its own entries when already patchable, else its plain entries
/// each as a bare base entry.
pub open spec fn spec_pre_boxed(t: InstructionTables) -> Seq<BoxedInstruction> {
    match t {
        InstructionTables::Plain(v) => v@.map_values(|i: Instruction| BoxedInstruction::Base(i)),
        InstructionTables::Boxed(v) => v@,
    }
}

/// Builds the patchable table from a static one, wrapping every entry
/// with the given layer when one is supplied.
pub fn make_boxed_instruction_table(table: &Vec<Instruction>, w: Option<&Wrap>) -> (r: Vec<
    BoxedInstruction,
>)
    ensures
        r@.len() == table@.len(),
        forall|j: int|
            0 <= j < table@.len() ==> #[trigger] r@[j] == (match w {
                Option::None => BoxedInstruction::Base(table@[j]),
                Option::Some(ww) => BoxedInstruction::Wrapped(
                    Box::new(BoxedInstruction::Base(table@[j])),
                    *ww,
                ),
            }),
{
    let mut r: Vec<BoxedInstruction> = Vec::new();
    let mut i: usize = 0;
    while i < table.len()
        invariant
            i <= table@.len(),
            r@.len() == i,
            forall|j: int|
                0 <= j < i ==> #[trigger] r@[j] == (match w {
                    Option::None => BoxedInstruction::Base(table@[j]),
                    Option::Some(ww) => BoxedInstruction::Wrapped(
                        Box::new(BoxedInstruction::Base(table@[j])),
                        *ww,
                    ),
                }),
        decreases table@.len() - i,
    {
        let base = BoxedInstruction::Base(table[i]);
        match w {
            Option::None => r.push(base),
            Option::Some(ww) => r.push(
                BoxedInstruction::Wrapped(Box::new(base), ww.clone()),
            ),
        }
        i += 1;
    }
    r
}

/// Rewraps one patchable entry with one more instrumentation layer: the
/// new entry calls the previous one through the layer.
pub fn update_boxed_instruction(instruction: &mut BoxedInstruction, w: &Wrap)
    ensures
        *final(instruction) == BoxedInstruction::Wrapped(Box::new(*old(instruction)), *w),
{
    let prev = instruction.clone();
    *instruction = BoxedInstruction::Wrapped(Box::new(prev), w.clone());
}

} // verus!
