//! Integer-keyed arenas for the heap-backed runtime objects, and the
//! per-function object the code generator fills: constant pool, local
//! layout, up-value table and code buffer.
//!
//! An arena hands out plain integer keys into a vector, which keeps the
//! self-referential shapes of the metadata registry free of ownership
//! cycles: dropping the arena drops everything it owns.

use vstd::prelude::*;
use crate::instruction::{Instruction, OpIndex, Opcode, ValueType};
use crate::metadata::{GosMetadata, MetadataType};
use crate::value::{val_eq, GosValue, MapObj, SliceObj};

verus! {

/// Key of a function object.
pub type FunctionKey = usize;

/// Key of a resolved entity from the front end's scope resolution.
pub type EntityKey = usize;

/// The arena of metadata entries.
#[derive(Debug)]
pub struct MetadataObjs {
    pub objs: Vec<MetadataType>,
}

impl MetadataObjs {
    pub open spec fn spec_len(self) -> nat {
        self.objs@.len()
    }

    pub fn new() -> (r: MetadataObjs)
        ensures
            r.objs@ =~= Seq::<MetadataType>::empty(),
    {
        MetadataObjs { objs: Vec::new() }
    }

    pub fn len(&self) -> (r: usize)
        ensures
            r == self.spec_len(),
    {
        self.objs.len()
    }

    /// Appends an entry and hands back its key.
    pub fn insert(&mut self, t: MetadataType) -> (k: usize)
        ensures
            k == old(self).spec_len(),
            final(self).objs@ == old(self).objs@.push(t),
    {
        let k = self.objs.len();
        self.objs.push(t);
        k
    }

    pub fn get(&self, k: usize) -> (r: &MetadataType)
        requires
            k < self.spec_len(),
        ensures
            *r == self.objs@[k as int],
    {
        &self.objs[k]
    }

    /// Replaces the entry under `k`, handing the old entry back through
    /// `t`.
    pub fn replace(&mut self, k: usize, t: &mut MetadataType)
        requires
            k < old(self).spec_len(),
        ensures
            final(self).objs@ == old(self).objs@.update(k as int, *old(t)),
            *final(t) == old(self).objs@[k as int],
    {
        self.objs.set_and_swap(k, t);
    }
}

/// The arena of slice payloads.
#[derive(Debug)]
pub struct SliceObjs {
    pub objs: Vec<SliceObj>,
}

impl SliceObjs {
    pub open spec fn spec_len(self) -> nat {
        self.objs@.len()
    }

    pub fn new() -> (r: SliceObjs)
        ensures
            r.objs@ =~= Seq::<SliceObj>::empty(),
    {
        SliceObjs { objs: Vec::new() }
    }

    pub fn len(&self) -> (r: usize)
        ensures
            r == self.spec_len(),
    {
        self.objs.len()
    }

    pub fn insert(&mut self, o: SliceObj) -> (k: usize)
        ensures
            k == old(self).spec_len(),
            final(self).objs@ == old(self).objs@.push(o),
    {
        let k = self.objs.len();
        self.objs.push(o);
        k
    }

    pub fn get(&self, k: usize) -> (r: &SliceObj)
        requires
            k < self.spec_len(),
        ensures
            *r == self.objs@[k as int],
    {
        &self.objs[k]
    }
}

/// The arena of map payloads.
#[derive(Debug)]
pub struct MapObjs {
    pub objs: Vec<MapObj>,
}

impl MapObjs {
    pub open spec fn spec_len(self) -> nat {
        self.objs@.len()
    }

    pub fn new() -> (r: MapObjs)
        ensures
            r.objs@ =~= Seq::<MapObj>::empty(),
    {
        MapObjs { objs: Vec::new() }
    }

    pub fn len(&self) -> (r: usize)
        ensures
            r == self.spec_len(),
    {
        self.objs.len()
    }

    pub fn insert(&mut self, o: MapObj) -> (k: usize)
        ensures
            k == old(self).spec_len(),
            final(self).objs@ == old(self).objs@.push(o),
    {
        let k = self.objs.len();
        self.objs.push(o);
        k
    }

    pub fn get(&self, k: usize) -> (r: &MapObj)
        requires
            k < self.spec_len(),
        ensures
            *r == self.objs@[k as int],
    {
        &self.objs[k]
    }
}

/// The shared object arenas of one virtual machine instance.
#[derive(Debug)]
pub struct VMObjects {
    pub metas: MetadataObjs,
    pub slices: SliceObjs,
    pub maps: MapObjs,
}

impl VMObjects {
    pub fn new() -> (r: VMObjects)
        ensures
            r.metas.objs@ =~= Seq::<MetadataType>::empty(),
            r.slices.objs@ =~= Seq::<SliceObj>::empty(),
            r.maps.objs@ =~= Seq::<MapObj>::empty(),
    {
        VMObjects { metas: MetadataObjs::new(), slices: SliceObjs::new(), maps: MapObjs::new() }
    }
}

/// The code generator's symbolic handle to a storage site.
#[derive(Debug, Clone, Copy, PartialEq, Eq, Structural)]
pub enum EntIndex {
    /// A slot in the function's constant pool.
    Const(OpIndex),
    /// A slot in the current frame.
    LocalVar(OpIndex),
    /// A slot in the enclosing-frame capture list.
    UpValue(OpIndex),
    /// A slot in the current package's globals.
    PackageMember(OpIndex),
    /// Resolves directly to an opcode of the virtual machine.
    BuiltIn(Opcode),
    /// The discard sink.
    Blank,
}

/// No two pool slots hold comparing-equal values.
pub open spec fn consts_dedup(consts: Seq<GosValue>) -> bool {
    forall|i: int, j: int| 0 <= i < j < consts.len() ==> !val_eq(consts[i], consts[j])
}

/// One function under construction: its signature metadata, constant pool,
/// local-variable layout, up-value table and code buffer.
#[derive(Debug)]
pub struct FunctionVal {
    pub meta: GosMetadata,
    pub code: Vec<Instruction>,
    pub consts: Vec<GosValue>,
    pub up_ptrs: Vec<OpIndex>,
    /// One entry per local slot; a slot may be bound to a resolved symbol.
    pub local_binds: Vec<Option<EntityKey>>,
    /// The value a local slot starts from, where one was supplied.
    pub local_zeros: Vec<Option<GosValue>>,
    pub param_count: usize,
    pub ret_count: usize,
    pub variadic: bool,
}

impl FunctionVal {
    pub fn new(meta: GosMetadata) -> (r: FunctionVal)
        ensures
            r.meta == meta,
            r.code@ =~= Seq::<Instruction>::empty(),
            r.consts@ =~= Seq::<GosValue>::empty(),
            r.up_ptrs@ =~= Seq::<OpIndex>::empty(),
            r.local_binds@ =~= Seq::<Option<EntityKey>>::empty(),
            r.local_zeros@ =~= Seq::<Option<GosValue>>::empty(),
            r.param_count == 0,
            r.ret_count == 0,
            !r.variadic,
    {
        FunctionVal {
            meta: meta,
            code: Vec::new(),
            consts: Vec::new(),
            up_ptrs: Vec::new(),
            local_binds: Vec::new(),
            local_zeros: Vec::new(),
            param_count: 0,
            ret_count: 0,
            variadic: false,
        }
    }

    /// How many local slots the frame holds so far.
    pub fn local_count(&self) -> (r: usize)
        ensures
            r == self.local_binds@.len(),
    {
        self.local_binds.len()
    }

    /// Appends a local slot, optionally bound to a symbol and optionally
    /// carrying an initial value, and hands back its storage handle.
    pub fn add_local(&mut self, entity: Option<EntityKey>, zero: Option<GosValue>) -> (r: EntIndex)
        requires
            old(self).local_binds@.len() < 32767,
            old(self).local_zeros@.len() == old(self).local_binds@.len(),
        ensures
            final(self).local_binds@ == old(self).local_binds@.push(entity),
            final(self).local_zeros@ == old(self).local_zeros@.push(zero),
            r == EntIndex::LocalVar(old(self).local_binds@.len() as OpIndex),
            *final(self) == (FunctionVal {
                local_binds: final(self).local_binds,
                local_zeros: final(self).local_zeros,
                ..*old(self)
            }),
    {
        let idx = self.local_binds.len();
        self.local_binds.push(entity);
        self.local_zeros.push(zero);
        EntIndex::LocalVar(idx as OpIndex)
    }

    /// Fetches a constant by pool index.
    pub fn const_val(&self, index: OpIndex) -> (r: &GosValue)
        requires
            0 <= index < self.consts@.len(),
        ensures
            *r == self.consts@[index as int],
    {
        &self.consts[index as usize]
    }

    /// Interns a value into the constant pool: an existing slot with a
    /// comparing-equal value is reused, so the pool stays deduplicated.
    #[verifier::loop_isolation(false)]
    pub fn add_const(&mut self, v: GosValue) -> (r: EntIndex)
        requires
            old(self).consts@.len() < 32767,
            consts_dedup(old(self).consts@),
        ensures
            consts_dedup(final(self).consts@),
            r matches EntIndex::Const(i) && 0 <= i < final(self).consts@.len() && val_eq(
                final(self).consts@[i as int],
                v,
            ),
            (exists|j: int| 0 <= j < old(self).consts@.len() && val_eq(old(self).consts@[j], v))
                ==> *final(self) == *old(self),
            (forall|j: int| 0 <= j < old(self).consts@.len() ==> !val_eq(old(self).consts@[j], v))
                ==> final(self).consts@ == old(self).consts@.push(v),
            *final(self) == (FunctionVal { consts: final(self).consts, ..*old(self) }),
    {
        let mut i: usize = 0;
        while i < self.consts.len()
            invariant
                0 <= i <= self.consts@.len(),
                forall|j: int| 0 <= j < i ==> !val_eq(self.consts@[j], v),
            decreases self.consts@.len() - i,
        {
            if self.consts[i].equals(&v) {
                return EntIndex::Const(i as OpIndex);
            }
            i = i + 1;
        }
        let idx = self.consts.len();
        self.consts.push(v);
        proof {
            crate::value::lemma_val_eq_refl(v);
        }
        EntIndex::Const(idx as OpIndex)
    }

    /// Appends a bare opcode with no operands.
    pub fn emit_code(&mut self, code: Opcode)
        ensures
            final(self).code@ == old(self).code@.push(
                Instruction::spec_new(code, None, None, None, None),
            ),
            *final(self) == (FunctionVal { code: final(self).code, ..*old(self) }),
    {
        let i = Instruction::new(code, None, None, None, None);
        self.code.push(i);
    }

    /// Appends one instruction with up to three type tags and one
    /// immediate.
    pub fn emit_inst(
        &mut self,
        code: Opcode,
        t0: Option<ValueType>,
        t1: Option<ValueType>,
        t2: Option<ValueType>,
        imm: Option<OpIndex>,
    )
        ensures
            final(self).code@ == old(self).code@.push(
                Instruction::spec_new(code, t0, t1, t2, imm),
            ),
            *final(self) == (FunctionVal { code: final(self).code, ..*old(self) }),
    {
        let i = Instruction::new(code, t0, t1, t2, imm);
        self.code.push(i);
    }
}

} // verus!
