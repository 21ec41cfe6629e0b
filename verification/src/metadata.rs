//! The metadata (type) registry: an arena of type descriptions addressed by
//! integer key, handles with a pointer depth of up to seven and a
//! reified-type flag, method tables with two-phase population, and the
//! rules for zero and default values.
//!
//! Registry entries only refer to entries with strictly smaller keys; the
//! one back reference — a struct's stored zero instance pointing at its own
//! entry — lives inside a value, not inside a type reference, so every walk
//! over type references terminates.

use vstd::prelude::*;
use crate::instruction::{OpIndex, ValueType};
use crate::names::NameMap;
use crate::objects::{FunctionKey, MapObjs, MetadataObjs, SliceObjs, VMObjects};
use crate::value::{val_eq, GosValue, StructObj};

verus! {

/// Key of a metadata entry in the registry arena.
pub type MetadataKey = usize;

/// How a metadata operation fails.
#[derive(Debug, Clone, Copy, PartialEq, Eq, Structural)]
pub enum MetaError {
    /// A structural operation was asked at a pointer-depth boundary.
    TypeError,
    /// The operation is not provided by this core.
    NotImplemented,
}

/// A handle to a metadata entry: the key, a pointer depth of 0 to 7, and a
/// flag telling a value of the type apart from the type reified as a value.
#[derive(Debug, Clone, Copy, PartialEq, Eq, Structural)]
pub enum GosMetadata {
    Untyped,
    NonPtr(MetadataKey, bool),
    Ptr1(MetadataKey, bool),
    Ptr2(MetadataKey, bool),
    Ptr3(MetadataKey, bool),
    Ptr4(MetadataKey, bool),
    Ptr5(MetadataKey, bool),
    Ptr6(MetadataKey, bool),
    Ptr7(MetadataKey, bool),
}

/// An ordered member list plus its name -> layout-index table, used for
/// struct fields and interface method sets.
#[derive(Debug)]
pub struct Fields {
    pub fields: Vec<GosMetadata>,
    pub mapping: NameMap<OpIndex>,
}

/// One method slot of a named type: whether the receiver is taken by
/// pointer, and the function key once the body has been generated.
#[derive(Debug, Clone, Copy, PartialEq, Eq, Structural)]
pub struct MethodDesc {
    pub pointer_recv: bool,
    pub func: Option<FunctionKey>,
}

/// The method table of a named type: ordered slots plus the name -> index
/// table.  Population is two-phase: a declaration adds an empty slot, and
/// the code generator backfills the function key when it emits the body.
#[derive(Debug)]
pub struct Methods {
    pub members: Vec<MethodDesc>,
    pub mapping: NameMap<OpIndex>,
}

impl Methods {
    pub fn new() -> (r: Methods)
        ensures
            r.members@ =~= Seq::<MethodDesc>::empty(),
            r.mapping.wf(),
            r.mapping.spec_len() == 0,
            forall|n: Seq<char>| r.mapping.spec_get(n) is None,
    {
        Methods { members: Vec::new(), mapping: NameMap::new() }
    }
}

/// A function signature: receiver, parameters, results, the variadic
/// element type if any, and the parameter value-type tags precomputed for
/// foreign call sites.
#[derive(Debug)]
pub struct SigMetadata {
    pub recv: Option<GosMetadata>,
    pub params: Vec<GosMetadata>,
    pub results: Vec<GosMetadata>,
    pub variadic: Option<GosMetadata>,
    pub params_type: Vec<ValueType>,
}

impl Default for SigMetadata {
    /// The empty signature: no receiver, no parameters, no results.
    fn default() -> (r: SigMetadata)
        ensures
            r.recv is None,
            r.params@ =~= Seq::<GosMetadata>::empty(),
            r.results@ =~= Seq::<GosMetadata>::empty(),
            r.variadic is None,
            r.params_type@ =~= Seq::<ValueType>::empty(),
    {
        SigMetadata {
            recv: None,
            params: Vec::new(),
            results: Vec::new(),
            variadic: None,
            params_type: Vec::new(),
        }
    }
}

impl SigMetadata {
    /// Whether the receiver, if any, is taken by pointer.
    pub fn pointer_recv(&self) -> (r: bool)
        ensures
            r == (self.recv matches Some(m) && !(m is NonPtr)),
    {
        if let Some(r) = &self.recv {
            match r {
                GosMetadata::NonPtr(_, _) => false,
                _ => true,
            }
        } else {
            false
        }
    }
}

/// One registry entry: a type description.
#[derive(Debug)]
pub enum MetadataType {
    Bool,
    Int,
    Int8,
    Int16,
    Int32,
    Int64,
    Uint,
    Uint8,
    Uint16,
    Uint32,
    Uint64,
    Float32,
    Float64,
    Complex64,
    Complex128,
    /// Carries its own zero value, the empty string.
    Str(GosValue),
    /// Field layout plus the pre-built zero instance of the struct.
    Struct(Fields, GosValue),
    Signature(SigMetadata),
    Slice(GosMetadata),
    GosMap(GosMetadata, GosMetadata),
    Interface(Fields),
    Channel,
    /// A nominal wrapper: the method table and the underlying type.
    Named(Methods, GosMetadata),
}

impl MetadataType {
    pub fn as_signature(&self) -> (r: &SigMetadata)
        requires
            self is Signature,
        ensures
            *self == MetadataType::Signature(*r),
    {
        match self {
            MetadataType::Signature(s) => s,
            _ => vstd::pervasive::unreached(),
        }
    }

    pub fn as_interface(&self) -> (r: &Fields)
        requires
            self is Interface,
        ensures
            *self == MetadataType::Interface(*r),
    {
        match self {
            MetadataType::Interface(fields) => fields,
            _ => vstd::pervasive::unreached(),
        }
    }
}

impl GosMetadata {
    /// The pointer depth of a handle: 0 for the value type, up to 7.
    pub open spec fn depth(self) -> int {
        match self {
            GosMetadata::Untyped => 0,
            GosMetadata::NonPtr(_, _) => 0,
            GosMetadata::Ptr1(_, _) => 1,
            GosMetadata::Ptr2(_, _) => 2,
            GosMetadata::Ptr3(_, _) => 3,
            GosMetadata::Ptr4(_, _) => 4,
            GosMetadata::Ptr5(_, _) => 5,
            GosMetadata::Ptr6(_, _) => 6,
            GosMetadata::Ptr7(_, _) => 7,
        }
    }

    /// The underlying registry key of a handle.
    pub open spec fn key(self) -> MetadataKey {
        match self {
            GosMetadata::Untyped => 0,
            GosMetadata::NonPtr(k, _) => k,
            GosMetadata::Ptr1(k, _) => k,
            GosMetadata::Ptr2(k, _) => k,
            GosMetadata::Ptr3(k, _) => k,
            GosMetadata::Ptr4(k, _) => k,
            GosMetadata::Ptr5(k, _) => k,
            GosMetadata::Ptr6(k, _) => k,
            GosMetadata::Ptr7(k, _) => k,
        }
    }

    /// Whether the handle stands for the type itself, reified as a value.
    pub open spec fn type_flag(self) -> bool {
        match self {
            GosMetadata::Untyped => false,
            GosMetadata::NonPtr(_, t) => t,
            GosMetadata::Ptr1(_, t) => t,
            GosMetadata::Ptr2(_, t) => t,
            GosMetadata::Ptr3(_, t) => t,
            GosMetadata::Ptr4(_, t) => t,
            GosMetadata::Ptr5(_, t) => t,
            GosMetadata::Ptr6(_, t) => t,
            GosMetadata::Ptr7(_, t) => t,
        }
    }

    /// The handle with the given key, flag and depth.
    pub open spec fn from_parts(k: MetadataKey, t: bool, depth: int) -> GosMetadata {
        if depth == 0 {
            GosMetadata::NonPtr(k, t)
        } else if depth == 1 {
            GosMetadata::Ptr1(k, t)
        } else if depth == 2 {
            GosMetadata::Ptr2(k, t)
        } else if depth == 3 {
            GosMetadata::Ptr3(k, t)
        } else if depth == 4 {
            GosMetadata::Ptr4(k, t)
        } else if depth == 5 {
            GosMetadata::Ptr5(k, t)
        } else if depth == 6 {
            GosMetadata::Ptr6(k, t)
        } else {
            GosMetadata::Ptr7(k, t)
        }
    }
}

/// A handle usable as a type reference inside a registry entry: it names an
/// entry below `bound` and is not the untyped placeholder.
pub open spec fn ref_ok(m: GosMetadata, bound: int) -> bool {
    !(m is Untyped) && (m.key() as int) < bound
}

/// Whether a depth-0 handle names a `Named` entry.
pub open spec fn is_named_key(m: GosMetadata, metas: Seq<MetadataType>) -> bool {
    m.depth() == 0 && (m.key() as int) < metas.len() && metas[m.key() as int] is Named
}

/// A member layout is well formed when its name table is unique-keyed and
/// every named index lies inside the member list.
pub open spec fn fields_wf(f: Fields) -> bool {
    &&& f.mapping.wf()
    &&& forall|n: Seq<char>|
        #[trigger] f.mapping.spec_get(n) matches Some(i) ==> 0 <= i < f.fields@.len()
}

/// A method table is well formed in the same way.
pub open spec fn methods_wf(ms: Methods) -> bool {
    &&& ms.mapping.wf()
    &&& forall|n: Seq<char>|
        #[trigger] ms.mapping.spec_get(n) matches Some(i) ==> 0 <= i < ms.members@.len()
}

/// Well-formedness of one registry entry at key `bound`: every type
/// reference points strictly below it, a named entry never wraps another
/// named entry, a struct entry stores a struct value as its zero instance,
/// and the member tables are well formed.
pub open spec fn mt_wf(t: MetadataType, bound: int, metas: Seq<MetadataType>) -> bool {
    match t {
        MetadataType::Str(z) => z is Str,
        MetadataType::Struct(f, z) => {
            &&& fields_wf(f)
            &&& forall|i: int| 0 <= i < f.fields@.len() ==> ref_ok(#[trigger] f.fields@[i], bound)
            &&& z matches GosValue::Struct(zb) && zb.meta == GosMetadata::NonPtr(
                bound as MetadataKey,
                false,
            )
        },
        MetadataType::Signature(sig) => {
            &&& (sig.recv matches Some(m) ==> ref_ok(m, bound))
            &&& forall|i: int|
                0 <= i < sig.params@.len() ==> ref_ok(#[trigger] sig.params@[i], bound)
            &&& forall|i: int|
                0 <= i < sig.results@.len() ==> ref_ok(#[trigger] sig.results@[i], bound)
            &&& (sig.variadic matches Some(m) ==> ref_ok(m, bound))
        },
        MetadataType::Slice(m) => ref_ok(m, bound),
        MetadataType::GosMap(k, v) => ref_ok(k, bound) && ref_ok(v, bound),
        MetadataType::Interface(f) => {
            &&& fields_wf(f)
            &&& forall|i: int| 0 <= i < f.fields@.len() ==> ref_ok(#[trigger] f.fields@[i], bound)
        },
        MetadataType::Named(ms, u) => {
            &&& methods_wf(ms)
            &&& ref_ok(u, bound)
            &&& !is_named_key(u, metas)
        },
        _ => true,
    }
}

/// Well-formedness of the whole registry: every entry is well formed at its
/// own key.
pub open spec fn metas_wf(metas: Seq<MetadataType>) -> bool {
    forall|k: int| 0 <= k < metas.len() ==> mt_wf(#[trigger] metas[k], k, metas)
}

/// A handle whose key lies inside the registry.
pub open spec fn meta_valid(m: GosMetadata, metas: Seq<MetadataType>) -> bool {
    m is Untyped || (m.key() as int) < metas.len()
}

/// Appending an entry that is well formed at the new key preserves registry
/// well-formedness.
pub proof fn lemma_metas_wf_push(metas: Seq<MetadataType>, t: MetadataType)
    requires
        metas_wf(metas),
        mt_wf(t, metas.len() as int, metas.push(t)),
    ensures
        metas_wf(metas.push(t)),
{
    let m2 = metas.push(t);
    assert forall|k: int| 0 <= k < m2.len() implies mt_wf(#[trigger] m2[k], k, m2) by {
        if k < metas.len() {
            assert(mt_wf(metas[k], k, metas));
            assert(m2[k] == metas[k]);
            match metas[k] {
                MetadataType::Named(ms, u) => {
                    assert((u.key() as int) < k);
                    assert(m2[u.key() as int] == metas[u.key() as int]);
                }
                _ => {}
            }
        } else {
            assert(m2[k] == t);
        }
    }
}

/// Replacing an entry with one of the same kind and the same type
/// references preserves registry well-formedness.
pub proof fn lemma_metas_wf_update(metas: Seq<MetadataType>, k: int, t: MetadataType)
    requires
        metas_wf(metas),
        0 <= k < metas.len(),
        mt_wf(t, k, metas.update(k, t)),
        metas[k] is Named <==> t is Named,
    ensures
        metas_wf(metas.update(k, t)),
{
    let m2 = metas.update(k, t);
    assert forall|j: int| 0 <= j < m2.len() implies mt_wf(#[trigger] m2[j], j, m2) by {
        if j != k {
            assert(mt_wf(metas[j], j, metas));
            assert(m2[j] == metas[j]);
            match metas[j] {
                MetadataType::Named(ms, u) => {
                    assert(!is_named_key(u, metas));
                    if (u.key() as int) == k {
                        assert(m2[k] is Named <==> metas[k] is Named);
                    } else {
                        assert(m2[u.key() as int] == metas[u.key() as int]);
                    }
                }
                _ => {}
            }
        }
    }
}

/// The value type a handle resolves to: a reified type reads as `Metadata`,
/// any positive depth reads as `Pointer`, and depth 0 dispatches on the
/// entry.
pub open spec fn value_type_spec(m: GosMetadata, metas: Seq<MetadataType>) -> ValueType
    recommends
        !(m is Untyped),
        meta_valid(m, metas),
{
    if m.type_flag() {
        ValueType::Metadata
    } else if m.depth() > 0 {
        ValueType::Pointer
    } else {
        match metas[m.key() as int] {
            MetadataType::Bool => ValueType::Bool,
            MetadataType::Int => ValueType::Int,
            MetadataType::Int8 => ValueType::Int8,
            MetadataType::Int16 => ValueType::Int16,
            MetadataType::Int32 => ValueType::Int32,
            MetadataType::Int64 => ValueType::Int64,
            MetadataType::Uint => ValueType::Uint,
            MetadataType::Uint8 => ValueType::Uint8,
            MetadataType::Uint16 => ValueType::Uint16,
            MetadataType::Uint32 => ValueType::Uint32,
            MetadataType::Uint64 => ValueType::Uint64,
            MetadataType::Float32 => ValueType::Float32,
            MetadataType::Float64 => ValueType::Float64,
            MetadataType::Complex64 => ValueType::Complex64,
            MetadataType::Complex128 => ValueType::Complex128,
            MetadataType::Str(_) => ValueType::Str,
            MetadataType::Struct(_, _) => ValueType::Struct,
            MetadataType::Signature(_) => ValueType::Closure,
            MetadataType::Slice(_) => ValueType::Slice,
            MetadataType::GosMap(_, _) => ValueType::GosMap,
            MetadataType::Interface(_) => ValueType::Interface,
            MetadataType::Channel => ValueType::Channel,
            MetadataType::Named(_, _) => ValueType::Named,
        }
    }
}

/// The underlying handle: a named entry unwraps once, anything else is
/// itself.
pub open spec fn underlying_spec(m: GosMetadata, metas: Seq<MetadataType>) -> GosMetadata
    recommends
        meta_valid(m, metas),
{
    match m {
        GosMetadata::NonPtr(k, _) => match metas[k as int] {
            MetadataType::Named(_, u) => u,
            _ => m,
        },
        _ => m,
    }
}

/// The zero value of a type: scalars to their natural zero, strings to the
/// stored empty string, structs to the stored zero instance, reference
/// kinds to a typed nil, and a named type to its underlying zero wrapped
/// with the named handle.
pub open spec fn zero_val_spec(m: GosMetadata, metas: Seq<MetadataType>) -> GosValue
    recommends
        metas_wf(metas),
        meta_valid(m, metas),
    decreases m.key(),
    when metas_wf(metas) && meta_valid(m, metas)
{
    match m {
        GosMetadata::Untyped => GosValue::Nil(m),
        GosMetadata::NonPtr(k, _) => match metas[k as int] {
            MetadataType::Bool => GosValue::Bool(false),
            MetadataType::Int => GosValue::Int(0),
            MetadataType::Int8 => GosValue::Int8(0),
            MetadataType::Int16 => GosValue::Int16(0),
            MetadataType::Int32 => GosValue::Int32(0),
            MetadataType::Int64 => GosValue::Int64(0),
            MetadataType::Uint => GosValue::Uint(0),
            MetadataType::Uint8 => GosValue::Uint8(0),
            MetadataType::Uint16 => GosValue::Uint16(0),
            MetadataType::Uint32 => GosValue::Uint32(0),
            MetadataType::Uint64 => GosValue::Uint64(0),
            MetadataType::Float32 => GosValue::Float32(0),
            MetadataType::Float64 => GosValue::Float64(0),
            MetadataType::Complex64 => GosValue::Complex64(0, 0),
            MetadataType::Complex128 => GosValue::Complex128(0, 0),
            MetadataType::Str(s) => s,
            MetadataType::Struct(_, s) => s,
            MetadataType::Signature(_) => GosValue::Nil(m),
            MetadataType::Slice(_) => GosValue::Nil(m),
            MetadataType::GosMap(_, _) => GosValue::Nil(m),
            MetadataType::Interface(_) => GosValue::Nil(m),
            MetadataType::Channel => GosValue::Nil(m),
            MetadataType::Named(_, gm) => GosValue::Named(
                Box::new((zero_val_spec(gm, metas), m)),
            ),
        },
        _ => GosValue::Nil(m),
    }
}

/// The registry of the built-in primitive types, created once per virtual
/// machine instance.
#[derive(Debug)]
pub struct Metadata {
    pub mbool: GosMetadata,
    pub mint: GosMetadata,
    pub mint8: GosMetadata,
    pub mint16: GosMetadata,
    pub mint32: GosMetadata,
    pub mint64: GosMetadata,
    pub muint: GosMetadata,
    pub muint8: GosMetadata,
    pub muint16: GosMetadata,
    pub muint32: GosMetadata,
    pub muint64: GosMetadata,
    pub mfloat32: GosMetadata,
    pub mfloat64: GosMetadata,
    pub mcomplex64: GosMetadata,
    pub mcomplex128: GosMetadata,
    pub mstr: GosMetadata,
    pub default_sig: GosMetadata,
}

impl Metadata {
    /// Inserts the seventeen built-in entries in a fixed order and hands
    /// back their handles; the registry stays well formed.
    pub fn new(objs: &mut MetadataObjs) -> (r: Metadata)
        requires
            metas_wf(old(objs).objs@),
        ensures
            metas_wf(final(objs).objs@),
            final(objs).objs@.len() == old(objs).objs@.len() + 17,
            final(objs).objs@.subrange(0, old(objs).objs@.len() as int) == old(objs).objs@,
            ({
                let base = old(objs).objs@.len() as int;
                let m = final(objs).objs@;
                &&& r.mbool == GosMetadata::NonPtr((base + 0) as MetadataKey, false) && m[base + 0]
                    is Bool
                &&& r.mint == GosMetadata::NonPtr((base + 1) as MetadataKey, false) && m[base + 1]
                    is Int
                &&& r.mint8 == GosMetadata::NonPtr((base + 2) as MetadataKey, false) && m[base + 2]
                    is Int8
                &&& r.mint16 == GosMetadata::NonPtr((base + 3) as MetadataKey, false) && m[base + 3]
                    is Int16
                &&& r.mint32 == GosMetadata::NonPtr((base + 4) as MetadataKey, false) && m[base + 4]
                    is Int32
                &&& r.mint64 == GosMetadata::NonPtr((base + 5) as MetadataKey, false) && m[base + 5]
                    is Int64
                &&& r.muint == GosMetadata::NonPtr((base + 6) as MetadataKey, false) && m[base + 6]
                    is Uint
                &&& r.muint8 == GosMetadata::NonPtr((base + 7) as MetadataKey, false) && m[base + 7]
                    is Uint8
                &&& r.muint16 == GosMetadata::NonPtr((base + 8) as MetadataKey, false) && m[base
                    + 8] is Uint16
                &&& r.muint32 == GosMetadata::NonPtr((base + 9) as MetadataKey, false) && m[base
                    + 9] is Uint32
                &&& r.muint64 == GosMetadata::NonPtr((base + 10) as MetadataKey, false) && m[base
                    + 10] is Uint64
                &&& r.mfloat32 == GosMetadata::NonPtr((base + 11) as MetadataKey, false) && m[base
                    + 11] is Float32
                &&& r.mfloat64 == GosMetadata::NonPtr((base + 12) as MetadataKey, false) && m[base
                    + 12] is Float64
                &&& r.mcomplex64 == GosMetadata::NonPtr((base + 13) as MetadataKey, false) && m[base
                    + 13] is Complex64
                &&& r.mcomplex128 == GosMetadata::NonPtr((base + 14) as MetadataKey, false)
                    && m[base + 14] is Complex128
                &&& r.mstr == GosMetadata::NonPtr((base + 15) as MetadataKey, false) && (m[base
                    + 15] matches MetadataType::Str(z) && z matches GosValue::Str(s) && s@
                    =~= Seq::<char>::empty())
                &&& r.default_sig == GosMetadata::NonPtr((base + 16) as MetadataKey, false)
                    && (m[base + 16] matches MetadataType::Signature(sig) && sig.recv is None
                    && sig.params@.len() == 0 && sig.results@.len() == 0 && sig.variadic is None
                    && sig.params_type@.len() == 0)
            }),
    {
        let ghost base = objs.objs@.len() as int;
        let mbool = GosMetadata::NonPtr(push_wf(objs, MetadataType::Bool), false);
        let mint = GosMetadata::NonPtr(push_wf(objs, MetadataType::Int), false);
        let mint8 = GosMetadata::NonPtr(push_wf(objs, MetadataType::Int8), false);
        let mint16 = GosMetadata::NonPtr(push_wf(objs, MetadataType::Int16), false);
        let mint32 = GosMetadata::NonPtr(push_wf(objs, MetadataType::Int32), false);
        let mint64 = GosMetadata::NonPtr(push_wf(objs, MetadataType::Int64), false);
        let muint = GosMetadata::NonPtr(push_wf(objs, MetadataType::Uint), false);
        let muint8 = GosMetadata::NonPtr(push_wf(objs, MetadataType::Uint8), false);
        let muint16 = GosMetadata::NonPtr(push_wf(objs, MetadataType::Uint16), false);
        let muint32 = GosMetadata::NonPtr(push_wf(objs, MetadataType::Uint32), false);
        let muint64 = GosMetadata::NonPtr(push_wf(objs, MetadataType::Uint64), false);
        let mfloat32 = GosMetadata::NonPtr(push_wf(objs, MetadataType::Float32), false);
        let mfloat64 = GosMetadata::NonPtr(push_wf(objs, MetadataType::Float64), false);
        let mcomplex64 = GosMetadata::NonPtr(push_wf(objs, MetadataType::Complex64), false);
        let mcomplex128 = GosMetadata::NonPtr(push_wf(objs, MetadataType::Complex128), false);
        let mstr = GosMetadata::NonPtr(
            push_wf(objs, MetadataType::Str(GosValue::new_str(String::new()))),
            false,
        );
        let default_sig = GosMetadata::NonPtr(
            push_wf(objs, MetadataType::Signature(SigMetadata::default())),
            false,
        );
        proof {
            assert(objs.objs@.subrange(0, base) =~= old(objs).objs@);
        }
        Metadata {
            mbool,
            mint,
            mint8,
            mint16,
            mint32,
            mint64,
            muint,
            muint8,
            muint16,
            muint32,
            muint64,
            mfloat32,
            mfloat64,
            mcomplex64,
            mcomplex128,
            mstr,
            default_sig,
        }
    }
}

/// What `ptr_to` yields: one more level of indirection, unless the handle
/// already sits at the greatest depth.
pub open spec fn ptr_to_spec(m: GosMetadata) -> Option<GosMetadata> {
    if m is Untyped {
        None
    } else if m.depth() == 7 {
        None
    } else {
        Some(GosMetadata::from_parts(m.key(), m.type_flag(), m.depth() + 1))
    }
}

/// What `unptr_to` yields: one level of indirection removed, unless the
/// handle is already the value type.
pub open spec fn unptr_to_spec(m: GosMetadata) -> Option<GosMetadata> {
    if m is Untyped {
        None
    } else if m.depth() == 0 {
        None
    } else {
        Some(GosMetadata::from_parts(m.key(), m.type_flag(), m.depth() - 1))
    }
}

/// `ptr_to` applied `d` times.
pub open spec fn ptr_to_n(m: GosMetadata, d: int) -> Option<GosMetadata>
    decreases d,
{
    if d <= 0 {
        Some(m)
    } else {
        match ptr_to_n(m, d - 1) {
            Some(x) => ptr_to_spec(x),
            None => None,
        }
    }
}

/// `unptr_to` applied `d` times.
pub open spec fn unptr_to_n(m: GosMetadata, d: int) -> Option<GosMetadata>
    decreases d,
{
    if d <= 0 {
        Some(m)
    } else {
        match unptr_to_n(m, d - 1) {
            Some(x) => unptr_to_spec(x),
            None => None,
        }
    }
}

impl GosMetadata {
    /// Adds one level of pointer indirection.  Depths above seven are not
    /// representable: at depth seven the operation fails.
    pub fn ptr_to(&self) -> (r: Result<GosMetadata, MetaError>)
        requires
            !(self is Untyped),
        ensures
            r == (match ptr_to_spec(*self) {
                Some(m) => Ok::<GosMetadata, MetaError>(m),
                None => Err::<GosMetadata, MetaError>(MetaError::TypeError),
            }),
    {
        match self {
            GosMetadata::Untyped => vstd::pervasive::unreached(),
            GosMetadata::NonPtr(k, t) => Ok(GosMetadata::Ptr1(*k, *t)),
            GosMetadata::Ptr1(k, t) => Ok(GosMetadata::Ptr2(*k, *t)),
            GosMetadata::Ptr2(k, t) => Ok(GosMetadata::Ptr3(*k, *t)),
            GosMetadata::Ptr3(k, t) => Ok(GosMetadata::Ptr4(*k, *t)),
            GosMetadata::Ptr4(k, t) => Ok(GosMetadata::Ptr5(*k, *t)),
            GosMetadata::Ptr5(k, t) => Ok(GosMetadata::Ptr6(*k, *t)),
            GosMetadata::Ptr6(k, t) => Ok(GosMetadata::Ptr7(*k, *t)),
            GosMetadata::Ptr7(_, _) => Err(MetaError::TypeError),
        }
    }

    /// Removes one level of pointer indirection.  At depth zero the
    /// operation fails.
    pub fn unptr_to(&self) -> (r: Result<GosMetadata, MetaError>)
        requires
            !(self is Untyped),
        ensures
            r == (match unptr_to_spec(*self) {
                Some(m) => Ok::<GosMetadata, MetaError>(m),
                None => Err::<GosMetadata, MetaError>(MetaError::TypeError),
            }),
    {
        match self {
            GosMetadata::Untyped => vstd::pervasive::unreached(),
            GosMetadata::NonPtr(_, _) => Err(MetaError::TypeError),
            GosMetadata::Ptr1(k, t) => Ok(GosMetadata::NonPtr(*k, *t)),
            GosMetadata::Ptr2(k, t) => Ok(GosMetadata::Ptr1(*k, *t)),
            GosMetadata::Ptr3(k, t) => Ok(GosMetadata::Ptr2(*k, *t)),
            GosMetadata::Ptr4(k, t) => Ok(GosMetadata::Ptr3(*k, *t)),
            GosMetadata::Ptr5(k, t) => Ok(GosMetadata::Ptr4(*k, *t)),
            GosMetadata::Ptr6(k, t) => Ok(GosMetadata::Ptr5(*k, *t)),
            GosMetadata::Ptr7(k, t) => Ok(GosMetadata::Ptr6(*k, *t)),
        }
    }

    /// The key of a handle known to carry no indirection.
    pub fn as_non_ptr(&self) -> (r: MetadataKey)
        requires
            self is NonPtr,
        ensures
            r == self.key(),
    {
        match self {
            GosMetadata::NonPtr(k, _) => *k,
            _ => vstd::pervasive::unreached(),
        }
    }

    /// The key and the reified-type flag of any typed handle.
    pub fn unwrap_key_and_is_type(&self) -> (r: (MetadataKey, bool))
        requires
            !(self is Untyped),
        ensures
            r.0 == self.key(),
            r.1 == self.type_flag(),
    {
        match self {
            GosMetadata::Untyped => vstd::pervasive::unreached(),
            GosMetadata::NonPtr(k, t) => (*k, *t),
            GosMetadata::Ptr1(k, t) => (*k, *t),
            GosMetadata::Ptr2(k, t) => (*k, *t),
            GosMetadata::Ptr3(k, t) => (*k, *t),
            GosMetadata::Ptr4(k, t) => (*k, *t),
            GosMetadata::Ptr5(k, t) => (*k, *t),
            GosMetadata::Ptr6(k, t) => (*k, *t),
            GosMetadata::Ptr7(k, t) => (*k, *t),
        }
    }

    /// Sets the reified-type flag, keeping key and depth.
    pub fn set_is_type(&mut self, is_type: bool)
        requires
            !(*old(self) is Untyped),
        ensures
            *final(self) == GosMetadata::from_parts(
                old(self).key(),
                is_type,
                old(self).depth(),
            ),
    {
        *self = match self {
            GosMetadata::Untyped => vstd::pervasive::unreached(),
            GosMetadata::NonPtr(k, _) => GosMetadata::NonPtr(*k, is_type),
            GosMetadata::Ptr1(k, _) => GosMetadata::Ptr1(*k, is_type),
            GosMetadata::Ptr2(k, _) => GosMetadata::Ptr2(*k, is_type),
            GosMetadata::Ptr3(k, _) => GosMetadata::Ptr3(*k, is_type),
            GosMetadata::Ptr4(k, _) => GosMetadata::Ptr4(*k, is_type),
            GosMetadata::Ptr5(k, _) => GosMetadata::Ptr5(*k, is_type),
            GosMetadata::Ptr6(k, _) => GosMetadata::Ptr6(*k, is_type),
            GosMetadata::Ptr7(k, _) => GosMetadata::Ptr7(*k, is_type),
        };
    }

    /// The key a method receiver resolves to: the receiver may carry at
    /// most one level of indirection.
    pub fn recv_meta_key(&self) -> (r: MetadataKey)
        requires
            self is NonPtr || self is Ptr1,
        ensures
            r == self.key(),
    {
        match self {
            GosMetadata::NonPtr(k, _) => *k,
            GosMetadata::Ptr1(k, _) => *k,
            _ => vstd::pervasive::unreached(),
        }
    }

    /// Resolves the value type of a handle.
    pub fn get_value_type(&self, metas: &MetadataObjs) -> (r: ValueType)
        requires
            !(self is Untyped),
            meta_valid(*self, metas.objs@),
        ensures
            r == value_type_spec(*self, metas.objs@),
    {
        let (key, is_type) = self.unwrap_key_and_is_type();
        if is_type {
            ValueType::Metadata
        } else {
            match self {
                GosMetadata::Untyped => vstd::pervasive::unreached(),
                GosMetadata::NonPtr(_, _) => match metas.get(key) {
                    MetadataType::Bool => ValueType::Bool,
                    MetadataType::Int => ValueType::Int,
                    MetadataType::Int8 => ValueType::Int8,
                    MetadataType::Int16 => ValueType::Int16,
                    MetadataType::Int32 => ValueType::Int32,
                    MetadataType::Int64 => ValueType::Int64,
                    MetadataType::Uint => ValueType::Uint,
                    MetadataType::Uint8 => ValueType::Uint8,
                    MetadataType::Uint16 => ValueType::Uint16,
                    MetadataType::Uint32 => ValueType::Uint32,
                    MetadataType::Uint64 => ValueType::Uint64,
                    MetadataType::Float32 => ValueType::Float32,
                    MetadataType::Float64 => ValueType::Float64,
                    MetadataType::Complex64 => ValueType::Complex64,
                    MetadataType::Complex128 => ValueType::Complex128,
                    MetadataType::Str(_) => ValueType::Str,
                    MetadataType::Struct(_, _) => ValueType::Struct,
                    MetadataType::Signature(_) => ValueType::Closure,
                    MetadataType::Slice(_) => ValueType::Slice,
                    MetadataType::GosMap(_, _) => ValueType::GosMap,
                    MetadataType::Interface(_) => ValueType::Interface,
                    MetadataType::Channel => ValueType::Channel,
                    MetadataType::Named(_, _) => ValueType::Named,
                },
                _ => ValueType::Pointer,
            }
        }
    }

    /// The underlying handle: a named type unwraps to what it wraps,
    /// anything else is its own underlying.
    pub fn get_underlying(&self, metas: &MetadataObjs) -> (r: GosMetadata)
        requires
            meta_valid(*self, metas.objs@),
        ensures
            r == underlying_spec(*self, metas.objs@),
    {
        match self {
            GosMetadata::NonPtr(k, _) => match metas.get(*k) {
                MetadataType::Named(_, u) => *u,
                _ => *self,
            },
            _ => *self,
        }
    }

    /// The zero value of the type this handle names.
    pub fn zero_val(&self, metas: &MetadataObjs) -> (r: GosValue)
        requires
            metas_wf(metas.objs@),
            meta_valid(*self, metas.objs@),
        ensures
            val_eq(r, zero_val_spec(*self, metas.objs@)),
    {
        self.zero_val_impl(metas)
    }

    fn zero_val_impl(&self, mobjs: &MetadataObjs) -> (r: GosValue)
        requires
            metas_wf(mobjs.objs@),
            meta_valid(*self, mobjs.objs@),
        ensures
            val_eq(r, zero_val_spec(*self, mobjs.objs@)),
        decreases self.key(),
    {
        match self {
            GosMetadata::Untyped => GosValue::Nil(*self),
            GosMetadata::NonPtr(k, _) => {
                proof {
                    assert(mt_wf(mobjs.objs@[*k as int], *k as int, mobjs.objs@));
                }
                match mobjs.get(*k) {
                    MetadataType::Bool => GosValue::Bool(false),
                    MetadataType::Int => GosValue::Int(0),
                    MetadataType::Int8 => GosValue::Int8(0),
                    MetadataType::Int16 => GosValue::Int16(0),
                    MetadataType::Int32 => GosValue::Int32(0),
                    MetadataType::Int64 => GosValue::Int64(0),
                    MetadataType::Uint => GosValue::Uint(0),
                    MetadataType::Uint8 => GosValue::Uint8(0),
                    MetadataType::Uint16 => GosValue::Uint16(0),
                    MetadataType::Uint32 => GosValue::Uint32(0),
                    MetadataType::Uint64 => GosValue::Uint64(0),
                    MetadataType::Float32 => GosValue::Float32(0),
                    MetadataType::Float64 => GosValue::Float64(0),
                    MetadataType::Complex64 => GosValue::Complex64(0, 0),
                    MetadataType::Complex128 => GosValue::Complex128(0, 0),
                    MetadataType::Str(s) => s.copy_semantic(),
                    MetadataType::Struct(_, s) => s.copy_semantic(),
                    MetadataType::Signature(_) => GosValue::Nil(*self),
                    MetadataType::Slice(_) => GosValue::Nil(*self),
                    MetadataType::GosMap(_, _) => GosValue::Nil(*self),
                    MetadataType::Interface(_) => GosValue::Nil(*self),
                    MetadataType::Channel => GosValue::Nil(*self),
                    MetadataType::Named(_, gm) => {
                        let val = gm.zero_val_impl(mobjs);
                        GosValue::Named(Box::new((val, *self)))
                    },
                }
            },
            _ => GosValue::Nil(*self),
        }
    }
}

/// Pointer depth algebra: taking `d` levels of indirection and then
/// removing `d` levels gives the original handle back, for every depth the
/// handle can reach; at depth seven `ptr_to` fails, and at depth zero
/// `unptr_to` fails.
pub proof fn lemma_pointer_depth_algebra(m: GosMetadata, d: int)
    requires
        !(m is Untyped),
        0 <= d,
        m.depth() + d <= 7,
    ensures
        ptr_to_n(m, d) matches Some(up) && up.depth() == m.depth() + d && unptr_to_n(up, d)
            == Some(m),
        m.depth() == 7 ==> ptr_to_spec(m) is None,
        m.depth() == 0 ==> unptr_to_spec(m) is None,
    decreases d,
{
    if d > 0 {
        lemma_pointer_depth_algebra(m, d - 1);
        let up1 = ptr_to_n(m, d - 1)->Some_0;
        let up = ptr_to_spec(up1)->Some_0;
        assert(unptr_to_spec(up) == Some(up1));
        lemma_unptr_chain(up, up1, m, d);
    }
}

/// Removing one level from `up` gives `mid`; removing `d - 1` more levels
/// from `mid` gives `m`; so removing `d` levels from `up` gives `m`.
proof fn lemma_unptr_chain(up: GosMetadata, mid: GosMetadata, m: GosMetadata, d: int)
    requires
        1 <= d,
        unptr_to_spec(up) == Some(mid),
        unptr_to_n(mid, d - 1) == Some(m),
    ensures
        unptr_to_n(up, d) == Some(m),
{
    lemma_unptr_swap(up, mid, d - 1);
}

/// Applying `unptr_to` `d` times and then once more equals applying it once
/// and then `d` times.
proof fn lemma_unptr_swap(up: GosMetadata, mid: GosMetadata, d: int)
    requires
        0 <= d,
        unptr_to_spec(up) == Some(mid),
    ensures
        unptr_to_n(up, d + 1) == unptr_to_n(mid, d),
    decreases d,
{
    if d == 0 {
        assert(unptr_to_n(up, 0) == Some(up));
        assert(unptr_to_n(mid, 0) == Some(mid));
        assert(unptr_to_n(up, 1) == unptr_to_spec(up));
    } else {
        lemma_unptr_swap(up, mid, d - 1);
        assert(unptr_to_n(up, d + 1) == (match unptr_to_n(up, d) {
            Some(x) => unptr_to_spec(x),
            None => None,
        }));
        assert(unptr_to_n(mid, d) == (match unptr_to_n(mid, d - 1) {
            Some(x) => unptr_to_spec(x),
            None => None,
        }));
    }
}

impl GosMetadata {
    /// Inserts a new registry entry and hands back a depth-0 handle to it.
    pub fn new(v: MetadataType, metas: &mut MetadataObjs) -> (r: GosMetadata)
        ensures
            r == GosMetadata::NonPtr(old(metas).objs@.len() as MetadataKey, false),
            final(metas).objs@ == old(metas).objs@.push(v),
    {
        GosMetadata::NonPtr(metas.insert(v), false)
    }

    /// Registers the slice type over `val_meta`.
    pub fn new_slice(val_meta: GosMetadata, metas: &mut MetadataObjs) -> (r: GosMetadata)
        requires
            metas_wf(old(metas).objs@),
            ref_ok(val_meta, old(metas).objs@.len() as int),
        ensures
            r == GosMetadata::NonPtr(old(metas).objs@.len() as MetadataKey, false),
            final(metas).objs@ == old(metas).objs@.push(MetadataType::Slice(val_meta)),
            metas_wf(final(metas).objs@),
    {
        proof {
            lemma_metas_wf_push(metas.objs@, MetadataType::Slice(val_meta));
        }
        GosMetadata::new(MetadataType::Slice(val_meta), metas)
    }

    /// Registers the map type from `kmeta` to `vmeta`.
    pub fn new_map(kmeta: GosMetadata, vmeta: GosMetadata, metas: &mut MetadataObjs) -> (r:
        GosMetadata)
        requires
            metas_wf(old(metas).objs@),
            ref_ok(kmeta, old(metas).objs@.len() as int),
            ref_ok(vmeta, old(metas).objs@.len() as int),
        ensures
            r == GosMetadata::NonPtr(old(metas).objs@.len() as MetadataKey, false),
            final(metas).objs@ == old(metas).objs@.push(MetadataType::GosMap(kmeta, vmeta)),
            metas_wf(final(metas).objs@),
    {
        proof {
            lemma_metas_wf_push(metas.objs@, MetadataType::GosMap(kmeta, vmeta));
        }
        GosMetadata::new(MetadataType::GosMap(kmeta, vmeta), metas)
    }

    /// Registers an interface type with the given method layout.
    pub fn new_interface(fields: Fields, metas: &mut MetadataObjs) -> (r: GosMetadata)
        requires
            metas_wf(old(metas).objs@),
            fields_wf(fields),
            forall|i: int|
                0 <= i < fields.fields@.len() ==> ref_ok(
                    #[trigger] fields.fields@[i],
                    old(metas).objs@.len() as int,
                ),
        ensures
            r == GosMetadata::NonPtr(old(metas).objs@.len() as MetadataKey, false),
            final(metas).objs@.len() == old(metas).objs@.len() + 1,
            final(metas).objs@.subrange(0, old(metas).objs@.len() as int) == old(metas).objs@,
            final(metas).objs@.last() matches MetadataType::Interface(f) && f.fields@
                == fields.fields@ && f.mapping == fields.mapping,
            metas_wf(final(metas).objs@),
    {
        let ghost fseq = fields.fields@;
        let ghost fmap = fields.mapping;
        let t = MetadataType::Interface(fields);
        proof {
            lemma_metas_wf_push(metas.objs@, t);
        }
        let r = GosMetadata::new(t, metas);
        proof {
            assert(metas.objs@.subrange(0, old(metas).objs@.len() as int) =~= old(metas).objs@);
        }
        r
    }

    /// Registers a function signature; the parameter value-type tags are
    /// precomputed from the parameter handles.
    #[verifier::loop_isolation(false)]
    pub fn new_sig(
        recv: Option<GosMetadata>,
        params: Vec<GosMetadata>,
        results: Vec<GosMetadata>,
        variadic: Option<GosMetadata>,
        metas: &mut MetadataObjs,
    ) -> (r: GosMetadata)
        requires
            metas_wf(old(metas).objs@),
            recv matches Some(m) ==> ref_ok(m, old(metas).objs@.len() as int),
            forall|i: int|
                0 <= i < params@.len() ==> ref_ok(#[trigger] params@[i], old(metas).objs@.len() as int),
            forall|i: int|
                0 <= i < results@.len() ==> ref_ok(
                    #[trigger] results@[i],
                    old(metas).objs@.len() as int,
                ),
            variadic matches Some(m) ==> ref_ok(m, old(metas).objs@.len() as int),
        ensures
            r == GosMetadata::NonPtr(old(metas).objs@.len() as MetadataKey, false),
            final(metas).objs@.len() == old(metas).objs@.len() + 1,
            final(metas).objs@.subrange(0, old(metas).objs@.len() as int) == old(metas).objs@,
            final(metas).objs@.last() matches MetadataType::Signature(sig) && sig.recv == recv
                && sig.params@ == params@ && sig.results@ == results@ && sig.variadic == variadic
                && sig.params_type@.len() == params@.len() && (forall|i: int|
                0 <= i < params@.len() ==> sig.params_type@[i] == value_type_spec(
                    #[trigger] params@[i],
                    old(metas).objs@,
                )),
            metas_wf(final(metas).objs@),
    {
        let mut ptypes: Vec<ValueType> = Vec::new();
        let mut i: usize = 0;
        while i < params.len()
            invariant
                0 <= i <= params@.len(),
                ptypes@.len() == i,
                forall|j: int|
                    0 <= j < i ==> ptypes@[j] == value_type_spec(#[trigger] params@[j], metas.objs@),
            decreases params@.len() - i,
        {
            ptypes.push(params[i].get_value_type(metas));
            i = i + 1;
        }
        let ghost pseq = params@;
        let t = MetadataType::Signature(
            SigMetadata {
                recv: recv,
                params: params,
                results: results,
                variadic: variadic,
                params_type: ptypes,
            },
        );
        proof {
            lemma_metas_wf_push(metas.objs@, t);
        }
        let r = GosMetadata::new(t, metas);
        proof {
            assert(metas.objs@.subrange(0, old(metas).objs@.len() as int) =~= old(metas).objs@);
        }
        r
    }

    /// Registers a named type over `underlying`, with an empty method
    /// table.  What is wrapped must not itself be a named type.
    pub fn new_named(underlying: GosMetadata, metas: &mut MetadataObjs) -> (r: GosMetadata)
        requires
            metas_wf(old(metas).objs@),
            ref_ok(underlying, old(metas).objs@.len() as int),
            !is_named_key(underlying, old(metas).objs@),
        ensures
            r == GosMetadata::NonPtr(old(metas).objs@.len() as MetadataKey, false),
            final(metas).objs@.len() == old(metas).objs@.len() + 1,
            final(metas).objs@.subrange(0, old(metas).objs@.len() as int) == old(metas).objs@,
            final(metas).objs@.last() matches MetadataType::Named(ms, u) && u == underlying
                && ms.members@.len() == 0 && ms.mapping.spec_len() == 0 && (forall|n: Seq<char>|
                ms.mapping.spec_get(n) is None),
            metas_wf(final(metas).objs@),
    {
        let ms = Methods::new();
        let t = MetadataType::Named(ms, underlying);
        proof {
            assert(!is_named_key(underlying, old(metas).objs@.push(t))) by {
                assert(old(metas).objs@.push(t)[underlying.key() as int] == old(metas).objs@[underlying.key() as int]);
            }
            lemma_metas_wf_push(metas.objs@, t);
        }
        let r = GosMetadata::new(t, metas);
        proof {
            assert(metas.objs@.subrange(0, old(metas).objs@.len() as int) =~= old(metas).objs@);
        }
        r
    }
}

/// The zero value of a handle is unchanged by registry growth, since it
/// only reads entries at or below the handle's own key.
pub proof fn lemma_zero_val_spec_stable(
    m: GosMetadata,
    metas1: Seq<MetadataType>,
    metas2: Seq<MetadataType>,
)
    requires
        metas_wf(metas1),
        metas_wf(metas2),
        meta_valid(m, metas1),
        metas1.len() <= metas2.len(),
        forall|j: int| 0 <= j <= m.key() as int && j < metas1.len() ==> metas2[j] == metas1[j],
    ensures
        zero_val_spec(m, metas2) == zero_val_spec(m, metas1),
    decreases m.key(),
{
    match m {
        GosMetadata::NonPtr(k, _) => {
            assert(metas2[k as int] == metas1[k as int]);
            match metas1[k as int] {
                MetadataType::Named(_, gm) => {
                    assert(mt_wf(metas1[k as int], k as int, metas1));
                    lemma_zero_val_spec_stable(gm, metas1, metas2);
                }
                _ => {}
            }
        }
        _ => {}
    }
}

impl GosMetadata {
    /// Registers a struct type: the zero instance is built from the field
    /// zeros, stored inside the entry, and its own metadata handle is then
    /// repaired to point back at the freshly created entry.
    #[verifier::loop_isolation(false)]
    pub fn new_struct(f: Fields, objs: &mut VMObjects) -> (r: GosMetadata)
        requires
            metas_wf(old(objs).metas.objs@),
            fields_wf(f),
            forall|i: int|
                0 <= i < f.fields@.len() ==> ref_ok(
                    #[trigger] f.fields@[i],
                    old(objs).metas.objs@.len() as int,
                ),
        ensures
            r == GosMetadata::NonPtr(old(objs).metas.objs@.len() as MetadataKey, false),
            final(objs).metas.objs@.len() == old(objs).metas.objs@.len() + 1,
            final(objs).metas.objs@.subrange(0, old(objs).metas.objs@.len() as int) == old(objs).metas.objs@,
            final(objs).slices == old(objs).slices,
            final(objs).maps == old(objs).maps,
            final(objs).metas.objs@.last() matches MetadataType::Struct(f2, z) && f2.fields@
                == f.fields@ && f2.mapping == f.mapping && (z matches GosValue::Struct(zb)
                && zb.meta == r && zb.dark == false && zb.fields@.len() == f.fields@.len() && (
            forall|i: int|
                0 <= i < f.fields@.len() ==> val_eq(
                    #[trigger] zb.fields@[i],
                    zero_val_spec(f.fields@[i], final(objs).metas.objs@),
                ))),
            metas_wf(final(objs).metas.objs@),
    {
        let ghost metas0 = objs.metas.objs@;
        let ghost fseq = f.fields@;
        let ghost fmap = f.mapping;
        let mut field_zeros: Vec<GosValue> = Vec::new();
        let mut i: usize = 0;
        while i < f.fields.len()
            invariant
                objs.metas.objs@ == metas0,
                0 <= i <= fseq.len(),
                field_zeros@.len() == i,
                forall|j: int|
                    0 <= j < i ==> val_eq(
                        #[trigger] field_zeros@[j],
                        zero_val_spec(fseq[j], metas0),
                    ),
            decreases fseq.len() - i,
        {
            field_zeros.push(f.fields[i].zero_val(&objs.metas));
            i = i + 1;
        }
        let struct_val = StructObj {
            dark: false,
            meta: GosMetadata::Untyped,  // placeholder, repaired below
            fields: field_zeros,
        };
        let gos_struct = GosValue::new_struct(struct_val);
        let key = objs.metas.insert(MetadataType::Struct(f, gos_struct));
        let gosm = GosMetadata::NonPtr(key, false);
        // Repair the zero instance's metadata handle to point back at the
        // entry that now owns it.
        let mut entry = MetadataType::Bool;
        objs.metas.replace(key, &mut entry);
        let fixed = match entry {
            MetadataType::Struct(f2, z) => match z {
                GosValue::Struct(b) => {
                    let mut obj = *b;
                    obj.meta = gosm;
                    MetadataType::Struct(f2, GosValue::Struct(Box::new(obj)))
                },
                _ => vstd::pervasive::unreached(),
            },
            _ => vstd::pervasive::unreached(),
        };
        let mut slot = fixed;
        objs.metas.replace(key, &mut slot);
        proof {
            let t = objs.metas.objs@[key as int];
            assert(objs.metas.objs@ =~= metas0.push(t));
            assert(objs.metas.objs@.subrange(0, metas0.len() as int) =~= metas0);
            lemma_metas_wf_push(metas0, t);
            // the stored zeros keep their meaning in the grown registry
            assert forall|i: int| 0 <= i < fseq.len() implies zero_val_spec(
                fseq[i],
                objs.metas.objs@,
            ) == zero_val_spec(fseq[i], metas0) by {
                lemma_zero_val_spec_stable(fseq[i], metas0, objs.metas.objs@);
            }
        }
        gosm
    }

    /// The layout index of a struct field, looked up on the receiver's
    /// underlying struct.
    pub fn field_index(&self, name: &str, metas: &MetadataObjs) -> (r: OpIndex)
        requires
            self is NonPtr || self is Ptr1,
            (self.key() as int) < metas.objs@.len(),
            metas_wf(metas.objs@),
            ({
                let u = underlying_spec(
                    GosMetadata::NonPtr(self.key(), false),
                    metas.objs@,
                );
                &&& u is NonPtr
                &&& metas.objs@[u.key() as int] matches MetadataType::Struct(fl, _)
                    && fl.mapping.spec_get(name@) is Some
            }),
        ensures
            ({
                let u = underlying_spec(GosMetadata::NonPtr(self.key(), false), metas.objs@);
                metas.objs@[u.key() as int] matches MetadataType::Struct(fl, _)
                    && fl.mapping.spec_get(name@) == Some(r)
            }),
    {
        let key = self.recv_meta_key();
        let base = GosMetadata::NonPtr(key, false);
        proof {
            assert(mt_wf(metas.objs@[key as int], key as int, metas.objs@));
        }
        let u = base.get_underlying(metas);
        let sk = u.as_non_ptr();
        match metas.get(sk) {
            MetadataType::Struct(m, _) => match m.mapping.get(name) {
                Some(i) => i,
                None => vstd::pervasive::unreached(),
            },
            _ => vstd::pervasive::unreached(),
        }
    }

    /// Adds an empty method slot under `name`; the slot index is the old
    /// member count, and every other name keeps its binding.
    pub fn add_method(&self, name: String, pointer_recv: bool, metas: &mut MetadataObjs)
        requires
            self is NonPtr || self is Ptr1,
            (self.key() as int) < old(metas).objs@.len(),
            metas_wf(old(metas).objs@),
            old(metas).objs@[self.key() as int] matches MetadataType::Named(ms, _)
                && ms.members@.len() < 32767,
        ensures
            metas_wf(final(metas).objs@),
            final(metas).objs@.len() == old(metas).objs@.len(),
            forall|j: int|
                0 <= j < old(metas).objs@.len() && j != self.key() as int ==> final(metas).objs@[j] == old(metas).objs@[j],
            ({
                let k = self.key() as int;
                &&& old(metas).objs@[k] matches MetadataType::Named(ms1, u1)
                &&& final(metas).objs@[k] matches MetadataType::Named(ms2, u2) && u2 == u1
                    && ms2.members@ == ms1.members@.push(
                    MethodDesc { pointer_recv: pointer_recv, func: None },
                ) && ms2.mapping.spec_get(name@) == Some(ms1.members@.len() as OpIndex) && (forall|
                    n: Seq<char>,
                |
                    n != name@ ==> ms2.mapping.spec_get(n) == ms1.mapping.spec_get(n))
            }),
    {
        let k = self.recv_meta_key();
        proof {
            assert(mt_wf(old(metas).objs@[k as int], k as int, old(metas).objs@));
        }
        let mut entry = MetadataType::Bool;
        metas.replace(k, &mut entry);
        let fixed = match entry {
            MetadataType::Named(ms, u) => {
                let mut ms = ms;
                let idx = ms.members.len();
                ms.members.push(MethodDesc { pointer_recv: pointer_recv, func: None });
                ms.mapping.insert(name, idx as OpIndex);
                MetadataType::Named(ms, u)
            },
            _ => vstd::pervasive::unreached(),
        };
        let mut slot = fixed;
        metas.replace(k, &mut slot);
        proof {
            let t = metas.objs@[k as int];
            assert(metas.objs@ =~= old(metas).objs@.update(k as int, t));
            assert(mt_wf(t, k as int, old(metas).objs@.update(k as int, t))) by {
                match old(metas).objs@[k as int] {
                    MetadataType::Named(ms1, u1) => {
                        match t {
                            MetadataType::Named(ms2, u2) => {
                                assert(methods_wf(ms2)) by {
                                    assert forall|n: Seq<char>|
                                        #![trigger ms2.mapping.spec_get(n)]
                                        (ms2.mapping.spec_get(n) matches Some(i) ==> 0 <= i
                                            < ms2.members@.len()) by {
                                        if n != name@ {
                                            assert(ms2.mapping.spec_get(n)
                                                == ms1.mapping.spec_get(n));
                                        }
                                    }
                                }
                                assert(old(metas).objs@.update(k as int, t)[u2.key() as int] == old(metas).objs@[u2.key() as int]);
                            },
                            _ => {},
                        }
                    },
                    _ => {},
                }
            }
            lemma_metas_wf_update(old(metas).objs@, k as int, t);
        }
    }

    /// Backfills the function key of the method declared under `name`.
    pub fn set_method_code(&self, name: &String, func: FunctionKey, metas: &mut MetadataObjs)
        requires
            self is NonPtr || self is Ptr1,
            (self.key() as int) < old(metas).objs@.len(),
            metas_wf(old(metas).objs@),
            old(metas).objs@[self.key() as int] matches MetadataType::Named(ms, _)
                && ms.mapping.spec_get(name@) is Some,
        ensures
            metas_wf(final(metas).objs@),
            final(metas).objs@.len() == old(metas).objs@.len(),
            forall|j: int|
                0 <= j < old(metas).objs@.len() && j != self.key() as int ==> final(metas).objs@[j] == old(metas).objs@[j],
            ({
                let k = self.key() as int;
                &&& old(metas).objs@[k] matches MetadataType::Named(ms1, u1)
                &&& final(metas).objs@[k] matches MetadataType::Named(ms2, u2) && u2 == u1
                    && ms2.mapping == ms1.mapping && ({
                    let idx = ms1.mapping.spec_get(name@)->Some_0 as int;
                    ms2.members@ == ms1.members@.update(
                        idx,
                        MethodDesc {
                            pointer_recv: ms1.members@[idx].pointer_recv,
                            func: Some(func),
                        },
                    )
                })
            }),
    {
        let k = self.recv_meta_key();
        proof {
            assert(mt_wf(old(metas).objs@[k as int], k as int, old(metas).objs@));
        }
        let mut entry = MetadataType::Bool;
        metas.replace(k, &mut entry);
        let fixed = match entry {
            MetadataType::Named(ms, u) => {
                let mut ms = ms;
                let idx = match ms.mapping.get(name.as_str()) {
                    Some(i) => i,
                    None => vstd::pervasive::unreached(),
                };
                let d = ms.members[idx as usize];
                ms.members.set(
                    idx as usize,
                    MethodDesc { pointer_recv: d.pointer_recv, func: Some(func) },
                );
                MetadataType::Named(ms, u)
            },
            _ => vstd::pervasive::unreached(),
        };
        let mut slot = fixed;
        metas.replace(k, &mut slot);
        proof {
            let t = metas.objs@[k as int];
            assert(metas.objs@ =~= old(metas).objs@.update(k as int, t));
            assert(mt_wf(t, k as int, old(metas).objs@.update(k as int, t))) by {
                match t {
                    MetadataType::Named(ms2, u2) => {
                        assert(old(metas).objs@.update(k as int, t)[u2.key() as int] == old(metas).objs@[u2.key() as int]);
                    },
                    _ => {},
                }
            }
            lemma_metas_wf_update(old(metas).objs@, k as int, t);
        }
    }

    /// The method table and underlying handle of a named type.
    pub fn get_named_metadate<'a>(&self, metas: &'a MetadataObjs) -> (r: (&'a Methods, &'a
        GosMetadata))
        requires
            self is NonPtr || self is Ptr1,
            (self.key() as int) < metas.objs@.len(),
            metas.objs@[self.key() as int] is Named,
        ensures
            metas.objs@[self.key() as int] == MetadataType::Named(*r.0, *r.1),
    {
        let k = self.recv_meta_key();
        match metas.get(k) {
            MetadataType::Named(methods, md) => (methods, md),
            _ => vstd::pervasive::unreached(),
        }
    }

    /// One method slot of a named type, by index.
    pub fn get_method(&self, index: OpIndex, metas: &MetadataObjs) -> (r: MethodDesc)
        requires
            self is NonPtr || self is Ptr1,
            (self.key() as int) < metas.objs@.len(),
            metas.objs@[self.key() as int] matches MetadataType::Named(ms, _) && 0 <= index
                < ms.members@.len(),
        ensures
            metas.objs@[self.key() as int] matches MetadataType::Named(ms, _) && r
                == ms.members@[index as int],
    {
        let (m, _) = self.get_named_metadate(metas);
        m.members[index as usize]
    }

    /// The index of a method of a non-interface named type.
    pub fn method_index(&self, name: &str, metas: &MetadataObjs) -> (r: OpIndex)
        requires
            self is NonPtr || self is Ptr1,
            (self.key() as int) < metas.objs@.len(),
            metas.objs@[self.key() as int] matches MetadataType::Named(ms, _)
                && ms.mapping.spec_get(name@) is Some,
        ensures
            metas.objs@[self.key() as int] matches MetadataType::Named(ms, _)
                && ms.mapping.spec_get(name@) == Some(r),
    {
        let (m, _) = self.get_named_metadate(metas);
        match m.mapping.get(name) {
            Some(i) => i,
            None => vstd::pervasive::unreached(),
        }
    }

    /// The index of a method of an interface, looked up on the named
    /// type's underlying interface entry.
    pub fn iface_method_index(&self, name: &str, metas: &MetadataObjs) -> (r: OpIndex)
        requires
            self is NonPtr || self is Ptr1,
            (self.key() as int) < metas.objs@.len(),
            metas_wf(metas.objs@),
            ({
                &&& metas.objs@[self.key() as int] matches MetadataType::Named(_, u)
                &&& u is NonPtr
                &&& metas.objs@[u.key() as int] matches MetadataType::Interface(fl)
                &&& fl.mapping.spec_get(name@) is Some
            }),
        ensures
            ({
                &&& metas.objs@[self.key() as int] matches MetadataType::Named(_, u)
                &&& metas.objs@[u.key() as int] matches MetadataType::Interface(fl)
                &&& fl.mapping.spec_get(name@) == Some(r)
            }),
    {
        proof {
            assert(mt_wf(metas.objs@[self.key() as int], self.key() as int, metas.objs@));
        }
        let (_, under) = self.get_named_metadate(metas);
        let k2 = under.as_non_ptr();
        match metas.get(k2) {
            MetadataType::Interface(m) => match m.mapping.get(name) {
                Some(i) => i,
                None => vstd::pervasive::unreached(),
            },
            _ => vstd::pervasive::unreached(),
        }
    }
}

/// The value `default_val` builds, `None` where this core does not provide
/// one.  `slice_key` and `map_key` are the arena keys a fresh payload would
/// receive.
pub open spec fn default_val_spec(
    m: GosMetadata,
    metas: Seq<MetadataType>,
    slice_key: crate::value::SliceKey,
    map_key: crate::value::MapKey,
) -> Option<GosValue>
    decreases m.key(),
    when metas_wf(metas) && m is NonPtr && (m.key() as int) < metas.len()
{
    match m {
        GosMetadata::NonPtr(k, _) => match metas[k as int] {
            MetadataType::Bool => Some(GosValue::Bool(false)),
            MetadataType::Int => Some(GosValue::Int(0)),
            MetadataType::Int8 => Some(GosValue::Int8(0)),
            MetadataType::Int16 => Some(GosValue::Int16(0)),
            MetadataType::Int32 => Some(GosValue::Int32(0)),
            MetadataType::Int64 => Some(GosValue::Int64(0)),
            MetadataType::Uint => Some(GosValue::Uint(0)),
            MetadataType::Uint8 => Some(GosValue::Uint8(0)),
            MetadataType::Uint16 => Some(GosValue::Uint16(0)),
            MetadataType::Uint32 => Some(GosValue::Uint32(0)),
            MetadataType::Uint64 => Some(GosValue::Uint64(0)),
            MetadataType::Float32 => Some(GosValue::Float32(0)),
            MetadataType::Float64 => Some(GosValue::Float64(0)),
            MetadataType::Complex64 => Some(GosValue::Complex64(0, 0)),
            MetadataType::Complex128 => Some(GosValue::Complex128(0, 0)),
            MetadataType::Str(s) => Some(s),
            MetadataType::Struct(_, s) => Some(s),
            MetadataType::Signature(_) => None,
            MetadataType::Slice(_) => Some(GosValue::Slice(slice_key)),
            MetadataType::GosMap(_, _) => Some(GosValue::GosMap(map_key)),
            MetadataType::Interface(_) => None,
            MetadataType::Channel => None,
            MetadataType::Named(_, gm) => if gm is NonPtr {
                match default_val_spec(gm, metas, slice_key, map_key) {
                    Some(v) => Some(GosValue::Named(Box::new((v, m)))),
                    None => None,
                }
            } else {
                None
            },
        },
        _ => None,
    }
}

/// The registry entry a handle bottoms out at: a named entry is unwrapped
/// once.
pub open spec fn base_entry(m: GosMetadata, metas: Seq<MetadataType>) -> MetadataType
    recommends
        (m.key() as int) < metas.len(),
{
    match metas[m.key() as int] {
        MetadataType::Named(_, gm) => metas[gm.key() as int],
        t => t,
    }
}

impl GosMetadata {
    /// The default value used by allocation: like the zero value, except
    /// that a slice allocates an empty backing payload and a map an empty
    /// map payload.  Signature, interface and channel defaults are not
    /// provided by this core.
    pub fn default_val(
        &self,
        mobjs: &MetadataObjs,
        slices: &mut SliceObjs,
        maps: &mut MapObjs,
    ) -> (r: Result<GosValue, MetaError>)
        requires
            metas_wf(mobjs.objs@),
            self is NonPtr,
            (self.key() as int) < mobjs.objs@.len(),
            mobjs.objs@[self.key() as int] matches MetadataType::Named(_, gm) ==> gm is NonPtr,
        ensures
            ({
                let spec_r = default_val_spec(
                    *self,
                    mobjs.objs@,
                    old(slices).objs@.len() as crate::value::SliceKey,
                    old(maps).objs@.len() as crate::value::MapKey,
                );
                &&& (r matches Ok(v) ==> spec_r matches Some(sv) && val_eq(v, sv))
                &&& (r is Err <==> spec_r is None)
                &&& (r matches Err(e) ==> e == MetaError::NotImplemented)
            }),
            ({
                if base_entry(*self, mobjs.objs@) is Slice {
                    &&& final(slices).objs@.len() == old(slices).objs@.len() + 1
                    &&& final(slices).objs@.subrange(0, old(slices).objs@.len() as int) == old(
                        slices,
                    ).objs@
                    &&& final(slices).objs@.last().len == 0
                    &&& final(slices).objs@.last().cap == 0
                    &&& final(slices).objs@.last().data@.len() == 0
                    &&& *final(maps) == *old(maps)
                } else if base_entry(*self, mobjs.objs@) is GosMap {
                    &&& final(maps).objs@.len() == old(maps).objs@.len() + 1
                    &&& final(maps).objs@.subrange(0, old(maps).objs@.len() as int) == old(
                        maps,
                    ).objs@
                    &&& final(maps).objs@.last().entries@.len() == 0
                    &&& (base_entry(*self, mobjs.objs@) matches MetadataType::GosMap(_, vm)
                        ==> val_eq(
                        final(maps).objs@.last().default_val,
                        zero_val_spec(vm, mobjs.objs@),
                    ))
                    &&& *final(slices) == *old(slices)
                } else {
                    *final(slices) == *old(slices) && *final(maps) == *old(maps)
                }
            }),
        decreases self.key(),
    {
        match self {
            GosMetadata::NonPtr(k, _) => {
                proof {
                    assert(mt_wf(mobjs.objs@[*k as int], *k as int, mobjs.objs@));
                }
                match mobjs.get(*k) {
                    MetadataType::Bool => Ok(GosValue::Bool(false)),
                    MetadataType::Int => Ok(GosValue::Int(0)),
                    MetadataType::Int8 => Ok(GosValue::Int8(0)),
                    MetadataType::Int16 => Ok(GosValue::Int16(0)),
                    MetadataType::Int32 => Ok(GosValue::Int32(0)),
                    MetadataType::Int64 => Ok(GosValue::Int64(0)),
                    MetadataType::Uint => Ok(GosValue::Uint(0)),
                    MetadataType::Uint8 => Ok(GosValue::Uint8(0)),
                    MetadataType::Uint16 => Ok(GosValue::Uint16(0)),
                    MetadataType::Uint32 => Ok(GosValue::Uint32(0)),
                    MetadataType::Uint64 => Ok(GosValue::Uint64(0)),
                    MetadataType::Float32 => Ok(GosValue::Float32(0)),
                    MetadataType::Float64 => Ok(GosValue::Float64(0)),
                    MetadataType::Complex64 => Ok(GosValue::Complex64(0, 0)),
                    MetadataType::Complex128 => Ok(GosValue::Complex128(0, 0)),
                    MetadataType::Str(s) => Ok(s.copy_semantic()),
                    MetadataType::Struct(_, s) => Ok(s.copy_semantic()),
                    MetadataType::Signature(_) => Err(MetaError::NotImplemented),
                    MetadataType::Slice(_) => Ok(
                        GosValue::new_slice(0, 0, None, slices),
                    ),
                    MetadataType::GosMap(_, v) => Ok(
                        GosValue::new_map(v.zero_val(mobjs), maps),
                    ),
                    MetadataType::Interface(_) => Err(MetaError::NotImplemented),
                    MetadataType::Channel => Err(MetaError::NotImplemented),
                    MetadataType::Named(_, gm) => {
                        match gm.default_val(mobjs, slices, maps) {
                            Ok(val) => Ok(GosValue::Named(Box::new((val, *self)))),
                            Err(e) => Err(MetaError::NotImplemented),
                        }
                    },
                }
            },
            _ => vstd::pervasive::unreached(),
        }
    }
}

impl Fields {
    pub fn new(fields: Vec<GosMetadata>, mapping: NameMap<OpIndex>) -> (r: Fields)
        ensures
            r.fields == fields,
            r.mapping == mapping,
    {
        Fields { fields: fields, mapping: mapping }
    }

    /// Lays an interface's method slots out from a named type's method
    /// table: slot `i` receives the named type's method of the name mapped
    /// to `i`; a slot no name maps to keeps an empty descriptor.
    #[verifier::loop_isolation(false)]
    pub fn iface_named_mapping(&self, named_obj: &Methods) -> (r: Vec<MethodDesc>)
        requires
            fields_wf(*self),
            methods_wf(*named_obj),
            forall|j: int|
                0 <= j < self.mapping.entries@.len() ==> named_obj.mapping.spec_get(
                    (#[trigger] self.mapping.entries@[j]).0@,
                ) is Some,
            forall|a: int, b: int|
                0 <= a < b < self.mapping.entries@.len() ==> (#[trigger] self.mapping.entries@[a]).1
                    != (#[trigger] self.mapping.entries@[b]).1,
        ensures
            r@.len() == self.fields@.len(),
            forall|j: int|
                0 <= j < self.mapping.entries@.len() ==> ({
                    let n = (#[trigger] self.mapping.entries@[j]).0@;
                    let slot = self.mapping.entries@[j].1 as int;
                    r@[slot] == named_obj.members@[named_obj.mapping.spec_get(n)->Some_0 as int]
                }),
            forall|s: int|
                0 <= s < r@.len() && (forall|j: int|
                    0 <= j < self.mapping.entries@.len() ==> (
                    #[trigger] self.mapping.entries@[j]).1 != s) ==> (#[trigger] r@[s])
                    == (MethodDesc { pointer_recv: false, func: None }),
    {
        let default = MethodDesc { pointer_recv: false, func: None };
        let mut result: Vec<MethodDesc> = Vec::new();
        let mut i: usize = 0;
        while i < self.fields.len()
            invariant
                result@.len() == i,
                0 <= i <= self.fields@.len(),
                forall|k: int|
                    0 <= k < i ==> (#[trigger] result@[k]) == (MethodDesc {
                        pointer_recv: false,
                        func: None,
                    }),
            decreases self.fields@.len() - i,
        {
            result.push(default);
            i = i + 1;
        }
        let mut j: usize = 0;
        while j < self.mapping.entries.len()
            invariant
                result@.len() == self.fields@.len(),
                0 <= j <= self.mapping.entries@.len(),
                forall|j2: int|
                    0 <= j2 < j ==> ({
                        let n = (#[trigger] self.mapping.entries@[j2]).0@;
                        let slot = self.mapping.entries@[j2].1 as int;
                        result@[slot] == named_obj.members@[named_obj.mapping.spec_get(
                            n,
                        )->Some_0 as int]
                    }),
                forall|s: int|
                    0 <= s < result@.len() && (forall|j2: int|
                        0 <= j2 < j ==> (#[trigger] self.mapping.entries@[j2]).1 != s) ==> (
                    #[trigger] result@[s]) == (MethodDesc { pointer_recv: false, func: None }),
            decreases self.mapping.entries@.len() - j,
        {
            let entry_name = &self.mapping.entries[j].0;
            let slot = self.mapping.entries[j].1;
            proof {
                crate::names::lemma_entries_get_present(self.mapping.entries@, j as int);
                assert(self.mapping.spec_get(self.mapping.entries@[j as int].0@) == Some(slot));
                assert(0 <= slot < self.fields@.len());
            }
            let midx = match named_obj.mapping.get(entry_name.as_str()) {
                Some(x) => x,
                None => vstd::pervasive::unreached(),
            };
            let f = named_obj.members[midx as usize];
            let ghost pre = result@;
            result.set(slot as usize, f);
            proof {
                assert(result@ == pre.update(slot as int, f));
                assert forall|j2: int| 0 <= j2 < j + 1 implies ({
                    let n = (#[trigger] self.mapping.entries@[j2]).0@;
                    let slot2 = self.mapping.entries@[j2].1 as int;
                    result@[slot2] == named_obj.members@[named_obj.mapping.spec_get(
                        n,
                    )->Some_0 as int]
                }) by {
                    if j2 < j {
                        assert(self.mapping.entries@[j2].0@ != self.mapping.entries@[j as int].0@);
                        assert(self.mapping.entries@[j2].1 != self.mapping.entries@[j as int].1);
                        assert(self.mapping.entries@[j2].1 as int != slot as int);
                        crate::names::lemma_entries_get_present(self.mapping.entries@, j2);
                        assert(self.mapping.spec_get(self.mapping.entries@[j2].0@) == Some(
                            self.mapping.entries@[j2].1,
                        ));
                        assert(0 <= self.mapping.entries@[j2].1 < self.fields@.len());
                        assert(pre[self.mapping.entries@[j2].1 as int]
                            == named_obj.members@[named_obj.mapping.spec_get(
                            self.mapping.entries@[j2].0@,
                        )->Some_0 as int]);
                        assert(result@[self.mapping.entries@[j2].1 as int]
                            == pre[self.mapping.entries@[j2].1 as int]);
                    } else {
                        assert(named_obj.mapping.spec_get(self.mapping.entries@[j as int].0@)
                            == Some(midx));
                        assert(result@[slot as int] == f);
                        assert(result@[self.mapping.entries@[j2].1 as int]
                            == named_obj.members@[named_obj.mapping.spec_get(
                            self.mapping.entries@[j2].0@,
                        )->Some_0 as int]);
                    }
                }
            }
            j = j + 1;
        }
        result
    }

    /// The foreign-function view of an interface layout: one pair per
    /// method slot, carrying the slot's name and the signature entry's key.
    #[verifier::loop_isolation(false)]
    pub fn iface_ffi_info(&self) -> (r: Vec<(String, MetadataKey)>)
        requires
            fields_wf(*self),
            forall|i: int| 0 <= i < self.fields@.len() ==> (#[trigger] self.fields@[i]) is NonPtr,
            forall|a: int, b: int|
                0 <= a < b < self.mapping.entries@.len() ==> (#[trigger] self.mapping.entries@[a]).1
                    != (#[trigger] self.mapping.entries@[b]).1,
        ensures
            r@.len() == self.fields@.len(),
            forall|i: int| 0 <= i < r@.len() ==> (#[trigger] r@[i]).1 == self.fields@[i].key(),
            forall|j: int|
                0 <= j < self.mapping.entries@.len() ==> ({
                    let e = #[trigger] self.mapping.entries@[j];
                    r@[e.1 as int].0@ == e.0@
                }),
    {
        let mut ret: Vec<(String, MetadataKey)> = Vec::new();
        let mut i: usize = 0;
        while i < self.fields.len()
            invariant
                ret@.len() == i,
                0 <= i <= self.fields@.len(),
                forall|i2: int| 0 <= i2 < i ==> (#[trigger] ret@[i2]).1 == self.fields@[i2].key(),
            decreases self.fields@.len() - i,
        {
            ret.push((String::new(), self.fields[i].as_non_ptr()));
            i = i + 1;
        }
        let mut j: usize = 0;
        while j < self.mapping.entries.len()
            invariant
                ret@.len() == self.fields@.len(),
                0 <= j <= self.mapping.entries@.len(),
                forall|i2: int| 0 <= i2 < ret@.len() ==> (#[trigger] ret@[i2]).1
                    == self.fields@[i2].key(),
                forall|j2: int|
                    0 <= j2 < j ==> ({
                        let e = #[trigger] self.mapping.entries@[j2];
                        ret@[e.1 as int].0@ == e.0@
                    }),
            decreases self.mapping.entries@.len() - j,
        {
            let name = self.mapping.entries[j].0.clone();
            let index = self.mapping.entries[j].1;
            proof {
                crate::names::lemma_entries_get_present(self.mapping.entries@, j as int);
                assert(self.mapping.spec_get(self.mapping.entries@[j as int].0@) == Some(index));
                assert(0 <= index < self.fields@.len());
            }
            let key = ret[index as usize].1;
            ret.set(index as usize, (name, key));
            proof {
                assert forall|j2: int| 0 <= j2 < j + 1 implies ({
                    let e = #[trigger] self.mapping.entries@[j2];
                    ret@[e.1 as int].0@ == e.0@
                }) by {
                    if j2 < j {
                        assert(self.mapping.entries@[j2].1 != self.mapping.entries@[j as int].1);
                        crate::names::lemma_entries_get_present(self.mapping.entries@, j2);
                        assert(self.mapping.spec_get(self.mapping.entries@[j2].0@) == Some(
                            self.mapping.entries@[j2].1,
                        ));
                        assert(0 <= self.mapping.entries@[j2].1 < self.fields@.len());
                    }
                }
            }
            j = j + 1;
        }
        ret
    }
}

/// Structural identity of two handles: same depth and flag, and either
/// the same entry or entries whose shapes match recursively.  Two named
/// entries are identical only when they are the same entry.
pub open spec fn gm_identical(x: GosMetadata, y: GosMetadata, metas: Seq<MetadataType>) -> bool
    decreases x.key() + y.key(), 4int,
    when metas_wf(metas) && meta_valid(x, metas) && meta_valid(y, metas)
{
    if x is Untyped || y is Untyped {
        x == y
    } else {
        &&& x.depth() == y.depth()
        &&& x.type_flag() == y.type_flag()
        &&& (x.key() == y.key() || mt_identical(x.key() as int, y.key() as int, metas))
    }
}

/// Shape equality of the entries under two keys.
pub open spec fn mt_identical(k1: int, k2: int, metas: Seq<MetadataType>) -> bool
    decreases k1 + k2, 3int,
    when metas_wf(metas) && 0 <= k1 < metas.len() && 0 <= k2 < metas.len()
{
    match (metas[k1], metas[k2]) {
        (MetadataType::Bool, MetadataType::Bool) => true,
        (MetadataType::Int, MetadataType::Int) => true,
        (MetadataType::Int8, MetadataType::Int8) => true,
        (MetadataType::Int16, MetadataType::Int16) => true,
        (MetadataType::Int32, MetadataType::Int32) => true,
        (MetadataType::Int64, MetadataType::Int64) => true,
        (MetadataType::Uint, MetadataType::Uint) => true,
        (MetadataType::Uint8, MetadataType::Uint8) => true,
        (MetadataType::Uint16, MetadataType::Uint16) => true,
        (MetadataType::Uint32, MetadataType::Uint32) => true,
        (MetadataType::Uint64, MetadataType::Uint64) => true,
        (MetadataType::Float32, MetadataType::Float32) => true,
        (MetadataType::Float64, MetadataType::Float64) => true,
        (MetadataType::Complex64, MetadataType::Complex64) => true,
        (MetadataType::Complex128, MetadataType::Complex128) => true,
        (MetadataType::Str(_), MetadataType::Str(_)) => true,
        (MetadataType::Struct(f1, _), MetadataType::Struct(f2, _)) => fields_identical(
            f1,
            f2,
            k1,
            k2,
            metas,
        ),
        (MetadataType::Signature(s1), MetadataType::Signature(s2)) => {
            &&& opt_gm_identical(s1.recv, s2.recv, k1, k2, metas)
            &&& gms_identical(s1.params@, s2.params@, k1, k2, metas)
            &&& gms_identical(s1.results@, s2.results@, k1, k2, metas)
            &&& opt_gm_identical(s1.variadic, s2.variadic, k1, k2, metas)
            &&& s1.params_type@ == s2.params_type@
        },
        (MetadataType::Slice(e1), MetadataType::Slice(e2)) => gm_identical(e1, e2, metas),
        (MetadataType::GosMap(km1, vm1), MetadataType::GosMap(km2, vm2)) => gm_identical(
            km1,
            km2,
            metas,
        ) && gm_identical(vm1, vm2, metas),
        (MetadataType::Interface(f1), MetadataType::Interface(f2)) => fields_identical(
            f1,
            f2,
            k1,
            k2,
            metas,
        ),
        (MetadataType::Channel, MetadataType::Channel) => true,
        _ => false,
    }
}

/// Pointwise structural identity of two member runs, whose entries all
/// lie below `b1` and `b2`.
pub open spec fn gms_identical(
    s1: Seq<GosMetadata>,
    s2: Seq<GosMetadata>,
    b1: int,
    b2: int,
    metas: Seq<MetadataType>,
) -> bool
    decreases b1 + b2, 1int,
    when metas_wf(metas) && (forall|i: int| 0 <= i < s1.len() ==> ref_ok(#[trigger] s1[i], b1))
        && (forall|i: int| 0 <= i < s2.len() ==> ref_ok(#[trigger] s2[i], b2)) && 0 <= b1
        < metas.len() && 0 <= b2 < metas.len()
{
    s1.len() == s2.len() && (forall|i: int|
        0 <= i < s1.len() ==> gm_identical(#[trigger] s1[i], s2[i], metas))
}

/// Structural identity of two optional handles below `b1` and `b2`.
pub open spec fn opt_gm_identical(
    o1: Option<GosMetadata>,
    o2: Option<GosMetadata>,
    b1: int,
    b2: int,
    metas: Seq<MetadataType>,
) -> bool
    decreases b1 + b2, 1int,
    when metas_wf(metas) && (o1 matches Some(m) ==> ref_ok(m, b1)) && (o2 matches Some(m)
        ==> ref_ok(m, b2)) && 0 <= b1 < metas.len() && 0 <= b2 < metas.len()
{
    match (o1, o2) {
        (Some(x), Some(y)) => gm_identical(x, y, metas),
        (None, None) => true,
        _ => false,
    }
}

/// Member layout identity: member handles pointwise identical and the
/// same name table.
pub open spec fn fields_identical(
    f1: Fields,
    f2: Fields,
    b1: int,
    b2: int,
    metas: Seq<MetadataType>,
) -> bool
    decreases b1 + b2, 2int,
    when metas_wf(metas) && (forall|i: int|
        0 <= i < f1.fields@.len() ==> ref_ok(#[trigger] f1.fields@[i], b1)) && (forall|i: int|
        0 <= i < f2.fields@.len() ==> ref_ok(#[trigger] f2.fields@[i], b2)) && 0 <= b1
        < metas.len() && 0 <= b2 < metas.len()
{
    &&& gms_identical(f1.fields@, f2.fields@, b1, b2, metas)
    &&& nm_equal(f1.mapping, f2.mapping)
}

/// Two name tables with the same entries in the same order.
pub open spec fn nm_equal(m1: NameMap<OpIndex>, m2: NameMap<OpIndex>) -> bool {
    m1.entries@.len() == m2.entries@.len() && forall|i: int|
        0 <= i < m1.entries@.len() ==> (#[trigger] m1.entries@[i]).0@ == m2.entries@[i].0@
            && m1.entries@[i].1 == m2.entries@[i].1
}

impl GosMetadata {
    /// Decides structural identity of two handles, the type equivalence
    /// used by interface satisfaction and the reflection surface.
    pub fn identical(&self, other: &GosMetadata, metas: &MetadataObjs) -> (r: bool)
        requires
            metas_wf(metas.objs@),
            meta_valid(*self, metas.objs@),
            meta_valid(*other, metas.objs@),
        ensures
            r == gm_identical(*self, *other, metas.objs@),
        decreases self.key() + other.key(), 4int,
    {
        if matches!(self, GosMetadata::Untyped) || matches!(other, GosMetadata::Untyped) {
            let a = matches!(self, GosMetadata::Untyped);
            let b = matches!(other, GosMetadata::Untyped);
            return a && b;
        }
        let (k1, t1) = self.unwrap_key_and_is_type();
        let (k2, t2) = other.unwrap_key_and_is_type();
        let d1 = self.depth_count();
        let d2 = other.depth_count();
        if d1 != d2 || t1 != t2 {
            return false;
        }
        if k1 == k2 {
            return true;
        }
        mt_identical_at(k1, k2, metas)
    }

    /// The pointer depth as a number.
    pub fn depth_count(&self) -> (r: usize)
        ensures
            r as int == self.depth(),
    {
        match self {
            GosMetadata::Untyped => 0,
            GosMetadata::NonPtr(_, _) => 0,
            GosMetadata::Ptr1(_, _) => 1,
            GosMetadata::Ptr2(_, _) => 2,
            GosMetadata::Ptr3(_, _) => 3,
            GosMetadata::Ptr4(_, _) => 4,
            GosMetadata::Ptr5(_, _) => 5,
            GosMetadata::Ptr6(_, _) => 6,
            GosMetadata::Ptr7(_, _) => 7,
        }
    }
}

/// Decides shape equality of the entries under two keys.
fn mt_identical_at(k1: MetadataKey, k2: MetadataKey, metas: &MetadataObjs) -> (r: bool)
    requires
        metas_wf(metas.objs@),
        k1 < metas.objs@.len(),
        k2 < metas.objs@.len(),
    ensures
        r == mt_identical(k1 as int, k2 as int, metas.objs@),
    decreases k1 + k2, 3int,
{
    proof {
        assert(mt_wf(metas.objs@[k1 as int], k1 as int, metas.objs@));
        assert(mt_wf(metas.objs@[k2 as int], k2 as int, metas.objs@));
    }
    match (metas.get(k1), metas.get(k2)) {
        (MetadataType::Bool, MetadataType::Bool) => true,
        (MetadataType::Int, MetadataType::Int) => true,
        (MetadataType::Int8, MetadataType::Int8) => true,
        (MetadataType::Int16, MetadataType::Int16) => true,
        (MetadataType::Int32, MetadataType::Int32) => true,
        (MetadataType::Int64, MetadataType::Int64) => true,
        (MetadataType::Uint, MetadataType::Uint) => true,
        (MetadataType::Uint8, MetadataType::Uint8) => true,
        (MetadataType::Uint16, MetadataType::Uint16) => true,
        (MetadataType::Uint32, MetadataType::Uint32) => true,
        (MetadataType::Uint64, MetadataType::Uint64) => true,
        (MetadataType::Float32, MetadataType::Float32) => true,
        (MetadataType::Float64, MetadataType::Float64) => true,
        (MetadataType::Complex64, MetadataType::Complex64) => true,
        (MetadataType::Complex128, MetadataType::Complex128) => true,
        (MetadataType::Str(_), MetadataType::Str(_)) => true,
        (MetadataType::Struct(f1, _), MetadataType::Struct(f2, _)) => {
            gms_equal(&f1.fields, &f2.fields, Ghost(k1 as int), Ghost(k2 as int), metas)
                && nm_equal_exec(&f1.mapping, &f2.mapping)
        },
        (MetadataType::Signature(s1), MetadataType::Signature(s2)) => {
            let recv_ok = match (&s1.recv, &s2.recv) {
                (Some(x), Some(y)) => x.identical(y, metas),
                (None, None) => true,
                _ => false,
            };
            let variadic_ok = match (&s1.variadic, &s2.variadic) {
                (Some(x), Some(y)) => x.identical(y, metas),
                (None, None) => true,
                _ => false,
            };
            recv_ok && gms_equal(&s1.params, &s2.params, Ghost(k1 as int), Ghost(k2 as int), metas)
                && gms_equal(&s1.results, &s2.results, Ghost(k1 as int), Ghost(k2 as int), metas)
                && variadic_ok && vts_equal(&s1.params_type, &s2.params_type)
        },
        (MetadataType::Slice(e1), MetadataType::Slice(e2)) => e1.identical(e2, metas),
        (MetadataType::GosMap(km1, vm1), MetadataType::GosMap(km2, vm2)) => {
            km1.identical(km2, metas) && vm1.identical(vm2, metas)
        },
        (MetadataType::Interface(f1), MetadataType::Interface(f2)) => {
            gms_equal(&f1.fields, &f2.fields, Ghost(k1 as int), Ghost(k2 as int), metas)
                && nm_equal_exec(&f1.mapping, &f2.mapping)
        },
        (MetadataType::Channel, MetadataType::Channel) => true,
        _ => false,
    }
}

/// Decides pointwise structural identity of two member runs below the
/// given bounds.
#[verifier::loop_isolation(false)]
fn gms_equal(
    s1: &Vec<GosMetadata>,
    s2: &Vec<GosMetadata>,
    Ghost(b1): Ghost<int>,
    Ghost(b2): Ghost<int>,
    metas: &MetadataObjs,
) -> (r: bool)
    requires
        metas_wf(metas.objs@),
        forall|i: int| 0 <= i < s1@.len() ==> ref_ok(#[trigger] s1@[i], b1),
        forall|i: int| 0 <= i < s2@.len() ==> ref_ok(#[trigger] s2@[i], b2),
        0 <= b1 < metas.objs@.len(),
        0 <= b2 < metas.objs@.len(),
    ensures
        r == gms_identical(s1@, s2@, b1, b2, metas.objs@),
    decreases b1 + b2, 1int,
{
    if s1.len() != s2.len() {
        return false;
    }
    let mut i: usize = 0;
    while i < s1.len()
        invariant
            0 <= i <= s1@.len(),
            forall|j: int| 0 <= j < i ==> gm_identical(#[trigger] s1@[j], s2@[j], metas.objs@),
        decreases s1@.len() - i,
    {
        if !s1[i].identical(&s2[i], metas) {
            return false;
        }
        i = i + 1;
    }
    true
}

/// Decides whether two name tables hold the same entries in the same
/// order.
#[verifier::loop_isolation(false)]
fn nm_equal_exec(m1: &NameMap<OpIndex>, m2: &NameMap<OpIndex>) -> (r: bool)
    ensures
        r == nm_equal(*m1, *m2),
{
    if m1.entries.len() != m2.entries.len() {
        return false;
    }
    let mut i: usize = 0;
    while i < m1.entries.len()
        invariant
            0 <= i <= m1.entries@.len(),
            forall|j: int|
                0 <= j < i ==> (#[trigger] m1.entries@[j]).0@ == m2.entries@[j].0@
                    && m1.entries@[j].1 == m2.entries@[j].1,
        decreases m1.entries@.len() - i,
    {
        if !(m1.entries[i].0 == m2.entries[i].0) || m1.entries[i].1 != m2.entries[i].1 {
            return false;
        }
        i = i + 1;
    }
    true
}

/// Decides equality of two tag runs.
#[verifier::loop_isolation(false)]
fn vts_equal(v1: &Vec<ValueType>, v2: &Vec<ValueType>) -> (r: bool)
    ensures
        r == (v1@ == v2@),
{
    if v1.len() != v2.len() {
        proof {
            assert(v1@.len() != v2@.len());
        }
        return false;
    }
    let mut i: usize = 0;
    while i < v1.len()
        invariant
            0 <= i <= v1@.len(),
            v1@.len() == v2@.len(),
            forall|j: int| 0 <= j < i ==> v1@[j] == v2@[j],
        decreases v1@.len() - i,
    {
        if v1[i] != v2[i] {
            return false;
        }
        i = i + 1;
    }
    proof {
        assert(v1@ =~= v2@);
    }
    true
}

/// Zero-value round trip: the copy operation promises a result that
/// compares equal to its input, so any copy `c` of a type's zero value
/// compares equal to that zero value — in both directions of the
/// value-comparison rules, and for every metadata handle.
pub proof fn lemma_zero_val_round_trip(m: GosMetadata, metas: Seq<MetadataType>, c: GosValue)
    requires
        metas_wf(metas),
        meta_valid(m, metas),
        val_eq(c, zero_val_spec(m, metas)),
    ensures
        val_eq(zero_val_spec(m, metas), c),
{
    crate::value::lemma_val_eq_sym(c, zero_val_spec(m, metas));
}

/// The stored zero instance of any struct entry carries the handle of that
/// very entry.
pub proof fn lemma_struct_zero_self_reference(metas: Seq<MetadataType>, k: int)
    requires
        metas_wf(metas),
        0 <= k < metas.len(),
        metas[k] is Struct,
    ensures
        metas[k] matches MetadataType::Struct(_, z) && z matches GosValue::Struct(zb) && zb.meta
            == GosMetadata::NonPtr(k as MetadataKey, false),
{
    assert(mt_wf(metas[k], k, metas));
}

/// Unwrapping the underlying handle is idempotent: what a named type wraps
/// is never itself a named type.
pub proof fn lemma_get_underlying_idempotent(m: GosMetadata, metas: Seq<MetadataType>)
    requires
        metas_wf(metas),
        meta_valid(m, metas),
    ensures
        meta_valid(underlying_spec(m, metas), metas),
        underlying_spec(underlying_spec(m, metas), metas) == underlying_spec(m, metas),
{
    match m {
        GosMetadata::NonPtr(k, _) => {
            assert(mt_wf(metas[k as int], k as int, metas));
        }
        _ => {}
    }
}

/// Appends a registry entry whose well-formedness at the new key the
/// caller has established, keeping the registry well formed.
fn push_wf(objs: &mut MetadataObjs, t: MetadataType) -> (k: MetadataKey)
    requires
        metas_wf(old(objs).objs@),
        mt_wf(t, old(objs).objs@.len() as int, old(objs).objs@.push(t)),
    ensures
        k == old(objs).objs@.len(),
        final(objs).objs@ == old(objs).objs@.push(t),
        metas_wf(final(objs).objs@),
{
    proof {
        lemma_metas_wf_push(objs.objs@, t);
    }
    objs.insert(t)
}

} // verus!
