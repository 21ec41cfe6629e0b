//! The tagged runtime value: one variant per value type.  Scalar variants
//! carry their payload inline; floating and complex payloads are carried as
//! their IEEE bit patterns, since this core never computes on them.  Slices
//! and maps are handles into per-kind arenas; strings, structs, interfaces
//! and pointers carry their payload as an owned tree, so value comparison
//! and the copy operation are structural.

use vstd::prelude::*;
use crate::instruction::OpIndex;
use crate::metadata::GosMetadata;
use crate::objects::{FunctionKey, MapObjs, SliceObjs};

verus! {

/// Key of a slice payload in the slice arena.
pub type SliceKey = usize;

/// Key of a map payload in the map arena.
pub type MapKey = usize;

/// The payload of a struct value: its metadata handle and one value per
/// field, in layout order.
#[derive(Debug)]
pub struct StructObj {
    pub dark: bool,
    pub meta: GosMetadata,
    pub fields: Vec<GosValue>,
}

/// The payload of a slice value: a window of `len` elements over a backing
/// store with `cap` reserved slots.
#[derive(Debug)]
pub struct SliceObj {
    pub len: usize,
    pub cap: usize,
    pub data: Vec<GosValue>,
}

/// The payload of a map value: the zero value handed out for absent keys,
/// and the entries in insertion order.
#[derive(Debug)]
pub struct MapObj {
    pub default_val: GosValue,
    pub entries: Vec<(GosValue, GosValue)>,
}

/// A pointer value.  A user-data pointer carries a type-erased handle owned
/// by a foreign function; its identity is the foreign side's responsibility
/// and is modeled here by the handle id.
#[derive(Debug)]
pub enum PointerObj {
    /// Points at a local-variable stack slot.
    Stack(OpIndex),
    /// Points into a slice payload.
    SliceMember(SliceKey, OpIndex),
    /// Points into a map payload.
    MapMember(MapKey, OpIndex),
    /// An opaque value registered by a foreign function.
    UserData(u64),
}

/// What an interface value holds.
#[derive(Debug)]
pub enum IfaceUnderlying {
    /// A language value together with its dynamic behavior.
    Gos(Box<GosValue>),
    /// A binding provided by the foreign-function surface.
    Ffi(u64),
    /// A typed nil: the interface's own metadata with no value inside.
    Empty,
}

/// The payload of an interface value.
#[derive(Debug)]
pub struct IfaceObj {
    pub meta: GosMetadata,
    pub underlying: IfaceUnderlying,
}

/// A runtime value: a tagged union with one variant per value type.
#[derive(Debug)]
pub enum GosValue {
    Bool(bool),
    Int(i64),
    Int8(i8),
    Int16(i16),
    Int32(i32),
    Int64(i64),
    Uint(u64),
    Uint8(u8),
    Uint16(u16),
    Uint32(u32),
    Uint64(u64),
    /// IEEE bit pattern of a 32-bit float.
    Float32(u32),
    /// IEEE bit pattern of a 64-bit float.
    Float64(u64),
    Complex64(u32, u32),
    Complex128(u64, u64),
    Str(String),
    Array(Vec<GosValue>),
    Struct(Box<StructObj>),
    Slice(SliceKey),
    GosMap(MapKey),
    Interface(Box<IfaceObj>),
    Pointer(Box<PointerObj>),
    Closure(FunctionKey),
    Channel(u64),
    /// A named-type value: the underlying value paired with the metadata
    /// handle of the named type.
    Named(Box<(GosValue, GosMetadata)>),
    /// A typed nil, carrying the metadata of the type it belongs to.
    Nil(GosMetadata),
    /// A type reified as a value.
    Metadata(GosMetadata),
}

/// Pointer equality per the value-comparison rules: user-data handles
/// compare by the foreign identity they model.
pub open spec fn ptr_eq(a: PointerObj, b: PointerObj) -> bool {
    match (a, b) {
        (PointerObj::Stack(i), PointerObj::Stack(j)) => i == j,
        (PointerObj::SliceMember(k1, i1), PointerObj::SliceMember(k2, i2)) => k1 == k2 && i1 == i2,
        (PointerObj::MapMember(k1, i1), PointerObj::MapMember(k2, i2)) => k1 == k2 && i1 == i2,
        (PointerObj::UserData(u1), PointerObj::UserData(u2)) => u1 == u2,
        _ => false,
    }
}

/// Value comparison: scalars by payload, strings by contents, arrays and
/// structs element by element, reference kinds by handle, nils by their
/// metadata.
pub open spec fn val_eq(a: GosValue, b: GosValue) -> bool
    decreases a,
{
    match (a, b) {
        (GosValue::Bool(x), GosValue::Bool(y)) => x == y,
        (GosValue::Int(x), GosValue::Int(y)) => x == y,
        (GosValue::Int8(x), GosValue::Int8(y)) => x == y,
        (GosValue::Int16(x), GosValue::Int16(y)) => x == y,
        (GosValue::Int32(x), GosValue::Int32(y)) => x == y,
        (GosValue::Int64(x), GosValue::Int64(y)) => x == y,
        (GosValue::Uint(x), GosValue::Uint(y)) => x == y,
        (GosValue::Uint8(x), GosValue::Uint8(y)) => x == y,
        (GosValue::Uint16(x), GosValue::Uint16(y)) => x == y,
        (GosValue::Uint32(x), GosValue::Uint32(y)) => x == y,
        (GosValue::Uint64(x), GosValue::Uint64(y)) => x == y,
        (GosValue::Float32(x), GosValue::Float32(y)) => x == y,
        (GosValue::Float64(x), GosValue::Float64(y)) => x == y,
        (GosValue::Complex64(xr, xi), GosValue::Complex64(yr, yi)) => xr == yr && xi == yi,
        (GosValue::Complex128(xr, xi), GosValue::Complex128(yr, yi)) => xr == yr && xi == yi,
        (GosValue::Str(x), GosValue::Str(y)) => x@ == y@,
        (GosValue::Array(x), GosValue::Array(y)) => vals_eq(x@, y@),
        (GosValue::Struct(x), GosValue::Struct(y)) => x.dark == y.dark && x.meta == y.meta
            && vals_eq(x.fields@, y.fields@),
        (GosValue::Slice(x), GosValue::Slice(y)) => x == y,
        (GosValue::GosMap(x), GosValue::GosMap(y)) => x == y,
        (GosValue::Interface(x), GosValue::Interface(y)) => x.meta == y.meta && match (
            x.underlying,
            y.underlying,
        ) {
            (IfaceUnderlying::Gos(u), IfaceUnderlying::Gos(v)) => val_eq(*u, *v),
            (IfaceUnderlying::Ffi(u), IfaceUnderlying::Ffi(v)) => u == v,
            (IfaceUnderlying::Empty, IfaceUnderlying::Empty) => true,
            _ => false,
        },
        (GosValue::Pointer(x), GosValue::Pointer(y)) => ptr_eq(*x, *y),
        (GosValue::Closure(x), GosValue::Closure(y)) => x == y,
        (GosValue::Channel(x), GosValue::Channel(y)) => x == y,
        (GosValue::Named(x), GosValue::Named(y)) => val_eq(x.0, y.0) && x.1 == y.1,
        (GosValue::Nil(x), GosValue::Nil(y)) => x == y,
        (GosValue::Metadata(x), GosValue::Metadata(y)) => x == y,
        _ => false,
    }
}

/// Pointwise value comparison of two runs of values.
pub open spec fn vals_eq(a: Seq<GosValue>, b: Seq<GosValue>) -> bool
    decreases a,
{
    if a.len() != b.len() {
        false
    } else if a.len() == 0 {
        true
    } else {
        val_eq(a[0], b[0]) && vals_eq(a.subrange(1, a.len() as int), b.subrange(1, b.len() as int))
    }
}

/// Pointwise comparison holds exactly when every index agrees.
pub proof fn lemma_vals_eq_pointwise(a: Seq<GosValue>, b: Seq<GosValue>)
    ensures
        vals_eq(a, b) <==> (a.len() == b.len() && forall|i: int|
            0 <= i < a.len() ==> val_eq(a[i], b[i])),
    decreases a.len(),
{
    if a.len() == b.len() && a.len() > 0 {
        let at = a.subrange(1, a.len() as int);
        let bt = b.subrange(1, b.len() as int);
        lemma_vals_eq_pointwise(at, bt);
        assert forall|i: int| 0 < i < a.len() implies (val_eq(a[i], b[i]) <==> val_eq(
            at[i - 1],
            bt[i - 1],
        )) by {
            assert(at[i - 1] == a[i]);
            assert(bt[i - 1] == b[i]);
        }
        if vals_eq(a, b) {
            assert forall|i: int| 0 <= i < a.len() implies val_eq(a[i], b[i]) by {
                if i > 0 {
                    assert(val_eq(at[i - 1], bt[i - 1]));
                }
            }
        }
    }
}

/// Value comparison is symmetric.
pub proof fn lemma_val_eq_sym(a: GosValue, b: GosValue)
    ensures
        val_eq(a, b) == val_eq(b, a),
    decreases a,
{
    match (a, b) {
        (GosValue::Array(x), GosValue::Array(y)) => {
            lemma_vals_eq_sym(x@, y@);
        }
        (GosValue::Struct(x), GosValue::Struct(y)) => {
            lemma_vals_eq_sym(x.fields@, y.fields@);
        }
        (GosValue::Interface(x), GosValue::Interface(y)) => {
            match (x.underlying, y.underlying) {
                (IfaceUnderlying::Gos(u), IfaceUnderlying::Gos(v)) => {
                    lemma_val_eq_sym(*u, *v);
                }
                _ => {}
            }
        }
        (GosValue::Named(x), GosValue::Named(y)) => {
            lemma_val_eq_sym(x.0, y.0);
        }
        _ => {}
    }
}

/// Pointwise value comparison is symmetric.
pub proof fn lemma_vals_eq_sym(a: Seq<GosValue>, b: Seq<GosValue>)
    ensures
        vals_eq(a, b) == vals_eq(b, a),
    decreases a,
{
    if a.len() == b.len() && a.len() > 0 {
        lemma_val_eq_sym(a[0], b[0]);
        lemma_vals_eq_sym(a.subrange(1, a.len() as int), b.subrange(1, b.len() as int));
    }
}

/// Value comparison is reflexive.
pub proof fn lemma_val_eq_refl(a: GosValue)
    ensures
        val_eq(a, a),
    decreases a,
{
    match a {
        GosValue::Array(x) => {
            lemma_vals_eq_refl(x@);
        }
        GosValue::Struct(x) => {
            lemma_vals_eq_refl(x.fields@);
        }
        GosValue::Interface(x) => {
            match x.underlying {
                IfaceUnderlying::Gos(u) => {
                    lemma_val_eq_refl(*u);
                }
                _ => {}
            }
        }
        GosValue::Named(x) => {
            lemma_val_eq_refl(x.0);
        }
        _ => {}
    }
}

/// Pointwise value comparison is reflexive.
pub proof fn lemma_vals_eq_refl(a: Seq<GosValue>)
    ensures
        vals_eq(a, a),
    decreases a,
{
    if a.len() > 0 {
        lemma_val_eq_refl(a[0]);
        lemma_vals_eq_refl(a.subrange(1, a.len() as int));
    }
}

impl GosValue {
    pub fn new_str(s: String) -> (r: GosValue)
        ensures
            r == GosValue::Str(s),
    {
        GosValue::Str(s)
    }

    /// A typed nil carrying the metadata of the type it belongs to; a
    /// surface with no metadata at hand passes the untyped placeholder.
    pub fn new_nil(meta: GosMetadata) -> (r: GosValue)
        ensures
            r == GosValue::Nil(meta),
    {
        GosValue::Nil(meta)
    }

    pub fn new_pointer(p: PointerObj) -> (r: GosValue)
        ensures
            r matches GosValue::Pointer(b) && *b == p,
    {
        GosValue::Pointer(Box::new(p))
    }

    pub fn new_struct(obj: StructObj) -> (r: GosValue)
        ensures
            r matches GosValue::Struct(b) && *b == obj,
    {
        GosValue::Struct(Box::new(obj))
    }

    /// Allocates a fresh slice payload of `len` elements, each a copy of
    /// `dval`, with `cap` reserved slots, and hands back its handle.
    pub fn new_slice(len: usize, cap: usize, dval: Option<&GosValue>, slices: &mut SliceObjs) -> (r:
        GosValue)
        requires
            dval is None ==> len == 0,
            len <= cap,
        ensures
            r == GosValue::Slice(old(slices).spec_len() as SliceKey),
            final(slices).objs@.len() == old(slices).objs@.len() + 1,
            final(slices).objs@.subrange(0, old(slices).objs@.len() as int) == old(slices).objs@,
            ({
                let o = final(slices).objs@[old(slices).objs@.len() as int];
                o.len == len && o.cap == cap && o.data@.len() == len && (dval matches Some(d)
                    ==> forall|i: int| 0 <= i < len ==> val_eq(o.data@[i], *d))
            }),
    {
        let mut data: Vec<GosValue> = Vec::new();
        match dval {
            Some(d) => {
                let mut i: usize = 0;
                while i < len
                    invariant
                        0 <= i <= len,
                        data@.len() == i,
                        forall|j: int| 0 <= j < i ==> val_eq(data@[j], *d),
                    decreases len - i,
                {
                    data.push(d.copy_semantic());
                    i = i + 1;
                }
            }
            None => {}
        }
        let key = slices.insert(SliceObj { len: len, cap: cap, data: data });
        proof {
            assert(final(slices).objs@.subrange(0, old(slices).objs@.len() as int) =~= old(
                slices,
            ).objs@);
        }
        GosValue::Slice(key)
    }

    /// Allocates a fresh, empty map payload whose absent-key value is
    /// `default_val`, and hands back its handle.
    pub fn new_map(default_val: GosValue, maps: &mut MapObjs) -> (r: GosValue)
        ensures
            r == GosValue::GosMap(old(maps).spec_len() as MapKey),
            final(maps).objs@.len() == old(maps).objs@.len() + 1,
            final(maps).objs@.subrange(0, old(maps).objs@.len() as int) == old(maps).objs@,
            ({
                let o = final(maps).objs@[old(maps).objs@.len() as int];
                o.default_val == default_val && o.entries@ =~= Seq::<(GosValue, GosValue)>::empty()
            }),
    {
        let key = maps.insert(MapObj { default_val: default_val, entries: Vec::new() });
        proof {
            assert(maps.objs@.subrange(0, old(maps).objs@.len() as int) =~= old(maps).objs@);
        }
        GosValue::GosMap(key)
    }

    /// The copy applied at assignment boundaries: value kinds (scalars,
    /// arrays, structs) are copied payload by payload, strings share their
    /// contents, and reference kinds duplicate the handle.  The result
    /// compares equal to the source.
    pub fn copy_semantic(&self) -> (r: GosValue)
        ensures
            val_eq(r, *self),
        decreases *self,
    {
        match self {
            GosValue::Bool(x) => GosValue::Bool(*x),
            GosValue::Int(x) => GosValue::Int(*x),
            GosValue::Int8(x) => GosValue::Int8(*x),
            GosValue::Int16(x) => GosValue::Int16(*x),
            GosValue::Int32(x) => GosValue::Int32(*x),
            GosValue::Int64(x) => GosValue::Int64(*x),
            GosValue::Uint(x) => GosValue::Uint(*x),
            GosValue::Uint8(x) => GosValue::Uint8(*x),
            GosValue::Uint16(x) => GosValue::Uint16(*x),
            GosValue::Uint32(x) => GosValue::Uint32(*x),
            GosValue::Uint64(x) => GosValue::Uint64(*x),
            GosValue::Float32(x) => GosValue::Float32(*x),
            GosValue::Float64(x) => GosValue::Float64(*x),
            GosValue::Complex64(xr, xi) => GosValue::Complex64(*xr, *xi),
            GosValue::Complex128(xr, xi) => GosValue::Complex128(*xr, *xi),
            GosValue::Str(s) => GosValue::Str(s.clone()),
            GosValue::Array(v) => GosValue::Array(copy_vals(v)),
            GosValue::Struct(b) => GosValue::Struct(
                Box::new(
                    StructObj { dark: b.dark, meta: b.meta, fields: copy_vals(&b.fields) },
                ),
            ),
            GosValue::Slice(k) => GosValue::Slice(*k),
            GosValue::GosMap(k) => GosValue::GosMap(*k),
            GosValue::Interface(b) => GosValue::Interface(
                Box::new(
                    IfaceObj {
                        meta: b.meta,
                        underlying: match &b.underlying {
                            IfaceUnderlying::Gos(u) => IfaceUnderlying::Gos(
                                Box::new(u.copy_semantic()),
                            ),
                            IfaceUnderlying::Ffi(id) => IfaceUnderlying::Ffi(*id),
                            IfaceUnderlying::Empty => IfaceUnderlying::Empty,
                        },
                    },
                ),
            ),
            GosValue::Pointer(b) => GosValue::Pointer(
                Box::new(
                    match &**b {
                        PointerObj::Stack(i) => PointerObj::Stack(*i),
                        PointerObj::SliceMember(k, i) => PointerObj::SliceMember(*k, *i),
                        PointerObj::MapMember(k, i) => PointerObj::MapMember(*k, *i),
                        PointerObj::UserData(id) => PointerObj::UserData(*id),
                    },
                ),
            ),
            GosValue::Closure(k) => GosValue::Closure(*k),
            GosValue::Channel(k) => GosValue::Channel(*k),
            GosValue::Named(b) => GosValue::Named(Box::new((b.0.copy_semantic(), b.1))),
            GosValue::Nil(m) => GosValue::Nil(*m),
            GosValue::Metadata(m) => GosValue::Metadata(*m),
        }
    }

    /// Decides the value-comparison rules.
    pub fn equals(&self, other: &GosValue) -> (r: bool)
        ensures
            r == val_eq(*self, *other),
        decreases *self,
    {
        match (self, other) {
            (GosValue::Bool(x), GosValue::Bool(y)) => *x == *y,
            (GosValue::Int(x), GosValue::Int(y)) => *x == *y,
            (GosValue::Int8(x), GosValue::Int8(y)) => *x == *y,
            (GosValue::Int16(x), GosValue::Int16(y)) => *x == *y,
            (GosValue::Int32(x), GosValue::Int32(y)) => *x == *y,
            (GosValue::Int64(x), GosValue::Int64(y)) => *x == *y,
            (GosValue::Uint(x), GosValue::Uint(y)) => *x == *y,
            (GosValue::Uint8(x), GosValue::Uint8(y)) => *x == *y,
            (GosValue::Uint16(x), GosValue::Uint16(y)) => *x == *y,
            (GosValue::Uint32(x), GosValue::Uint32(y)) => *x == *y,
            (GosValue::Uint64(x), GosValue::Uint64(y)) => *x == *y,
            (GosValue::Float32(x), GosValue::Float32(y)) => *x == *y,
            (GosValue::Float64(x), GosValue::Float64(y)) => *x == *y,
            (GosValue::Complex64(xr, xi), GosValue::Complex64(yr, yi)) => *xr == *yr && *xi == *yi,
            (GosValue::Complex128(xr, xi), GosValue::Complex128(yr, yi)) => *xr == *yr && *xi
                == *yi,
            (GosValue::Str(x), GosValue::Str(y)) => *x == *y,
            (GosValue::Array(x), GosValue::Array(y)) => vals_equal(x, y),
            (GosValue::Struct(x), GosValue::Struct(y)) => x.dark == y.dark && x.meta == y.meta && vals_equal(&x.fields, &y.fields),
            (GosValue::Slice(x), GosValue::Slice(y)) => *x == *y,
            (GosValue::GosMap(x), GosValue::GosMap(y)) => *x == *y,
            (GosValue::Interface(x), GosValue::Interface(y)) => x.meta == y.meta && match (
                &x.underlying,
                &y.underlying,
            ) {
                (IfaceUnderlying::Gos(u), IfaceUnderlying::Gos(v)) => u.equals(v),
                (IfaceUnderlying::Ffi(u), IfaceUnderlying::Ffi(v)) => *u == *v,
                (IfaceUnderlying::Empty, IfaceUnderlying::Empty) => true,
                _ => false,
            },
            (GosValue::Pointer(x), GosValue::Pointer(y)) => match (&**x, &**y) {
                (PointerObj::Stack(i), PointerObj::Stack(j)) => *i == *j,
                (PointerObj::SliceMember(k1, i1), PointerObj::SliceMember(k2, i2)) => *k1 == *k2
                    && *i1 == *i2,
                (PointerObj::MapMember(k1, i1), PointerObj::MapMember(k2, i2)) => *k1 == *k2 && *i1
                    == *i2,
                (PointerObj::UserData(u1), PointerObj::UserData(u2)) => *u1 == *u2,
                _ => false,
            },
            (GosValue::Closure(x), GosValue::Closure(y)) => *x == *y,
            (GosValue::Channel(x), GosValue::Channel(y)) => *x == *y,
            (GosValue::Named(x), GosValue::Named(y)) => x.0.equals(&y.0) && x.1 == y.1,
            (GosValue::Nil(x), GosValue::Nil(y)) => *x == *y,
            (GosValue::Metadata(x), GosValue::Metadata(y)) => *x == *y,
            _ => false,
        }
    }
}

/// Copies a run of values element by element; the copy compares equal
/// pointwise.
fn copy_vals(vals: &Vec<GosValue>) -> (r: Vec<GosValue>)
    ensures
        vals_eq(r@, vals@),
    decreases *vals,
{
    let mut r: Vec<GosValue> = Vec::new();
    let mut i: usize = 0;
    while i < vals.len()
        invariant
            0 <= i <= vals@.len(),
            r@.len() == i,
            forall|j: int| 0 <= j < i ==> val_eq(r@[j], vals@[j]),
        decreases vals@.len() - i,
    {
        r.push(vals[i].copy_semantic());
        i = i + 1;
    }
    proof {
        lemma_vals_eq_pointwise(r@, vals@);
    }
    r
}

/// Decides pointwise value comparison of two runs.
fn vals_equal(a: &Vec<GosValue>, b: &Vec<GosValue>) -> (r: bool)
    ensures
        r == vals_eq(a@, b@),
    decreases *a,
{
    if a.len() != b.len() {
        proof {
            lemma_vals_eq_pointwise(a@, b@);
        }
        return false;
    }
    let mut i: usize = 0;
    while i < a.len()
        invariant
            a@.len() == b@.len(),
            0 <= i <= a@.len(),
            forall|j: int| 0 <= j < i ==> val_eq(a@[j], b@[j]),
        decreases a@.len() - i,
    {
        if !a[i].equals(&b[i]) {
            proof {
                lemma_vals_eq_pointwise(a@, b@);
            }
            return false;
        }
        i = i + 1;
    }
    proof {
        lemma_vals_eq_pointwise(a@, b@);
    }
    true
}

} // verus!
