//! The reflection surface: the kind vocabulary the language exposes to
//! user code, extraction of the value held by an interface, and the
//! mapping from a value's metadata to its reflected kind.  The
//! foreign-call plumbing around these operations (futures, type-erased
//! user-data handles) lives outside this library; what stands here is
//! everything those shims compute.

use vstd::prelude::*;
use crate::instruction::ValueType;
use crate::metadata::{
    gm_identical, meta_valid, metas_wf, underlying_spec, value_type_spec, GosMetadata, Metadata,
};
use crate::objects::MetadataObjs;
use crate::value::{val_eq, GosValue, IfaceUnderlying, PointerObj};

verus! {

/// The reflected kind of a value, as numbered by the language's standard
/// library.
#[derive(Debug, Clone, Copy, PartialEq, Eq, Structural)]
pub enum GosKind {
    Invalid,
    Bool,
    Int,
    Int8,
    Int16,
    Int32,
    Int64,
    Uint,
    Uint8,
    Uint16,
    Uint32,
    Uint64,
    /// Reserved; not handed out by this core.
    Uintptr,
    Float32,
    Float64,
    Complex64,
    Complex128,
    Array,
    Chan,
    Func,
    Interface,
    GosMap,
    Ptr,
    Slice,
    String,
    Struct,
    UnsafePointer,
}

/// The number a kind travels as.
pub open spec fn kind_num_spec(k: GosKind) -> u64 {
    match k {
        GosKind::Invalid => 0,
        GosKind::Bool => 1,
        GosKind::Int => 2,
        GosKind::Int8 => 3,
        GosKind::Int16 => 4,
        GosKind::Int32 => 5,
        GosKind::Int64 => 6,
        GosKind::Uint => 7,
        GosKind::Uint8 => 8,
        GosKind::Uint16 => 9,
        GosKind::Uint32 => 10,
        GosKind::Uint64 => 11,
        GosKind::Uintptr => 12,
        GosKind::Float32 => 13,
        GosKind::Float64 => 14,
        GosKind::Complex64 => 15,
        GosKind::Complex128 => 16,
        GosKind::Array => 17,
        GosKind::Chan => 18,
        GosKind::Func => 19,
        GosKind::Interface => 20,
        GosKind::GosMap => 21,
        GosKind::Ptr => 22,
        GosKind::Slice => 23,
        GosKind::String => 24,
        GosKind::Struct => 25,
        GosKind::UnsafePointer => 26,
    }
}

pub fn kind_num(k: GosKind) -> (r: u64)
    ensures
        r == kind_num_spec(k),
{
    match k {
        GosKind::Invalid => 0,
        GosKind::Bool => 1,
        GosKind::Int => 2,
        GosKind::Int8 => 3,
        GosKind::Int16 => 4,
        GosKind::Int32 => 5,
        GosKind::Int64 => 6,
        GosKind::Uint => 7,
        GosKind::Uint8 => 8,
        GosKind::Uint16 => 9,
        GosKind::Uint32 => 10,
        GosKind::Uint64 => 11,
        GosKind::Uintptr => 12,
        GosKind::Float32 => 13,
        GosKind::Float64 => 14,
        GosKind::Complex64 => 15,
        GosKind::Complex128 => 16,
        GosKind::Array => 17,
        GosKind::Chan => 18,
        GosKind::Func => 19,
        GosKind::Interface => 20,
        GosKind::GosMap => 21,
        GosKind::Ptr => 22,
        GosKind::Slice => 23,
        GosKind::String => 24,
        GosKind::Struct => 25,
        GosKind::UnsafePointer => 26,
    }
}

/// How a value type reads as a reflected kind.  A pointer reads as an
/// unsafe pointer exactly when it is a foreign user-data handle.
pub open spec fn kind_of_spec(vt: ValueType, user_data: bool) -> GosKind {
    match vt {
        ValueType::Bool => GosKind::Bool,
        ValueType::Int => GosKind::Int,
        ValueType::Int8 => GosKind::Int8,
        ValueType::Int16 => GosKind::Int16,
        ValueType::Int32 => GosKind::Int32,
        ValueType::Int64 => GosKind::Int64,
        ValueType::Uint => GosKind::Uint,
        ValueType::Uint8 => GosKind::Uint8,
        ValueType::Uint16 => GosKind::Uint16,
        ValueType::Uint32 => GosKind::Uint32,
        ValueType::Uint64 => GosKind::Uint64,
        ValueType::Float32 => GosKind::Float32,
        ValueType::Float64 => GosKind::Float64,
        ValueType::Complex64 => GosKind::Complex64,
        ValueType::Complex128 => GosKind::Complex128,
        ValueType::Array => GosKind::Array,
        ValueType::Channel => GosKind::Chan,
        ValueType::Closure => GosKind::Func,
        ValueType::Interface => GosKind::Interface,
        ValueType::GosMap => GosKind::GosMap,
        ValueType::Pointer => if user_data {
            GosKind::UnsafePointer
        } else {
            GosKind::Ptr
        },
        ValueType::Slice => GosKind::Slice,
        ValueType::Str => GosKind::String,
        ValueType::Struct => GosKind::Struct,
        _ => GosKind::Invalid,
    }
}

/// Decides the reflected kind of a value type.
pub fn kind_of(vt: ValueType, user_data: bool) -> (r: GosKind)
    ensures
        r == kind_of_spec(vt, user_data),
{
    match vt {
        ValueType::Bool => GosKind::Bool,
        ValueType::Int => GosKind::Int,
        ValueType::Int8 => GosKind::Int8,
        ValueType::Int16 => GosKind::Int16,
        ValueType::Int32 => GosKind::Int32,
        ValueType::Int64 => GosKind::Int64,
        ValueType::Uint => GosKind::Uint,
        ValueType::Uint8 => GosKind::Uint8,
        ValueType::Uint16 => GosKind::Uint16,
        ValueType::Uint32 => GosKind::Uint32,
        ValueType::Uint64 => GosKind::Uint64,
        ValueType::Float32 => GosKind::Float32,
        ValueType::Float64 => GosKind::Float64,
        ValueType::Complex64 => GosKind::Complex64,
        ValueType::Complex128 => GosKind::Complex128,
        ValueType::Array => GosKind::Array,
        ValueType::Channel => GosKind::Chan,
        ValueType::Closure => GosKind::Func,
        ValueType::Interface => GosKind::Interface,
        ValueType::GosMap => GosKind::GosMap,
        ValueType::Pointer => if user_data {
            GosKind::UnsafePointer
        } else {
            GosKind::Ptr
        },
        ValueType::Slice => GosKind::Slice,
        ValueType::Str => GosKind::String,
        ValueType::Struct => GosKind::Struct,
        _ => GosKind::Invalid,
    }
}

/// The reflected kind of a pointer value: an unsafe pointer exactly when
/// it carries a foreign user-data handle.  This needs no registry: the
/// pointer's own variant decides.
pub fn pointer_kind(p: &PointerObj) -> (r: GosKind)
    ensures
        r == (if p is UserData {
            GosKind::UnsafePointer
        } else {
            GosKind::Ptr
        }),
{
    match p {
        PointerObj::UserData(_) => GosKind::UnsafePointer,
        _ => GosKind::Ptr,
    }
}

/// One level of named-type unwrapping: what a reflection reader looks at.
/// A named value never wraps another named value, so one level reaches
/// the underlying payload.
pub open spec fn reader_payload(v: GosValue) -> GosValue {
    match v {
        GosValue::Named(b) => b.0,
        _ => v,
    }
}

/// Whether this core can read a value's metadata without the running
/// machine's stacks and arenas at hand.
pub open spec fn get_meta_defined(v: GosValue) -> bool
    decreases v,
{
    match v {
        GosValue::Bool(_) => true,
        GosValue::Int(_) => true,
        GosValue::Int8(_) => true,
        GosValue::Int16(_) => true,
        GosValue::Int32(_) => true,
        GosValue::Int64(_) => true,
        GosValue::Uint(_) => true,
        GosValue::Uint8(_) => true,
        GosValue::Uint16(_) => true,
        GosValue::Uint32(_) => true,
        GosValue::Uint64(_) => true,
        GosValue::Float32(_) => true,
        GosValue::Float64(_) => true,
        GosValue::Complex64(_, _) => true,
        GosValue::Complex128(_, _) => true,
        GosValue::Str(_) => true,
        GosValue::Struct(_) => true,
        GosValue::Named(_) => true,
        GosValue::Nil(_) => true,
        GosValue::Interface(b) => match b.underlying {
            IfaceUnderlying::Gos(u) => get_meta_defined(*u),
            _ => true,
        },
        _ => false,
    }
}

/// The metadata of a value: scalars and strings read the built-in
/// handles, a struct or named value carries its handle, and an interface
/// yields the dynamic type of what it holds — or its own metadata when it
/// is a typed nil.
pub open spec fn get_meta_spec(v: GosValue, md: Metadata) -> GosMetadata
    recommends
        get_meta_defined(v),
    decreases v,
{
    match v {
        GosValue::Bool(_) => md.mbool,
        GosValue::Int(_) => md.mint,
        GosValue::Int8(_) => md.mint8,
        GosValue::Int16(_) => md.mint16,
        GosValue::Int32(_) => md.mint32,
        GosValue::Int64(_) => md.mint64,
        GosValue::Uint(_) => md.muint,
        GosValue::Uint8(_) => md.muint8,
        GosValue::Uint16(_) => md.muint16,
        GosValue::Uint32(_) => md.muint32,
        GosValue::Uint64(_) => md.muint64,
        GosValue::Float32(_) => md.mfloat32,
        GosValue::Float64(_) => md.mfloat64,
        GosValue::Complex64(_, _) => md.mcomplex64,
        GosValue::Complex128(_, _) => md.mcomplex128,
        GosValue::Str(_) => md.mstr,
        GosValue::Struct(b) => b.meta,
        GosValue::Named(b) => b.1,
        GosValue::Nil(m) => m,
        GosValue::Interface(b) => match b.underlying {
            IfaceUnderlying::Gos(u) => get_meta_spec(*u, md),
            _ => b.meta,
        },
        _ => GosMetadata::Untyped,
    }
}

impl GosValue {
    /// Reads a value's metadata handle; see `get_meta_spec`.
    pub fn get_meta(&self, md: &Metadata) -> (r: GosMetadata)
        requires
            get_meta_defined(*self),
        ensures
            r == get_meta_spec(*self, *md),
        decreases *self,
    {
        match self {
            GosValue::Bool(_) => md.mbool,
            GosValue::Int(_) => md.mint,
            GosValue::Int8(_) => md.mint8,
            GosValue::Int16(_) => md.mint16,
            GosValue::Int32(_) => md.mint32,
            GosValue::Int64(_) => md.mint64,
            GosValue::Uint(_) => md.muint,
            GosValue::Uint8(_) => md.muint8,
            GosValue::Uint16(_) => md.muint16,
            GosValue::Uint32(_) => md.muint32,
            GosValue::Uint64(_) => md.muint64,
            GosValue::Float32(_) => md.mfloat32,
            GosValue::Float64(_) => md.mfloat64,
            GosValue::Complex64(_, _) => md.mcomplex64,
            GosValue::Complex128(_, _) => md.mcomplex128,
            GosValue::Str(_) => md.mstr,
            GosValue::Struct(b) => b.meta,
            GosValue::Named(b) => b.1,
            GosValue::Nil(m) => *m,
            GosValue::Interface(b) => match &b.underlying {
                IfaceUnderlying::Gos(u) => u.get_meta(md),
                _ => b.meta,
            },
            _ => vstd::pervasive::unreached(),
        }
    }
}

/// A runtime value captured by the reflection surface.
#[derive(Debug)]
pub struct StdValue {
    pub val: GosValue,
}

impl StdValue {
    pub fn new(v: GosValue) -> (r: StdValue)
        ensures
            r.val == v,
    {
        StdValue { val: v }
    }

    /// Captures the value held by an interface: the contained language
    /// value, or a nil carrying the interface's metadata when it holds a
    /// foreign binding or nothing.
    pub fn value_of(v: &GosValue) -> (r: StdValue)
        requires
            v is Interface,
        ensures
            v matches GosValue::Interface(b) && (match b.underlying {
                IfaceUnderlying::Gos(u) => val_eq(r.val, *u),
                IfaceUnderlying::Ffi(_) => r.val == GosValue::Nil(b.meta),
                IfaceUnderlying::Empty => r.val == GosValue::Nil(b.meta),
            }),
    {
        match v {
            GosValue::Interface(b) => {
                let val = match &b.underlying {
                    IfaceUnderlying::Gos(u) => u.copy_semantic(),
                    IfaceUnderlying::Ffi(_) => GosValue::Nil(b.meta),
                    IfaceUnderlying::Empty => GosValue::Nil(b.meta),
                };
                StdValue::new(val)
            },
            _ => vstd::pervasive::unreached(),
        }
    }

    /// Reads the wrapped boolean back: the held value's payload and a nil
    /// error when its kind is Bool, else a nil value and a message.
    pub fn bool_val(&self) -> (r: (GosValue, GosValue))
        ensures
            reader_payload(self.val) matches GosValue::Bool(b) ==> r.0 == GosValue::Bool(b) && r.1
                == GosValue::Nil(GosMetadata::Untyped),
            !(reader_payload(self.val) is Bool) ==> r.0 == GosValue::Nil(GosMetadata::Untyped)
                && (r.1 matches GosValue::Str(m) && m@ == "not a bool value"@),
    {
        match Self::payload_of(&self.val) {
            GosValue::Bool(b) => (GosValue::Bool(*b), GosValue::new_nil(GosMetadata::Untyped)),
            _ => (
                GosValue::new_nil(GosMetadata::Untyped),
                GosValue::new_str("not a bool value".to_owned()),
            ),
        }
    }

    /// Reads the wrapped signed integer back, widened to the full width:
    /// the value and a nil error when its kind is a signed integer, else
    /// a nil value and a message.
    pub fn int_val(&self) -> (r: (GosValue, GosValue))
        ensures
            ({
                let p = reader_payload(self.val);
                &&& (p matches GosValue::Int(i) ==> r.0 == GosValue::Int(i))
                &&& (p matches GosValue::Int8(i) ==> r.0 == GosValue::Int(i as i64))
                &&& (p matches GosValue::Int16(i) ==> r.0 == GosValue::Int(i as i64))
                &&& (p matches GosValue::Int32(i) ==> r.0 == GosValue::Int(i as i64))
                &&& (p matches GosValue::Int64(i) ==> r.0 == GosValue::Int(i))
                &&& (signed_int_kind(p) ==> r.1 == GosValue::Nil(GosMetadata::Untyped))
                &&& (!signed_int_kind(p) ==> r.0 == GosValue::Nil(GosMetadata::Untyped) && (r.1
                    matches GosValue::Str(m) && m@ == "not an int value"@))
            }),
    {
        match Self::payload_of(&self.val) {
            GosValue::Int(i) => (GosValue::Int(*i), GosValue::new_nil(GosMetadata::Untyped)),
            GosValue::Int8(i) => (
                GosValue::Int(*i as i64),
                GosValue::new_nil(GosMetadata::Untyped),
            ),
            GosValue::Int16(i) => (
                GosValue::Int(*i as i64),
                GosValue::new_nil(GosMetadata::Untyped),
            ),
            GosValue::Int32(i) => (
                GosValue::Int(*i as i64),
                GosValue::new_nil(GosMetadata::Untyped),
            ),
            GosValue::Int64(i) => (GosValue::Int(*i), GosValue::new_nil(GosMetadata::Untyped)),
            _ => (
                GosValue::new_nil(GosMetadata::Untyped),
                GosValue::new_str("not an int value".to_owned()),
            ),
        }
    }

    /// Reads the wrapped unsigned integer back, widened to the full
    /// width.
    pub fn uint_val(&self) -> (r: (GosValue, GosValue))
        ensures
            ({
                let p = reader_payload(self.val);
                &&& (p matches GosValue::Uint(i) ==> r.0 == GosValue::Uint(i))
                &&& (p matches GosValue::Uint8(i) ==> r.0 == GosValue::Uint(i as u64))
                &&& (p matches GosValue::Uint16(i) ==> r.0 == GosValue::Uint(i as u64))
                &&& (p matches GosValue::Uint32(i) ==> r.0 == GosValue::Uint(i as u64))
                &&& (p matches GosValue::Uint64(i) ==> r.0 == GosValue::Uint(i))
                &&& (unsigned_int_kind(p) ==> r.1 == GosValue::Nil(GosMetadata::Untyped))
                &&& (!unsigned_int_kind(p) ==> r.0 == GosValue::Nil(GosMetadata::Untyped) && (r.1
                    matches GosValue::Str(m) && m@ == "not a uint value"@))
            }),
    {
        match Self::payload_of(&self.val) {
            GosValue::Uint(i) => (GosValue::Uint(*i), GosValue::new_nil(GosMetadata::Untyped)),
            GosValue::Uint8(i) => (
                GosValue::Uint(*i as u64),
                GosValue::new_nil(GosMetadata::Untyped),
            ),
            GosValue::Uint16(i) => (
                GosValue::Uint(*i as u64),
                GosValue::new_nil(GosMetadata::Untyped),
            ),
            GosValue::Uint32(i) => (
                GosValue::Uint(*i as u64),
                GosValue::new_nil(GosMetadata::Untyped),
            ),
            GosValue::Uint64(i) => (GosValue::Uint(*i), GosValue::new_nil(GosMetadata::Untyped)),
            _ => (
                GosValue::new_nil(GosMetadata::Untyped),
                GosValue::new_str("not a uint value".to_owned()),
            ),
        }
    }

    /// Reads the wrapped float back as the bit pattern the value carries.
    pub fn float_val(&self) -> (r: (GosValue, GosValue))
        ensures
            ({
                let p = reader_payload(self.val);
                &&& (p matches GosValue::Float32(b) ==> r.0 == GosValue::Float32(b))
                &&& (p matches GosValue::Float64(b) ==> r.0 == GosValue::Float64(b))
                &&& (p is Float32 || p is Float64 ==> r.1 == GosValue::Nil(GosMetadata::Untyped))
                &&& (!(p is Float32 || p is Float64) ==> r.0 == GosValue::Nil(
                    GosMetadata::Untyped,
                ) && (r.1 matches GosValue::Str(m) && m@ == "not a float value"@))
            }),
    {
        match Self::payload_of(&self.val) {
            GosValue::Float32(b) => (
                GosValue::Float32(*b),
                GosValue::new_nil(GosMetadata::Untyped),
            ),
            GosValue::Float64(b) => (
                GosValue::Float64(*b),
                GosValue::new_nil(GosMetadata::Untyped),
            ),
            _ => (
                GosValue::new_nil(GosMetadata::Untyped),
                GosValue::new_str("not a float value".to_owned()),
            ),
        }
    }

    /// Reads the wrapped byte-slice handle back.
    pub fn bytes_val(&self) -> (r: (GosValue, GosValue))
        ensures
            ({
                let p = reader_payload(self.val);
                &&& (p matches GosValue::Slice(k) ==> r.0 == GosValue::Slice(k) && r.1
                    == GosValue::Nil(GosMetadata::Untyped))
                &&& (!(p is Slice) ==> r.0 == GosValue::Nil(GosMetadata::Untyped) && (r.1
                    matches GosValue::Str(m) && m@ == "not a bytes value"@))
            }),
    {
        match Self::payload_of(&self.val) {
            GosValue::Slice(k) => (GosValue::Slice(*k), GosValue::new_nil(GosMetadata::Untyped)),
            _ => (
                GosValue::new_nil(GosMetadata::Untyped),
                GosValue::new_str("not a bytes value".to_owned()),
            ),
        }
    }

    /// The payload a reader looks at: a named value unwraps one level.
    fn payload_of(v: &GosValue) -> (r: &GosValue)
        ensures
            *r == reader_payload(*v),
    {
        match v {
            GosValue::Named(b) => &b.0,
            _ => v,
        }
    }
}

/// Whether a value's kind is a signed integer.
pub open spec fn signed_int_kind(v: GosValue) -> bool {
    v is Int || v is Int8 || v is Int16 || v is Int32 || v is Int64
}

/// Whether a value's kind is an unsigned integer.
pub open spec fn unsigned_int_kind(v: GosValue) -> bool {
    v is Uint || v is Uint8 || v is Uint16 || v is Uint32 || v is Uint64
}

/// A type captured by the reflection surface.
#[derive(Debug, Clone, Copy, PartialEq, Eq, Structural)]
pub struct StdType {
    pub meta: GosMetadata,
}

impl StdType {
    pub fn new(m: GosMetadata) -> (r: StdType)
        ensures
            r.meta == m,
    {
        StdType { meta: m }
    }

    /// Two captured types are equal when their metadata is structurally
    /// identical.
    pub fn eq(&self, other: &StdType, metas: &MetadataObjs) -> (r: bool)
        requires
            metas_wf(metas.objs@),
            meta_valid(self.meta, metas.objs@),
            meta_valid(other.meta, metas.objs@),
        ensures
            r == gm_identical(self.meta, other.meta, metas.objs@),
    {
        self.meta.identical(&other.meta, metas)
    }

    /// Captures a value's type and its reflected kind: the kind is read
    /// off the value type of the metadata's underlying handle.  A pointer
    /// value's metadata needs the running machine's stacks, which are
    /// outside this core, so pointer values are outside this function's
    /// domain; their kind is decided by `pointer_kind` from the pointer's
    /// own variant.
    pub fn type_of(val: &GosValue, md: &Metadata, metas: &MetadataObjs) -> (r: (StdType, GosValue))
        requires
            get_meta_defined(*val),
            metas_wf(metas.objs@),
            !(get_meta_spec(*val, *md) is Untyped),
            meta_valid(get_meta_spec(*val, *md), metas.objs@),
            value_type_spec(
                underlying_spec(get_meta_spec(*val, *md), metas.objs@),
                metas.objs@,
            ) != ValueType::Pointer,
        ensures
            r.0.meta == get_meta_spec(*val, *md),
            r.1 == GosValue::Uint(
                kind_num_spec(
                    kind_of_spec(
                        value_type_spec(
                            underlying_spec(get_meta_spec(*val, *md), metas.objs@),
                            metas.objs@,
                        ),
                        false,
                    ),
                ),
            ),
    {
        let m = val.get_meta(md);
        let typ = StdType::new(m);
        proof {
            crate::metadata::lemma_get_underlying_idempotent(m, metas.objs@);
            match m {
                GosMetadata::NonPtr(k, _) => {
                    assert(crate::metadata::mt_wf(metas.objs@[k as int], k as int, metas.objs@));
                }
                _ => {}
            }
        }
        let u = m.get_underlying(metas);
        let vt = u.get_value_type(metas);
        let kind = kind_of(vt, false);
        (typ, GosValue::Uint(kind_num(kind)))
    }
}

/// The reflection surface itself; foreign shims construct one and route
/// each reflection call to the operation of the same name.
#[derive(Debug)]
pub struct Reflect {}

impl Reflect {
    pub fn new() -> (r: Reflect) {
        Reflect {  }
    }
}

} // verus!
