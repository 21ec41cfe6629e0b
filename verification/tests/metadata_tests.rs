use goscript::metadata::{
    Fields, GosMetadata, MetaError, Metadata, MetadataType,
};
use goscript::names::NameMap;
use goscript::objects::{MetadataObjs, VMObjects};
use goscript::value::GosValue;
use goscript::instruction::ValueType;

fn fresh() -> (Metadata, MetadataObjs) {
    let mut objs = MetadataObjs::new();
    let md = Metadata::new(&mut objs);
    (md, objs)
}

#[test]
fn builtin_registry_layout() {
    let (md, objs) = fresh();
    assert_eq!(objs.len(), 17);
    assert_eq!(md.mbool, GosMetadata::NonPtr(0, false));
    assert_eq!(md.mint, GosMetadata::NonPtr(1, false));
    assert_eq!(md.mstr, GosMetadata::NonPtr(15, false));
    assert_eq!(md.default_sig, GosMetadata::NonPtr(16, false));
    assert_eq!(md.mint.get_value_type(&objs), ValueType::Int);
    assert_eq!(md.mstr.get_value_type(&objs), ValueType::Str);
    // the signature entry reads as a callable
    assert_eq!(md.default_sig.get_value_type(&objs), ValueType::Closure);
}

#[test]
fn pointer_depth_round_trip() {
    let (md, _objs) = fresh();
    // climbing to depth seven and back gives the original handle
    let mut m = md.mint;
    let mut stack = Vec::new();
    for _ in 0..7 {
        stack.push(m);
        m = m.ptr_to().expect("below the depth limit");
    }
    // at depth seven one more level fails
    assert_eq!(m.ptr_to(), Err(MetaError::TypeError));
    for _ in 0..7 {
        let back = m.unptr_to().expect("above depth zero");
        m = back;
        stack.pop();
    }
    assert_eq!(m, md.mint);
    // at depth zero unwrapping fails
    assert_eq!(m.unptr_to(), Err(MetaError::TypeError));
}

#[test]
fn reified_type_flag_reads_as_metadata() {
    let (md, objs) = fresh();
    let mut m = md.mint;
    m.set_is_type(true);
    assert_eq!(m.get_value_type(&objs), ValueType::Metadata);
    assert_eq!(m.unwrap_key_and_is_type(), (1, true));
    let p = m.ptr_to().unwrap();
    assert_eq!(p, GosMetadata::Ptr1(1, true));
}

#[test]
fn zero_values_by_kind() {
    let (md, mut objs) = fresh();
    assert!(md.mint.zero_val(&objs).equals(&GosValue::Int(0)));
    assert!(md.mbool.zero_val(&objs).equals(&GosValue::Bool(false)));
    assert!(md.mstr.zero_val(&objs).equals(&GosValue::Str(String::new())));
    let slice_meta = GosMetadata::new_slice(md.mint, &mut objs);
    assert!(slice_meta.zero_val(&objs).equals(&GosValue::Nil(slice_meta)));
    let ptr = md.mint.ptr_to().unwrap();
    assert!(ptr.zero_val(&objs).equals(&GosValue::Nil(ptr)));
}

#[test]
fn zero_value_copy_round_trip() {
    // the copy of a zero value compares equal to the zero value, for a
    // scalar, a string, a struct and a named type
    let mut vmo = VMObjects::new();
    let md = Metadata::new(&mut vmo.metas);
    let mut fields = Vec::new();
    fields.push(md.mint);
    fields.push(md.mstr);
    let mut mapping = NameMap::new();
    mapping.insert("x".to_string(), 0);
    mapping.insert("s".to_string(), 1);
    let smeta = GosMetadata::new_struct(Fields::new(fields, mapping), &mut vmo);
    let named = GosMetadata::new_named(smeta, &mut vmo.metas);
    for m in [md.mint, md.mstr, smeta, named] {
        let z = m.zero_val(&vmo.metas);
        let c = z.copy_semantic();
        assert!(c.equals(&z));
        assert!(z.equals(&c));
    }
}

#[test]
fn struct_zero_instance_points_back_at_its_entry() {
    let mut vmo = VMObjects::new();
    let md = Metadata::new(&mut vmo.metas);
    let mut fields = Vec::new();
    fields.push(md.mint);
    let mut mapping = NameMap::new();
    mapping.insert("n".to_string(), 0);
    let smeta = GosMetadata::new_struct(Fields::new(fields, mapping), &mut vmo);
    let key = smeta.as_non_ptr();
    match vmo.metas.get(key) {
        MetadataType::Struct(_, zero) => match zero {
            GosValue::Struct(b) => {
                assert_eq!(b.meta, smeta);
                assert_eq!(b.fields.len(), 1);
                assert!(b.fields[0].equals(&GosValue::Int(0)));
            }
            other => panic!("the stored zero must be a struct value: {:?}", other),
        },
        other => panic!("expected a struct entry: {:?}", other),
    }
}

#[test]
fn method_table_monotonicity() {
    let mut vmo = VMObjects::new();
    let md = Metadata::new(&mut vmo.metas);
    let named = GosMetadata::new_named(md.mint, &mut vmo.metas);
    named.add_method("first".to_string(), false, &mut vmo.metas);
    assert_eq!(named.method_index("first", &vmo.metas), 0);
    named.add_method("second".to_string(), true, &mut vmo.metas);
    assert_eq!(named.method_index("second", &vmo.metas), 1);
    // earlier bindings stay stable under further additions
    assert_eq!(named.method_index("first", &vmo.metas), 0);
    assert!(!named.get_method(0, &vmo.metas).pointer_recv);
    assert!(named.get_method(1, &vmo.metas).pointer_recv);
    assert_eq!(named.get_method(0, &vmo.metas).func, None);
    // the second phase backfills the function key
    named.set_method_code(&"first".to_string(), 42, &mut vmo.metas);
    assert_eq!(named.get_method(0, &vmo.metas).func, Some(42));
    assert_eq!(named.get_method(1, &vmo.metas).func, None);
}

#[test]
fn named_int_zero_value() {
    // the zero of `type T int` is the wrapped zero of the underlying type
    let mut vmo = VMObjects::new();
    let md = Metadata::new(&mut vmo.metas);
    let named = GosMetadata::new_named(md.mint, &mut vmo.metas);
    let z = named.zero_val(&vmo.metas);
    assert!(z.equals(&GosValue::Named(Box::new((GosValue::Int(0), named)))));
    assert_eq!(named.get_value_type(&vmo.metas), ValueType::Named);
    assert_eq!(named.get_underlying(&vmo.metas), md.mint);
    // unwrapping the underlying handle is idempotent
    let u = named.get_underlying(&vmo.metas);
    assert_eq!(u.get_underlying(&vmo.metas), u);
}

#[test]
fn default_values_allocate_backing_payloads() {
    let mut vmo = VMObjects::new();
    let md = Metadata::new(&mut vmo.metas);
    let slice_meta = GosMetadata::new_slice(md.mint, &mut vmo.metas);
    let map_meta = GosMetadata::new_map(md.mstr, md.mint, &mut vmo.metas);
    assert_eq!(vmo.slices.len(), 0);
    let dv = slice_meta
        .default_val(&vmo.metas, &mut vmo.slices, &mut vmo.maps)
        .expect("a slice default allocates");
    assert!(dv.equals(&GosValue::Slice(0)));
    assert_eq!(vmo.slices.len(), 1);
    assert_eq!(vmo.slices.get(0).len, 0);
    let mv = map_meta
        .default_val(&vmo.metas, &mut vmo.slices, &mut vmo.maps)
        .expect("a map default allocates");
    assert!(mv.equals(&GosValue::GosMap(0)));
    assert_eq!(vmo.maps.len(), 1);
    assert!(vmo.maps.get(0).default_val.equals(&GosValue::Int(0)));
    // interface, channel and signature defaults are not provided
    match md.default_sig.default_val(&vmo.metas, &mut vmo.slices, &mut vmo.maps) {
        Err(e) => assert_eq!(e, MetaError::NotImplemented),
        Ok(v) => panic!("a signature default must not be provided: {:?}", v),
    }
}

#[test]
fn field_index_on_underlying_struct() {
    let mut vmo = VMObjects::new();
    let md = Metadata::new(&mut vmo.metas);
    let mut fields = Vec::new();
    fields.push(md.mint);
    fields.push(md.mbool);
    let mut mapping = NameMap::new();
    mapping.insert("count".to_string(), 0);
    mapping.insert("ok".to_string(), 1);
    let smeta = GosMetadata::new_struct(Fields::new(fields, mapping), &mut vmo);
    let named = GosMetadata::new_named(smeta, &mut vmo.metas);
    assert_eq!(named.field_index("ok", &vmo.metas), 1);
    assert_eq!(smeta.field_index("count", &vmo.metas), 0);
}

#[test]
fn structural_identity() {
    let mut objs = MetadataObjs::new();
    let md = Metadata::new(&mut objs);
    // two separately registered slice-of-int entries are identical
    let s1 = GosMetadata::new_slice(md.mint, &mut objs);
    let s2 = GosMetadata::new_slice(md.mint, &mut objs);
    assert!(s1.identical(&s2, &objs));
    // a slice of int is not a slice of bool
    let s3 = GosMetadata::new_slice(md.mbool, &mut objs);
    assert!(!s1.identical(&s3, &objs));
    // named entries are identical only as the same entry
    let n1 = GosMetadata::new_named(md.mint, &mut objs);
    let n2 = GosMetadata::new_named(md.mint, &mut objs);
    assert!(n1.identical(&n1, &objs));
    assert!(!n1.identical(&n2, &objs));
    // depth and the reified flag take part
    let p1 = md.mint.ptr_to().unwrap();
    assert!(!p1.identical(&md.mint, &objs));
    assert!(p1.identical(&p1, &objs));
}

#[test]
fn interface_layout_and_method_dispatch() {
    let mut objs = MetadataObjs::new();
    let md = Metadata::new(&mut objs);
    let mut ifields = Vec::new();
    ifields.push(md.default_sig);
    ifields.push(md.default_sig);
    let mut imapping = NameMap::new();
    imapping.insert("close".to_string(), 0);
    imapping.insert("read".to_string(), 1);
    let imeta = GosMetadata::new_interface(Fields::new(ifields, imapping), &mut objs);
    let named = GosMetadata::new_named(imeta, &mut objs);
    named.add_method("close".to_string(), false, &mut objs);
    named.add_method("read".to_string(), true, &mut objs);
    named.set_method_code(&"close".to_string(), 10, &mut objs);
    named.set_method_code(&"read".to_string(), 20, &mut objs);
    // the interface's own layout drives dispatch
    assert_eq!(named.iface_method_index("read", &objs), 1);
    assert_eq!(named.iface_method_index("close", &objs), 0);
    let (methods, under) = named.get_named_metadate(&objs);
    assert_eq!(*under, imeta);
    let laid_out = match objs.get(imeta.as_non_ptr()) {
        MetadataType::Interface(f) => f.iface_named_mapping(methods),
        other => panic!("expected an interface entry: {:?}", other),
    };
    assert_eq!(laid_out.len(), 2);
    assert_eq!(laid_out[0].func, Some(10));
    assert!(!laid_out[0].pointer_recv);
    assert_eq!(laid_out[1].func, Some(20));
    assert!(laid_out[1].pointer_recv);
    // the foreign surface sees each slot's name and signature key
    let info = match objs.get(imeta.as_non_ptr()) {
        MetadataType::Interface(f) => f.iface_ffi_info(),
        other => panic!("expected an interface entry: {:?}", other),
    };
    assert_eq!(info.len(), 2);
    assert_eq!(info[0].0, "close");
    assert_eq!(info[0].1, md.default_sig.as_non_ptr());
    assert_eq!(info[1].0, "read");
    assert_eq!(info[1].1, md.default_sig.as_non_ptr());
    // the entry accessors hand the payloads back
    match objs.get(md.default_sig.as_non_ptr()) {
        e@MetadataType::Signature(_) => {
            assert_eq!(e.as_signature().params.len(), 0);
        }
        other => panic!("expected a signature entry: {:?}", other),
    }
    match objs.get(imeta.as_non_ptr()) {
        e@MetadataType::Interface(_) => {
            assert_eq!(e.as_interface().fields.len(), 2);
        }
        other => panic!("expected an interface entry: {:?}", other),
    }
}

#[test]
fn signature_metadata_reads_parameter_tags() {
    let mut objs = MetadataObjs::new();
    let md = Metadata::new(&mut objs);
    let mut params = Vec::new();
    params.push(md.mint);
    params.push(md.mstr);
    let sig = GosMetadata::new_sig(None, params, Vec::new(), None, &mut objs);
    let key = sig.as_non_ptr();
    match objs.get(key) {
        MetadataType::Signature(s) => {
            assert_eq!(s.params_type, vec![ValueType::Int, ValueType::Str]);
            assert!(!s.pointer_recv());
        }
        other => panic!("expected a signature entry: {:?}", other),
    }
    // a pointer receiver is recognized
    let recv = md.mint.ptr_to().unwrap();
    let msig = GosMetadata::new_sig(Some(recv), Vec::new(), Vec::new(), None, &mut objs);
    match objs.get(msig.as_non_ptr()) {
        MetadataType::Signature(s) => {
            assert!(s.pointer_recv());
        }
        other => panic!("expected a signature entry: {:?}", other),
    }
    let vsig = GosMetadata::new_sig(Some(md.mint), Vec::new(), Vec::new(), None, &mut objs);
    match objs.get(vsig.as_non_ptr()) {
        MetadataType::Signature(s) => {
            assert!(!s.pointer_recv());
        }
        other => panic!("expected a signature entry: {:?}", other),
    }
}
