use goscript::instruction::ValueType;
use goscript::metadata::{GosMetadata, Metadata};
use goscript::names::NameMap;
use goscript::objects::{MapObjs, MetadataObjs, SliceObjs};
use goscript::reflect::{kind_num, kind_of, pointer_kind, GosKind, StdType, StdValue};
use goscript::scanner::Scanner;
use goscript::position::File;
use goscript::token::Token;
use goscript::value::{GosValue, IfaceObj, IfaceUnderlying, PointerObj, StructObj};

#[test]
fn value_comparison_is_structural() {
    let a = GosValue::Array(vec![GosValue::Int(1), GosValue::Str("x".to_string())]);
    let b = GosValue::Array(vec![GosValue::Int(1), GosValue::Str("x".to_string())]);
    let c = GosValue::Array(vec![GosValue::Int(2), GosValue::Str("x".to_string())]);
    assert!(a.equals(&b));
    assert!(!a.equals(&c));
    // nils compare by the metadata they carry
    let n1 = GosValue::Nil(GosMetadata::NonPtr(3, false));
    let n2 = GosValue::Nil(GosMetadata::NonPtr(3, false));
    let n3 = GosValue::Nil(GosMetadata::NonPtr(4, false));
    assert!(n1.equals(&n2));
    assert!(!n1.equals(&n3));
    // user-data pointers compare by the foreign identity they model
    let p1 = GosValue::new_pointer(PointerObj::UserData(7));
    let p2 = GosValue::new_pointer(PointerObj::UserData(7));
    let p3 = GosValue::new_pointer(PointerObj::UserData(8));
    assert!(p1.equals(&p2));
    assert!(!p1.equals(&p3));
}

#[test]
fn copy_semantic_deep_copies_structs() {
    let inner = StructObj {
        dark: false,
        meta: GosMetadata::NonPtr(9, false),
        fields: vec![GosValue::Int(4), GosValue::Str("s".to_string())],
    };
    let v = GosValue::new_struct(inner);
    let c = v.copy_semantic();
    assert!(c.equals(&v));
    // reference kinds duplicate the handle
    let s = GosValue::Slice(5);
    assert!(s.copy_semantic().equals(&GosValue::Slice(5)));
}

#[test]
fn slice_and_map_payloads_are_arena_backed() {
    let mut slices = SliceObjs::new();
    let mut maps = MapObjs::new();
    let zero = GosValue::Int(0);
    let s = GosValue::new_slice(2, 4, Some(&zero), &mut slices);
    assert!(s.equals(&GosValue::Slice(0)));
    assert_eq!(slices.len(), 1);
    assert_eq!(slices.get(0).len, 2);
    assert_eq!(slices.get(0).cap, 4);
    assert!(slices.get(0).data[0].equals(&GosValue::Int(0)));
    let m = GosValue::new_map(GosValue::Str(String::new()), &mut maps);
    assert!(m.equals(&GosValue::GosMap(0)));
    assert_eq!(maps.len(), 1);
    assert_eq!(maps.get(0).entries.len(), 0);
}

#[test]
fn reflected_kind_numbering() {
    assert_eq!(kind_num(kind_of(ValueType::Bool, false)), 1);
    assert_eq!(kind_num(kind_of(ValueType::Int, false)), 2);
    assert_eq!(kind_num(kind_of(ValueType::Uint64, false)), 11);
    assert_eq!(kind_num(kind_of(ValueType::Str, false)), 24);
    assert_eq!(kind_num(kind_of(ValueType::Struct, false)), 25);
    assert_eq!(kind_num(kind_of(ValueType::GosMap, false)), 21);
    assert_eq!(kind_num(kind_of(ValueType::Closure, false)), 19);
    // a pointer reads as unsafe exactly when it is foreign user data
    assert_eq!(kind_of(ValueType::Pointer, false), GosKind::Ptr);
    assert_eq!(kind_of(ValueType::Pointer, true), GosKind::UnsafePointer);
    assert_eq!(kind_num(GosKind::Ptr), 22);
    assert_eq!(kind_num(GosKind::UnsafePointer), 26);
    // tags outside the reflected surface read as invalid
    assert_eq!(kind_num(kind_of(ValueType::Package, false)), 0);
}

#[test]
fn value_of_unwraps_an_interface() {
    let meta = GosMetadata::NonPtr(2, false);
    let held = GosValue::Interface(Box::new(IfaceObj {
        meta,
        underlying: IfaceUnderlying::Gos(Box::new(GosValue::Int(11))),
    }));
    let v = StdValue::value_of(&held);
    assert!(v.val.equals(&GosValue::Int(11)));
    // a typed nil hands back a nil carrying the interface's metadata
    let empty = GosValue::Interface(Box::new(IfaceObj {
        meta,
        underlying: IfaceUnderlying::Empty,
    }));
    let v2 = StdValue::value_of(&empty);
    assert!(v2.val.equals(&GosValue::Nil(meta)));
    // the readers hand the wrapped payload back, or a message
    let (i, err) = v.int_val();
    assert!(i.equals(&GosValue::Int(11)));
    assert!(err.equals(&GosValue::Nil(GosMetadata::Untyped)));
    let (b, berr) = v.bool_val();
    assert!(b.equals(&GosValue::Nil(GosMetadata::Untyped)));
    assert!(berr.equals(&GosValue::Str("not a bool value".to_string())));
}

#[test]
fn readers_return_the_wrapped_payload() {
    let meta = GosMetadata::NonPtr(2, false);
    // a named value reads through to its underlying payload
    let named_bool = StdValue::new(GosValue::Named(Box::new((GosValue::Bool(true), meta))));
    let (b, berr) = named_bool.bool_val();
    assert!(b.equals(&GosValue::Bool(true)));
    assert!(berr.equals(&GosValue::Nil(GosMetadata::Untyped)));
    // narrower integers widen to the full width
    let v8 = StdValue::new(GosValue::Int8(-5));
    let (i, ierr) = v8.int_val();
    assert!(i.equals(&GosValue::Int(-5)));
    assert!(ierr.equals(&GosValue::Nil(GosMetadata::Untyped)));
    let u16v = StdValue::new(GosValue::Uint16(500));
    let (u, uerr) = u16v.uint_val();
    assert!(u.equals(&GosValue::Uint(500)));
    assert!(uerr.equals(&GosValue::Nil(GosMetadata::Untyped)));
    // a float reads back as the bit pattern it carries
    let bits = 2.5f64.to_bits();
    let fv = StdValue::new(GosValue::Float64(bits));
    let (f, ferr) = fv.float_val();
    assert!(f.equals(&GosValue::Float64(bits)));
    assert!(ferr.equals(&GosValue::Nil(GosMetadata::Untyped)));
    // a byte-slice handle reads back as itself
    let sv = StdValue::new(GosValue::Slice(4));
    let (s, serr) = sv.bytes_val();
    assert!(s.equals(&GosValue::Slice(4)));
    assert!(serr.equals(&GosValue::Nil(GosMetadata::Untyped)));
    // the wrong kind reads as a nil value with a message
    let (n, nerr) = sv.uint_val();
    assert!(n.equals(&GosValue::Nil(GosMetadata::Untyped)));
    assert!(nerr.equals(&GosValue::Str("not a uint value".to_string())));
}

#[test]
fn pointer_kind_discriminates_user_data() {
    assert_eq!(pointer_kind(&PointerObj::UserData(3)), GosKind::UnsafePointer);
    assert_eq!(pointer_kind(&PointerObj::Stack(0)), GosKind::Ptr);
    assert_eq!(pointer_kind(&PointerObj::SliceMember(1, 2)), GosKind::Ptr);
}

#[test]
fn type_of_reads_the_underlying_kind() {
    let mut objs = MetadataObjs::new();
    let md = Metadata::new(&mut objs);
    let named = GosMetadata::new_named(md.mint, &mut objs);
    let val = GosValue::Named(Box::new((GosValue::Int(3), named)));
    let (t, kind) = StdType::type_of(&val, &md, &objs);
    // the captured type is the named type, the kind is the underlying one
    assert_eq!(t.meta, named);
    assert!(kind.equals(&GosValue::Uint(2)));
    // captured types compare by structural identity
    let t2 = StdType::new(named);
    assert!(t.eq(&t2, &objs));
    let t3 = StdType::new(md.mint);
    assert!(!t.eq(&t3, &objs));
}

#[test]
fn name_table_insert_and_replace() {
    let mut m: NameMap<i16> = NameMap::new();
    assert_eq!(m.get("a"), None);
    assert_eq!(m.insert("a".to_string(), 1), None);
    assert_eq!(m.insert("b".to_string(), 2), None);
    assert_eq!(m.get("a"), Some(1));
    assert_eq!(m.get("b"), Some(2));
    // rebinding replaces and hands the old value back
    assert_eq!(m.insert("a".to_string(), 9), Some(1));
    assert_eq!(m.get("a"), Some(9));
    assert_eq!(m.len(), 2);
}

#[test]
fn scanner_tokens_and_semicolon_insertion() {
    let f = File::new("testfile1.gs".to_string(), 0, 100);
    let mut s = Scanner::new(f, "x := a[2] // trailing\ny++\n");
    assert_eq!(s.scan(), Token::IDENT("x".to_string()));
    assert_eq!(s.scan(), Token::DEFINE);
    assert_eq!(s.scan(), Token::IDENT("a".to_string()));
    assert_eq!(s.scan(), Token::LBRACK);
    assert_eq!(s.scan(), Token::INT("2".to_string()));
    assert_eq!(s.scan(), Token::RBRACK);
    // the line end after a closing bracket inserts a semicolon
    assert_eq!(s.scan(), Token::SEMICOLON(false));
    assert_eq!(s.scan(), Token::IDENT("y".to_string()));
    assert_eq!(s.scan(), Token::INC);
    assert_eq!(s.scan(), Token::SEMICOLON(false));
    assert_eq!(s.scan(), Token::EOF);
    // the scanner keeps handing the end of input out
    assert_eq!(s.scan(), Token::EOF);
}

#[test]
fn scanner_operators_and_literals() {
    let f = File::new("testfile1.gs".to_string(), 0, 100);
    let mut s = Scanner::new(f, "<<= &^ <- ... \"hi\" 'c' 3.25 0x1F 4i");
    assert_eq!(s.scan(), Token::SHL_ASSIGN);
    assert_eq!(s.scan(), Token::AND_NOT);
    assert_eq!(s.scan(), Token::ARROW);
    assert_eq!(s.scan(), Token::ELLIPSIS);
    assert_eq!(s.scan(), Token::STRING("\"hi\"".to_string()));
    assert_eq!(s.scan(), Token::CHAR("'c'".to_string()));
    assert_eq!(s.scan(), Token::FLOAT("3.25".to_string()));
    assert_eq!(s.scan(), Token::INT("0x1F".to_string()));
    assert_eq!(s.scan(), Token::IMAG("4i".to_string()));
    assert_eq!(s.scan(), Token::SEMICOLON(false));
    assert_eq!(s.scan(), Token::EOF);
}

#[test]
fn file_positions_resolve_lines_and_columns() {
    let f = File::new("testfile1.gs".to_string(), 0, 100);
    let mut s = Scanner::new(f, "a\nbb\nccc");
    // consume everything so the file has its line table
    loop {
        if s.scan() == Token::EOF {
            break;
        }
    }
    let p = s.file().position(5);
    assert_eq!(p.line, 3);
    assert_eq!(p.column, 1);
    let p2 = s.file().position(2);
    assert_eq!(p2.line, 2);
    assert_eq!(p2.column, 1);
}
