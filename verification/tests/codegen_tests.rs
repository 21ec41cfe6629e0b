use goscript::ast::{Field, FieldList, Objects};
use goscript::func::{IndexSelInfo, LeftHandSide};
use goscript::instruction::{Instruction, OpIndex, Opcode, ValueType};
use goscript::metadata::GosMetadata;
use goscript::objects::{EntIndex, FunctionVal};
use goscript::value::GosValue;

fn fresh_fn() -> FunctionVal {
    FunctionVal::new(GosMetadata::Untyped)
}

fn load_of_int(v: i64) -> Vec<Instruction> {
    let mut f = fresh_fn();
    let c = f.add_const(GosValue::Int(v));
    f.emit_load(c, ValueType::Int);
    f.code
}

#[test]
fn constant_fold_boundaries() {
    // an integer that fits one packed immediate loads as one PUSH_IMM
    // with the value; anything else as one PUSH_CONST with the pool index
    for v in [-32768i64, 0, 32767] {
        let code = load_of_int(v);
        assert_eq!(code.len(), 1);
        assert_eq!(code[0].op, Opcode::PUSH_IMM);
        assert_eq!(code[0].t0, Some(ValueType::Int));
        assert_eq!(code[0].imm0 as i64, v);
    }
    for v in [-32769i64, 32768] {
        let code = load_of_int(v);
        assert_eq!(code.len(), 1);
        assert_eq!(code[0].op, Opcode::PUSH_CONST);
        assert_eq!(code[0].t0, Some(ValueType::Int));
        assert_eq!(code[0].imm0, 0); // the pool slot the value landed in
    }
}

#[test]
fn boolean_constants_load_without_payload() {
    let mut f = fresh_fn();
    let t = f.add_const(GosValue::Bool(true));
    let fa = f.add_const(GosValue::Bool(false));
    f.emit_load(t, ValueType::Bool);
    f.emit_load(fa, ValueType::Bool);
    assert_eq!(f.code.len(), 2);
    assert_eq!(f.code[0].op, Opcode::PUSH_TRUE);
    assert_eq!(f.code[1].op, Opcode::PUSH_FALSE);
}

#[test]
fn constant_pool_interns_equal_values() {
    let mut f = fresh_fn();
    let a = f.add_const(GosValue::Str("hi".to_string()));
    let b = f.add_const(GosValue::Str("hi".to_string()));
    let c = f.add_const(GosValue::Str("there".to_string()));
    assert_eq!(a, b);
    assert_ne!(a, c);
    assert_eq!(f.consts.len(), 2);
}

#[test]
fn blank_store_appends_nothing() {
    let mut f = fresh_fn();
    for typ in [ValueType::Int, ValueType::Str, ValueType::Slice] {
        f.emit_store(&LeftHandSide::Primitive(EntIndex::Blank), -1, Some(Opcode::ADD), typ);
        f.emit_store(&LeftHandSide::Primitive(EntIndex::Blank), 5, None, typ);
    }
    assert_eq!(f.code.len(), 0);
}

#[test]
fn import_guard_is_six_instructions() {
    let mut f = fresh_fn();
    f.emit_import(3);
    assert_eq!(f.code.len(), 6);
    assert_eq!(f.code[0].op, Opcode::IMPORT);
    assert_eq!(f.code[0].imm0, 3);
    assert_eq!(f.code[1].op, Opcode::JUMP_IF_NOT);
    // the jump offset equals the length of the skipped init-call block
    assert_eq!(f.code[1].imm0, 4);
    assert_eq!(f.code[2].op, Opcode::PUSH_IMM);
    assert_eq!(f.code[2].imm0, 0);
    assert_eq!(f.code[3].op, Opcode::LOAD_FIELD);
    assert_eq!(f.code[3].t0, Some(ValueType::Package));
    assert_eq!(f.code[3].t1, Some(ValueType::Int));
    assert_eq!(f.code[4].op, Opcode::PRE_CALL);
    assert_eq!(f.code[4].t0, Some(ValueType::Closure));
    assert_eq!(f.code[5].op, Opcode::CALL);
}

#[test]
fn short_declaration_lowering() {
    // x := 7 lowers to PUSH_IMM(Int, 7), STORE_LOCAL(Int, slot = x, imm0 = -1)
    let mut f = fresh_fn();
    let x = f.add_local(None, None);
    let c = f.add_const(GosValue::Int(7));
    f.emit_load(c, ValueType::Int);
    f.emit_store(&LeftHandSide::Primitive(x), -1, None, ValueType::Int);
    assert_eq!(f.code.len(), 2);
    assert_eq!(f.code[0].op, Opcode::PUSH_IMM);
    assert_eq!(f.code[0].t0, Some(ValueType::Int));
    assert_eq!(f.code[0].imm0, 7);
    assert_eq!(f.code[1].op, Opcode::STORE_LOCAL);
    assert_eq!(f.code[1].t0, Some(ValueType::Int));
    assert_eq!(f.code[1].imm0, -1);
    assert_eq!(f.code[1].imm1, 0);
}

#[test]
fn slice_element_store_lowering() {
    // a[i] = b: load a, load i, load b, then one STORE_INDEX carrying the
    // container and key types
    let mut f = fresh_fn();
    let a = f.add_local(None, None);
    let i = f.add_local(None, None);
    let b = f.add_local(None, None);
    f.emit_load(a, ValueType::Slice);
    f.emit_load(i, ValueType::Int);
    f.emit_load(b, ValueType::Int);
    let info = IndexSelInfo::new(1, ValueType::Slice, ValueType::Int, true);
    f.emit_store(&LeftHandSide::IndexSelExpr(info), -1, None, ValueType::Int);
    assert_eq!(f.code.len(), 4);
    assert_eq!(f.code[0].op, Opcode::LOAD_LOCAL);
    assert_eq!(f.code[1].op, Opcode::LOAD_LOCAL);
    assert_eq!(f.code[2].op, Opcode::LOAD_LOCAL);
    assert_eq!(f.code[3].op, Opcode::STORE_INDEX);
    assert_eq!(f.code[3].t0, Some(ValueType::Int));
    assert_eq!(f.code[3].t1, Some(ValueType::Slice));
    assert_eq!(f.code[3].t2, Some(ValueType::Int));
    assert_eq!(f.code[3].imm0, -1);
    assert_eq!(f.code[3].imm1, 1);
    // a selector store picks the field opcode instead
    let info2 = IndexSelInfo::new(2, ValueType::Struct, ValueType::Int, false);
    f.emit_store(&LeftHandSide::IndexSelExpr(info2), -1, None, ValueType::Int);
    assert_eq!(f.code[4].op, Opcode::STORE_FIELD);
}

#[test]
fn compound_store_through_pointer() {
    // *p += 1: load p, push the literal, then a STORE_DEREF whose imm0
    // carries the packed ADD operator
    let mut f = fresh_fn();
    let p = f.add_local(None, None);
    f.emit_load(p, ValueType::Pointer);
    let one = f.add_const(GosValue::Int(1));
    f.emit_load(one, ValueType::Int);
    f.emit_store(&LeftHandSide::Deref(0), -1, Some(Opcode::ADD), ValueType::Int);
    assert_eq!(f.code.len(), 3);
    assert_eq!(f.code[1].op, Opcode::PUSH_IMM);
    assert_eq!(f.code[1].imm0, 1);
    assert_eq!(f.code[2].op, Opcode::STORE_DEREF);
    assert_eq!(f.code[2].t0, Some(ValueType::Int));
    assert_eq!(f.code[2].imm0, Instruction::code2index(Opcode::ADD));
    assert_eq!(f.code[2].imm1, 0);
}

#[test]
fn discarded_call_result_lowering() {
    // _ = expensive(): the call sequence, a blank store that emits
    // nothing, and a POP of the result
    let mut f = fresh_fn();
    f.emit_pre_call();
    f.emit_call(false);
    f.emit_store(&LeftHandSide::Primitive(EntIndex::Blank), -1, None, ValueType::Int);
    f.emit_pop(ValueType::Int);
    assert_eq!(f.code.len(), 3);
    assert_eq!(f.code[0].op, Opcode::PRE_CALL);
    assert_eq!(f.code[1].op, Opcode::CALL);
    assert_eq!(f.code[2].op, Opcode::POP);
    assert_eq!(f.code[2].t0, Some(ValueType::Int));
}

#[test]
fn variadic_call_uses_the_splat_opcode() {
    let mut f = fresh_fn();
    f.emit_call(true);
    f.emit_call(false);
    assert_eq!(f.code[0].op, Opcode::CALL_ELLIPSIS);
    assert_eq!(f.code[1].op, Opcode::CALL);
}

#[test]
fn one_opcode_emissions() {
    let mut f = fresh_fn();
    f.emit_new(ValueType::Struct);
    f.emit_range();
    f.emit_return();
    f.emit_return_init_pkg(2);
    f.emit_load_field(ValueType::Struct, ValueType::Str);
    f.emit_load_field_imm(4, ValueType::Struct);
    f.emit_load_index(ValueType::Slice, ValueType::Int);
    f.emit_load_index_imm(9, ValueType::Slice);
    assert_eq!(f.code.len(), 8);
    assert_eq!(f.code[0].op, Opcode::NEW);
    assert_eq!(f.code[1].op, Opcode::RANGE);
    assert_eq!(f.code[2].op, Opcode::RETURN);
    assert_eq!(f.code[3].op, Opcode::RETURN_INIT_PKG);
    assert_eq!(f.code[3].imm0, 2);
    assert_eq!(f.code[4].op, Opcode::LOAD_FIELD);
    assert_eq!(f.code[5].op, Opcode::LOAD_FIELD_IMM);
    assert_eq!(f.code[5].imm0, 4);
    assert_eq!(f.code[6].op, Opcode::LOAD_INDEX);
    assert_eq!(f.code[7].op, Opcode::LOAD_INDEX_IMM);
    assert_eq!(f.code[7].imm0, 9);
}

#[test]
fn upvalue_and_package_member_access() {
    let mut f = fresh_fn();
    f.emit_load(EntIndex::UpValue(2), ValueType::Int);
    f.emit_load(EntIndex::PackageMember(5), ValueType::Str);
    f.emit_load(EntIndex::BuiltIn(Opcode::LEN), ValueType::Int);
    f.emit_store(&LeftHandSide::Primitive(EntIndex::UpValue(2)), -1, None, ValueType::Int);
    f.emit_store(
        &LeftHandSide::Primitive(EntIndex::PackageMember(5)),
        -1,
        None,
        ValueType::Str,
    );
    assert_eq!(f.code[0].op, Opcode::LOAD_UPVALUE);
    assert_eq!(f.code[1].op, Opcode::LOAD_THIS_PKG_FIELD);
    assert_eq!(f.code[2].op, Opcode::LEN);
    assert_eq!(f.code[3].op, Opcode::STORE_UPVALUE);
    assert_eq!(f.code[4].op, Opcode::STORE_THIS_PKG_FIELD);
    // a package-member store is annotated with the package container type
    assert_eq!(f.code[4].t1, Some(ValueType::Package));
}

#[test]
fn add_params_counts_slots() {
    let mut objects = Objects::new();
    let a = objects.push_ident(0, "a".to_string());
    let b = objects.push_ident(1, "b".to_string());
    let named = objects.push_field(Field {
        names: vec![a, b],
        typ: goscript::ast::Expr::new_bad(0, 0),
        tag: None,
    });
    let anon = objects.push_field(Field {
        names: Vec::new(),
        typ: goscript::ast::Expr::new_bad(0, 0),
        tag: None,
    });
    let fl = FieldList::new(None, vec![named, anon], None);
    let mut f = fresh_fn();
    let n = f.add_params(&fl, &objects).expect("registration succeeds");
    // two named slots plus one anonymous slot
    assert_eq!(n, 3);
    assert_eq!(f.local_count(), 3);
}

#[test]
fn code2index_is_injective_on_the_store_family() {
    let ops = [
        Opcode::ADD,
        Opcode::SUB,
        Opcode::MUL,
        Opcode::QUO,
        Opcode::REM,
        Opcode::AND,
        Opcode::OR,
        Opcode::XOR,
        Opcode::AND_NOT,
        Opcode::SHL,
        Opcode::SHR,
    ];
    let mut seen: Vec<OpIndex> = Vec::new();
    for op in ops {
        let i = Instruction::code2index(op);
        assert!(!seen.contains(&i));
        seen.push(i);
    }
}
