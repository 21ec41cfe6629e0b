//! The function-level code generator: lowering of loads, stores, imports,
//! field and index access, calls and the one-opcode emissions onto a
//! function's code buffer.  The stack machine expects operands already
//! loaded and typed, so every emission annotates its instruction with the
//! value-type tags the virtual machine dispatches on.

use vstd::prelude::*;
use crate::instruction::{Instruction, OpIndex, Opcode, ValueType};
use crate::objects::{EntIndex, FunctionVal};
use crate::value::GosValue;

verus! {

/// What an indexed or selector left-hand side carries: the runtime index
/// or field offset, the container's value type, the key or field value
/// type, and whether this is indexed access rather than selection.
#[derive(Debug, Clone, Copy, PartialEq, Eq, Structural)]
pub struct IndexSelInfo {
    pub index: OpIndex,
    pub t1: ValueType,
    pub t2: ValueType,
    pub is_index: bool,
}

impl IndexSelInfo {
    pub fn new(index: OpIndex, t1: ValueType, t2: ValueType, is_index: bool) -> (r: IndexSelInfo)
        ensures
            r == (IndexSelInfo { index, t1, t2, is_index }),
    {
        IndexSelInfo { index: index, t1: t1, t2: t2, is_index: is_index }
    }
}

/// The left-hand side of an assignment: a storage site, an indexed or
/// selector expression, or a dereference of the pointer held at a stack
/// slot.
#[derive(Debug, Clone, Copy, PartialEq, Eq, Structural)]
pub enum LeftHandSide {
    Primitive(EntIndex),
    IndexSelExpr(IndexSelInfo),
    Deref(OpIndex),
}

/// Whether a constant-pool value is folded into a `PUSH_IMM` immediate:
/// only integers that fit one packed immediate slot are.
pub open spec fn fits_imm(v: i64) -> bool {
    -32768 <= v <= 32767
}

/// The instructions `emit_load` appends for a storage site: booleans to
/// payload-free pushes, immediate-sized integers to `PUSH_IMM`, other
/// constants to `PUSH_CONST`, variables to their load opcode, and a
/// builtin to its bare opcode.
pub open spec fn load_insts(
    consts: Seq<GosValue>,
    index: EntIndex,
    typ: ValueType,
) -> Seq<Instruction> {
    match index {
        EntIndex::Const(i) => match consts[i as int] {
            GosValue::Bool(b) => if b {
                seq![Instruction::spec_new(Opcode::PUSH_TRUE, None, None, None, None)]
            } else {
                seq![Instruction::spec_new(Opcode::PUSH_FALSE, None, None, None, None)]
            },
            GosValue::Int(v) => if fits_imm(v) {
                seq![
                    Instruction::spec_new(
                        Opcode::PUSH_IMM,
                        Some(typ),
                        None,
                        None,
                        Some(v as OpIndex),
                    ),
                ]
            } else {
                seq![Instruction::spec_new(Opcode::PUSH_CONST, Some(typ), None, None, Some(i))]
            },
            _ => seq![Instruction::spec_new(Opcode::PUSH_CONST, Some(typ), None, None, Some(i))],
        },
        EntIndex::LocalVar(i) => seq![
            Instruction::spec_new(Opcode::LOAD_LOCAL, Some(typ), None, None, Some(i)),
        ],
        EntIndex::UpValue(i) => seq![
            Instruction::spec_new(Opcode::LOAD_UPVALUE, Some(typ), None, None, Some(i)),
        ],
        EntIndex::PackageMember(i) => seq![
            Instruction::spec_new(Opcode::LOAD_THIS_PKG_FIELD, Some(typ), None, None, Some(i)),
        ],
        EntIndex::BuiltIn(op) => seq![Instruction::spec_new(op, None, None, None, None)],
        EntIndex::Blank => Seq::empty(),
    }
}

/// The instructions `emit_store` appends: none for a blank destination,
/// else exactly one store instruction whose `imm0` carries either the
/// stack-relative source of the right-hand value or the packed compound
/// operator, and whose `imm1` carries the destination slot.
pub open spec fn store_insts(
    lhs: LeftHandSide,
    rhs_index: OpIndex,
    op: Option<Opcode>,
    typ: ValueType,
) -> Seq<Instruction> {
    if lhs == LeftHandSide::Primitive(EntIndex::Blank) {
        Seq::empty()
    } else {
        let (code, i, t1, t2) = match lhs {
            LeftHandSide::Primitive(index) => match index {
                EntIndex::LocalVar(i) => (Opcode::STORE_LOCAL, i, None, None),
                EntIndex::UpValue(i) => (Opcode::STORE_UPVALUE, i, None, None),
                EntIndex::PackageMember(i) => (
                    Opcode::STORE_THIS_PKG_FIELD,
                    i,
                    Some(ValueType::Package),
                    None,
                ),
                _ => (Opcode::STORE_LOCAL, 0 as OpIndex, None, None),
            },
            LeftHandSide::IndexSelExpr(info) => (
                if info.is_index {
                    Opcode::STORE_INDEX
                } else {
                    Opcode::STORE_FIELD
                },
                info.index,
                Some(info.t1),
                Some(info.t2),
            ),
            LeftHandSide::Deref(i) => (Opcode::STORE_DEREF, i, None, None),
        };
        let imm0 = match op {
            Some(o) => Instruction::spec_code2index(o),
            None => rhs_index,
        };
        seq![Instruction { op: code, t0: Some(typ), t1: t1, t2: t2, imm0: imm0, imm1: i }]
    }
}

/// The six instructions of a guarded import: the import itself, then a
/// jump over the four-instruction initializer call that runs only when the
/// package was not yet initialized.
pub open spec fn import_insts(index: OpIndex) -> Seq<Instruction> {
    seq![
        Instruction::spec_new(Opcode::IMPORT, None, None, None, Some(index)),
        Instruction::spec_new(Opcode::JUMP_IF_NOT, None, None, None, Some(4)),
        Instruction::spec_new(Opcode::PUSH_IMM, None, None, None, Some(0)),
        Instruction::spec_new(
            Opcode::LOAD_FIELD,
            Some(ValueType::Package),
            Some(ValueType::Int),
            None,
            None,
        ),
        Instruction::spec_new(Opcode::PRE_CALL, Some(ValueType::Closure), None, None, None),
        Instruction::spec_new(Opcode::CALL, None, None, None, None),
    ]
}

/// Everything but the code buffer is left alone.
pub open spec fn only_code_changed(pre: FunctionVal, post: FunctionVal) -> bool {
    post == (FunctionVal { code: post.code, ..pre })
}

impl FunctionVal {
    /// Loads a storage site onto the evaluation stack.  Small integer
    /// constants are folded into the instruction immediate, which is the
    /// only mechanism that avoids one pool slot per integer literal.
    /// Blanks are never loaded.
    pub fn emit_load(&mut self, index: EntIndex, typ: ValueType)
        requires
            !(index is Blank),
            index matches EntIndex::Const(i) ==> 0 <= i < old(self).consts@.len(),
        ensures
            final(self).code@ == old(self).code@ + load_insts(old(self).consts@, index, typ),
            only_code_changed(*old(self), *final(self)),
    {
        match index {
            EntIndex::Const(i) => {
                let imm_or = match self.const_val(i) {
                    GosValue::Bool(b) => Some(*b),
                    _ => None,
                };
                match imm_or {
                    Some(true) => self.emit_code(Opcode::PUSH_TRUE),
                    Some(false) => self.emit_code(Opcode::PUSH_FALSE),
                    None => {
                        let int_or = match self.const_val(i) {
                            GosValue::Int(v) => Some(*v),
                            _ => None,
                        };
                        match int_or {
                            Some(v) if -32768 <= v && v <= 32767 => {
                                let imm: OpIndex = v as OpIndex;
                                self.emit_inst(Opcode::PUSH_IMM, Some(typ), None, None, Some(imm));
                            },
                            _ => {
                                self.emit_inst(Opcode::PUSH_CONST, Some(typ), None, None, Some(i));
                            },
                        }
                    },
                }
            },
            EntIndex::LocalVar(i) => {
                self.emit_inst(Opcode::LOAD_LOCAL, Some(typ), None, None, Some(i))
            },
            EntIndex::UpValue(i) => {
                self.emit_inst(Opcode::LOAD_UPVALUE, Some(typ), None, None, Some(i))
            },
            EntIndex::PackageMember(i) => {
                self.emit_inst(Opcode::LOAD_THIS_PKG_FIELD, Some(typ), None, None, Some(i))
            },
            EntIndex::BuiltIn(op) => self.emit_code(op),
            EntIndex::Blank => vstd::pervasive::unreached(),
        }
    }

    /// Writes a value to a storage site.  `rhs_index` is the
    /// stack-relative position of the right-hand value, or -1 when a
    /// compound operator has already consumed it; the two never carry
    /// information at the same time.  Constants and builtins are not
    /// assignable; a blank destination discards the value and emits
    /// nothing.
    pub fn emit_store(
        &mut self,
        lhs: &LeftHandSide,
        rhs_index: OpIndex,
        op: Option<Opcode>,
        typ: ValueType,
    )
        requires
            rhs_index == -1 || op is None,
            !(lhs matches LeftHandSide::Primitive(e) && (e is Const || e is BuiltIn)),
        ensures
            final(self).code@ == old(self).code@ + store_insts(*lhs, rhs_index, op, typ),
            only_code_changed(*old(self), *final(self)),
    {
        if let LeftHandSide::Primitive(index) = lhs {
            if EntIndex::Blank == *index {
                return ;
            }
        }
        let (code, i, t1, t2): (Opcode, &OpIndex, Option<ValueType>, Option<ValueType>) =
            match lhs {
            LeftHandSide::Primitive(index) => match index {
                EntIndex::LocalVar(i) => (Opcode::STORE_LOCAL, i, None, None),
                EntIndex::UpValue(i) => (Opcode::STORE_UPVALUE, i, None, None),
                EntIndex::PackageMember(i) => (
                    Opcode::STORE_THIS_PKG_FIELD,
                    i,
                    Some(ValueType::Package),
                    None,
                ),
                _ => vstd::pervasive::unreached(),
            },
            LeftHandSide::IndexSelExpr(info) => {
                let op2 = if info.is_index {
                    Opcode::STORE_INDEX
                } else {
                    Opcode::STORE_FIELD
                };
                (op2, &info.index, Some(info.t1), Some(info.t2))
            },
            LeftHandSide::Deref(i) => (Opcode::STORE_DEREF, i, None, None),
        };
        let mut inst = Instruction::new(code, Some(typ), t1, t2, None);
        let imm0 = match op {
            Some(x) => Instruction::code2index(x),
            None => rhs_index,
        };
        inst.set_imm2(imm0, *i);
        self.code.push(inst);
    }

    /// Emits a guarded import: `IMPORT`, then `JUMP_IF_NOT` over the
    /// four-instruction block that pushes the package's init function and
    /// calls it.  The jump offset equals the length of the skipped block.
    pub fn emit_import(&mut self, index: OpIndex)
        ensures
            final(self).code@ == old(self).code@ + import_insts(index),
            only_code_changed(*old(self), *final(self)),
    {
        self.emit_inst(Opcode::IMPORT, None, None, None, Some(index));
        let mut cd: Vec<Instruction> = Vec::new();
        cd.push(Instruction::new(Opcode::PUSH_IMM, None, None, None, Some(0)));
        cd.push(
            Instruction::new(
                Opcode::LOAD_FIELD,
                Some(ValueType::Package),
                Some(ValueType::Int),
                None,
                None,
            ),
        );
        cd.push(Instruction::new(Opcode::PRE_CALL, Some(ValueType::Closure), None, None, None));
        cd.push(Instruction::new(Opcode::CALL, None, None, None, None));
        let offset: OpIndex = cd.len() as OpIndex;
        self.emit_inst(Opcode::JUMP_IF_NOT, None, None, None, Some(offset));
        let mut k: usize = 0;
        while k < cd.len()
            invariant
                0 <= k <= cd@.len(),
                self.code@ == old(self).code@ + import_insts(index).subrange(0, 2 + k as int),
                cd@.len() == 4,
                cd@ == import_insts(index).subrange(2, 6),
                only_code_changed(*old(self), *self),
            decreases cd@.len() - k,
        {
            let inst = cd[k];
            self.code.push(inst);
            proof {
                assert(self.code@ =~= old(self).code@ + import_insts(index).subrange(
                    0,
                    2 + k as int + 1,
                ));
            }
            k = k + 1;
        }
        proof {
            assert(import_insts(index).subrange(0, 6) =~= import_insts(index));
            assert(self.code@ =~= old(self).code@ + import_insts(index));
        }
    }

    /// Discards the value at the top of the stack.
    pub fn emit_pop(&mut self, typ: ValueType)
        ensures
            final(self).code@ == old(self).code@.push(
                Instruction::spec_new(Opcode::POP, Some(typ), None, None, None),
            ),
            only_code_changed(*old(self), *final(self)),
    {
        self.emit_inst(Opcode::POP, Some(typ), None, None, None);
    }

    /// Loads a field selected by the value on the stack.
    pub fn emit_load_field(&mut self, typ: ValueType, sel_type: ValueType)
        ensures
            final(self).code@ == old(self).code@.push(
                Instruction::spec_new(Opcode::LOAD_FIELD, Some(typ), Some(sel_type), None, None),
            ),
            only_code_changed(*old(self), *final(self)),
    {
        self.emit_inst(Opcode::LOAD_FIELD, Some(typ), Some(sel_type), None, None);
    }

    /// Loads a field at a compile-time-known offset.
    pub fn emit_load_field_imm(&mut self, imm: OpIndex, typ: ValueType)
        ensures
            final(self).code@ == old(self).code@.push(
                Instruction::spec_new(Opcode::LOAD_FIELD_IMM, Some(typ), None, None, Some(imm)),
            ),
            only_code_changed(*old(self), *final(self)),
    {
        self.emit_inst(Opcode::LOAD_FIELD_IMM, Some(typ), None, None, Some(imm));
    }

    /// Loads an element selected by the index value on the stack.
    pub fn emit_load_index(&mut self, typ: ValueType, index_type: ValueType)
        ensures
            final(self).code@ == old(self).code@.push(
                Instruction::spec_new(Opcode::LOAD_INDEX, Some(typ), Some(index_type), None, None),
            ),
            only_code_changed(*old(self), *final(self)),
    {
        self.emit_inst(Opcode::LOAD_INDEX, Some(typ), Some(index_type), None, None);
    }

    /// Loads an element at a compile-time-known index.
    pub fn emit_load_index_imm(&mut self, imm: OpIndex, typ: ValueType)
        ensures
            final(self).code@ == old(self).code@.push(
                Instruction::spec_new(Opcode::LOAD_INDEX_IMM, Some(typ), None, None, Some(imm)),
            ),
            only_code_changed(*old(self), *final(self)),
    {
        self.emit_inst(Opcode::LOAD_INDEX_IMM, Some(typ), None, None, Some(imm));
    }

    /// Returns from the function.
    pub fn emit_return(&mut self)
        ensures
            final(self).code@ == old(self).code@.push(
                Instruction::spec_new(Opcode::RETURN, None, None, None, None),
            ),
            only_code_changed(*old(self), *final(self)),
    {
        self.emit_inst(Opcode::RETURN, None, None, None, None);
    }

    /// Returns from a package init function, recording completion of the
    /// package.
    pub fn emit_return_init_pkg(&mut self, index: OpIndex)
        ensures
            final(self).code@ == old(self).code@.push(
                Instruction::spec_new(Opcode::RETURN_INIT_PKG, None, None, None, Some(index)),
            ),
            only_code_changed(*old(self), *final(self)),
    {
        self.emit_inst(Opcode::RETURN_INIT_PKG, None, None, None, Some(index));
    }

    /// Reserves a call frame.
    pub fn emit_pre_call(&mut self)
        ensures
            final(self).code@ == old(self).code@.push(
                Instruction::spec_new(Opcode::PRE_CALL, None, None, None, None),
            ),
            only_code_changed(*old(self), *final(self)),
    {
        self.emit_inst(Opcode::PRE_CALL, None, None, None, None);
    }

    /// Consumes the callable and its arguments; a variadic call signals
    /// that the last argument is already a slice to splat.
    pub fn emit_call(&mut self, has_ellipsis: bool)
        ensures
            final(self).code@ == old(self).code@.push(
                Instruction::spec_new(
                    if has_ellipsis {
                        Opcode::CALL_ELLIPSIS
                    } else {
                        Opcode::CALL
                    },
                    None,
                    None,
                    None,
                    None,
                ),
            ),
            only_code_changed(*old(self), *final(self)),
    {
        let op = if has_ellipsis {
            Opcode::CALL_ELLIPSIS
        } else {
            Opcode::CALL
        };
        self.emit_inst(op, None, None, None, None);
    }

    /// Allocates a fresh value of the given kind.
    pub fn emit_new(&mut self, typ: ValueType)
        ensures
            final(self).code@ == old(self).code@.push(
                Instruction::spec_new(Opcode::NEW, Some(typ), None, None, None),
            ),
            only_code_changed(*old(self), *final(self)),
    {
        self.emit_inst(Opcode::NEW, Some(typ), None, None, None);
    }

    /// Starts a range iteration over the value on the stack.
    pub fn emit_range(&mut self)
        ensures
            final(self).code@ == old(self).code@.push(
                Instruction::spec_new(Opcode::RANGE, None, None, None, None),
            ),
            only_code_changed(*old(self), *final(self)),
    {
        self.emit_inst(Opcode::RANGE, None, None, None, None);
    }
}

/// How many local slots one parameter group takes: one per name, or one
/// anonymous slot for an unnamed group.
pub open spec fn field_slots(f: crate::ast::FieldIndex, o: crate::ast::Objects) -> int
    recommends
        f < o.fields@.len(),
{
    if o.fields@[f as int].names@.len() == 0 {
        1
    } else {
        o.fields@[f as int].names@.len() as int
    }
}

/// The local slots a whole parameter list takes.
pub open spec fn params_slots(list: Seq<crate::ast::FieldIndex>, o: crate::ast::Objects) -> int
    decreases list.len(),
{
    if list.len() == 0 {
        0
    } else {
        field_slots(list[0], o) + params_slots(list.drop_first(), o)
    }
}

/// The symbol an identifier's slot is bound to: the entity the front end
/// linked it to, if any.
pub open spec fn ident_bind(o: crate::ast::Objects, n: crate::ast::IdentIndex) -> Option<
    crate::objects::EntityKey,
>
    recommends
        n < o.idents@.len(),
{
    match o.idents@[n as int].entity {
        crate::ast::IdentEntity::Entity(e) => Some(e),
        _ => None,
    }
}

/// The slot bindings one parameter group registers: one unbound slot for
/// an unnamed group, else one slot per name carrying that identifier's
/// entity key.
pub open spec fn field_binds(f: crate::ast::FieldIndex, o: crate::ast::Objects) -> Seq<
    Option<crate::objects::EntityKey>,
>
    recommends
        f < o.fields@.len(),
{
    if o.fields@[f as int].names@.len() == 0 {
        seq![None]
    } else {
        Seq::new(o.fields@[f as int].names@.len(), |j: int| ident_bind(o, o.fields@[f as int].names@[j]))
    }
}

/// The slot bindings a whole parameter list registers, in order.
pub open spec fn params_binds(list: Seq<crate::ast::FieldIndex>, o: crate::ast::Objects) -> Seq<
    Option<crate::objects::EntityKey>,
>
    decreases list.len(),
{
    if list.len() == 0 {
        Seq::empty()
    } else {
        field_binds(list[0], o) + params_binds(list.drop_first(), o)
    }
}

/// A parameter list never takes a negative number of slots.
pub proof fn lemma_params_slots_nonneg(list: Seq<crate::ast::FieldIndex>, o: crate::ast::Objects)
    ensures
        params_slots(list, o) >= 0,
    decreases list.len(),
{
    if list.len() > 0 {
        lemma_params_slots_nonneg(list.drop_first(), o);
    }
}

impl FunctionVal {
    /// Walks a parameter or result field list, registering one local per
    /// name; an unnamed group takes one anonymous slot, still reachable
    /// by stack position.  Hands back the total slot count; the appended
    /// slots carry, in order, each name's entity key — or no binding for
    /// an anonymous slot — and nothing else about the function changes.
    #[verifier::loop_isolation(false)]
    pub fn add_params(&mut self, fl: &crate::ast::FieldList, o: &crate::ast::Objects) -> (r:
        Result<usize, ()>)
        requires
            crate::ast::objects_wf(*o),
            crate::ast::field_list_ok(*fl, *o),
            old(self).local_zeros@.len() == old(self).local_binds@.len(),
            old(self).local_binds@.len() + params_slots(fl.list@, *o) <= 32767,
        ensures
            r matches Ok(n) && n == params_slots(fl.list@, *o),
            final(self).local_binds@ == old(self).local_binds@ + params_binds(fl.list@, *o),
            final(self).local_zeros@.len() == final(self).local_binds@.len(),
            forall|j: int|
                old(self).local_zeros@.len() <= j < final(self).local_zeros@.len() ==> (
                #[trigger] final(self).local_zeros@[j]) is None,
            forall|j: int|
                0 <= j < old(self).local_zeros@.len() ==> final(self).local_zeros@[j] == old(
                    self,
                ).local_zeros@[j],
            final(self).code@ == old(self).code@,
            final(self).consts@ == old(self).consts@,
            final(self).meta == old(self).meta,
            final(self).up_ptrs@ == old(self).up_ptrs@,
            final(self).param_count == old(self).param_count,
            final(self).ret_count == old(self).ret_count,
            final(self).variadic == old(self).variadic,
    {
        let ghost whole = fl.list@;
        let n = fl.list.len();
        let mut re: usize = 0;
        let mut i: usize = 0;
        proof {
            assert(whole.subrange(0, n as int) =~= whole);
        }
        while i < n
            invariant
                0 <= i <= n,
                self.local_zeros@.len() == self.local_binds@.len(),
                self.local_binds@.len() == old(self).local_binds@.len() + re,
                old(self).local_binds@.len() + re + params_slots(
                    whole.subrange(i as int, n as int),
                    *o,
                ) == old(self).local_binds@.len() + params_slots(whole, *o),
                self.local_binds@ + params_binds(whole.subrange(i as int, n as int), *o) == old(
                    self,
                ).local_binds@ + params_binds(whole, *o),
                forall|j: int|
                    old(self).local_zeros@.len() <= j < self.local_zeros@.len() ==> (
                    #[trigger] self.local_zeros@[j]) is None,
                forall|j: int|
                    0 <= j < old(self).local_zeros@.len() ==> self.local_zeros@[j] == old(
                        self,
                    ).local_zeros@[j],
                self.code@ == old(self).code@,
                self.consts@ == old(self).consts@,
                self.meta == old(self).meta,
                self.up_ptrs@ == old(self).up_ptrs@,
                self.param_count == old(self).param_count,
                self.ret_count == old(self).ret_count,
                self.variadic == old(self).variadic,
            decreases n - i,
        {
            let ghost suffix = whole.subrange(i as int, n as int);
            proof {
                assert(suffix[0] == whole[i as int]);
                assert(suffix.drop_first() =~= whole.subrange(i + 1, n as int));
                lemma_params_slots_nonneg(suffix.drop_first(), *o);
            }
            let f = fl.list[i];
            let names = &o.fields[f].names;
            if names.len() == 0 {
                self.add_local(None, None);
                re = re + 1;
                proof {
                    assert(field_binds(f, *o) =~= seq![None::<crate::objects::EntityKey>]);
                    assert(params_binds(suffix, *o) == field_binds(f, *o) + params_binds(
                        suffix.drop_first(),
                        *o,
                    ));
                    assert(self.local_binds@ + params_binds(suffix.drop_first(), *o) =~= old(
                        self,
                    ).local_binds@ + params_binds(whole, *o));
                }
            } else {
                let m = names.len();
                let ghost binds_before = self.local_binds@;
                let mut j: usize = 0;
                while j < m
                    invariant
                        0 <= j <= m,
                        m == o.fields@[f as int].names@.len(),
                        f < o.fields@.len(),
                        self.local_zeros@.len() == self.local_binds@.len(),
                        self.local_binds@.len() == old(self).local_binds@.len() + re + j,
                        old(self).local_binds@.len() + re + m <= 32767,
                        self.local_binds@ == binds_before + Seq::new(
                            j as nat,
                            |jj: int| ident_bind(*o, o.fields@[f as int].names@[jj]),
                        ),
                        forall|j2: int|
                            old(self).local_zeros@.len() <= j2 < self.local_zeros@.len() ==> (
                            #[trigger] self.local_zeros@[j2]) is None,
                        forall|j2: int|
                            0 <= j2 < old(self).local_zeros@.len() ==> self.local_zeros@[j2]
                                == old(self).local_zeros@[j2],
                        self.code@ == old(self).code@,
                        self.consts@ == old(self).consts@,
                        self.meta == old(self).meta,
                        self.up_ptrs@ == old(self).up_ptrs@,
                        self.param_count == old(self).param_count,
                        self.ret_count == old(self).ret_count,
                        self.variadic == old(self).variadic,
                    decreases m - j,
                {
                    let ident = &o.idents[names[j]];
                    self.add_local(ident.entity.into_key(), None);
                    proof {
                        assert(self.local_binds@ =~= binds_before + Seq::new(
                            (j + 1) as nat,
                            |jj: int| ident_bind(*o, o.fields@[f as int].names@[jj]),
                        ));
                    }
                    j = j + 1;
                }
                re = re + m;
                proof {
                    assert(field_binds(f, *o) =~= Seq::new(
                        m as nat,
                        |jj: int| ident_bind(*o, o.fields@[f as int].names@[jj]),
                    ));
                    assert(params_binds(suffix, *o) == field_binds(f, *o) + params_binds(
                        suffix.drop_first(),
                        *o,
                    ));
                    assert(self.local_binds@ + params_binds(suffix.drop_first(), *o) =~= old(
                        self,
                    ).local_binds@ + params_binds(whole, *o));
                }
            }
            i = i + 1;
        }
        proof {
            assert(whole.subrange(n as int, n as int) =~= Seq::<crate::ast::FieldIndex>::empty());
            assert(final(self).local_binds@ =~= old(self).local_binds@ + params_binds(whole, *o));
        }
        Ok(re)
    }
}

/// Constant-fold equivalence: an integer constant that fits one packed
/// immediate is loaded by exactly one `PUSH_IMM` carrying the type tag and
/// the value itself; any other integer by exactly one `PUSH_CONST`
/// carrying the pool index.
pub proof fn lemma_constant_fold(consts: Seq<GosValue>, i: OpIndex, v: i64, typ: ValueType)
    requires
        0 <= i < consts.len(),
        consts[i as int] == GosValue::Int(v),
    ensures
        load_insts(consts, EntIndex::Const(i), typ).len() == 1,
        fits_imm(v) ==> load_insts(consts, EntIndex::Const(i), typ) == seq![
            Instruction::spec_new(Opcode::PUSH_IMM, Some(typ), None, None, Some(v as OpIndex)),
        ],
        !fits_imm(v) ==> load_insts(consts, EntIndex::Const(i), typ) == seq![
            Instruction::spec_new(Opcode::PUSH_CONST, Some(typ), None, None, Some(i)),
        ],
{
}

/// Blank store identity: a store to the blank destination appends no
/// instructions, whatever the type, source index and compound operator.
pub proof fn lemma_blank_store(rhs_index: OpIndex, op: Option<Opcode>, typ: ValueType)
    ensures
        store_insts(LeftHandSide::Primitive(EntIndex::Blank), rhs_index, op, typ) == Seq::<
            Instruction,
        >::empty(),
{
}

/// Import guard: a guarded import is exactly six instructions, and the
/// jump offset written into the guard equals the number of instructions
/// that follow it, so a virtual machine that takes the jump advances
/// exactly four slots.
pub proof fn lemma_import_guard(index: OpIndex)
    ensures
        import_insts(index).len() == 6,
        import_insts(index)[0].op == Opcode::IMPORT,
        import_insts(index)[0].imm0 == index,
        import_insts(index)[1].op == Opcode::JUMP_IF_NOT,
        import_insts(index)[1].imm0 == 4,
        import_insts(index)[1].imm0 == import_insts(index).len() - 2,
{
}

} // verus!
