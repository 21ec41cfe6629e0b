//! The resolved syntax tree the code generator consumes: expressions and
//! statements as owned trees, with identifiers, fields, entities, scopes
//! and compound statements held in integer-keyed arenas.  An identifier is
//! linked to the entity it denotes by the scope-resolution pass; until
//! then it carries no entity, or the sentinel for a use that must be
//! resolved later.

use vstd::prelude::*;
use crate::names::NameMap;
use crate::position::Pos;
use crate::token::Token;

verus! {

pub type IdentIndex = usize;

pub type FieldIndex = usize;

pub type EntityIndex = usize;

pub type ScopeIndex = usize;

pub type SpecIndex = usize;

pub type FuncDeclIndex = usize;

pub type LabeledStmtIndex = usize;

pub type AssignStmtIndex = usize;

/// What an identifier is linked to: nothing yet, the sentinel for a use
/// collected as unresolved, or a resolved entity.
#[derive(Debug, Clone, Copy, PartialEq, Eq, Structural)]
pub enum IdentEntity {
    NoEntity,
    Sentinel,
    Entity(EntityIndex),
}

impl IdentEntity {
    pub fn is_none(&self) -> (r: bool)
        ensures
            r == (*self is NoEntity),
    {
        matches!(self, IdentEntity::NoEntity)
    }

    pub fn into_key(self) -> (r: Option<EntityIndex>)
        ensures
            r == (match self {
                IdentEntity::Entity(k) => Some(k),
                _ => None::<EntityIndex>,
            }),
    {
        match self {
            IdentEntity::Entity(k) => Some(k),
            _ => None,
        }
    }
}

/// One identifier occurrence.
#[derive(Debug)]
pub struct Ident {
    pub pos: Pos,
    pub name: String,
    pub entity: IdentEntity,
}

/// What kind of thing an entity is.
#[derive(Debug, Clone, Copy, PartialEq, Eq, Structural)]
pub enum EntityKind {
    Bad,
    Pkg,
    Con,
    Typ,
    Var,
    Fun,
    Lbl,
}

/// The declaration site an entity points back at.
#[derive(Debug, Clone, Copy, PartialEq, Eq, Structural)]
pub enum DeclObj {
    Field(FieldIndex),
    Spec(SpecIndex),
    FuncDecl(FuncDeclIndex),
    LabeledStmt(LabeledStmtIndex),
    AssignStmt(AssignStmtIndex),
    NoDecl,
}

/// Extra resolution data; none is carried in this core.
#[derive(Debug, Clone, Copy, PartialEq, Eq, Structural)]
pub enum EntityData {
    NoData,
}

/// A named language object: what it is, its name, and where it was
/// declared.
#[derive(Debug)]
pub struct Entity {
    pub kind: EntityKind,
    pub name: String,
    pub decl: DeclObj,
    pub data: EntityData,
}

/// One lexical scope: the enclosing scope and the entities declared here.
#[derive(Debug)]
pub struct Scope {
    pub outer: Option<ScopeIndex>,
    pub entities: NameMap<EntityIndex>,
}

impl Scope {
    pub fn new(outer: Option<ScopeIndex>) -> (r: Scope)
        ensures
            r.outer == outer,
            r.entities.wf(),
            forall|n: Seq<char>| r.entities.spec_get(n) is None,
    {
        Scope { outer: outer, entities: NameMap::new() }
    }

    /// Looks a name up in this scope alone.
    pub fn look_up(&self, name: &str) -> (r: Option<EntityIndex>)
        ensures
            r == self.entities.spec_get(name@),
    {
        self.entities.get(name)
    }
}

/// A channel's direction.
#[derive(Debug, Clone, Copy, PartialEq, Eq, Structural)]
pub enum ChanDir {
    Send,
    Recv,
    SendRecv,
}

/// A group of names sharing one type, with an optional tag.
#[derive(Debug)]
pub struct Field {
    pub names: Vec<IdentIndex>,
    pub typ: Expr,
    pub tag: Option<Expr>,
}

/// An ordered field group list with its brackets.
#[derive(Debug)]
pub struct FieldList {
    pub opening: Option<Pos>,
    pub list: Vec<FieldIndex>,
    pub closing: Option<Pos>,
}

impl FieldList {
    pub fn new(opening: Option<Pos>, list: Vec<FieldIndex>, closing: Option<Pos>) -> (r: FieldList)
        ensures
            r.opening == opening,
            r.list@ == list@,
            r.closing == closing,
    {
        FieldList { opening: opening, list: list, closing: closing }
    }
}

#[derive(Debug)]
pub struct BasicLit {
    pub pos: Pos,
    pub token: Token,
}

#[derive(Debug)]
pub struct ParenExpr {
    pub l_paren: Pos,
    pub expr: Expr,
    pub r_paren: Pos,
}

#[derive(Debug)]
pub struct SelectorExpr {
    pub expr: Expr,
    pub sel: IdentIndex,
}

#[derive(Debug)]
pub struct IndexExpr {
    pub expr: Expr,
    pub l_brack: Pos,
    pub index: Expr,
    pub r_brack: Pos,
}

#[derive(Debug)]
pub struct SliceExpr {
    pub expr: Expr,
    pub l_brack: Pos,
    pub low: Option<Expr>,
    pub high: Option<Expr>,
    pub max: Option<Expr>,
    pub slice3: bool,
    pub r_brack: Pos,
}

#[derive(Debug)]
pub struct TypeAssertExpr {
    pub expr: Expr,
    pub l_paren: Pos,
    pub typ: Option<Expr>,
    pub r_paren: Pos,
}

#[derive(Debug)]
pub struct CallExpr {
    pub func: Expr,
    pub l_paren: Pos,
    pub args: Vec<Expr>,
    pub ellipsis: Option<Pos>,
    pub r_paren: Pos,
}

#[derive(Debug)]
pub struct StarExpr {
    pub star: Pos,
    pub expr: Expr,
}

#[derive(Debug)]
pub struct UnaryExpr {
    pub op_pos: Pos,
    pub op: Token,
    pub expr: Expr,
}

#[derive(Debug)]
pub struct BinaryExpr {
    pub expr_a: Expr,
    pub op_pos: Pos,
    pub op: Token,
    pub expr_b: Expr,
}

#[derive(Debug)]
pub struct KeyValueExpr {
    pub key: Expr,
    pub colon: Pos,
    pub val: Expr,
}

#[derive(Debug)]
pub struct Ellipsis {
    pub pos: Pos,
    pub elt: Option<Expr>,
}

#[derive(Debug)]
pub struct ArrayType {
    pub l_brack: Pos,
    pub len: Option<Expr>,
    pub elt: Expr,
}

#[derive(Debug)]
pub struct StructType {
    pub struct_pos: Pos,
    pub fields: FieldList,
    pub incomplete: bool,
}

#[derive(Debug)]
pub struct FuncType {
    pub func: Option<Pos>,
    pub params: FieldList,
    pub results: Option<FieldList>,
}

impl FuncType {
    pub fn new(func: Option<Pos>, params: FieldList, results: Option<FieldList>) -> (r: FuncType)
        ensures
            r.func == func,
            r.params.list@ == params.list@,
            r.results is Some <==> results is Some,
    {
        FuncType { func: func, params: params, results: results }
    }
}

#[derive(Debug)]
pub struct FuncLit {
    pub typ: FuncType,
    pub body: BlockStmt,
}

#[derive(Debug)]
pub struct CompositeLit {
    pub typ: Option<Expr>,
    pub l_brace: Pos,
    pub elts: Vec<Expr>,
    pub r_brace: Pos,
    pub incomplete: bool,
}

#[derive(Debug)]
pub struct InterfaceType {
    pub interface: Pos,
    pub methods: FieldList,
    pub incomplete: bool,
}

#[derive(Debug)]
pub struct MapType {
    pub map: Pos,
    pub key: Expr,
    pub val: Expr,
}

#[derive(Debug)]
pub struct ChanType {
    pub begin: Pos,
    pub arrow: Pos,
    pub dir: ChanDir,
    pub val: Expr,
}

/// An expression of the source language.
#[derive(Debug)]
pub enum Expr {
    Bad(Box<(Pos, Pos)>),
    Ident(Box<IdentIndex>),
    Ellipsis(Box<Ellipsis>),
    BasicLit(Box<BasicLit>),
    FuncLit(Box<FuncLit>),
    CompositeLit(Box<CompositeLit>),
    Paren(Box<ParenExpr>),
    Selector(Box<SelectorExpr>),
    Index(Box<IndexExpr>),
    Slice(Box<SliceExpr>),
    TypeAssert(Box<TypeAssertExpr>),
    Call(Box<CallExpr>),
    Star(Box<StarExpr>),
    Unary(Box<UnaryExpr>),
    Binary(Box<BinaryExpr>),
    KeyValue(Box<KeyValueExpr>),
    Array(Box<ArrayType>),
    Struct(Box<StructType>),
    Func(Box<FuncType>),
    Interface(Box<InterfaceType>),
    GosMap(Box<MapType>),
    Chan(Box<ChanType>),
}

#[derive(Debug)]
pub struct BlockStmt {
    pub l_brace: Pos,
    pub list: Vec<Stmt>,
    pub r_brace: Pos,
}

impl BlockStmt {
    pub fn new(l_brace: Pos, list: Vec<Stmt>, r_brace: Pos) -> (r: BlockStmt)
        ensures
            r.l_brace == l_brace,
            r.list@ == list@,
            r.r_brace == r_brace,
    {
        BlockStmt { l_brace: l_brace, list: list, r_brace: r_brace }
    }
}

#[derive(Debug)]
pub struct SendStmt {
    pub chan: Expr,
    pub arrow: Pos,
    pub val: Expr,
}

#[derive(Debug)]
pub struct IncDecStmt {
    pub expr: Expr,
    pub token_pos: Pos,
    pub token: Token,
}

/// A statement of the source language.
#[derive(Debug)]
pub enum Stmt {
    Bad(Box<(Pos, Pos)>),
    Expr(Box<Expr>),
    Send(Box<SendStmt>),
    IncDec(Box<IncDecStmt>),
    Assign(AssignStmtIndex),
    Labeled(LabeledStmtIndex),
    Block(Box<BlockStmt>),
}

/// An assignment or short declaration, held in an arena so label and
/// declaration records can point at it.
#[derive(Debug)]
pub struct AssignStmt {
    pub lhs: Vec<Expr>,
    pub t_pos: Pos,
    pub token: Token,
    pub rhs: Vec<Expr>,
}

/// A labeled statement, held in an arena.
#[derive(Debug)]
pub struct LabeledStmt {
    pub label: IdentIndex,
    pub colon: Pos,
    pub stmt: Stmt,
}

/// A constant, type or import clause.
#[derive(Debug)]
pub enum Spec {
    Value(Vec<IdentIndex>),
    Type(IdentIndex),
    Import(Option<IdentIndex>),
}

/// A function declaration record.
#[derive(Debug)]
pub struct FuncDecl {
    pub name: IdentIndex,
}

/// The arenas every index in the tree points into.
#[derive(Debug)]
pub struct Objects {
    pub idents: Vec<Ident>,
    pub entities: Vec<Entity>,
    pub scopes: Vec<Scope>,
    pub fields: Vec<Field>,
    pub a_stmts: Vec<AssignStmt>,
    pub l_stmts: Vec<LabeledStmt>,
    pub specs: Vec<Spec>,
    pub fdecls: Vec<FuncDecl>,
}

/// The arenas only ever grow.
pub open spec fn objs_grow(a: Objects, b: Objects) -> bool {
    &&& a.idents@.len() <= b.idents@.len()
    &&& a.entities@.len() <= b.entities@.len()
    &&& a.scopes@.len() <= b.scopes@.len()
    &&& a.fields@.len() <= b.fields@.len()
    &&& a.a_stmts@.len() <= b.a_stmts@.len()
    &&& a.l_stmts@.len() <= b.l_stmts@.len()
    &&& a.specs@.len() <= b.specs@.len()
    &&& a.fdecls@.len() <= b.fdecls@.len()
}

/// Cross-arena sanity: every index stored in an arena entry points inside
/// its arena, a scope's enclosing scope was created before it, and every
/// scope's name table is unique-keyed.
pub open spec fn objects_wf(o: Objects) -> bool {
    &&& forall|i: int|
        0 <= i < o.scopes@.len() ==> ((#[trigger] o.scopes@[i]).outer matches Some(s) ==> s < i)
    &&& forall|i: int| 0 <= i < o.scopes@.len() ==> (#[trigger] o.scopes@[i]).entities.wf()
    &&& forall|i: int, n: Seq<char>|
        0 <= i < o.scopes@.len() ==> ((#[trigger] o.scopes@[i].entities.spec_get(n)) matches Some(e)
            ==> e < o.entities@.len())
    &&& forall|i: int|
        0 <= i < o.idents@.len() ==> ((#[trigger] o.idents@[i]).entity matches IdentEntity::Entity(
            e,
        ) ==> e < o.entities@.len())
    &&& forall|i: int, j: int|
        0 <= i < o.fields@.len() && 0 <= j < o.fields@[i].names@.len()
            ==> (#[trigger] o.fields@[i].names@[j]) < o.idents@.len()
    &&& forall|i: int|
        0 <= i < o.entities@.len() ==> decl_ok((#[trigger] o.entities@[i]).decl, o)
    &&& forall|i: int|
        0 <= i < o.l_stmts@.len() ==> (#[trigger] o.l_stmts@[i]).label < o.idents@.len()
    &&& forall|i: int|
        0 <= i < o.fdecls@.len() ==> (#[trigger] o.fdecls@[i]).name < o.idents@.len()
    &&& forall|i: int|
        0 <= i < o.specs@.len() ==> spec_ok(#[trigger] o.specs@[i], o)
}

/// Every member of a field group list points inside the field arena.
pub open spec fn field_list_ok(fl: FieldList, o: Objects) -> bool {
    forall|j: int| 0 <= j < fl.list@.len() ==> (#[trigger] fl.list@[j]) < o.fields@.len()
}

/// An entity's declaration record points inside the arenas.
pub open spec fn decl_ok(d: DeclObj, o: Objects) -> bool {
    match d {
        DeclObj::Field(f) => f < o.fields@.len(),
        DeclObj::Spec(s) => s < o.specs@.len(),
        DeclObj::FuncDecl(f) => f < o.fdecls@.len(),
        DeclObj::LabeledStmt(l) => l < o.l_stmts@.len(),
        DeclObj::AssignStmt(a) => a < o.a_stmts@.len(),
        DeclObj::NoDecl => true,
    }
}

/// A clause's identifier indices point inside the identifier arena.
pub open spec fn spec_ok(s: Spec, o: Objects) -> bool {
    match s {
        Spec::Value(names) => forall|j: int|
            0 <= j < names@.len() ==> (#[trigger] names@[j]) < o.idents@.len(),
        Spec::Type(name) => name < o.idents@.len(),
        Spec::Import(_) => true,
    }
}

impl Objects {
    pub fn new() -> (r: Objects)
        ensures
            objects_wf(r),
            r.idents@.len() == 0,
            r.entities@.len() == 0,
            r.scopes@.len() == 0,
            r.fields@.len() == 0,
            r.a_stmts@.len() == 0,
            r.l_stmts@.len() == 0,
            r.specs@.len() == 0,
            r.fdecls@.len() == 0,
    {
        Objects {
            idents: Vec::new(),
            entities: Vec::new(),
            scopes: Vec::new(),
            fields: Vec::new(),
            a_stmts: Vec::new(),
            l_stmts: Vec::new(),
            specs: Vec::new(),
            fdecls: Vec::new(),
        }
    }

    /// Links the identifier under `i` to `e`.
    pub fn set_ident_entity(&mut self, i: IdentIndex, e: IdentEntity)
        requires
            i < old(self).idents@.len(),
            objects_wf(*old(self)),
            e matches IdentEntity::Entity(k) ==> k < old(self).entities@.len(),
        ensures
            objects_wf(*final(self)),
            final(self).idents@.len() == old(self).idents@.len(),
            final(self).idents@[i as int].entity == e,
            final(self).idents@[i as int].pos == old(self).idents@[i as int].pos,
            final(self).idents@[i as int].name@ == old(self).idents@[i as int].name@,
            forall|j: int|
                0 <= j < old(self).idents@.len() && j != i as int ==> final(self).idents@[j] == old(
                    self,
                ).idents@[j],
            *final(self) == (Objects { idents: final(self).idents, ..*old(self) }),
    {
        let mut tmp = Ident { pos: 0, name: String::new(), entity: IdentEntity::NoEntity };
        self.idents.set_and_swap(i, &mut tmp);
        tmp.entity = e;
        self.idents.set_and_swap(i, &mut tmp);
    }

    /// Appends a fresh, unlinked identifier and hands back its index.
    pub fn push_ident(&mut self, pos: crate::position::Pos, name: String) -> (r: IdentIndex)
        requires
            objects_wf(*old(self)),
        ensures
            objects_wf(*final(self)),
            objs_grow(*old(self), *final(self)),
            r == old(self).idents@.len(),
            final(self).idents@.len() == old(self).idents@.len() + 1,
            final(self).idents@.last().pos == pos,
            final(self).idents@.last().name@ == name@,
            final(self).idents@.last().entity == IdentEntity::NoEntity,
            forall|j: int|
                0 <= j < old(self).idents@.len() ==> final(self).idents@[j] == old(
                    self,
                ).idents@[j],
            *final(self) == (Objects { idents: final(self).idents, ..*old(self) }),
    {
        let idx = self.idents.len();
        self.idents.push(Ident { pos: pos, name: name, entity: IdentEntity::NoEntity });
        proof {
            assert forall|i: int|
                0 <= i < self.idents@.len() implies ((#[trigger] self.idents@[i]).entity
                matches IdentEntity::Entity(e) ==> e < self.entities@.len()) by {
                if i < self.idents@.len() - 1 {
                    assert(self.idents@[i] == old(self).idents@[i]);
                }
            }
        }
        idx
    }

    /// Appends a resolved entity and hands back its index.
    pub fn push_entity(&mut self, e: Entity) -> (r: EntityIndex)
        requires
            objects_wf(*old(self)),
            decl_ok(e.decl, *old(self)),
        ensures
            objects_wf(*final(self)),
            objs_grow(*old(self), *final(self)),
            r == old(self).entities@.len(),
            final(self).entities@ == old(self).entities@.push(e),
            final(self).entities@.len() == old(self).entities@.len() + 1,
            *final(self) == (Objects { entities: final(self).entities, ..*old(self) }),
    {
        self.entities.push(e);
        proof {
            assert forall|i: int|
                0 <= i < self.entities@.len() implies decl_ok(
                (#[trigger] self.entities@[i]).decl,
                *self,
            ) by {
                if i < self.entities@.len() - 1 {
                    assert(self.entities@[i] == old(self).entities@[i]);
                    assert(decl_ok(old(self).entities@[i].decl, *old(self)));
                }
            }
            assert forall|i: int, n: Seq<char>|
                0 <= i < self.scopes@.len() implies ((
            #[trigger] self.scopes@[i].entities.spec_get(n)) matches Some(e2) ==> e2
                < self.entities@.len()) by {
                assert(self.scopes@[i] == old(self).scopes@[i]);
            }
            assert forall|i: int|
                0 <= i < self.idents@.len() implies ((#[trigger] self.idents@[i]).entity
                matches IdentEntity::Entity(e2) ==> e2 < self.entities@.len()) by {
                assert(self.idents@[i] == old(self).idents@[i]);
            }
        }
        self.entities.len() - 1
    }

    /// Appends a field group and hands back its index.
    pub fn push_field(&mut self, f: Field) -> (r: FieldIndex)
        requires
            objects_wf(*old(self)),
            forall|j: int| 0 <= j < f.names@.len() ==> (#[trigger] f.names@[j])
                < old(self).idents@.len(),
        ensures
            objects_wf(*final(self)),
            objs_grow(*old(self), *final(self)),
            r == old(self).fields@.len(),
            final(self).fields@.len() == old(self).fields@.len() + 1,
            *final(self) == (Objects { fields: final(self).fields, ..*old(self) }),
    {
        let idx = self.fields.len();
        self.fields.push(f);
        proof {
            assert forall|i: int, j: int|
                0 <= i < self.fields@.len() && 0 <= j < self.fields@[i].names@.len() implies (
            #[trigger] self.fields@[i].names@[j]) < self.idents@.len() by {
                if i < self.fields@.len() - 1 {
                    assert(self.fields@[i] == old(self).fields@[i]);
                }
            }
        }
        idx
    }

    /// The position an entity's declaration record points at.
    pub fn entity_pos(&self, e: EntityIndex) -> (r: crate::position::Pos)
        requires
            objects_wf(*self),
            e < self.entities@.len(),
    {
        match &self.entities[e].decl {
            DeclObj::Field(f) => {
                let names = &self.fields[*f].names;
                if names.len() > 0 {
                    self.idents[names[0]].pos
                } else {
                    0
                }
            },
            DeclObj::Spec(s) => match &self.specs[*s] {
                Spec::Value(ns) => {
                    if ns.len() > 0 {
                        self.idents[ns[0]].pos
                    } else {
                        0
                    }
                },
                Spec::Type(n) => self.idents[*n].pos,
                Spec::Import(_) => 0,
            },
            DeclObj::FuncDecl(f) => self.idents[self.fdecls[*f].name].pos,
            DeclObj::LabeledStmt(l) => self.idents[self.l_stmts[*l].label].pos,
            DeclObj::AssignStmt(a) => self.a_stmts[*a].t_pos,
            DeclObj::NoDecl => 0,
        }
    }

    /// Declares `name` in scope `si`; hands back the entity the name was
    /// bound to before, if any.
    pub fn scope_insert(&mut self, si: ScopeIndex, name: String, e: EntityIndex) -> (r: Option<
        EntityIndex,
    >)
        requires
            si < old(self).scopes@.len(),
            objects_wf(*old(self)),
            e < old(self).entities@.len(),
        ensures
            objects_wf(*final(self)),
            final(self).scopes@.len() == old(self).scopes@.len(),
            r == old(self).scopes@[si as int].entities.spec_get(name@),
            final(self).scopes@[si as int].entities.spec_get(name@) == Some(e),
            final(self).scopes@[si as int].outer == old(self).scopes@[si as int].outer,
            forall|n: Seq<char>|
                n != name@ ==> final(self).scopes@[si as int].entities.spec_get(n) == old(
                    self,
                ).scopes@[si as int].entities.spec_get(n),
            forall|j: int|
                0 <= j < old(self).scopes@.len() && j != si as int ==> final(self).scopes@[j]
                    == old(self).scopes@[j],
            *final(self) == (Objects { scopes: final(self).scopes, ..*old(self) }),
    {
        let ghost name_view = name@;
        let mut tmp = Scope { outer: None, entities: NameMap::new() };
        self.scopes.set_and_swap(si, &mut tmp);
        let prev = tmp.entities.insert(name, e);
        self.scopes.set_and_swap(si, &mut tmp);
        proof {
            assert forall|i: int, n: Seq<char>|
                0 <= i < self.scopes@.len() implies ((#[trigger] self.scopes@[i].entities.spec_get(
                n,
            )) matches Some(e2) ==> e2 < self.entities@.len()) by {
                if i == si as int {
                    if n != name_view {
                        assert(self.scopes@[i].entities.spec_get(n) == old(
                            self,
                        ).scopes@[i].entities.spec_get(n));
                    }
                } else {
                    assert(self.scopes@[i] == old(self).scopes@[i]);
                }
            }
        }
        prev
    }
}

/// The identifier index an identifier expression carries.
pub open spec fn expr_ident_idx(e: Expr) -> int {
    match e {
        Expr::Ident(i) => *i as int,
        _ => 0,
    }
}

/// The name an identifier occurrence spells.
pub open spec fn name_of(o: Objects, n: IdentIndex) -> Seq<char>
    recommends
        n < o.idents@.len(),
{
    o.idents@[n as int].name@
}

/// The entity a name resolves to along the scope chain, innermost first.
pub open spec fn chain_lookup(o: Objects, s: Option<ScopeIndex>, name: Seq<char>) -> Option<
    EntityIndex,
>
    decreases (match s {
        Some(x) => x + 1,
        None => 0,
    }),
    when objects_wf(o) && (s matches Some(x) ==> x < o.scopes@.len())
{
    match s {
        None => None,
        Some(si) => match o.scopes@[si as int].entities.spec_get(name) {
            Some(e) => Some(e),
            None => chain_lookup(o, o.scopes@[si as int].outer, name),
        },
    }
}

/// The names a declaration record declares.
pub open spec fn decl_names(d: DeclObj, o: Objects) -> Seq<IdentIndex>
    recommends
        decl_ok(d, o),
{
    match d {
        DeclObj::Field(f) => o.fields@[f as int].names@,
        DeclObj::Spec(s) => match o.specs@[s as int] {
            Spec::Value(ns) => ns@,
            Spec::Type(t) => seq![t],
            Spec::Import(_) => Seq::empty(),
        },
        DeclObj::FuncDecl(f) => seq![o.fdecls@[f as int].name],
        DeclObj::LabeledStmt(l) => seq![o.l_stmts@[l as int].label],
        DeclObj::AssignStmt(_) => Seq::empty(),
        DeclObj::NoDecl => Seq::empty(),
    }
}

/// The position of the last occurrence of `nm` among the first `upto`
/// declared names, or -1.
pub open spec fn last_name_match(o: Objects, ns: Seq<IdentIndex>, nm: Seq<char>, upto: int) -> int
    decreases upto,
{
    if upto <= 0 {
        -1
    } else if name_of(o, ns[upto - 1]) == nm {
        upto - 1
    } else {
        last_name_match(o, ns, nm, upto - 1)
    }
}

/// Whether declaring the `k`-th name reports a redeclaration: its
/// non-blank name is already bound in the scope, by the base table or by
/// an earlier name of the same run.
pub open spec fn is_redecl(
    o: Objects,
    ns: Seq<IdentIndex>,
    base: crate::names::NameMap<EntityIndex>,
    k: int,
) -> bool {
    &&& name_of(o, ns[k]) != "_"@
    &&& (base.spec_get(name_of(o, ns[k])) is Some || last_name_match(o, ns, name_of(o, ns[k]), k)
        >= 0)
}

/// How many of the first `upto` declared names report a redeclaration.
pub open spec fn redecl_count(
    o: Objects,
    ns: Seq<IdentIndex>,
    base: crate::names::NameMap<EntityIndex>,
    upto: int,
) -> int
    decreases upto,
{
    if upto <= 0 {
        0
    } else {
        redecl_count(o, ns, base, upto - 1) + if is_redecl(o, ns, base, upto - 1) {
            1int
        } else {
            0int
        }
    }
}

/// How many of the first `upto` left-hand sides are identifiers.
pub open spec fn lhs_ident_count(lhs: Seq<Expr>, upto: int) -> int
    decreases upto,
{
    if upto <= 0 {
        0
    } else {
        lhs_ident_count(lhs, upto - 1) + if lhs[upto - 1] is Ident {
            1int
        } else {
            0int
        }
    }
}

/// How many of the first `upto` left-hand sides are not identifiers.
pub open spec fn lhs_non_ident_count(lhs: Seq<Expr>, upto: int) -> int
    decreases upto,
{
    if upto <= 0 {
        0
    } else {
        lhs_non_ident_count(lhs, upto - 1) + if lhs[upto - 1] is Ident {
            0int
        } else {
            1int
        }
    }
}

/// A saturating sum, used for the artificial end positions of syntax
/// nodes.
pub fn sat_add(a: usize, b: usize) -> (r: usize)
    ensures
        r == if a + b <= usize::MAX {
            a + b
        } else {
            usize::MAX as int
        },
{
    if a <= usize::MAX - b {
        a + b
    } else {
        usize::MAX
    }
}

/// Every identifier index inside an expression lies below `n`.
pub open spec fn expr_ok(e: Expr, n: int) -> bool
    decreases e,
{
    match e {
        Expr::Bad(_) => true,
        Expr::Ident(i) => *i < n,
        Expr::Ellipsis(b) => match b.elt {
            Some(x) => expr_ok(x, n),
            None => true,
        },
        Expr::BasicLit(_) => true,
        Expr::FuncLit(_) => true,
        Expr::CompositeLit(b) => (match b.typ {
            Some(t) => expr_ok(t, n),
            None => true,
        }) && (forall|i: int| 0 <= i < b.elts@.len() ==> expr_ok(#[trigger] b.elts@[i], n)),
        Expr::Paren(b) => expr_ok(b.expr, n),
        Expr::Selector(b) => expr_ok(b.expr, n) && b.sel < n,
        Expr::Index(b) => expr_ok(b.expr, n) && expr_ok(b.index, n),
        Expr::Slice(b) => expr_ok(b.expr, n) && (match b.low {
            Some(x) => expr_ok(x, n),
            None => true,
        }) && (match b.high {
            Some(x) => expr_ok(x, n),
            None => true,
        }) && (match b.max {
            Some(x) => expr_ok(x, n),
            None => true,
        }),
        Expr::TypeAssert(b) => expr_ok(b.expr, n) && (match b.typ {
            Some(x) => expr_ok(x, n),
            None => true,
        }),
        Expr::Call(b) => expr_ok(b.func, n) && (forall|i: int|
            0 <= i < b.args@.len() ==> expr_ok(#[trigger] b.args@[i], n)),
        Expr::Star(b) => expr_ok(b.expr, n),
        Expr::Unary(b) => expr_ok(b.expr, n),
        Expr::Binary(b) => expr_ok(b.expr_a, n) && expr_ok(b.expr_b, n),
        Expr::KeyValue(b) => expr_ok(b.key, n) && expr_ok(b.val, n),
        Expr::Array(b) => (match b.len {
            Some(x) => expr_ok(x, n),
            None => true,
        }) && expr_ok(b.elt, n),
        Expr::Struct(_) => true,
        Expr::Func(_) => true,
        Expr::Interface(_) => true,
        Expr::GosMap(b) => expr_ok(b.key, n) && expr_ok(b.val, n),
        Expr::Chan(b) => expr_ok(b.val, n),
    }
}

/// Validity below `n` is kept as the identifier arena grows.
pub proof fn lemma_expr_ok_grow(e: Expr, n: int, m: int)
    requires
        expr_ok(e, n),
        n <= m,
    ensures
        expr_ok(e, m),
    decreases e,
{
    match e {
        Expr::Ellipsis(b) => match b.elt {
            Some(x) => lemma_expr_ok_grow(x, n, m),
            None => {},
        },
        Expr::CompositeLit(b) => {
            match b.typ {
                Some(t) => lemma_expr_ok_grow(t, n, m),
                None => {},
            }
            assert forall|i: int| 0 <= i < b.elts@.len() implies expr_ok(
                #[trigger] b.elts@[i],
                m,
            ) by {
                lemma_expr_ok_grow(b.elts@[i], n, m);
            }
        },
        Expr::Paren(b) => lemma_expr_ok_grow(b.expr, n, m),
        Expr::Selector(b) => lemma_expr_ok_grow(b.expr, n, m),
        Expr::Index(b) => {
            lemma_expr_ok_grow(b.expr, n, m);
            lemma_expr_ok_grow(b.index, n, m);
        },
        Expr::Slice(b) => {
            lemma_expr_ok_grow(b.expr, n, m);
            match b.low {
                Some(x) => lemma_expr_ok_grow(x, n, m),
                None => {},
            }
            match b.high {
                Some(x) => lemma_expr_ok_grow(x, n, m),
                None => {},
            }
            match b.max {
                Some(x) => lemma_expr_ok_grow(x, n, m),
                None => {},
            }
        },
        Expr::TypeAssert(b) => {
            lemma_expr_ok_grow(b.expr, n, m);
            match b.typ {
                Some(x) => lemma_expr_ok_grow(x, n, m),
                None => {},
            }
        },
        Expr::Call(b) => {
            lemma_expr_ok_grow(b.func, n, m);
            assert forall|i: int| 0 <= i < b.args@.len() implies expr_ok(
                #[trigger] b.args@[i],
                m,
            ) by {
                lemma_expr_ok_grow(b.args@[i], n, m);
            }
        },
        Expr::Star(b) => lemma_expr_ok_grow(b.expr, n, m),
        Expr::Unary(b) => lemma_expr_ok_grow(b.expr, n, m),
        Expr::Binary(b) => {
            lemma_expr_ok_grow(b.expr_a, n, m);
            lemma_expr_ok_grow(b.expr_b, n, m);
        },
        Expr::KeyValue(b) => {
            lemma_expr_ok_grow(b.key, n, m);
            lemma_expr_ok_grow(b.val, n, m);
        },
        Expr::Array(b) => {
            match b.len {
                Some(x) => lemma_expr_ok_grow(x, n, m),
                None => {},
            }
            lemma_expr_ok_grow(b.elt, n, m);
        },
        Expr::GosMap(b) => {
            lemma_expr_ok_grow(b.key, n, m);
            lemma_expr_ok_grow(b.val, n, m);
        },
        Expr::Chan(b) => lemma_expr_ok_grow(b.val, n, m),
        _ => {},
    }
}

impl Expr {
    pub fn new_bad(from: Pos, to: Pos) -> (r: Expr)
        ensures
            r == Expr::Bad(Box::new((from, to))),
    {
        Expr::Bad(Box::new((from, to)))
    }

    pub fn new_selector(x: Expr, sel: IdentIndex) -> (r: Expr)
        ensures
            r matches Expr::Selector(b) && b.expr == x && b.sel == sel,
    {
        Expr::Selector(Box::new(SelectorExpr { expr: x, sel: sel }))
    }

    pub fn box_func_type(ft: FuncType) -> (r: Expr)
        ensures
            r matches Expr::Func(b) && *b == ft,
    {
        Expr::Func(Box::new(ft))
    }

    pub fn new_basic_lit(pos: Pos, token: Token) -> (r: Expr)
        ensures
            r matches Expr::BasicLit(b) && b.pos == pos && b.token == token,
    {
        Expr::BasicLit(Box::new(BasicLit { pos: pos, token: token }))
    }

    pub fn new_unary_expr(pos: Pos, op: Token, expr: Expr) -> (r: Expr)
        ensures
            r matches Expr::Unary(b) && b.op_pos == pos && b.op == op && b.expr == expr,
    {
        Expr::Unary(Box::new(UnaryExpr { op_pos: pos, op: op, expr: expr }))
    }

    pub fn new_ellipsis(pos: Pos, elt: Option<Expr>) -> (r: Expr)
        ensures
            r matches Expr::Ellipsis(b) && b.pos == pos && b.elt == elt,
    {
        Expr::Ellipsis(Box::new(Ellipsis { pos: pos, elt: elt }))
    }

    /// The identifier index this expression is known to be.
    pub fn unwrap_ident(&self) -> (r: IdentIndex)
        requires
            self is Ident,
        ensures
            *self == Expr::Ident(Box::new(r)),
    {
        match self {
            Expr::Ident(i) => **i,
            _ => vstd::pervasive::unreached(),
        }
    }

    /// The position a diagnostic about this expression points at.
    pub fn pos(&self, objs: &Objects) -> (r: Pos)
        requires
            expr_ok(*self, objs.idents@.len() as int),
        decreases *self,
    {
        match self {
            Expr::Bad(b) => b.0,
            Expr::Ident(i) => objs.idents[**i].pos,
            Expr::Ellipsis(b) => b.pos,
            Expr::BasicLit(b) => b.pos,
            Expr::FuncLit(b) => match b.typ.func {
                Some(p) => p,
                None => match b.typ.params.opening {
                    Some(p) => p,
                    None => 0,
                },
            },
            Expr::CompositeLit(b) => match &b.typ {
                Some(t) => t.pos(objs),
                None => b.l_brace,
            },
            Expr::Paren(b) => b.l_paren,
            Expr::Selector(b) => b.expr.pos(objs),
            Expr::Index(b) => b.expr.pos(objs),
            Expr::Slice(b) => b.expr.pos(objs),
            Expr::TypeAssert(b) => b.expr.pos(objs),
            Expr::Call(b) => b.func.pos(objs),
            Expr::Star(b) => b.star,
            Expr::Unary(b) => b.op_pos,
            Expr::Binary(b) => b.expr_a.pos(objs),
            Expr::KeyValue(b) => b.key.pos(objs),
            Expr::Array(b) => b.l_brack,
            Expr::Struct(b) => b.struct_pos,
            Expr::Func(b) => match b.func {
                Some(p) => p,
                None => match b.params.opening {
                    Some(p) => p,
                    None => 0,
                },
            },
            Expr::Interface(b) => b.interface,
            Expr::GosMap(b) => b.map,
            Expr::Chan(b) => b.begin,
        }
    }

    /// The position one past this expression, possibly artificial.
    pub fn end(&self, objs: &Objects) -> (r: Pos)
        requires
            expr_ok(*self, objs.idents@.len() as int),
        decreases *self,
    {
        match self {
            Expr::Bad(b) => b.1,
            Expr::Ident(i) => {
                let id = &objs.idents[**i];
                sat_add(id.pos, id.name.as_str().unicode_len())
            },
            Expr::Ellipsis(b) => match &b.elt {
                Some(x) => x.end(objs),
                None => sat_add(b.pos, 3),
            },
            Expr::BasicLit(b) => sat_add(b.pos, b.token.text().as_str().unicode_len()),
            Expr::FuncLit(b) => sat_add(b.body.r_brace, 1),
            Expr::CompositeLit(b) => sat_add(b.r_brace, 1),
            Expr::Paren(b) => sat_add(b.r_paren, 1),
            Expr::Selector(b) => {
                let id = &objs.idents[b.sel];
                sat_add(id.pos, id.name.as_str().unicode_len())
            },
            Expr::Index(b) => sat_add(b.r_brack, 1),
            Expr::Slice(b) => sat_add(b.r_brack, 1),
            Expr::TypeAssert(b) => sat_add(b.r_paren, 1),
            Expr::Call(b) => sat_add(b.r_paren, 1),
            Expr::Star(b) => b.expr.end(objs),
            Expr::Unary(b) => b.expr.end(objs),
            Expr::Binary(b) => b.expr_b.end(objs),
            Expr::KeyValue(b) => b.val.end(objs),
            Expr::Array(b) => b.elt.end(objs),
            Expr::Struct(b) => match b.fields.closing {
                Some(p) => sat_add(p, 1),
                None => b.struct_pos,
            },
            Expr::Func(b) => match b.params.closing {
                Some(p) => sat_add(p, 1),
                None => match b.func {
                    Some(p) => p,
                    None => 0,
                },
            },
            Expr::Interface(b) => match b.methods.closing {
                Some(p) => sat_add(p, 1),
                None => b.interface,
            },
            Expr::GosMap(b) => b.val.end(objs),
            Expr::Chan(b) => b.val.end(objs),
        }
    }
}

/// The arena index an assignment statement points at.
pub open spec fn stmt_assign_idx(s: Stmt) -> int {
    match s {
        Stmt::Assign(i) => i as int,
        _ => 0,
    }
}

impl Stmt {
    pub open spec fn new_bad_spec(from: Pos, to: Pos) -> Stmt {
        Stmt::Bad(Box::new((from, to)))
    }

    pub fn new_bad(from: Pos, to: Pos) -> (r: Stmt)
        ensures
            r == Stmt::new_bad_spec(from, to),
    {
        Stmt::Bad(Box::new((from, to)))
    }

    pub fn box_block(b: BlockStmt) -> (r: Stmt)
        ensures
            r matches Stmt::Block(bb) && bb.l_brace == b.l_brace && bb.r_brace == b.r_brace,
    {
        Stmt::Block(Box::new(b))
    }

    /// Stores an assignment in the arena and hands back the statement that
    /// points at it.
    pub fn new_assign(
        objs: &mut Objects,
        lhs: Vec<Expr>,
        t_pos: Pos,
        token: Token,
        rhs: Vec<Expr>,
    ) -> (r: Stmt)
        requires
            objects_wf(*old(objs)),
        ensures
            objects_wf(*final(objs)),
            objs_grow(*old(objs), *final(objs)),
            final(objs).a_stmts@.len() == old(objs).a_stmts@.len() + 1,
            r == Stmt::Assign(old(objs).a_stmts@.len() as AssignStmtIndex),
            stmt_assign_idx(r) == old(objs).a_stmts@.len(),
            final(objs).a_stmts@.last().lhs@ == lhs@,
            final(objs).a_stmts@.last().t_pos == t_pos,
            final(objs).a_stmts@.last().rhs@ == rhs@,
            forall|j: int|
                0 <= j < old(objs).a_stmts@.len() ==> final(objs).a_stmts@[j] == old(
                    objs,
                ).a_stmts@[j],
            *final(objs) == (Objects { a_stmts: final(objs).a_stmts, ..*old(objs) }),
    {
        let idx = objs.a_stmts.len();
        objs.a_stmts.push(AssignStmt { lhs: lhs, t_pos: t_pos, token: token, rhs: rhs });
        Stmt::Assign(idx)
    }
}

impl LabeledStmt {
    /// Stores a labeled statement in the arena and hands back its index.
    pub fn arena_new(objs: &mut Objects, label: IdentIndex, colon: Pos, stmt: Stmt) -> (r:
        LabeledStmtIndex)
        requires
            objects_wf(*old(objs)),
            label < old(objs).idents@.len(),
        ensures
            objects_wf(*final(objs)),
            objs_grow(*old(objs), *final(objs)),
            final(objs).l_stmts@.len() == old(objs).l_stmts@.len() + 1,
            r == old(objs).l_stmts@.len(),
            *final(objs) == (Objects { l_stmts: final(objs).l_stmts, ..*old(objs) }),
    {
        let idx = objs.l_stmts.len();
        objs.l_stmts.push(LabeledStmt { label: label, colon: colon, stmt: stmt });
        idx
    }
}

} // verus!
