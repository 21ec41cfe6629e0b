//! The recursive-descent parser: pulls tokens from the scanner, builds the
//! syntax tree, declares names into scopes and links identifier uses to
//! the entities they denote, collecting the rest as unresolved.
//!
//! Every production leaves the token cursor where it stood or further
//! ahead, and the productions of one expression nest only after at least
//! one token has been consumed, which is what bounds the recursion.

use vstd::prelude::*;
use vstd::string::StringExecFns;
use crate::ast::{
    expr_ok, lemma_expr_ok_grow, objects_wf, objs_grow, AssignStmt, BasicLit, BlockStmt, ChanDir,
    ChanType, CompositeLit, DeclObj, Ellipsis, Entity, EntityData, EntityKind, Expr, Field,
    FieldIndex, FieldList, FuncLit, FuncType, Ident, IdentEntity, IdentIndex, IncDecStmt,
    BinaryExpr, IndexExpr, InterfaceType, KeyValueExpr, LabeledStmt, MapType, Objects, ParenExpr, Scope,
    ScopeIndex, SelectorExpr, SendStmt, SliceExpr, StarExpr, Stmt, StructType, TypeAssertExpr,
    CallExpr,
};
use crate::errors::ErrorList;
use crate::position::{File, Pos};
use crate::scanner::Scanner;
use crate::token::{Token, LOWEST_PREC};

verus! {

/// Renders a number in decimal, for positions in messages.
#[verifier::loop_isolation(false)]
fn usize_to_string(n: usize) -> (r: String) {
    let mut digits: Vec<u8> = Vec::new();
    let mut m = n;
    loop
        invariant
            true,
        decreases m,
    {
        digits.push((48 + (m % 10)) as u8);
        m = m / 10;
        if m == 0 {
            break ;
        }
    }
    let mut s = String::new();
    let mut i = digits.len();
    while i > 0
        invariant
            i <= digits@.len(),
        decreases i,
    {
        i = i - 1;
        crate::scanner::string_push(&mut s, digits[i] as char);
    }
    s
}

/// The parser's working state.
pub struct Parser {
    pub objects: Objects,
    pub scanner: Scanner,
    pub errors: ErrorList,
    pub trace: bool,
    pub indent: i64,
    pub trace_log: Vec<String>,
    pub pos: Pos,
    pub token: Token,
    pub sync_pos: Pos,
    pub sync_count: i64,
    /// Expression nesting depth; kept within a fixed band so stepping it
    /// can never overflow.
    pub expr_level: i64,
    pub in_rhs: bool,
    pub pkg_scope: Option<ScopeIndex>,
    pub top_scope: Option<ScopeIndex>,
    pub unresolved: Vec<IdentIndex>,
    pub imports: Vec<usize>,
    pub label_scope: Option<ScopeIndex>,
    pub target_stack: Vec<Vec<IdentIndex>>,
}

impl Parser {
    /// The parser's well-formedness: a sound scanner, sound arenas, scope
    /// handles inside the scope arena, label targets inside the
    /// identifier arena, and — the key to the recursion bound — a current
    /// token that is only the end-of-input token when the scanner has
    /// nothing more to hand out.
    pub open spec fn wf(self) -> bool {
        &&& self.scanner.wf()
        &&& objects_wf(self.objects)
        &&& (self.top_scope matches Some(s) ==> s < self.objects.scopes@.len())
        &&& (self.label_scope matches Some(s) ==> s < self.objects.scopes@.len())
        &&& (self.pkg_scope matches Some(s) ==> s < self.objects.scopes@.len())
        &&& (forall|i: int, j: int|
            0 <= i < self.target_stack@.len() && 0 <= j < self.target_stack@[i]@.len()
                ==> (#[trigger] self.target_stack@[i]@[j]) < self.objects.idents@.len())
        &&& (!(self.token is EOF) <==> self.scanner.idx < self.scanner.tokens@.len())
    }

    /// How many tokens are still ahead of the cursor.
    pub open spec fn rem(self) -> int {
        self.scanner.rem()
    }

    /// The frame a production preserves: arenas only grow, the scope
    /// chain handles and the statement context are left alone, and no
    /// existing scope is re-parented.
    pub open spec fn prod_frame(a: Parser, b: Parser) -> bool {
        &&& objs_grow(a.objects, b.objects)
        &&& b.top_scope == a.top_scope
        &&& b.label_scope == a.label_scope
        &&& b.in_rhs == a.in_rhs
        &&& b.target_stack@ == a.target_stack@
        &&& forall|j: int|
            0 <= j < a.objects.scopes@.len() ==> b.objects.scopes@[j].outer
                == a.objects.scopes@[j].outer
    }

    /// Everything but diagnostics and tracing is left alone.
    pub open spec fn same_core(a: Parser, b: Parser) -> bool {
        &&& a.objects == b.objects
        &&& a.scanner == b.scanner
        &&& a.pos == b.pos
        &&& a.token == b.token
        &&& a.in_rhs == b.in_rhs
        &&& a.expr_level == b.expr_level
        &&& a.sync_pos == b.sync_pos
        &&& a.sync_count == b.sync_count
        &&& a.pkg_scope == b.pkg_scope
        &&& a.top_scope == b.top_scope
        &&& a.label_scope == b.label_scope
        &&& a.unresolved == b.unresolved
        &&& a.imports == b.imports
        &&& a.target_stack == b.target_stack
    }

    pub fn new(file: File, src: &str, trace: bool) -> (r: Parser)
        requires
            file.lines@.len() > 0,
        ensures
            r.wf(),
            r.objects.idents@.len() == 0,
    {
        let err = ErrorList::new();
        let s = Scanner::new(file, src);
        Parser {
            objects: Objects::new(),
            scanner: s,
            errors: err,
            trace: trace,
            indent: 0,
            trace_log: Vec::new(),
            pos: 0,
            token: Token::ILLEGAL(String::new()),
            sync_pos: 0,
            sync_count: 0,
            expr_level: 0,
            in_rhs: false,
            pkg_scope: None,
            top_scope: None,
            unresolved: Vec::new(),
            imports: Vec::new(),
            label_scope: None,
            target_stack: Vec::new(),
        }
    }

    /// Opens a fresh innermost scope.
    pub fn open_scope(&mut self)
        requires
            old(self).wf(),
        ensures
            final(self).wf(),
            objs_grow(old(self).objects, final(self).objects),
            final(self).rem() == old(self).rem(),
            final(self).token == old(self).token,
            final(self).label_scope == old(self).label_scope,
            final(self).in_rhs == old(self).in_rhs,
            final(self).target_stack == old(self).target_stack,
            final(self).top_scope matches Some(sc) && sc == old(self).objects.scopes@.len()
                && final(self).objects.scopes@[sc as int].outer == old(self).top_scope,
            final(self).objects == (Objects {
                scopes: final(self).objects.scopes,
                ..old(self).objects
            }),
            final(self).objects.scopes@.len() == old(self).objects.scopes@.len() + 1,
            forall|j: int|
                0 <= j < old(self).objects.scopes@.len() ==> final(self).objects.scopes@[j]
                    == old(self).objects.scopes@[j],
    {
        let outer = self.top_scope.take();
        let idx = self.objects.scopes.len();
        self.objects.scopes.push(Scope::new(outer));
        self.top_scope = Some(idx);
        proof {
            assert forall|i: int|
                0 <= i < self.objects.scopes@.len() implies ((
            #[trigger] self.objects.scopes@[i]).outer matches Some(s) ==> s < i) by {
                if i < self.objects.scopes@.len() - 1 {
                    assert(self.objects.scopes@[i] == old(self).objects.scopes@[i]);
                }
            }
            assert forall|i: int, n: Seq<char>|
                0 <= i < self.objects.scopes@.len() implies ((
            #[trigger] self.objects.scopes@[i].entities.spec_get(n)) matches Some(e) ==> e
                < self.objects.entities@.len()) by {
                if i < self.objects.scopes@.len() - 1 {
                    assert(self.objects.scopes@[i] == old(self).objects.scopes@[i]);
                }
            }
        }
    }

    /// Closes the innermost scope.
    pub fn close_scope(&mut self)
        requires
            old(self).wf(),
            old(self).top_scope is Some,
        ensures
            final(self).wf(),
            final(self).objects == old(self).objects,
            final(self).rem() == old(self).rem(),
            final(self).token == old(self).token,
            final(self).label_scope == old(self).label_scope,
            final(self).in_rhs == old(self).in_rhs,
            final(self).target_stack == old(self).target_stack,
            final(self).top_scope == old(self).objects.scopes@[old(self).top_scope->Some_0 as int].outer,
    {
        let s = match self.top_scope.take() {
            Some(s) => s,
            None => vstd::pervasive::unreached(),
        };
        self.top_scope = self.objects.scopes[s].outer;
    }

    /// Opens a fresh label scope and a fresh slot of jump targets.
    pub fn open_label_scope(&mut self)
        requires
            old(self).wf(),
        ensures
            final(self).wf(),
            objs_grow(old(self).objects, final(self).objects),
            final(self).rem() == old(self).rem(),
            final(self).token == old(self).token,
            final(self).in_rhs == old(self).in_rhs,
            final(self).top_scope == old(self).top_scope,
            final(self).label_scope matches Some(ls) && ls == old(self).objects.scopes@.len()
                && final(self).objects.scopes@[ls as int].outer == old(self).label_scope,
            final(self).target_stack@.len() == old(self).target_stack@.len() + 1,
            final(self).target_stack@.drop_last() == old(self).target_stack@,
            final(self).objects == (Objects {
                scopes: final(self).objects.scopes,
                ..old(self).objects
            }),
            final(self).objects.scopes@.len() == old(self).objects.scopes@.len() + 1,
            forall|j: int|
                0 <= j < old(self).objects.scopes@.len() ==> final(self).objects.scopes@[j]
                    == old(self).objects.scopes@[j],
    {
        let outer = self.label_scope.take();
        let idx = self.objects.scopes.len();
        self.objects.scopes.push(Scope::new(outer));
        self.label_scope = Some(idx);
        self.target_stack.push(Vec::new());
        proof {
            assert forall|i: int|
                0 <= i < self.objects.scopes@.len() implies ((
            #[trigger] self.objects.scopes@[i]).outer matches Some(s) ==> s < i) by {
                if i < self.objects.scopes@.len() - 1 {
                    assert(self.objects.scopes@[i] == old(self).objects.scopes@[i]);
                }
            }
            assert forall|i: int, n: Seq<char>|
                0 <= i < self.objects.scopes@.len() implies ((
            #[trigger] self.objects.scopes@[i].entities.spec_get(n)) matches Some(e) ==> e
                < self.objects.entities@.len()) by {
                if i < self.objects.scopes@.len() - 1 {
                    assert(self.objects.scopes@[i] == old(self).objects.scopes@[i]);
                }
            }
            assert(forall|i: int, j: int|
                0 <= i < self.target_stack@.len() - 1 && 0 <= j < self.target_stack@[i]@.len()
                    ==> (#[trigger] self.target_stack@[i]@[j]) < self.objects.idents@.len());
        }
    }

    /// Closes the innermost label scope, reporting any collected jump
    /// target whose label was never declared in it.
    #[verifier::loop_isolation(false)]
    pub fn close_label_scope(&mut self)
        requires
            old(self).wf(),
            old(self).label_scope is Some,
            old(self).target_stack@.len() > 0,
        ensures
            final(self).wf(),
            final(self).objects == old(self).objects,
            final(self).rem() == old(self).rem(),
            final(self).token == old(self).token,
            final(self).in_rhs == old(self).in_rhs,
            final(self).top_scope == old(self).top_scope,
            final(self).label_scope == old(self).objects.scopes@[old(self).label_scope->Some_0 as int].outer,
            final(self).target_stack@ == old(self).target_stack@.drop_last(),
    {
        let scope_idx = match &self.label_scope {
            Some(s) => *s,
            None => vstd::pervasive::unreached(),
        };
        match self.target_stack.pop() {
            Some(v) => {
                let mut i: usize = 0;
                while i < v.len()
                    invariant
                        self.wf(),
                        forall|j: int| 0 <= j < v@.len() ==> (#[trigger] v@[j])
                            < self.objects.idents@.len(),
                        scope_idx < self.objects.scopes@.len(),
                        self.objects == old(self).objects,
                        self.rem() == old(self).rem(),
                        self.token == old(self).token,
                        self.label_scope == old(self).label_scope,
                        self.top_scope == old(self).top_scope,
                        self.in_rhs == old(self).in_rhs,
                        self.target_stack@ == old(self).target_stack@.drop_last(),
                        self.pos == old(self).pos,
                        0 <= i <= v@.len(),
                    decreases v@.len() - i,
                {
                    let ident_name = self.objects.idents[v[i]].name.clone();
                    let found = self.objects.scopes[scope_idx].look_up(ident_name.as_str());
                    if found.is_none() {
                        let mut msg = String::from_str("label ");
                        msg.append(ident_name.as_str());
                        msg.append(" undefined");
                        let p = self.pos;
                        self.error_string(p, msg);
                    }
                    i = i + 1;
                }
            },
            None => vstd::pervasive::unreached(),
        }
        let ls = match self.label_scope.take() {
            Some(s) => s,
            None => vstd::pervasive::unreached(),
        };
        self.label_scope = self.objects.scopes[ls].outer;
    }

    /// Records one diagnostic, leaving everything else alone.
    pub fn error_string(&mut self, pos: Pos, msg: String)
        requires
            old(self).wf(),
        ensures
            final(self).wf(),
            Parser::same_core(*old(self), *final(self)),
            final(self).errors.errs@.len() == old(self).errors.errs@.len() + 1,
    {
        let p = self.scanner.file().position(pos);
        self.errors.add(p, msg);
    }

    pub fn error(&mut self, pos: Pos, s: &str)
        requires
            old(self).wf(),
        ensures
            final(self).wf(),
            Parser::same_core(*old(self), *final(self)),
            final(self).errors.errs@.len() == old(self).errors.errs@.len() + 1,
    {
        self.error_string(pos, s.to_owned());
    }

    /// Records an "expected ..." diagnostic, adding what was found when
    /// the report points at the current token.
    pub fn error_expected(&mut self, pos: Pos, msg: &str)
        requires
            old(self).wf(),
        ensures
            final(self).wf(),
            Parser::same_core(*old(self), *final(self)),
            final(self).errors.errs@.len() == old(self).errors.errs@.len() + 1,
    {
        let mut mstr = String::from_str("expected ");
        mstr.append(msg);
        if pos == self.pos {
            match &self.token {
                Token::SEMICOLON(written) => {
                    if !*written {
                        mstr.append(", found newline");
                    }
                },
                _ => {
                    mstr.append(", found ");
                    let t = self.token.text();
                    mstr.append(t.as_str());
                },
            }
        }
        self.error_string(pos, mstr);
    }

    /// Appends a line to the trace log when tracing is on.
    fn print_trace(&mut self, msg: &str)
        requires
            old(self).wf(),
        ensures
            final(self).wf(),
            Parser::same_core(*old(self), *final(self)),
            final(self).errors == old(self).errors,
    {
        let p = self.scanner.file().position(self.pos);
        let mut line = usize_to_string(p.line);
        line.append(":");
        let col = usize_to_string(p.column);
        line.append(col.as_str());
        line.append(":");
        let mut i: i64 = 0;
        while i < self.indent
            invariant
                true,
            decreases self.indent - i,
        {
            line.append("..");
            i = i + 1;
        }
        line.append(msg);
        self.trace_log.push(line);
    }

    pub fn trace_begin(&mut self, msg: &str)
        requires
            old(self).wf(),
        ensures
            final(self).wf(),
            Parser::same_core(*old(self), *final(self)),
            final(self).errors == old(self).errors,
    {
        if self.trace {
            let mut trace_str = msg.to_owned();
            trace_str.append("(");
            self.print_trace(trace_str.as_str());
            if self.indent < 1000000 {
                self.indent = self.indent + 1;
            }
        }
    }

    pub fn trace_end(&mut self)
        requires
            old(self).wf(),
        ensures
            final(self).wf(),
            Parser::same_core(*old(self), *final(self)),
            final(self).errors == old(self).errors,
    {
        if self.trace {
            if self.indent > -1000000 {
                self.indent = self.indent - 1;
            }
            self.print_trace(")");
        }
    }

    /// Pulls the next token; comments never reach the parser, the scanner
    /// already dropped them.  Consumes one token unless the end of input
    /// was already reached.
    pub fn next(&mut self)
        requires
            old(self).wf(),
        ensures
            final(self).wf(),
            final(self).objects == old(self).objects,
            final(self).rem() <= old(self).rem(),
            !(old(self).token is EOF) ==> final(self).rem() < old(self).rem(),
            final(self).top_scope == old(self).top_scope,
            final(self).label_scope == old(self).label_scope,
            final(self).target_stack == old(self).target_stack,
            final(self).errors == old(self).errors,
            final(self).in_rhs == old(self).in_rhs,
    {
        if self.pos > 0 && self.trace {
            let mut m = String::from_str("next: ");
            let t = self.token.text();
            m.append(t.as_str());
            self.print_trace(m.as_str());
        }
        let ghost idx0 = self.scanner.idx;
        let token = self.scanner.scan();
        proof {
            if idx0 < self.scanner.tokens@.len() {
                if token is EOF {
                    assert(self.scanner.tokens@.last() is EOF);
                    assert(idx0 == self.scanner.tokens@.len() - 1) by {
                        if idx0 < self.scanner.tokens@.len() - 1 {
                            assert(!(self.scanner.tokens@[idx0 as int] is EOF));
                        }
                    }
                }
            }
        }
        self.token = token;
        self.pos = self.scanner.pos();
    }

    /// Consumes the current token after checking it is the expected one;
    /// a mismatch is reported but the cursor still moves.
    pub fn expect(&mut self, token: &Token) -> (pos: Pos)
        requires
            old(self).wf(),
        ensures
            final(self).wf(),
            final(self).objects == old(self).objects,
            final(self).rem() <= old(self).rem(),
            !(old(self).token is EOF) ==> final(self).rem() < old(self).rem(),
            final(self).top_scope == old(self).top_scope,
            final(self).label_scope == old(self).label_scope,
            final(self).target_stack == old(self).target_stack,
            final(self).in_rhs == old(self).in_rhs,
            pos == old(self).pos,
    {
        let pos = self.pos;
        if !(self.token == *token) {
            let mut m = String::from_str("'");
            let t = token.text();
            m.append(t.as_str());
            m.append("'");
            self.error_expected(pos, m.as_str());
        }
        self.next();
        pos
    }

    /// Like `expect`, with a clearer report for a missing comma before a
    /// newline.
    pub fn expect_closing(&mut self, token: &Token, context: &str) -> (pos: Pos)
        requires
            old(self).wf(),
        ensures
            final(self).wf(),
            final(self).objects == old(self).objects,
            final(self).rem() <= old(self).rem(),
            final(self).top_scope == old(self).top_scope,
            final(self).label_scope == old(self).label_scope,
            final(self).target_stack == old(self).target_stack,
            final(self).in_rhs == old(self).in_rhs,
    {
        if let Token::SEMICOLON(written) = &self.token {
            if !*written && self.token.same_kind(token) {
                let mut msg = String::from_str("missing ',' before newline in ");
                msg.append(context);
                let p = self.pos;
                self.error_string(p, msg);
                self.next();
            }
        }
        self.expect(token)
    }

    /// Consumes a statement-ending semicolon; it is optional before a
    /// closing bracket, and error recovery skips to a statement start.
    pub fn expect_semi(&mut self)
        requires
            old(self).wf(),
        ensures
            final(self).wf(),
            final(self).objects == old(self).objects,
            final(self).rem() <= old(self).rem(),
            final(self).top_scope == old(self).top_scope,
            final(self).label_scope == old(self).label_scope,
            final(self).target_stack == old(self).target_stack,
            final(self).in_rhs == old(self).in_rhs,
    {
        match &self.token {
            Token::RPAREN | Token::RBRACE => {},
            Token::SEMICOLON(_) => {
                self.next();
            },
            _ => {
                if let Token::COMMA = &self.token {
                    // permit a ',' instead of a ';' but complain
                    let p = self.pos;
                    self.error_expected(p, "';'");
                    self.next();
                }
                let p = self.pos;
                self.error_expected(p, "';'");
                self.advance();
            },
        }
    }

    /// Whether the list goes on: a comma does, and a missing comma right
    /// before the closing token is reported and tolerated.
    pub fn at_comma(&mut self, context: &str, follow: &Token) -> (r: bool)
        requires
            old(self).wf(),
        ensures
            final(self).wf(),
            Parser::same_core(*old(self), *final(self)),
    {
        if let Token::COMMA = &self.token {
            true
        } else if self.token == *follow {
            let mut msg = String::from_str("missing ','");
            if let Token::SEMICOLON(written) = &self.token {
                if !*written {
                    msg.append(" before newline");
                }
            }
            msg.append(" in ");
            msg.append(context);
            let p = self.pos;
            self.error_string(p, msg);
            true
        } else {
            false
        }
    }

    /// Consumes tokens until a statement start or the end of input, for
    /// error recovery, with a cap that rules out an endless recovery
    /// loop on the same position.
    #[verifier::loop_isolation(false)]
    pub fn advance(&mut self)
        requires
            old(self).wf(),
        ensures
            final(self).wf(),
            final(self).objects == old(self).objects,
            final(self).rem() <= old(self).rem(),
            !(old(self).token is EOF) ==> final(self).rem() < old(self).rem(),
            final(self).top_scope == old(self).top_scope,
            final(self).label_scope == old(self).label_scope,
            final(self).target_stack == old(self).target_stack,
            final(self).in_rhs == old(self).in_rhs,
    {
        let ghost mut progressed = false;
        while !(matches!(self.token, Token::EOF))
            invariant
                self.wf(),
                self.objects == old(self).objects,
                self.rem() <= old(self).rem(),
                progressed ==> self.rem() < old(self).rem(),
                !progressed ==> self.rem() == old(self).rem() && self.token == old(self).token,
                self.top_scope == old(self).top_scope,
                self.label_scope == old(self).label_scope,
                self.target_stack == old(self).target_stack,
                self.in_rhs == old(self).in_rhs,
            decreases self.rem(),
        {
            proof {
                progressed = true;
            }
            self.next();
            if self.token.is_stmt_start() {
                if self.pos == self.sync_pos && self.sync_count < 10 {
                    self.sync_count = self.sync_count + 1;
                    break ;
                }
                if self.pos > self.sync_pos {
                    self.sync_pos = self.pos;
                    self.sync_count = 0;
                    break ;
                }
            }
        }
    }

    /// A position clamped into the file, for artificial end positions.
    pub fn safe_pos(&self, pos: Pos) -> (r: Pos) {
        let base = self.scanner.file().base();
        let size = self.scanner.file().size();
        let max = if base <= usize::MAX - size {
            base + size
        } else {
            usize::MAX
        };
        if pos > max {
            max
        } else {
            pos
        }
    }

    /// The operator the current token reads as — an assignment reads as
    /// equality inside a right-hand side — and its precedence.  A
    /// positive precedence means the current token is a real operator,
    /// never the end of input.
    pub fn token_prec(&self) -> (r: (Token, usize))
        ensures
            r.1 > 0 ==> !(self.token is EOF),
            r.1 <= 5,
    {
        let token = if self.in_rhs && matches!(self.token, Token::ASSIGN) {
            Token::EQL
        } else {
            self.token.clone()
        };
        let pre = token.precedence();
        (token, pre)
    }
}

/// A copy of a run of indices.
#[verifier::loop_isolation(false)]
fn copy_usizes(v: &Vec<usize>) -> (r: Vec<usize>)
    ensures
        r@ == v@,
{
    let mut r: Vec<usize> = Vec::new();
    let mut i: usize = 0;
    while i < v.len()
        invariant
            0 <= i <= v@.len(),
            r@ == v@.subrange(0, i as int),
        decreases v@.len() - i,
    {
        r.push(v[i]);
        proof {
            assert(r@ =~= v@.subrange(0, i + 1));
        }
        i = i + 1;
    }
    proof {
        assert(v@.subrange(0, v@.len() as int) =~= v@);
    }
    r
}

impl Parser {
    pub fn file(&self) -> (r: &File)
        ensures
            r == &self.scanner.file,
    {
        self.scanner.file()
    }

    pub fn file_mut(&mut self) -> (r: &mut File)
        ensures
            final(self).scanner.file == *final(r),
            final(self).scanner.tokens@ == old(self).scanner.tokens@,
            final(self).scanner.poss@ == old(self).scanner.poss@,
            final(self).scanner.idx == old(self).scanner.idx,
            final(self).objects == old(self).objects,
            final(self).token == old(self).token,
    {
        self.scanner.file_mut()
    }

    /// Declares the names a declaration record carries into the given
    /// scope: one fresh entity per name, bound to its identifier; each
    /// non-blank name is bound in the scope, a later duplicate shadowing
    /// an earlier one; a name already bound there is reported as
    /// redeclared.  The blank name declares nothing into the scope.
    #[verifier::loop_isolation(false)]
    #[verifier::rlimit(100)]
    pub fn declare(
        &mut self,
        decl: DeclObj,
        data: EntityData,
        kind: EntityKind,
        scope_ind: &ScopeIndex,
    )
        requires
            old(self).wf(),
            *scope_ind < old(self).objects.scopes@.len(),
            crate::ast::decl_ok(decl, old(self).objects),
            !(decl is AssignStmt),
        ensures
            final(self).wf(),
            objs_grow(old(self).objects, final(self).objects),
            final(self).rem() == old(self).rem(),
            final(self).token == old(self).token,
            final(self).top_scope == old(self).top_scope,
            final(self).label_scope == old(self).label_scope,
            final(self).in_rhs == old(self).in_rhs,
            final(self).objects.idents@.len() == old(self).objects.idents@.len(),
            final(self).target_stack == old(self).target_stack,
            final(self).unresolved@ == old(self).unresolved@,
            final(self).objects.scopes@.len() == old(self).objects.scopes@.len(),
            forall|j: int|
                0 <= j < old(self).objects.scopes@.len() && j != *scope_ind as int ==> final(self).objects.scopes@[j]
                    == old(self).objects.scopes@[j],
            final(self).objects.scopes@[*scope_ind as int].outer == old(self).objects.scopes@[*scope_ind as int].outer,
            ({
                let o0 = old(self).objects;
                let ns = crate::ast::decl_names(decl, o0);
                let base = o0.scopes@[*scope_ind as int].entities;
                let e0 = o0.entities@.len() as int;
                &&& final(self).objects.entities@.len() == e0 + ns.len()
                &&& (forall|j: int| 0 <= j < e0 ==> final(self).objects.entities@[j] == o0.entities@[j])
                &&& (forall|k: int|
                    0 <= k < ns.len() ==> (#[trigger] final(self).objects.entities@[e0 + k]).kind
                        == kind && final(self).objects.entities@[e0 + k].decl == decl && final(self).objects.entities@[e0
                        + k].data == data && final(self).objects.entities@[e0 + k].name@
                        == crate::ast::name_of(o0, ns[k]))
                &&& (forall|k: int|
                    0 <= k < ns.len() && (forall|k2: int| k < k2 < ns.len() ==> ns[k2] != ns[k])
                        ==> final(self).objects.idents@[ns[k] as int].entity == IdentEntity::Entity(
                        (e0 + k) as crate::ast::EntityIndex,
                    ))
                &&& (forall|j: int|
                    0 <= j < o0.idents@.len() && (forall|k: int| 0 <= k < ns.len() ==> ns[k] != j)
                        ==> final(self).objects.idents@[j] == o0.idents@[j])
                &&& (forall|j: int|
                    0 <= j < o0.idents@.len() ==> (#[trigger] final(self).objects.idents@[j]).name@
                        == o0.idents@[j].name@ && final(self).objects.idents@[j].pos
                        == o0.idents@[j].pos)
                &&& (forall|nm: Seq<char>|
                    nm != "_"@ ==> #[trigger] final(self).objects.scopes@[*scope_ind as int].entities.spec_get(
                        nm,
                    ) == (if crate::ast::last_name_match(o0, ns, nm, ns.len() as int) >= 0 {
                        Some(
                            (e0 + crate::ast::last_name_match(
                                o0,
                                ns,
                                nm,
                                ns.len() as int,
                            )) as crate::ast::EntityIndex,
                        )
                    } else {
                        base.spec_get(nm)
                    }))
                &&& final(self).errors.errs@.len() == old(self).errors.errs@.len()
                    + crate::ast::redecl_count(o0, ns, base, ns.len() as int)
            }),
    {
        let ghost o0 = self.objects;
        let ghost si = *scope_ind as int;
        let names: Vec<IdentIndex> = match decl {
            DeclObj::Field(id) => copy_usizes(&self.objects.fields[id].names),
            DeclObj::Spec(id) => {
                match &self.objects.specs[id] {
                    crate::ast::Spec::Value(vs) => copy_usizes(vs),
                    crate::ast::Spec::Type(ts) => {
                        let mut v: Vec<usize> = Vec::new();
                        v.push(*ts);
                        v
                    },
                    crate::ast::Spec::Import(_) => Vec::new(),
                }
            },
            DeclObj::FuncDecl(i) => {
                let mut v: Vec<usize> = Vec::new();
                v.push(self.objects.fdecls[i].name);
                v
            },
            DeclObj::LabeledStmt(i) => {
                let mut v: Vec<usize> = Vec::new();
                v.push(self.objects.l_stmts[i].label);
                v
            },
            DeclObj::AssignStmt(_) => vstd::pervasive::unreached(),
            DeclObj::NoDecl => Vec::new(),
        };
        proof {
            assert(names@ =~= crate::ast::decl_names(decl, o0));
        }
        let ghost ns = names@;
        let ghost base = o0.scopes@[si].entities;
        let ghost e0 = o0.entities@.len() as int;
        let blank = String::from_str("_");
        let mut i: usize = 0;
        while i < names.len()
            invariant
                self.wf(),
                ns == names@,
                forall|j: int| 0 <= j < ns.len() ==> (#[trigger] ns[j]) < self.objects.idents@.len(),
                *scope_ind < self.objects.scopes@.len(),
                crate::ast::decl_ok(decl, self.objects),
                objs_grow(o0, self.objects),
                self.rem() == old(self).rem(),
                self.token == old(self).token,
                self.top_scope == old(self).top_scope,
                self.label_scope == old(self).label_scope,
                self.in_rhs == old(self).in_rhs,
                self.objects.idents@.len() == o0.idents@.len(),
                self.target_stack == old(self).target_stack,
                self.unresolved@ == old(self).unresolved@,
                self.objects.scopes@.len() == o0.scopes@.len(),
                forall|j: int|
                    0 <= j < o0.scopes@.len() && j != si ==> self.objects.scopes@[j]
                        == o0.scopes@[j],
                self.objects.scopes@[si].outer == o0.scopes@[si].outer,
                self.objects.entities@.len() == e0 + i,
                forall|j: int| 0 <= j < e0 ==> self.objects.entities@[j] == o0.entities@[j],
                forall|k: int|
                    0 <= k < i ==> (#[trigger] self.objects.entities@[e0 + k]).kind == kind
                        && self.objects.entities@[e0 + k].decl == decl
                        && self.objects.entities@[e0 + k].data == data
                        && self.objects.entities@[e0 + k].name@ == crate::ast::name_of(o0, ns[k]),
                forall|k: int|
                    0 <= k < i && (forall|k2: int| k < k2 < i ==> ns[k2] != ns[k])
                        ==> self.objects.idents@[ns[k] as int].entity == IdentEntity::Entity(
                        (e0 + k) as crate::ast::EntityIndex,
                    ),
                forall|j: int|
                    0 <= j < o0.idents@.len() && (forall|k: int| 0 <= k < i ==> ns[k] != j)
                        ==> self.objects.idents@[j] == o0.idents@[j],
                forall|j: int|
                    0 <= j < o0.idents@.len() ==> (#[trigger] self.objects.idents@[j]).name@
                        == o0.idents@[j].name@ && self.objects.idents@[j].pos == o0.idents@[j].pos,
                forall|nm: Seq<char>|
                    nm != "_"@ ==> #[trigger] self.objects.scopes@[si].entities.spec_get(nm) == (
                    if crate::ast::last_name_match(o0, ns, nm, i as int) >= 0 {
                        Some(
                            (e0 + crate::ast::last_name_match(
                                o0,
                                ns,
                                nm,
                                i as int,
                            )) as crate::ast::EntityIndex,
                        )
                    } else {
                        base.spec_get(nm)
                    }),
                self.errors.errs@.len() == old(self).errors.errs@.len() + crate::ast::redecl_count(
                    o0,
                    ns,
                    base,
                    i as int,
                ),
                blank@ == "_"@,
                0 <= i <= ns.len(),
            decreases ns.len() - i,
        {
            let id = names[i];
            let name = self.objects.idents[id].name.clone();
            proof {
                assert(name@ == crate::ast::name_of(o0, ns[i as int]));
            }
            let entity = self.objects.push_entity(
                Entity { kind: kind, name: name.clone(), decl: decl, data: data },
            );
            self.objects.set_ident_entity(id, IdentEntity::Entity(entity));
            if !(name == blank) {
                let ghost pre_scope = self.objects.scopes@[si].entities;
                let prev = self.objects.scope_insert(*scope_ind, name.clone(), entity);
                proof {
                    assert(crate::ast::last_name_match(o0, ns, name@, i + 1) == i as int);
                    assert(prev is Some <==> crate::ast::is_redecl(o0, ns, base, i as int));
                    assert forall|nm: Seq<char>| nm != "_"@ && nm != name@ implies
                        crate::ast::last_name_match(o0, ns, nm, i + 1)
                        == crate::ast::last_name_match(o0, ns, nm, i as int) by {
                    }
                }
                match prev {
                    Some(prev_decl) => {
                        let p = self.objects.entity_pos(prev_decl);
                        let ppos = self.scanner.file().position(p);
                        let mut buf = name.clone();
                        buf.append(" redeclared in this block, previous declaration at ");
                        let lstr = usize_to_string(ppos.line);
                        buf.append(lstr.as_str());
                        buf.append(":");
                        let cstr = usize_to_string(ppos.column);
                        buf.append(cstr.as_str());
                        let ipos = self.objects.idents[id].pos;
                        self.error_string(ipos, buf);
                    },
                    None => {},
                }
            } else {
                proof {
                    assert(!crate::ast::is_redecl(o0, ns, base, i as int));
                    assert forall|nm: Seq<char>| nm != "_"@ implies crate::ast::last_name_match(
                        o0,
                        ns,
                        nm,
                        i + 1,
                    ) == crate::ast::last_name_match(o0, ns, nm, i as int) by {
                    }
                }
            }
            i = i + 1;
        }
    }

    /// Attempts to link an identifier use to the entity it denotes by
    /// walking the scope chain outward; an identifier that resolves
    /// nowhere is collected as unresolved when asked, so a later pass can
    /// link it against the package or universe scope.  An already linked
    /// identifier, and the blank identifier, are left alone.
    #[verifier::loop_isolation(false)]
    pub fn try_resolve(&mut self, x: &Expr, collect_unresolved: bool)
        requires
            old(self).wf(),
            expr_ok(*x, old(self).objects.idents@.len() as int),
        ensures
            final(self).wf(),
            objs_grow(old(self).objects, final(self).objects),
            final(self).rem() == old(self).rem(),
            final(self).token == old(self).token,
            final(self).top_scope == old(self).top_scope,
            final(self).label_scope == old(self).label_scope,
            final(self).in_rhs == old(self).in_rhs,
            final(self).objects.idents@.len() == old(self).objects.idents@.len(),
            final(self).target_stack == old(self).target_stack,
            final(self).objects.scopes@ == old(self).objects.scopes@,
            !(*x is Ident) ==> final(self).objects == old(self).objects && final(self).unresolved@
                == old(self).unresolved@,
            *x is Ident ==> ({
                let i = crate::ast::expr_ident_idx(*x);
                let id0 = old(self).objects.idents@[i];
                let res = crate::ast::chain_lookup(old(self).objects, old(self).top_scope, id0.name@);
                &&& (!(id0.entity is NoEntity) || id0.name@ == "_"@ ==> final(self).objects == old(self).objects && final(self).unresolved@ == old(self).unresolved@)
                &&& (id0.entity is NoEntity && id0.name@ != "_"@ ==> ({
                    &&& (forall|j: int|
                        0 <= j < old(self).objects.idents@.len() && j != i ==> final(self).objects.idents@[j] == old(self).objects.idents@[j])
                    &&& final(self).objects.idents@[i].name@ == id0.name@
                    &&& final(self).objects.idents@[i].pos == id0.pos
                    &&& final(self).objects == (Objects {
                        idents: final(self).objects.idents,
                        ..old(self).objects
                    })
                    &&& (res matches Some(e) ==> final(self).objects.idents@[i].entity
                        == IdentEntity::Entity(e) && final(self).unresolved@ == old(self).unresolved@)
                    &&& (res is None && collect_unresolved ==> final(self).objects.idents@[i].entity
                        == IdentEntity::Sentinel && final(self).unresolved@ == old(self).unresolved@.push(i as IdentIndex))
                    &&& (res is None && !collect_unresolved ==> final(self).objects == old(self).objects && final(self).unresolved@ == old(self).unresolved@)
                }))
            }),
    {
        if let Expr::Ident(i) = x {
            let idx: IdentIndex = **i;
            if !self.objects.idents[idx].entity.is_none() {
                // already declared or resolved
                return ;
            }
            let blank = String::from_str("_");
            if self.objects.idents[idx].name == blank {
                return ;
            }
            let name = self.objects.idents[idx].name.clone();
            let mut s: Option<ScopeIndex> = self.top_scope;
            loop
                invariant
                    self.wf(),
                    s matches Some(si) ==> si < self.objects.scopes@.len(),
                    self.objects == old(self).objects,
                    self.rem() == old(self).rem(),
                    self.token == old(self).token,
                    self.top_scope == old(self).top_scope,
                    self.label_scope == old(self).label_scope,
                    self.in_rhs == old(self).in_rhs,
                    self.target_stack == old(self).target_stack,
                    self.unresolved@ == old(self).unresolved@,
                    idx < self.objects.idents@.len(),
                    name@ == old(self).objects.idents@[idx as int].name@,
                    crate::ast::chain_lookup(old(self).objects, old(self).top_scope, name@)
                        == crate::ast::chain_lookup(old(self).objects, s, name@),
                decreases (match s {
                    Some(si) => si + 1,
                    None => 0,
                }),
            {
                match s {
                    Some(sidx) => {
                        let found = self.objects.scopes[sidx].look_up(name.as_str());
                        if let Some(entity) = found {
                            self.objects.set_ident_entity(idx, IdentEntity::Entity(entity));
                            return ;
                        }
                        s = self.objects.scopes[sidx].outer;
                    },
                    None => {
                        break ;
                    },
                }
            }
            // all local scopes are known, so the identifier must live in
            // the file, package or universe scope: collect it for a later
            // resolution pass
            if collect_unresolved {
                self.objects.set_ident_entity(idx, IdentEntity::Sentinel);
                self.unresolved.push(idx);
            }
        }
    }

    pub fn resolve(&mut self, x: &Expr)
        requires
            old(self).wf(),
            expr_ok(*x, old(self).objects.idents@.len() as int),
        ensures
            final(self).wf(),
            objs_grow(old(self).objects, final(self).objects),
            final(self).rem() == old(self).rem(),
            final(self).token == old(self).token,
            final(self).top_scope == old(self).top_scope,
            final(self).label_scope == old(self).label_scope,
            final(self).in_rhs == old(self).in_rhs,
            final(self).objects.idents@.len() == old(self).objects.idents@.len(),
            final(self).target_stack == old(self).target_stack,
            final(self).objects.scopes@ == old(self).objects.scopes@,
    {
        self.try_resolve(x, true)
    }

    /// Parses one identifier; anything else is reported and read as the
    /// blank identifier.
    pub fn parse_ident(&mut self) -> (r: IdentIndex)
        requires
            old(self).wf(),
        ensures
            final(self).wf(),
            objs_grow(old(self).objects, final(self).objects),
            final(self).rem() <= old(self).rem(),
            old(self).token is IDENT ==> final(self).rem() < old(self).rem(),
            final(self).top_scope == old(self).top_scope,
            final(self).label_scope == old(self).label_scope,
            final(self).in_rhs == old(self).in_rhs,
            final(self).target_stack == old(self).target_stack,
            final(self).objects.scopes@ == old(self).objects.scopes@,
            !(old(self).token is EOF) ==> final(self).rem() < old(self).rem(),
            r < final(self).objects.idents@.len(),
    {
        let pos = self.pos;
        let mut name = String::from_str("_");
        let is_ident = matches!(self.token, Token::IDENT(_));
        if is_ident {
            if let Token::IDENT(lit) = &self.token {
                name = lit.clone();
            }
            self.next();
        } else {
            self.expect(&Token::IDENT(String::new()));
        }
        self.objects.push_ident(pos, name)
    }

    /// Parses a comma-separated identifier list.
    #[verifier::loop_isolation(false)]
    pub fn parse_ident_list(&mut self) -> (r: Vec<IdentIndex>)
        requires
            old(self).wf(),
        ensures
            final(self).wf(),
            objs_grow(old(self).objects, final(self).objects),
            final(self).rem() <= old(self).rem(),
            final(self).top_scope == old(self).top_scope,
            final(self).label_scope == old(self).label_scope,
            final(self).in_rhs == old(self).in_rhs,
            final(self).target_stack == old(self).target_stack,
            final(self).objects.scopes@ == old(self).objects.scopes@,
            !(old(self).token is EOF) ==> final(self).rem() < old(self).rem(),
            forall|j: int| 0 <= j < r@.len() ==> (#[trigger] r@[j])
                < final(self).objects.idents@.len(),
    {
        self.trace_begin("IdentList");
        let mut list: Vec<IdentIndex> = Vec::new();
        let first = self.parse_ident();
        list.push(first);
        while matches!(self.token, Token::COMMA)
            invariant
                self.wf(),
                objs_grow(old(self).objects, self.objects),
                self.rem() <= old(self).rem(),
                self.top_scope == old(self).top_scope,
                self.label_scope == old(self).label_scope,
                self.in_rhs == old(self).in_rhs,
                self.target_stack == old(self).target_stack,
                self.objects.scopes@ == old(self).objects.scopes@,
                !(old(self).token is EOF) ==> self.rem() < old(self).rem(),
                forall|j: int| 0 <= j < list@.len() ==> (#[trigger] list@[j])
                    < self.objects.idents@.len(),
            decreases self.rem(),
        {
            self.next();
            let id = self.parse_ident();
            list.push(id);
        }
        self.trace_end();
        list
    }

    /// Reads a list of expressions as the identifiers they ought to be;
    /// anything else is reported and read as the blank identifier.
    #[verifier::loop_isolation(false)]
    pub fn make_ident_list(&mut self, exprs: &mut Vec<Expr>) -> (r: Vec<IdentIndex>)
        requires
            old(self).wf(),
            forall|j: int|
                0 <= j < old(exprs)@.len() ==> expr_ok(
                    #[trigger] old(exprs)@[j],
                    old(self).objects.idents@.len() as int,
                ),
        ensures
            final(self).wf(),
            final(exprs)@ == old(exprs)@,
            objs_grow(old(self).objects, final(self).objects),
            final(self).rem() == old(self).rem(),
            final(self).token == old(self).token,
            final(self).top_scope == old(self).top_scope,
            final(self).label_scope == old(self).label_scope,
            final(self).in_rhs == old(self).in_rhs,
            final(self).target_stack == old(self).target_stack,
            final(self).objects.scopes@ == old(self).objects.scopes@,
            forall|j: int| 0 <= j < r@.len() ==> (#[trigger] r@[j])
                < final(self).objects.idents@.len(),
    {
        let mut r: Vec<IdentIndex> = Vec::new();
        let mut i: usize = 0;
        while i < exprs.len()
            invariant
                self.wf(),
                exprs@ == old(exprs)@,
                forall|j: int|
                    0 <= j < exprs@.len() ==> expr_ok(
                        #[trigger] exprs@[j],
                        old(self).objects.idents@.len() as int,
                    ),
                objs_grow(old(self).objects, self.objects),
                self.rem() == old(self).rem(),
                self.token == old(self).token,
                self.top_scope == old(self).top_scope,
                self.label_scope == old(self).label_scope,
                self.in_rhs == old(self).in_rhs,
                self.target_stack == old(self).target_stack,
                self.objects.scopes@ == old(self).objects.scopes@,
                forall|j: int| 0 <= j < r@.len() ==> (#[trigger] r@[j])
                    < self.objects.idents@.len(),
                0 <= i <= exprs@.len(),
            decreases exprs@.len() - i,
        {
            proof {
                lemma_expr_ok_grow(
                    exprs@[i as int],
                    old(self).objects.idents@.len() as int,
                    self.objects.idents@.len() as int,
                );
            }
            let idx = match &exprs[i] {
                Expr::Ident(ident) => **ident,
                x => {
                    let pos = x.pos(&self.objects);
                    if let Expr::Bad(_) = x {
                        // only report an error if it is a new one
                        self.error_expected(pos, "identifier");
                    }
                    self.objects.push_ident(pos, String::from_str("_"))
                },
            };
            r.push(idx);
            i = i + 1;
        }
        r
    }

    /// Checks that an expression is a value, not a type; a type is
    /// reported and read as a bad expression.
    pub fn check_expr(&mut self, x: Expr) -> (r: Expr)
        requires
            old(self).wf(),
            expr_ok(x, old(self).objects.idents@.len() as int),
        ensures
            final(self).wf(),
            Parser::same_core(*old(self), *final(self)),
            expr_ok(r, final(self).objects.idents@.len() as int),
    {
        let inner = Parser::unparen(&x);
        let is_value = match inner {
            Expr::Bad(_) => true,
            Expr::Ident(_) => true,
            Expr::BasicLit(_) => true,
            Expr::FuncLit(_) => true,
            Expr::CompositeLit(_) => true,
            Expr::Selector(_) => true,
            Expr::Index(_) => true,
            Expr::Slice(_) => true,
            // a type assertion with no stated type is a type-switch guard;
            // be lenient here and let the type checker reject it elsewhere
            Expr::TypeAssert(_) => true,
            Expr::Call(_) => true,
            Expr::Star(_) => true,
            Expr::Unary(_) => true,
            Expr::Binary(_) => true,
            _ => false,
        };
        if is_value {
            x
        } else {
            let pos = x.pos(&self.objects);
            let pend = x.end(&self.objects);
            let e = self.safe_pos(pend);
            self.error_expected(self.pos, "expression");
            Expr::new_bad(pos, e)
        }
    }

    /// Whether an expression is a possibly qualified type name.
    pub fn is_type_name(x: &Expr) -> (r: bool) {
        match x {
            Expr::Bad(_) | Expr::Ident(_) => true,
            Expr::Selector(s) => matches!(s.expr, Expr::Ident(_)),
            _ => false,
        }
    }

    /// Whether an expression may open a composite literal.
    pub fn is_literal_type(x: &Expr) -> (r: bool) {
        match x {
            Expr::Bad(_) | Expr::Ident(_) | Expr::Array(_) | Expr::Struct(_) | Expr::GosMap(_) =>
                true,
            Expr::Selector(s) => matches!(s.expr, Expr::Ident(_)),
            _ => false,
        }
    }

    /// The expression under one leading dereference, if any.
    pub fn deref(x: &Expr) -> (r: &Expr)
        ensures
            forall|n: int| expr_ok(*x, n) ==> expr_ok(*r, n),
    {
        if let Expr::Star(s) = x {
            &s.expr
        } else {
            x
        }
    }

    /// The expression under any nesting of parentheses.
    pub fn unparen(x: &Expr) -> (r: &Expr)
        ensures
            !(*r is Paren),
            forall|n: int| expr_ok(*x, n) ==> expr_ok(*r, n),
        decreases *x,
    {
        if let Expr::Paren(p) = x {
            Parser::unparen(&p.expr)
        } else {
            x
        }
    }

    /// Checks that an expression is a value or a type, but not a raw type
    /// such as an array type with an unspecified length.
    pub fn check_expr_or_type(&mut self, x: Expr) -> (r: Expr)
        requires
            old(self).wf(),
            expr_ok(x, old(self).objects.idents@.len() as int),
        ensures
            final(self).wf(),
            Parser::same_core(*old(self), *final(self)),
            expr_ok(r, final(self).objects.idents@.len() as int),
    {
        let unparenx = Parser::unparen(&x);
        match unparenx {
            Expr::Array(array) => {
                if let Some(ellipsis) = &array.len {
                    let epos = ellipsis.pos(&self.objects);
                    let upos = unparenx.pos(&self.objects);
                    let uend = unparenx.end(&self.objects);
                    let safe_end = self.safe_pos(uend);
                    self.error(epos, "expected array length, found '...'");
                    return Expr::new_bad(upos, safe_end);
                }
            },
            _ => {},
        }
        x
    }
}

impl Parser {
    /// Creates a scope under the given parent without entering it.
    fn new_scope_with(&mut self, outer: Option<ScopeIndex>) -> (r: ScopeIndex)
        requires
            old(self).wf(),
            outer matches Some(o) ==> o < old(self).objects.scopes@.len(),
        ensures
            final(self).wf(),
            Parser::prod_frame(*old(self), *final(self)),
            final(self).rem() == old(self).rem(),
            final(self).token == old(self).token,
            final(self).objects == (Objects {
                scopes: final(self).objects.scopes,
                ..old(self).objects
            }),
            r < final(self).objects.scopes@.len(),
            r == old(self).objects.scopes@.len(),
            final(self).objects.scopes@[r as int].outer == outer,
            forall|j: int|
                0 <= j < old(self).objects.scopes@.len() ==> final(self).objects.scopes@[j]
                    == old(self).objects.scopes@[j],
    {
        let idx = self.objects.scopes.len();
        self.objects.scopes.push(Scope::new(outer));
        proof {
            assert forall|i: int|
                0 <= i < self.objects.scopes@.len() implies ((
            #[trigger] self.objects.scopes@[i]).outer matches Some(s) ==> s < i) by {
                if i < self.objects.scopes@.len() - 1 {
                    assert(self.objects.scopes@[i] == old(self).objects.scopes@[i]);
                }
            }
            assert forall|i: int, n: Seq<char>|
                0 <= i < self.objects.scopes@.len() implies ((
            #[trigger] self.objects.scopes@[i].entities.spec_get(n)) matches Some(e) ==> e
                < self.objects.entities@.len()) by {
                if i < self.objects.scopes@.len() - 1 {
                    assert(self.objects.scopes@[i] == old(self).objects.scopes@[i]);
                }
            }
        }
        idx
    }

    /// Parses a type; anything else is reported and read as a bad
    /// expression.
    pub fn parse_type(&mut self) -> (r: Expr)
        requires
            old(self).wf(),
        ensures
            final(self).wf(),
            Parser::prod_frame(*old(self), *final(self)),
            final(self).rem() <= old(self).rem(),
            !(old(self).token is EOF) ==> final(self).rem() < old(self).rem(),
            expr_ok(r, final(self).objects.idents@.len() as int),
        decreases self.rem(), 3int,
    {
        self.trace_begin("Type");
        let typ = self.try_type();
        let ret = match typ {
            None => {
                let pos = self.pos;
                self.error_expected(pos, "type");
                self.next();
                Expr::new_bad(pos, self.pos)
            },
            Some(t) => t,
        };
        self.trace_end();
        ret
    }

    /// Parses a possibly qualified type name.  The identifier itself is
    /// not resolved yet: it may turn out to be a parameter or field name.
    pub fn parse_type_name(&mut self) -> (r: Expr)
        requires
            old(self).wf(),
        ensures
            final(self).wf(),
            Parser::prod_frame(*old(self), *final(self)),
            final(self).rem() <= old(self).rem(),
            old(self).token is IDENT ==> final(self).rem() < old(self).rem(),
            expr_ok(r, final(self).objects.idents@.len() as int),
    {
        self.trace_begin("TypeName");
        let ident = self.parse_ident();
        let x_ident = Expr::Ident(Box::new(ident));
        let ret = if matches!(self.token, Token::PERIOD) {
            // the identifier is a package name
            self.next();
            self.resolve(&x_ident);
            let ghost before = *self;
            let sel = self.parse_ident();
            proof {
                lemma_expr_ok_grow(
                    x_ident,
                    before.objects.idents@.len() as int,
                    self.objects.idents@.len() as int,
                );
            }
            Expr::new_selector(x_ident, sel)
        } else {
            x_ident
        };
        self.trace_end();
        ret
    }

    /// Parses an array or slice type; the element count may be an
    /// ellipsis for more fault-tolerant parsing.
    pub fn parse_array_type(&mut self) -> (r: Expr)
        requires
            old(self).wf(),
            old(self).token is LBRACK,
        ensures
            final(self).wf(),
            Parser::prod_frame(*old(self), *final(self)),
            final(self).rem() < old(self).rem(),
            expr_ok(r, final(self).objects.idents@.len() as int),
        decreases self.rem(), 0int,
    {
        self.trace_begin("ArrayType");
        let lpos = self.expect(&Token::LBRACK);
        if self.expr_level < 1000000 {
            self.expr_level = self.expr_level + 1;
        }
        let len_e: Option<Expr> = if matches!(self.token, Token::ELLIPSIS) {
            // always permit an ellipsis here for more fault-tolerant parsing
            Some(Expr::new_ellipsis(self.pos, None))
        } else if !matches!(self.token, Token::RBRACK) {
            Some(self.parse_rhs())
        } else {
            None
        };
        let ghost mid = *self;
        if self.expr_level > -1000000 {
            self.expr_level = self.expr_level - 1;
        }
        self.expect(&Token::RBRACK);
        let elt = self.parse_type();
        proof {
            if len_e is Some {
                lemma_expr_ok_grow(
                    len_e->Some_0,
                    mid.objects.idents@.len() as int,
                    self.objects.idents@.len() as int,
                );
            }
        }
        self.trace_end();
        Expr::Array(Box::new(crate::ast::ArrayType { l_brack: lpos, len: len_e, elt: elt }))
    }

    /// Parses a struct type: field groups in their own scope.
    #[verifier::loop_isolation(false)]
    pub fn parse_struct_type(&mut self) -> (r: Expr)
        requires
            old(self).wf(),
            old(self).token is STRUCT,
        ensures
            final(self).wf(),
            Parser::prod_frame(*old(self), *final(self)),
            final(self).rem() < old(self).rem(),
            expr_ok(r, final(self).objects.idents@.len() as int),
        decreases self.rem(), 0int,
    {
        self.trace_begin("StructType");
        let stru = self.expect(&Token::STRUCT);
        let lbrace = self.expect(&Token::LBRACE);
        let scope = self.new_scope_with(None);
        let mut list: Vec<FieldIndex> = Vec::new();
        let ghost entry = *self;
        loop
            invariant
                self.wf(),
                Parser::prod_frame(entry, *self),
                scope < self.objects.scopes@.len(),
                self.rem() <= entry.rem(),
                entry.rem() < old(self).rem(),
            decreases self.rem(),
        {
            match &self.token {
                Token::IDENT(_) | Token::MUL | Token::LPAREN => {
                    let f = self.parse_field_decl(scope);
                    list.push(f);
                },
                _ => {
                    break ;
                },
            }
        }
        let rbrace = self.expect(&Token::RBRACE);
        self.trace_end();
        Expr::Struct(
            Box::new(
                StructType {
                    struct_pos: stru,
                    fields: FieldList::new(Some(lbrace), list, Some(rbrace)),
                    incomplete: false,
                },
            ),
        )
    }

    /// Parses a pointer type.
    pub fn parse_pointer_type(&mut self) -> (r: Expr)
        requires
            old(self).wf(),
            old(self).token is MUL,
        ensures
            final(self).wf(),
            Parser::prod_frame(*old(self), *final(self)),
            final(self).rem() < old(self).rem(),
            expr_ok(r, final(self).objects.idents@.len() as int),
        decreases self.rem(), 0int,
    {
        self.trace_begin("PointerType");
        let star = self.expect(&Token::MUL);
        let base = self.parse_type();
        self.trace_end();
        Expr::Star(Box::new(StarExpr { star: star, expr: base }))
    }

    /// Like `try_ident_or_type`, but inside a parameter list a variadic
    /// element type is permitted.
    pub fn try_var_type(&mut self, is_param: bool) -> (r: Option<Expr>)
        requires
            old(self).wf(),
        ensures
            final(self).wf(),
            Parser::prod_frame(*old(self), *final(self)),
            final(self).rem() <= old(self).rem(),
            r is Some ==> final(self).rem() < old(self).rem(),
            r matches Some(x) ==> expr_ok(x, final(self).objects.idents@.len() as int),
        decreases self.rem(), 2int,
    {
        if is_param && matches!(self.token, Token::ELLIPSIS) {
            let pos = self.pos;
            self.next();
            let typ = match self.try_ident_or_type() {
                Some(t) => {
                    self.resolve(&t);
                    t
                },
                None => {
                    self.error(pos, "'...' parameter is missing type");
                    Expr::new_bad(pos, self.pos)
                },
            };
            proof {
                assert(expr_ok(typ, self.objects.idents@.len() as int));
            }
            let r0 = Expr::new_ellipsis(pos, Some(typ));
            proof {
                assert(r0 matches Expr::Ellipsis(b) && b.elt is Some);
                assert(expr_ok(r0, self.objects.idents@.len() as int));
            }
            return Some(r0);
        }
        self.try_ident_or_type()
    }

    /// Parses a type inside a declaration group; anything else is
    /// reported and read as a bad expression.
    pub fn parse_var_type(&mut self, is_param: bool) -> (r: Expr)
        requires
            old(self).wf(),
        ensures
            final(self).wf(),
            Parser::prod_frame(*old(self), *final(self)),
            final(self).rem() <= old(self).rem(),
            !(old(self).token is EOF) ==> final(self).rem() < old(self).rem(),
            expr_ok(r, final(self).objects.idents@.len() as int),
        decreases self.rem(), 3int,
    {
        match self.try_var_type(is_param) {
            Some(typ) => typ,
            None => {
                let pos = self.pos;
                self.error_expected(pos, "type");
                self.next();
                Expr::new_bad(pos, self.pos)
            },
        }
    }

    /// Parses the type that may begin at the current token, leaving an
    /// identifier unresolved; hands nothing back when no type begins
    /// here.
    pub fn try_ident_or_type(&mut self) -> (r: Option<Expr>)
        requires
            old(self).wf(),
        ensures
            final(self).wf(),
            Parser::prod_frame(*old(self), *final(self)),
            final(self).rem() <= old(self).rem(),
            r is Some ==> final(self).rem() < old(self).rem(),
            r matches Some(x) ==> expr_ok(x, final(self).objects.idents@.len() as int),
        decreases self.rem(), 1int,
    {
        match &self.token {
            Token::IDENT(_) => {
                let t = self.parse_type_name();
                Some(t)
            },
            Token::LBRACK => Some(self.parse_array_type()),
            Token::STRUCT => Some(self.parse_struct_type()),
            Token::MUL => Some(self.parse_pointer_type()),
            Token::FUNC => {
                let (typ, _scope) = self.parse_func_type();
                Some(Expr::box_func_type(typ))
            },
            Token::INTERFACE => Some(Expr::Interface(Box::new(self.parse_interface_type()))),
            Token::MAP => Some(Expr::GosMap(Box::new(self.parse_map_type()))),
            Token::CHAN | Token::ARROW => Some(Expr::Chan(Box::new(self.parse_chan_type()))),
            Token::LPAREN => {
                let lparen = self.pos;
                self.next();
                let typ = self.parse_type();
                let rparen = self.expect(&Token::RPAREN);
                Some(
                    Expr::Paren(
                        Box::new(ParenExpr { l_paren: lparen, expr: typ, r_paren: rparen }),
                    ),
                )
            },
            _ => None,
        }
    }

    /// Parses the type that may begin here and resolves it.
    pub fn try_type(&mut self) -> (r: Option<Expr>)
        requires
            old(self).wf(),
        ensures
            final(self).wf(),
            Parser::prod_frame(*old(self), *final(self)),
            final(self).rem() <= old(self).rem(),
            r is Some ==> final(self).rem() < old(self).rem(),
            r matches Some(x) ==> expr_ok(x, final(self).objects.idents@.len() as int),
        decreases self.rem(), 2int,
    {
        match self.try_ident_or_type() {
            Some(typ) => {
                self.resolve(&typ);
                Some(typ)
            },
            None => None,
        }
    }
}

impl Parser {
    /// Parses one field group of a struct: names and a type, or a single
    /// anonymous field, with an optional tag.
    #[verifier::loop_isolation(false)]
    pub fn parse_field_decl(&mut self, scope: ScopeIndex) -> (r: FieldIndex)
        requires
            old(self).wf(),
            scope < old(self).objects.scopes@.len(),
        ensures
            final(self).wf(),
            Parser::prod_frame(*old(self), *final(self)),
            final(self).rem() <= old(self).rem(),
            (old(self).token is IDENT || old(self).token is MUL || old(self).token is LPAREN)
                ==> final(self).rem() < old(self).rem(),
            r < final(self).objects.fields@.len(),
        decreases self.rem(), 4int,
    {
        self.trace_begin("FieldDecl");
        // A type name used as an anonymous field looks like a field
        // identifier.
        let mut list: Vec<Expr> = Vec::new();
        let ghost entry = *self;
        let first_t = self.parse_var_type(false);
        list.push(first_t);
        loop
            invariant
                self.wf(),
                Parser::prod_frame(entry, *self),
                self.rem() <= entry.rem(),
                (entry.token is IDENT || entry.token is MUL || entry.token is LPAREN)
                    ==> self.rem() < entry.rem(),
                list@.len() > 0,
                forall|j: int|
                    0 <= j < list@.len() ==> expr_ok(
                        #[trigger] list@[j],
                        self.objects.idents@.len() as int,
                    ),
                scope < self.objects.scopes@.len(),
            decreases self.rem(),
        {
            if matches!(self.token, Token::COMMA) {
                break ;
            }
            if matches!(self.token, Token::EOF) {
                // recovery: nothing more can complete this group
                break ;
            }
            self.next();
            let ghost before = *self;
            let t = self.parse_var_type(false);
            proof {
                assert forall|j: int|
                    0 <= j < list@.len() implies expr_ok(
                    #[trigger] list@[j],
                    self.objects.idents@.len() as int,
                ) by {
                    lemma_expr_ok_grow(
                        list@[j],
                        before.objects.idents@.len() as int,
                        self.objects.idents@.len() as int,
                    );
                }
            }
            list.push(t);
        }
        let mut idents: Vec<IdentIndex> = Vec::new();
        let ghost at_tv = *self;
        let tv = self.try_var_type(false);
        proof {
            assert forall|j: int|
                0 <= j < list@.len() implies expr_ok(
                #[trigger] list@[j],
                self.objects.idents@.len() as int,
            ) by {
                lemma_expr_ok_grow(
                    list@[j],
                    at_tv.objects.idents@.len() as int,
                    self.objects.idents@.len() as int,
                );
            }
        }
        let ghost post_tv = *self;
        let typ = match tv {
            Some(t) => {
                idents = self.make_ident_list(&mut list);
                proof {
                    lemma_expr_ok_grow(
                        t,
                        post_tv.objects.idents@.len() as int,
                        self.objects.idents@.len() as int,
                    );
                }
                t
            },
            // an anonymous field of the form ["*"] TypeName
            None => {
                if list.len() > 1 {
                    let p = self.pos;
                    self.error_expected(p, "type");
                    Expr::new_bad(p, p)
                } else {
                    let first = &list[0];
                    if !Parser::is_type_name(Parser::deref(first)) {
                        let p = self.pos;
                        self.error_expected(p, "anonymous field");
                        let fpos = first.pos(&self.objects);
                        let fend = first.end(&self.objects);
                        let safe_end = self.safe_pos(fend);
                        Expr::new_bad(fpos, safe_end)
                    } else {
                        list.remove(0)
                    }
                }
            },
        };
        let tag: Option<Expr> = if matches!(self.token, Token::STRING(_)) {
            self.next();
            Some(Expr::new_basic_lit(self.pos, self.token.clone()))
        } else {
            None
        };
        self.expect_semi();
        self.resolve(&typ);
        let field = self.objects.push_field(Field { names: idents, typ: typ, tag: tag });
        self.declare(DeclObj::Field(field), EntityData::NoData, EntityKind::Var, &scope);
        self.trace_end();
        field
    }

    /// Parses the parameter groups between the parentheses of a
    /// signature, declaring each parameter into the function's scope.
    #[verifier::loop_isolation(false)]
    pub fn parse_parameter_list(&mut self, scope: ScopeIndex, ellipsis_ok: bool) -> (r: Vec<
        FieldIndex,
    >)
        requires
            old(self).wf(),
            scope < old(self).objects.scopes@.len(),
        ensures
            final(self).wf(),
            Parser::prod_frame(*old(self), *final(self)),
            final(self).rem() <= old(self).rem(),
            forall|j: int| 0 <= j < r@.len() ==> (#[trigger] r@[j])
                < final(self).objects.fields@.len(),
        decreases self.rem(), 4int,
    {
        self.trace_begin("ParameterList");
        // A list of identifiers looks like a list of type names.
        let mut list: Vec<Expr> = Vec::new();
        let ghost entry = *self;
        loop
            invariant
                self.wf(),
                Parser::prod_frame(entry, *self),
                self.rem() <= entry.rem(),
                forall|j: int|
                    0 <= j < list@.len() ==> expr_ok(
                        #[trigger] list@[j],
                        self.objects.idents@.len() as int,
                    ),
                scope < self.objects.scopes@.len(),
            decreases self.rem(),
        {
            if matches!(self.token, Token::EOF) {
                // recovery: nothing more can complete this list
                break ;
            }
            let ghost before = *self;
            let t = self.parse_var_type(ellipsis_ok);
            proof {
                assert forall|j: int|
                    0 <= j < list@.len() implies expr_ok(
                    #[trigger] list@[j],
                    self.objects.idents@.len() as int,
                ) by {
                    lemma_expr_ok_grow(
                        list@[j],
                        before.objects.idents@.len() as int,
                        self.objects.idents@.len() as int,
                    );
                }
            }
            list.push(t);
            if matches!(self.token, Token::COMMA) {
                break ;
            }
            self.next();
            if matches!(self.token, Token::RPAREN) {
                break ;
            }
        }
        let mut params: Vec<FieldIndex> = Vec::new();
        let ghost at_tv = *self;
        let tv = self.try_var_type(ellipsis_ok);
        proof {
            assert forall|j: int|
                0 <= j < list@.len() implies expr_ok(
                #[trigger] list@[j],
                self.objects.idents@.len() as int,
            ) by {
                lemma_expr_ok_grow(
                    list@[j],
                    at_tv.objects.idents@.len() as int,
                    self.objects.idents@.len() as int,
                );
            }
        }
        let ghost post_tv = *self;
        if let Some(t) = tv {
            // IdentifierList Type
            let idents = self.make_ident_list(&mut list);
            proof {
                lemma_expr_ok_grow(
                    t,
                    post_tv.objects.idents@.len() as int,
                    self.objects.idents@.len() as int,
                );
            }
            self.resolve(&t);
            let field = self.objects.push_field(Field { names: idents, typ: t, tag: None });
            params.push(field);
            // the scope of a parameter or result name is the function body
            self.declare(DeclObj::Field(field), EntityData::NoData, EntityKind::Var, &scope);
            if !self.at_comma("parameter list", &Token::RPAREN) {
                self.trace_end();
                return params;
            }
            self.next();
            loop
                invariant
                    self.wf(),
                    Parser::prod_frame(entry, *self),
                    self.rem() <= entry.rem(),
                    forall|j: int| 0 <= j < params@.len() ==> (#[trigger] params@[j])
                        < self.objects.fields@.len(),
                    scope < self.objects.scopes@.len(),
                decreases self.rem(),
            {
                if matches!(self.token, Token::EOF) {
                    // recovery: nothing more can complete this list
                    break ;
                }
                let idents2 = self.parse_ident_list();
                let t2 = self.parse_var_type(ellipsis_ok);
                self.resolve(&t2);
                let field2 = self.objects.push_field(
                    Field { names: idents2, typ: t2, tag: None },
                );
                params.push(field2);
                // the scope of a parameter or result name is the function
                // body
                self.declare(DeclObj::Field(field2), EntityData::NoData, EntityKind::Var, &scope);
                if !self.at_comma("parameter list", &Token::RPAREN) {
                    break ;
                }
                self.next();
            }
        } else {
            // Type { "," Type }: anonymous parameters
            loop
                invariant
                    self.wf(),
                    Parser::prod_frame(entry, *self),
                    self.rem() <= entry.rem(),
                    forall|j: int|
                        0 <= j < list@.len() ==> expr_ok(
                            #[trigger] list@[j],
                            self.objects.idents@.len() as int,
                        ),
                    forall|j: int| 0 <= j < params@.len() ==> (#[trigger] params@[j])
                        < self.objects.fields@.len(),
                    scope < self.objects.scopes@.len(),
                decreases list@.len(),
            {
                if list.len() == 0 {
                    break ;
                }
                let typ = list.remove(0);
                self.resolve(&typ);
                let field = self.objects.push_field(
                    Field { names: Vec::new(), typ: typ, tag: None },
                );
                params.push(field);
            }
        }
        self.trace_end();
        params
    }

    /// Parses a parenthesized parameter list.
    pub fn parse_parameters(&mut self, scope: ScopeIndex, ellipsis_ok: bool) -> (r: FieldList)
        requires
            old(self).wf(),
            scope < old(self).objects.scopes@.len(),
        ensures
            final(self).wf(),
            Parser::prod_frame(*old(self), *final(self)),
            final(self).rem() <= old(self).rem(),
            crate::ast::field_list_ok(r, final(self).objects),
        decreases self.rem(), 5int,
    {
        self.trace_begin("Parameters");
        let mut params: Vec<FieldIndex> = Vec::new();
        let lparen = Some(self.expect(&Token::LPAREN));
        if !matches!(self.token, Token::RPAREN) {
            params = self.parse_parameter_list(scope, ellipsis_ok);
        }
        let rparen = Some(self.expect(&Token::RPAREN));
        self.trace_end();
        FieldList::new(lparen, params, rparen)
    }

    /// Parses a result list: parenthesized, a single bare type, or
    /// nothing.
    pub fn parse_result(&mut self, scope: ScopeIndex) -> (r: FieldList)
        requires
            old(self).wf(),
            scope < old(self).objects.scopes@.len(),
        ensures
            final(self).wf(),
            Parser::prod_frame(*old(self), *final(self)),
            final(self).rem() <= old(self).rem(),
            crate::ast::field_list_ok(r, final(self).objects),
        decreases self.rem(), 6int,
    {
        self.trace_begin("Result");
        let ret = if matches!(self.token, Token::LPAREN) {
            self.parse_parameters(scope, false)
        } else {
            match self.try_type() {
                Some(t) => {
                    let field = self.objects.push_field(
                        Field { names: Vec::new(), typ: t, tag: None },
                    );
                    let mut v: Vec<FieldIndex> = Vec::new();
                    v.push(field);
                    FieldList::new(None, v, None)
                },
                None => FieldList::new(None, Vec::new(), None),
            }
        };
        self.trace_end();
        ret
    }

    /// Parses a signature: parameters, then results.
    pub fn parse_signature(&mut self, scope: ScopeIndex) -> (r: (FieldList, FieldList))
        requires
            old(self).wf(),
            scope < old(self).objects.scopes@.len(),
        ensures
            final(self).wf(),
            Parser::prod_frame(*old(self), *final(self)),
            final(self).rem() <= old(self).rem(),
            crate::ast::field_list_ok(r.0, final(self).objects),
            crate::ast::field_list_ok(r.1, final(self).objects),
        decreases self.rem(), 7int,
    {
        self.trace_begin("Signature");
        let params = self.parse_parameters(scope, true);
        let results = self.parse_result(scope);
        proof {
            assert(crate::ast::field_list_ok(params, self.objects));
        }
        self.trace_end();
        (params, results)
    }

    /// Parses a function type, creating the scope its parameters and body
    /// share.
    pub fn parse_func_type(&mut self) -> (r: (FuncType, ScopeIndex))
        requires
            old(self).wf(),
            old(self).token is FUNC,
        ensures
            final(self).wf(),
            Parser::prod_frame(*old(self), *final(self)),
            final(self).rem() < old(self).rem(),
            r.1 < final(self).objects.scopes@.len(),
            final(self).objects.scopes@[r.1 as int].outer == old(self).top_scope,
        decreases self.rem(), 0int,
    {
        self.trace_begin("FuncType");
        let pos = self.expect(&Token::FUNC);
        let scope = self.new_scope_with(self.top_scope);
        let (params, results) = self.parse_signature(scope);
        self.trace_end();
        (FuncType::new(Some(pos), params, Some(results)), scope)
    }

    /// Parses one method or embedded interface of an interface body.
    pub fn parse_method_spec(&mut self, scope: ScopeIndex) -> (r: FieldIndex)
        requires
            old(self).wf(),
            scope < old(self).objects.scopes@.len(),
            old(self).token is IDENT,
        ensures
            final(self).wf(),
            Parser::prod_frame(*old(self), *final(self)),
            final(self).rem() < old(self).rem(),
            r < final(self).objects.fields@.len(),
        decreases self.rem(), 0int,
    {
        self.trace_begin("MethodSpec");
        let mut idents: Vec<IdentIndex> = Vec::new();
        let mut typ = self.parse_type_name();
        let is_plain = matches!(typ, Expr::Ident(_));
        if is_plain && matches!(self.token, Token::LPAREN) {
            let ident = typ.unwrap_ident();
            idents.push(ident);
            let mscope = self.new_scope_with(self.top_scope);
            let (params, results) = self.parse_signature(mscope);
            typ = Expr::box_func_type(FuncType::new(None, params, Some(results)));
        } else {
            // an embedded interface
            self.resolve(&typ);
        }
        self.expect_semi();
        let field = self.objects.push_field(Field { names: idents, typ: typ, tag: None });
        self.declare(DeclObj::Field(field), EntityData::NoData, EntityKind::Fun, &scope);
        self.trace_end();
        field
    }

    /// Parses an interface type: method specifications in their own
    /// scope.
    #[verifier::loop_isolation(false)]
    pub fn parse_interface_type(&mut self) -> (r: InterfaceType)
        requires
            old(self).wf(),
            old(self).token is INTERFACE,
        ensures
            final(self).wf(),
            Parser::prod_frame(*old(self), *final(self)),
            final(self).rem() < old(self).rem(),
        decreases self.rem(), 0int,
    {
        self.trace_begin("InterfaceType");
        let pos = self.expect(&Token::INTERFACE);
        let lbrace = self.expect(&Token::LBRACE);
        let scope = self.new_scope_with(None);
        let mut list: Vec<FieldIndex> = Vec::new();
        let ghost entry = *self;
        loop
            invariant
                self.wf(),
                Parser::prod_frame(entry, *self),
                self.rem() <= entry.rem(),
                scope < self.objects.scopes@.len(),
            decreases self.rem(),
        {
            if !matches!(self.token, Token::IDENT(_)) {
                break ;
            }
            let f = self.parse_method_spec(scope);
            list.push(f);
        }
        let rbrace = self.expect(&Token::RBRACE);
        self.trace_end();
        InterfaceType {
            interface: pos,
            methods: FieldList { opening: Some(lbrace), list: list, closing: Some(rbrace) },
            incomplete: false,
        }
    }

    /// Parses a map type.
    pub fn parse_map_type(&mut self) -> (r: MapType)
        requires
            old(self).wf(),
            old(self).token is MAP,
        ensures
            final(self).wf(),
            Parser::prod_frame(*old(self), *final(self)),
            final(self).rem() < old(self).rem(),
            expr_ok(r.key, final(self).objects.idents@.len() as int),
            expr_ok(r.val, final(self).objects.idents@.len() as int),
        decreases self.rem(), 0int,
    {
        self.trace_begin("MapType");
        let pos = self.expect(&Token::MAP);
        self.expect(&Token::LBRACK);
        let key = self.parse_type();
        self.expect(&Token::RBRACK);
        let ghost mid = *self;
        let val = self.parse_type();
        proof {
            lemma_expr_ok_grow(
                key,
                mid.objects.idents@.len() as int,
                self.objects.idents@.len() as int,
            );
        }
        self.trace_end();
        MapType { map: pos, key: key, val: val }
    }

    /// Parses a channel type with its direction.
    pub fn parse_chan_type(&mut self) -> (r: ChanType)
        requires
            old(self).wf(),
            old(self).token is CHAN || old(self).token is ARROW,
        ensures
            final(self).wf(),
            Parser::prod_frame(*old(self), *final(self)),
            final(self).rem() < old(self).rem(),
            expr_ok(r.val, final(self).objects.idents@.len() as int),
        decreases self.rem(), 0int,
    {
        self.trace_begin("ChanType");
        let pos = self.pos;
        let arrow_pos: Pos;
        let dir: ChanDir;
        if matches!(self.token, Token::CHAN) {
            self.next();
            if matches!(self.token, Token::ARROW) {
                arrow_pos = self.pos;
                self.next();
                dir = ChanDir::Send;
            } else {
                arrow_pos = 0;
                dir = ChanDir::SendRecv;
            }
        } else {
            arrow_pos = self.expect(&Token::ARROW);
            self.expect(&Token::CHAN);
            dir = ChanDir::Recv;
        }
        let val = self.parse_type();
        self.trace_end();
        ChanType { begin: pos, arrow: arrow_pos, dir: dir, val: val }
    }
}

impl Parser {
    /// Parses a function type, or a function literal when a body
    /// follows.
    pub fn parse_func_type_or_lit(&mut self) -> (r: Expr)
        requires
            old(self).wf(),
            old(self).token is FUNC,
        ensures
            final(self).wf(),
            Parser::prod_frame(*old(self), *final(self)),
            final(self).rem() < old(self).rem(),
            expr_ok(r, final(self).objects.idents@.len() as int),
        decreases self.rem(), 1int,
    {
        self.trace_begin("FuncTypeOrLit");
        let (typ, scope) = self.parse_func_type();
        let ret = if !matches!(self.token, Token::LBRACE) {
            Expr::box_func_type(typ)
        } else {
            if self.expr_level < 1000000 {
                self.expr_level = self.expr_level + 1;
            }
            let body = self.parse_body(scope);
            if self.expr_level > -1000000 {
                self.expr_level = self.expr_level - 1;
            }
            Expr::FuncLit(Box::new(FuncLit { typ: typ, body: body }))
        };
        self.trace_end();
        ret
    }

    /// Parses an operand: an identifier, a literal, a parenthesized
    /// expression, a function literal, or a raw type; the caller checks
    /// what it got.
    pub fn parse_operand(&mut self, lhs: bool) -> (r: Expr)
        requires
            old(self).wf(),
        ensures
            final(self).wf(),
            Parser::prod_frame(*old(self), *final(self)),
            final(self).rem() <= old(self).rem(),
            !(old(self).token is EOF) ==> final(self).rem() < old(self).rem(),
            expr_ok(r, final(self).objects.idents@.len() as int),
        decreases self.rem(), 2int,
    {
        self.trace_begin("Operand");
        let ret = match &self.token {
            Token::IDENT(_) => {
                let i = self.parse_ident();
                let x = Expr::Ident(Box::new(i));
                if !lhs {
                    self.resolve(&x);
                }
                x
            },
            Token::INT(_) | Token::FLOAT(_) | Token::IMAG(_) | Token::CHAR(_)
                | Token::STRING(_) => {
                let x = Expr::new_basic_lit(self.pos, self.token.clone());
                self.next();
                x
            },
            Token::LPAREN => {
                let lparen = self.pos;
                self.next();
                if self.expr_level < 1000000 {
                    self.expr_level = self.expr_level + 1;
                }
                // types may be parenthesized: (some type)
                let x = self.parse_rhs_or_type();
                if self.expr_level > -1000000 {
                    self.expr_level = self.expr_level - 1;
                }
                let rparen = self.expect(&Token::RPAREN);
                Expr::Paren(Box::new(ParenExpr { l_paren: lparen, expr: x, r_paren: rparen }))
            },
            Token::FUNC => self.parse_func_type_or_lit(),
            _ => {
                match self.try_ident_or_type() {
                    Some(typ) => typ,
                    None => {
                        let pos = self.pos;
                        self.error_expected(pos, "operand");
                        self.advance();
                        Expr::new_bad(pos, self.pos)
                    },
                }
            },
        };
        self.trace_end();
        ret
    }

    /// Parses the selector after a period.
    pub fn parse_selector(&mut self, x: Expr) -> (r: Expr)
        requires
            old(self).wf(),
            expr_ok(x, old(self).objects.idents@.len() as int),
        ensures
            final(self).wf(),
            Parser::prod_frame(*old(self), *final(self)),
            final(self).rem() <= old(self).rem(),
            expr_ok(r, final(self).objects.idents@.len() as int),
    {
        self.trace_begin("Selector");
        let sel = self.parse_ident();
        self.trace_end();
        proof {
            lemma_expr_ok_grow(
                x,
                old(self).objects.idents@.len() as int,
                self.objects.idents@.len() as int,
            );
        }
        Expr::new_selector(x, sel)
    }

    /// Parses a type assertion after a period; a bare `type` keyword is
    /// the guard of a type switch.
    pub fn parse_type_assertion(&mut self, x: Expr) -> (r: Expr)
        requires
            old(self).wf(),
            old(self).token is LPAREN,
            expr_ok(x, old(self).objects.idents@.len() as int),
        ensures
            final(self).wf(),
            Parser::prod_frame(*old(self), *final(self)),
            final(self).rem() < old(self).rem(),
            expr_ok(r, final(self).objects.idents@.len() as int),
        decreases self.rem(), 0int,
    {
        self.trace_begin("TypeAssertion");
        let lparen = self.expect(&Token::LPAREN);
        let typ = if matches!(self.token, Token::TYPE) {
            // the guard of a type switch: x.(type)
            self.next();
            None
        } else {
            Some(self.parse_type())
        };
        let rparen = self.expect(&Token::RPAREN);
        self.trace_end();
        proof {
            lemma_expr_ok_grow(
                x,
                old(self).objects.idents@.len() as int,
                self.objects.idents@.len() as int,
            );
        }
        Expr::TypeAssert(
            Box::new(TypeAssertExpr { expr: x, l_paren: lparen, typ: typ, r_paren: rparen }),
        )
    }

    /// Parses an index expression or a two- or three-index slice
    /// expression.
    #[verifier::loop_isolation(false)]
    pub fn parse_index_or_slice(&mut self, x: Expr) -> (r: Expr)
        requires
            old(self).wf(),
            old(self).token is LBRACK,
            expr_ok(x, old(self).objects.idents@.len() as int),
        ensures
            final(self).wf(),
            Parser::prod_frame(*old(self), *final(self)),
            final(self).rem() < old(self).rem(),
            expr_ok(r, final(self).objects.idents@.len() as int),
        decreases self.rem(), 0int,
    {
        self.trace_begin("IndexOrSlice");
        let lbrack = self.expect(&Token::LBRACK);
        if self.expr_level < 1000000 {
            self.expr_level = self.expr_level + 1;
        }
        let mut i0: Option<Expr> = None;
        let mut i1: Option<Expr> = None;
        let mut i2: Option<Expr> = None;
        let mut c0: Pos = 0;
        let mut c1: Pos = 0;
        let mut ncolons: usize = 0;
        if !matches!(self.token, Token::COLON) {
            i0 = Some(self.parse_rhs());
        }
        let ghost entry = *self;
        while matches!(self.token, Token::COLON) && ncolons < 3
            invariant
                self.wf(),
                Parser::prod_frame(entry, *self),
                self.rem() <= entry.rem(),
                entry.rem() < old(self).rem(),
                ncolons <= 3,
                i0 matches Some(e) ==> expr_ok(e, self.objects.idents@.len() as int),
                i1 matches Some(e) ==> expr_ok(e, self.objects.idents@.len() as int),
                i2 matches Some(e) ==> expr_ok(e, self.objects.idents@.len() as int),
            decreases self.rem(),
        {
            if ncolons == 0 {
                c0 = self.pos;
            } else {
                c1 = self.pos;
            }
            ncolons = ncolons + 1;
            self.next();
            let fill = match &self.token {
                Token::COLON | Token::RBRACE | Token::EOF => false,
                _ => true,
            };
            if fill {
                let ghost before = *self;
                let e = self.parse_rhs();
                proof {
                    if i0 is Some {
                        lemma_expr_ok_grow(
                            i0->Some_0,
                            before.objects.idents@.len() as int,
                            self.objects.idents@.len() as int,
                        );
                    }
                    if i1 is Some {
                        lemma_expr_ok_grow(
                            i1->Some_0,
                            before.objects.idents@.len() as int,
                            self.objects.idents@.len() as int,
                        );
                    }
                    if i2 is Some {
                        lemma_expr_ok_grow(
                            i2->Some_0,
                            before.objects.idents@.len() as int,
                            self.objects.idents@.len() as int,
                        );
                    }
                }
                if ncolons == 1 {
                    i1 = Some(e);
                } else {
                    i2 = Some(e);
                }
            }
        }
        if self.expr_level > -1000000 {
            self.expr_level = self.expr_level - 1;
        }
        let rbrack = self.expect(&Token::RBRACK);
        let ret = if ncolons > 0 {
            let slice3 = ncolons == 2;
            if slice3 {
                // three-index slices need both upper indices stated
                if i1.is_none() {
                    self.error(c0, "2nd index required in 3-index slice");
                    i1 = Some(Expr::new_bad(crate::ast::sat_add(c0, 1), c1));
                }
                if i2.is_none() {
                    self.error(c1, "3rd index required in 3-index slice");
                    i2 = Some(Expr::new_bad(crate::ast::sat_add(c1, 1), c1));
                }
            }
            proof {
                lemma_expr_ok_grow(
                    x,
                    old(self).objects.idents@.len() as int,
                    self.objects.idents@.len() as int,
                );
                assert(expr_ok(x, self.objects.idents@.len() as int));
                assert(i0 matches Some(e) ==> expr_ok(e, self.objects.idents@.len() as int));
                assert(i1 matches Some(e) ==> expr_ok(e, self.objects.idents@.len() as int));
                assert(i2 matches Some(e) ==> expr_ok(e, self.objects.idents@.len() as int));
            }
            let r0 = Expr::Slice(
                Box::new(
                    SliceExpr {
                        expr: x,
                        l_brack: lbrack,
                        low: i0,
                        high: i1,
                        max: i2,
                        slice3: slice3,
                        r_brack: rbrack,
                    },
                ),
            );
            proof {
                let ghost n = self.objects.idents@.len() as int;
                assert(r0 matches Expr::Slice(bb) && bb.expr == x && bb.low == i0 && bb.high == i1
                    && bb.max == i2);
                assert(expr_ok(r0, n)) by {
                    assert(expr_ok(x, n));
                    assert(i0 matches Some(e) ==> expr_ok(e, n));
                    assert(i1 matches Some(e) ==> expr_ok(e, n));
                    assert(i2 matches Some(e) ==> expr_ok(e, n));
                }
            }
            r0
        } else {
            let index = match i0 {
                Some(e) => e,
                None => {
                    self.error(lbrack, "expression for index value required");
                    Expr::new_bad(crate::ast::sat_add(lbrack, 1), rbrack)
                },
            };
            proof {
                lemma_expr_ok_grow(
                    x,
                    old(self).objects.idents@.len() as int,
                    self.objects.idents@.len() as int,
                );
            }
            let r0 = Expr::Index(
                Box::new(IndexExpr { expr: x, l_brack: lbrack, index: index, r_brack: rbrack }),
            );
            proof {
                let ghost n = self.objects.idents@.len() as int;
                assert(expr_ok(r0, n)) by {
                    assert(expr_ok(x, n));
                    assert(expr_ok(index, n));
                }
            }
            r0
        };
        self.trace_end();
        ret
    }

    /// Parses the arguments of a call, or of a conversion; builtins may
    /// expect a type argument.  Arguments are read until the closing
    /// parenthesis or the end of input, stopping after a variadic splat;
    /// the result is a call of `func` whose opening parenthesis is the
    /// token this production started at.
    #[verifier::loop_isolation(false)]
    pub fn parse_call_or_conversion(&mut self, func: Expr) -> (r: Expr)
        requires
            old(self).wf(),
            old(self).token is LPAREN,
            expr_ok(func, old(self).objects.idents@.len() as int),
        ensures
            final(self).wf(),
            Parser::prod_frame(*old(self), *final(self)),
            final(self).rem() < old(self).rem(),
            expr_ok(r, final(self).objects.idents@.len() as int),
            r matches Expr::Call(b) && b.func == func && b.l_paren == old(self).pos && (forall|
                j: int,
            |
                0 <= j < b.args@.len() ==> expr_ok(
                    #[trigger] b.args@[j],
                    final(self).objects.idents@.len() as int,
                )),
        decreases self.rem(), 0int,
    {
        self.trace_begin("CallOrConversion");
        let lparen = self.expect(&Token::LPAREN);
        if self.expr_level < 1000000 {
            self.expr_level = self.expr_level + 1;
        }
        let mut list: Vec<Expr> = Vec::new();
        let mut ellipsis: Option<Pos> = None;
        let ghost entry = *self;
        loop
            invariant
                self.wf(),
                Parser::prod_frame(entry, *self),
                self.rem() <= entry.rem(),
                entry.rem() < old(self).rem(),
                forall|j: int|
                    0 <= j < list@.len() ==> expr_ok(
                        #[trigger] list@[j],
                        self.objects.idents@.len() as int,
                    ),
            decreases self.rem(),
        {
            let go_on = !matches!(self.token, Token::RPAREN) && !matches!(self.token, Token::EOF)
                && ellipsis.is_none();
            if !go_on {
                break ;
            }
            let ghost before = *self;
            let e = self.parse_rhs_or_type();
            proof {
                assert forall|j: int|
                    0 <= j < list@.len() implies expr_ok(
                    #[trigger] list@[j],
                    self.objects.idents@.len() as int,
                ) by {
                    lemma_expr_ok_grow(
                        list@[j],
                        before.objects.idents@.len() as int,
                        self.objects.idents@.len() as int,
                    );
                }
            }
            list.push(e);
            if matches!(self.token, Token::ELLIPSIS) {
                ellipsis = Some(self.pos);
                self.next();
            }
            if !self.at_comma("argument list", &Token::RPAREN) {
                break ;
            }
            self.next();
        }
        if self.expr_level > -1000000 {
            self.expr_level = self.expr_level - 1;
        }
        let rparen = self.expect_closing(&Token::RPAREN, "argument list");
        self.trace_end();
        proof {
            lemma_expr_ok_grow(
                func,
                old(self).objects.idents@.len() as int,
                self.objects.idents@.len() as int,
            );
        }
        Expr::Call(
            Box::new(
                CallExpr {
                    func: func,
                    l_paren: lparen,
                    args: list,
                    ellipsis: ellipsis,
                    r_paren: rparen,
                },
            ),
        )
    }

    /// Parses a value of a composite literal; inside one, a key that is a
    /// plain identifier resolves only tentatively, since it may be a
    /// field name.
    pub fn parse_value(&mut self, key_ok: bool) -> (r: Expr)
        requires
            old(self).wf(),
        ensures
            final(self).wf(),
            Parser::prod_frame(*old(self), *final(self)),
            final(self).rem() <= old(self).rem(),
            !(old(self).token is EOF) ==> final(self).rem() < old(self).rem(),
            expr_ok(r, final(self).objects.idents@.len() as int),
        decreases self.rem(), 7int,
    {
        self.trace_begin("Value");
        let ret = if matches!(self.token, Token::LBRACE) {
            self.parse_literal_value(None)
        } else {
            let x0 = self.parse_expr(key_ok);
            let x = self.check_expr(x0);
            if key_ok {
                if matches!(self.token, Token::COLON) {
                    // resolve the key tentatively: it may be a field name
                    self.try_resolve(&x, false);
                } else {
                    self.resolve(&x);
                }
            }
            x
        };
        self.trace_end();
        ret
    }

    /// Parses one element of a composite literal, possibly keyed.
    pub fn parse_element(&mut self) -> (r: Expr)
        requires
            old(self).wf(),
        ensures
            final(self).wf(),
            Parser::prod_frame(*old(self), *final(self)),
            final(self).rem() <= old(self).rem(),
            !(old(self).token is EOF) ==> final(self).rem() < old(self).rem(),
            expr_ok(r, final(self).objects.idents@.len() as int),
        decreases self.rem(), 8int,
    {
        self.trace_begin("Element");
        let x = self.parse_value(true);
        let ret = if matches!(self.token, Token::COLON) {
            let colon = self.pos;
            self.next();
            let ghost before = *self;
            let v = self.parse_value(false);
            proof {
                lemma_expr_ok_grow(
                    x,
                    before.objects.idents@.len() as int,
                    self.objects.idents@.len() as int,
                );
            }
            Expr::KeyValue(Box::new(KeyValueExpr { key: x, colon: colon, val: v }))
        } else {
            x
        };
        self.trace_end();
        ret
    }

    /// Parses the element list of a composite literal.
    #[verifier::loop_isolation(false)]
    pub fn parse_element_list(&mut self) -> (r: Vec<Expr>)
        requires
            old(self).wf(),
        ensures
            final(self).wf(),
            Parser::prod_frame(*old(self), *final(self)),
            final(self).rem() <= old(self).rem(),
            forall|j: int|
                0 <= j < r@.len() ==> expr_ok(
                    #[trigger] r@[j],
                    final(self).objects.idents@.len() as int,
                ),
        decreases self.rem(), 9int,
    {
        self.trace_begin("ElementList");
        let mut list: Vec<Expr> = Vec::new();
        let ghost entry = *self;
        loop
            invariant
                self.wf(),
                Parser::prod_frame(entry, *self),
                self.rem() <= entry.rem(),
                forall|j: int|
                    0 <= j < list@.len() ==> expr_ok(
                        #[trigger] list@[j],
                        self.objects.idents@.len() as int,
                    ),
            decreases self.rem(),
        {
            let go_on = !matches!(self.token, Token::RBRACE) && !matches!(self.token, Token::EOF);
            if !go_on {
                break ;
            }
            let ghost before = *self;
            let e = self.parse_element();
            proof {
                assert forall|j: int|
                    0 <= j < list@.len() implies expr_ok(
                    #[trigger] list@[j],
                    self.objects.idents@.len() as int,
                ) by {
                    lemma_expr_ok_grow(
                        list@[j],
                        before.objects.idents@.len() as int,
                        self.objects.idents@.len() as int,
                    );
                }
            }
            list.push(e);
            if !self.at_comma("composite literal", &Token::RBRACE) {
                break ;
            }
            self.next();
        }
        self.trace_end();
        list
    }

    /// Parses a composite literal body for the given type, if any.
    pub fn parse_literal_value(&mut self, typ: Option<Expr>) -> (r: Expr)
        requires
            old(self).wf(),
            old(self).token is LBRACE,
            typ matches Some(t) ==> expr_ok(t, old(self).objects.idents@.len() as int),
        ensures
            final(self).wf(),
            Parser::prod_frame(*old(self), *final(self)),
            final(self).rem() < old(self).rem(),
            expr_ok(r, final(self).objects.idents@.len() as int),
        decreases self.rem(), 0int,
    {
        self.trace_begin("LiteralValue");
        let lbrace = self.expect(&Token::LBRACE);
        if self.expr_level < 1000000 {
            self.expr_level = self.expr_level + 1;
        }
        let elts: Vec<Expr> = if !matches!(self.token, Token::RBRACE) {
            self.parse_element_list()
        } else {
            Vec::new()
        };
        if self.expr_level > -1000000 {
            self.expr_level = self.expr_level - 1;
        }
        let rbrace = self.expect_closing(&Token::RBRACE, "composite literal");
        self.trace_end();
        proof {
            if typ is Some {
                lemma_expr_ok_grow(
                    typ->Some_0,
                    old(self).objects.idents@.len() as int,
                    self.objects.idents@.len() as int,
                );
            }
        }
        Expr::CompositeLit(
            Box::new(
                CompositeLit {
                    typ: typ,
                    l_brace: lbrace,
                    elts: elts,
                    r_brace: rbrace,
                    incomplete: false,
                },
            ),
        )
    }

    /// Parses a primary expression: an operand and any chain of
    /// selections, type assertions, indexing, calls and composite
    /// literals after it.
    #[verifier::loop_isolation(false)]
    pub fn parse_primary_expr(&mut self, lhs: bool) -> (r: Expr)
        requires
            old(self).wf(),
        ensures
            final(self).wf(),
            Parser::prod_frame(*old(self), *final(self)),
            final(self).rem() <= old(self).rem(),
            !(old(self).token is EOF) ==> final(self).rem() < old(self).rem(),
            expr_ok(r, final(self).objects.idents@.len() as int),
        decreases self.rem(), 3int,
    {
        self.trace_begin("PrimaryExpr");
        let mut x = self.parse_operand(lhs);
        let mut lhs_m = lhs;
        let ghost entry = *self;
        loop
            invariant
                self.wf(),
                Parser::prod_frame(entry, *self),
                self.rem() <= entry.rem(),
                entry.rem() <= old(self).rem(),
                !(old(self).token is EOF) ==> entry.rem() < old(self).rem(),
                expr_ok(x, self.objects.idents@.len() as int),
            decreases self.rem(),
        {
            match &self.token {
                Token::PERIOD => {
                    self.next();
                    if lhs_m {
                        self.resolve(&x);
                    }
                    match &self.token {
                        Token::IDENT(_) => {
                            let cx = self.check_expr_or_type(x);
                            x = self.parse_selector(cx);
                        },
                        Token::LPAREN => {
                            let cx = self.check_expr(x);
                            x = self.parse_type_assertion(cx);
                        },
                        _ => {
                            let pos = self.pos;
                            self.error_expected(pos, "selector or type assertion");
                            self.next();
                            let sel = self.objects.push_ident(pos, String::from_str("_"));
                            proof {
                                lemma_expr_ok_grow(
                                    x,
                                    self.objects.idents@.len() - 1,
                                    self.objects.idents@.len() as int,
                                );
                            }
                            x = Expr::new_selector(x, sel);
                        },
                    }
                },
                Token::LBRACK => {
                    if lhs_m {
                        self.resolve(&x);
                    }
                    let cx = self.check_expr(x);
                    x = self.parse_index_or_slice(cx);
                },
                Token::LPAREN => {
                    if lhs_m {
                        self.resolve(&x);
                    }
                    let cx = self.check_expr_or_type(x);
                    x = self.parse_call_or_conversion(cx);
                },
                Token::LBRACE => {
                    let lit_ok = Parser::is_literal_type(&x) && (self.expr_level >= 0
                        || !Parser::is_type_name(&x));
                    if lit_ok {
                        if lhs_m {
                            self.resolve(&x);
                        }
                        x = self.parse_literal_value(Some(x));
                    } else {
                        break ;
                    }
                },
                _ => {
                    break ;
                },
            }
            lhs_m = false;  // no need to try to resolve again
        }
        self.trace_end();
        x
    }

    /// Re-associates a receive arrow with a channel type: the arrow read
    /// as a unary operator turns the channel chain it prefixes into
    /// receive-directed channels.  Hands back the rewritten chain, the
    /// direction the chain ended with, and the arrow position left over.
    fn chan_reassoc(&mut self, arrow: Pos, ct: ChanType) -> (r: (ChanType, ChanDir, Pos))
        requires
            old(self).wf(),
            expr_ok(ct.val, old(self).objects.idents@.len() as int),
        ensures
            final(self).wf(),
            Parser::same_core(*old(self), *final(self)),
            expr_ok(r.0.val, final(self).objects.idents@.len() as int),
        decreases ct,
    {
        if matches!(ct.dir, ChanDir::Recv) {
            // the chain read (<-(<-chan T))
            self.error_expected(ct.arrow, "'chan'");
        }
        let orig_dir = ct.dir;
        let new_arrow = ct.arrow;
        if matches!(orig_dir, ChanDir::Send) {
            match ct.val {
                Expr::Chan(c) => {
                    let (sub, last_dir, last_arrow) = self.chan_reassoc(new_arrow, *c);
                    return (
                        ChanType {
                            begin: arrow,
                            arrow: arrow,
                            dir: ChanDir::Recv,
                            val: Expr::Chan(Box::new(sub)),
                        },
                        last_dir,
                        last_arrow,
                    );
                },
                other => {
                    return (
                        ChanType { begin: arrow, arrow: arrow, dir: ChanDir::Recv, val: other },
                        orig_dir,
                        new_arrow,
                    );
                },
            }
        }
        (
            ChanType { begin: arrow, arrow: arrow, dir: ChanDir::Recv, val: ct.val },
            orig_dir,
            new_arrow,
        )
    }

    /// Parses a unary expression; a leading receive arrow may turn out to
    /// prefix a channel type rather than an expression.
    pub fn parse_unary_expr(&mut self, lhs: bool) -> (r: Expr)
        requires
            old(self).wf(),
        ensures
            final(self).wf(),
            Parser::prod_frame(*old(self), *final(self)),
            final(self).rem() <= old(self).rem(),
            !(old(self).token is EOF) ==> final(self).rem() < old(self).rem(),
            expr_ok(r, final(self).objects.idents@.len() as int),
        decreases self.rem(), 4int,
    {
        self.trace_begin("UnaryExpr");
        let ret = match &self.token {
            Token::ADD | Token::SUB | Token::NOT | Token::XOR | Token::AND => {
                let pos = self.pos;
                let op = self.token.clone();
                self.next();
                let x = self.parse_unary_expr(false);
                let cx = self.check_expr(x);
                Expr::new_unary_expr(pos, op, cx)
            },
            Token::ARROW => {
                // a channel type, or a receive expression; which one is
                // only known once the prefixed unary expression ends
                let arrow = self.pos;
                self.next();
                let x = self.parse_unary_expr(false);
                match x {
                    Expr::Chan(c) => {
                        let (node, last_dir, last_arrow) = self.chan_reassoc(arrow, *c);
                        if matches!(last_dir, ChanDir::Send) {
                            self.error_expected(last_arrow, "channel type");
                        }
                        Expr::Chan(Box::new(node))
                    },
                    other => {
                        let cx = self.check_expr(other);
                        Expr::new_unary_expr(arrow, Token::ARROW, cx)
                    },
                }
            },
            Token::MUL => {
                // a pointer type or a unary dereference
                let pos = self.pos;
                self.next();
                let x = self.parse_unary_expr(false);
                let cx = self.check_expr_or_type(x);
                Expr::Star(Box::new(StarExpr { star: pos, expr: cx }))
            },
            _ => self.parse_primary_expr(lhs),
        };
        self.trace_end();
        ret
    }

    /// Parses a binary expression of at least the given precedence.
    #[verifier::loop_isolation(false)]
    pub fn parse_binary_expr(&mut self, lhs: bool, prec1: usize) -> (r: Expr)
        requires
            old(self).wf(),
            prec1 >= 1,
        ensures
            final(self).wf(),
            Parser::prod_frame(*old(self), *final(self)),
            final(self).rem() <= old(self).rem(),
            !(old(self).token is EOF) ==> final(self).rem() < old(self).rem(),
            expr_ok(r, final(self).objects.idents@.len() as int),
        decreases self.rem(), 5int,
    {
        self.trace_begin("BinaryExpr");
        let mut x = self.parse_unary_expr(lhs);
        let ghost entry = *self;
        loop
            invariant
                self.wf(),
                Parser::prod_frame(entry, *self),
                self.rem() <= entry.rem(),
                entry.rem() <= old(self).rem(),
                !(old(self).token is EOF) ==> entry.rem() < old(self).rem(),
                expr_ok(x, self.objects.idents@.len() as int),
            decreases self.rem(),
        {
            let (op, prec) = self.token_prec();
            if prec < prec1 {
                break ;
            }
            let pos = self.expect(&op);
            if lhs {
                self.resolve(&x);
            }
            let ghost before = *self;
            let y = self.parse_binary_expr(false, prec + 1);
            proof {
                lemma_expr_ok_grow(
                    x,
                    before.objects.idents@.len() as int,
                    self.objects.idents@.len() as int,
                );
            }
            x = Expr::Binary(Box::new(BinaryExpr { expr_a: x, op_pos: pos, op: op, expr_b: y }));
        }
        self.trace_end();
        x
    }

    /// Parses an expression.
    pub fn parse_expr(&mut self, lhs: bool) -> (r: Expr)
        requires
            old(self).wf(),
        ensures
            final(self).wf(),
            Parser::prod_frame(*old(self), *final(self)),
            final(self).rem() <= old(self).rem(),
            !(old(self).token is EOF) ==> final(self).rem() < old(self).rem(),
            expr_ok(r, final(self).objects.idents@.len() as int),
        decreases self.rem(), 6int,
    {
        self.trace_begin("Expression");
        let x = self.parse_binary_expr(lhs, LOWEST_PREC + 1);
        self.trace_end();
        x
    }

    /// Parses a right-hand-side expression, checking it is a value.
    pub fn parse_rhs(&mut self) -> (r: Expr)
        requires
            old(self).wf(),
        ensures
            final(self).wf(),
            Parser::prod_frame(*old(self), *final(self)),
            final(self).rem() <= old(self).rem(),
            !(old(self).token is EOF) ==> final(self).rem() < old(self).rem(),
            expr_ok(r, final(self).objects.idents@.len() as int),
        decreases self.rem(), 7int,
    {
        let bak = self.in_rhs;
        self.in_rhs = true;
        let x0 = self.parse_expr(false);
        let x1 = self.check_expr(x0);
        self.in_rhs = bak;
        x1
    }

    /// Parses a right-hand side that may also be a type.
    pub fn parse_rhs_or_type(&mut self) -> (r: Expr)
        requires
            old(self).wf(),
        ensures
            final(self).wf(),
            Parser::prod_frame(*old(self), *final(self)),
            final(self).rem() <= old(self).rem(),
            !(old(self).token is EOF) ==> final(self).rem() < old(self).rem(),
            expr_ok(r, final(self).objects.idents@.len() as int),
        decreases self.rem(), 7int,
    {
        let bak = self.in_rhs;
        self.in_rhs = true;
        let x0 = self.parse_expr(false);
        let x = self.check_expr_or_type(x0);
        self.in_rhs = bak;
        x
    }

    /// Parses a comma-separated expression list.
    #[verifier::loop_isolation(false)]
    pub fn parse_expr_list(&mut self, lhs: bool) -> (r: Vec<Expr>)
        requires
            old(self).wf(),
        ensures
            final(self).wf(),
            Parser::prod_frame(*old(self), *final(self)),
            final(self).rem() <= old(self).rem(),
            !(old(self).token is EOF) ==> final(self).rem() < old(self).rem(),
            r@.len() > 0,
            forall|j: int|
                0 <= j < r@.len() ==> expr_ok(
                    #[trigger] r@[j],
                    final(self).objects.idents@.len() as int,
                ),
        decreases self.rem(), 8int,
    {
        self.trace_begin("ExpressionList");
        let mut list: Vec<Expr> = Vec::new();
        let e0 = self.parse_expr(lhs);
        let c0 = self.check_expr(e0);
        list.push(c0);
        let ghost entry = *self;
        loop
            invariant
                self.wf(),
                Parser::prod_frame(entry, *self),
                self.rem() <= entry.rem(),
                entry.rem() <= old(self).rem(),
                !(old(self).token is EOF) ==> entry.rem() < old(self).rem(),
                list@.len() > 0,
                forall|j: int|
                    0 <= j < list@.len() ==> expr_ok(
                        #[trigger] list@[j],
                        self.objects.idents@.len() as int,
                    ),
            decreases self.rem(),
        {
            if !matches!(self.token, Token::COMMA) {
                break ;
            }
            self.next();
            let ghost before = *self;
            let e = self.parse_expr(lhs);
            let c = self.check_expr(e);
            proof {
                assert forall|j: int|
                    0 <= j < list@.len() implies expr_ok(
                    #[trigger] list@[j],
                    self.objects.idents@.len() as int,
                ) by {
                    lemma_expr_ok_grow(
                        list@[j],
                        before.objects.idents@.len() as int,
                        self.objects.idents@.len() as int,
                    );
                }
            }
            list.push(c);
        }
        self.trace_end();
        list
    }

    /// Parses a left-hand-side expression list; identifiers stay
    /// unresolved before a short declaration or a label, and are
    /// resolved otherwise.
    #[verifier::loop_isolation(false)]
    pub fn parse_lhs_list(&mut self) -> (r: Vec<Expr>)
        requires
            old(self).wf(),
        ensures
            final(self).wf(),
            Parser::prod_frame(*old(self), *final(self)),
            final(self).rem() <= old(self).rem(),
            !(old(self).token is EOF) ==> final(self).rem() < old(self).rem(),
            r@.len() > 0,
            forall|j: int|
                0 <= j < r@.len() ==> expr_ok(
                    #[trigger] r@[j],
                    final(self).objects.idents@.len() as int,
                ),
        decreases self.rem(), 9int,
    {
        let bak = self.in_rhs;
        self.in_rhs = false;
        let list = self.parse_expr_list(true);
        match &self.token {
            // before a short declaration the caller declares the names
            Token::DEFINE => {},
            // before a label, or a communication clause, nothing resolves
            Token::COLON => {},
            _ => {
                let mut i: usize = 0;
                while i < list.len()
                    invariant
                        self.wf(),
                        forall|j: int|
                            0 <= j < list@.len() ==> expr_ok(
                                #[trigger] list@[j],
                                self.objects.idents@.len() as int,
                            ),
                        objs_grow(old(self).objects, self.objects),
                        self.rem() <= old(self).rem(),
                        !(old(self).token is EOF) ==> self.rem() < old(self).rem(),
                        self.top_scope == old(self).top_scope,
                        self.label_scope == old(self).label_scope,
                        self.target_stack@ == old(self).target_stack@,
                        forall|j2: int|
                            0 <= j2 < old(self).objects.scopes@.len()
                                ==> self.objects.scopes@[j2].outer == old(self).objects.scopes@[j2].outer,
                        0 <= i <= list@.len(),
                    decreases list@.len() - i,
                {
                    // identifiers must be declared elsewhere
                    self.try_resolve(&list[i], true);
                    i = i + 1;
                }
            },
        }
        self.in_rhs = bak;
        list
    }

    /// Parses a right-hand-side expression list.
    pub fn parse_rhs_list(&mut self) -> (r: Vec<Expr>)
        requires
            old(self).wf(),
        ensures
            final(self).wf(),
            Parser::prod_frame(*old(self), *final(self)),
            final(self).rem() <= old(self).rem(),
            !(old(self).token is EOF) ==> final(self).rem() < old(self).rem(),
            r@.len() > 0,
            forall|j: int|
                0 <= j < r@.len() ==> expr_ok(
                    #[trigger] r@[j],
                    final(self).objects.idents@.len() as int,
                ),
        decreases self.rem(), 9int,
    {
        let bak = self.in_rhs;
        self.in_rhs = true;
        let list = self.parse_expr_list(false);
        self.in_rhs = bak;
        list
    }
}

impl Parser {
    /// The statement parser is not provided in this core: a statement
    /// reads as a bad statement and consumes nothing.
    pub fn parse_stmt(&mut self) -> (r: Stmt)
        requires
            old(self).wf(),
        ensures
            final(self).wf(),
            Parser::same_core(*old(self), *final(self)),
            r == Stmt::new_bad_spec(0, 0),
    {
        Stmt::new_bad(0, 0)
    }

    /// Parses statements until a clause or block ends.
    pub fn parse_stmt_list(&mut self) -> (r: Vec<Stmt>)
        requires
            old(self).wf(),
        ensures
            final(self).wf(),
            final(self).objects == old(self).objects,
            final(self).rem() <= old(self).rem(),
            final(self).in_rhs == old(self).in_rhs,
            final(self).top_scope == old(self).top_scope,
            final(self).label_scope == old(self).label_scope,
            final(self).target_stack == old(self).target_stack,
    {
        self.trace_begin("StatementList");
        let mut list: Vec<Stmt> = Vec::new();
        loop
            invariant
                self.wf(),
                self.objects == old(self).objects,
                self.rem() <= old(self).rem(),
                self.in_rhs == old(self).in_rhs,
                self.top_scope == old(self).top_scope,
                self.label_scope == old(self).label_scope,
                self.target_stack == old(self).target_stack,
            decreases self.rem(),
        {
            let stop = match &self.token {
                Token::CASE | Token::DEFAULT | Token::RBRACE | Token::EOF => true,
                _ => false,
            };
            if stop {
                break ;
            }
            let s = self.parse_stmt();
            list.push(s);
            // the statement parser is a placeholder that consumes
            // nothing, so step over the token to keep going
            self.next();
        }
        self.trace_end();
        list
    }

    /// Parses a function body in the given scope.
    pub fn parse_body(&mut self, scope: ScopeIndex) -> (r: BlockStmt)
        requires
            old(self).wf(),
            scope < old(self).objects.scopes@.len(),
        ensures
            final(self).wf(),
            objs_grow(old(self).objects, final(self).objects),
            final(self).rem() <= old(self).rem(),
            final(self).in_rhs == old(self).in_rhs,
            final(self).top_scope == old(self).objects.scopes@[scope as int].outer,
            final(self).label_scope == old(self).label_scope,
            final(self).target_stack@ == old(self).target_stack@,
            forall|j: int|
                0 <= j < old(self).objects.scopes@.len() ==> final(self).objects.scopes@[j].outer
                    == old(self).objects.scopes@[j].outer,
    {
        self.trace_begin("Body");
        let lbrace = self.expect(&Token::LBRACE);
        self.top_scope = Some(scope);  // open the function scope
        self.open_label_scope();
        let list = self.parse_stmt_list();
        self.close_label_scope();
        self.close_scope();
        let rbrace = self.expect(&Token::RBRACE);
        self.trace_end();
        proof {
            assert(self.target_stack@ =~= old(self).target_stack@);
        }
        BlockStmt::new(lbrace, list, rbrace)
    }

    /// Parses a braced statement block in a fresh scope.
    pub fn parse_block_stmt(&mut self) -> (r: Stmt)
        requires
            old(self).wf(),
        ensures
            final(self).wf(),
            objs_grow(old(self).objects, final(self).objects),
            final(self).rem() <= old(self).rem(),
            final(self).in_rhs == old(self).in_rhs,
            final(self).top_scope == old(self).top_scope,
            final(self).label_scope == old(self).label_scope,
            final(self).target_stack == old(self).target_stack,
    {
        self.trace_begin("BlockStmt");
        let lbrace = self.expect(&Token::LBRACE);
        self.open_scope();
        let list = self.parse_stmt_list();
        self.close_scope();
        let rbrace = self.expect(&Token::RBRACE);
        self.trace_end();
        Stmt::box_block(BlockStmt::new(lbrace, list, rbrace))
    }
}

/// Parsing modes for a simple statement.
pub const PSSTMT_BASIC: usize = 1;

/// A label is permitted.
pub const PSSTMT_LABEL_OK: usize = 2;

/// A range clause is permitted.
pub const PSSTMT_RANGE_OK: usize = 3;

impl Parser {
    /// Declares the new names of a short variable declaration into the
    /// innermost scope: every identifier on the left ends linked to an
    /// entity, one fresh Var entity is created per identifier, a
    /// left-hand side that is no identifier is reported, and when no
    /// non-blank name was new that is reported too (so the diagnostics
    /// grow by one per non-identifier, plus at most one).
    #[verifier::loop_isolation(false)]
    #[verifier::rlimit(100)]
    pub fn short_var_decl(&mut self, stmt: &Stmt)
        requires
            old(self).wf(),
            old(self).top_scope is Some,
            stmt is Assign,
            crate::ast::stmt_assign_idx(*stmt) < old(self).objects.a_stmts@.len(),
            old(self).objects.a_stmts@[crate::ast::stmt_assign_idx(*stmt)].lhs@.len() > 0,
            forall|j: int|
                0 <= j < old(self).objects.a_stmts@[crate::ast::stmt_assign_idx(*stmt)].lhs@.len()
                    ==> expr_ok(
                    #[trigger] old(self).objects.a_stmts@[crate::ast::stmt_assign_idx(
                        *stmt,
                    )].lhs@[j],
                    old(self).objects.idents@.len() as int,
                ),
        ensures
            final(self).wf(),
            objs_grow(old(self).objects, final(self).objects),
            final(self).rem() == old(self).rem(),
            final(self).token == old(self).token,
            final(self).top_scope == old(self).top_scope,
            final(self).label_scope == old(self).label_scope,
            final(self).in_rhs == old(self).in_rhs,
            final(self).target_stack == old(self).target_stack,
            final(self).unresolved@ == old(self).unresolved@,
            final(self).objects.idents@.len() == old(self).objects.idents@.len(),
            final(self).objects.scopes@.len() == old(self).objects.scopes@.len(),
            final(self).objects.a_stmts@ == old(self).objects.a_stmts@,
            forall|j: int|
                0 <= j < old(self).objects.scopes@.len() && j != old(self).top_scope->Some_0 as int
                    ==> final(self).objects.scopes@[j] == old(self).objects.scopes@[j],
            ({
                let o0 = old(self).objects;
                let a = crate::ast::stmt_assign_idx(*stmt);
                let lhs = o0.a_stmts@[a].lhs@;
                let e0 = o0.entities@.len() as int;
                &&& final(self).objects.entities@.len() == e0 + crate::ast::lhs_ident_count(
                    lhs,
                    lhs.len() as int,
                )
                &&& (forall|j: int| 0 <= j < e0 ==> final(self).objects.entities@[j] == o0.entities@[j])
                &&& (forall|j: int|
                    e0 <= j < final(self).objects.entities@.len() ==> (
                    #[trigger] final(self).objects.entities@[j]).kind == EntityKind::Var && final(self).objects.entities@[j].decl
                        == DeclObj::AssignStmt(a as crate::ast::AssignStmtIndex)
                        && final(self).objects.entities@[j].data == EntityData::NoData)
                &&& (forall|k: int|
                    0 <= k < lhs.len() && (#[trigger] lhs[k]) is Ident ==> final(self).objects.idents@[crate::ast::expr_ident_idx(
                        lhs[k],
                    )].entity is Entity)
                &&& (forall|j: int|
                    0 <= j < o0.idents@.len() && (forall|k: int|
                        0 <= k < lhs.len() && lhs[k] is Ident ==> crate::ast::expr_ident_idx(
                            lhs[k],
                        ) != j) ==> final(self).objects.idents@[j] == o0.idents@[j])
                &&& (forall|j: int|
                    0 <= j < o0.idents@.len() ==> (#[trigger] final(self).objects.idents@[j]).name@
                        == o0.idents@[j].name@ && final(self).objects.idents@[j].pos
                        == o0.idents@[j].pos)
                &&& final(self).errors.errs@.len() >= old(self).errors.errs@.len()
                    + crate::ast::lhs_non_ident_count(lhs, lhs.len() as int)
                &&& final(self).errors.errs@.len() <= old(self).errors.errs@.len()
                    + crate::ast::lhs_non_ident_count(lhs, lhs.len() as int) + 1
            }),
    {
        let ghost o0 = self.objects;
        let assign: usize = match stmt {
            Stmt::Assign(idx) => *idx,
            _ => vstd::pervasive::unreached(),
        };
        let top = match &self.top_scope {
            Some(s) => *s,
            None => vstd::pervasive::unreached(),
        };
        let ghost si = top as int;
        let ghost lhs = o0.a_stmts@[assign as int].lhs@;
        let ghost e0 = o0.entities@.len() as int;
        let blank = String::from_str("_");
        let count = self.objects.a_stmts[assign].lhs.len();
        let mut n: usize = 0;  // how many names are new
        let mut i: usize = 0;
        while i < count
            invariant
                self.wf(),
                objs_grow(o0, self.objects),
                self.rem() == old(self).rem(),
                self.token == old(self).token,
                self.top_scope == old(self).top_scope,
                self.label_scope == old(self).label_scope,
                self.in_rhs == old(self).in_rhs,
                self.target_stack == old(self).target_stack,
                self.unresolved@ == old(self).unresolved@,
                top < self.objects.scopes@.len(),
                assign < self.objects.a_stmts@.len(),
                self.objects.a_stmts@ == o0.a_stmts@,
                count == lhs.len(),
                self.objects.idents@.len() == o0.idents@.len(),
                self.objects.scopes@.len() == o0.scopes@.len(),
                forall|j: int|
                    0 <= j < o0.scopes@.len() && j != si ==> self.objects.scopes@[j]
                        == o0.scopes@[j],
                forall|j: int|
                    0 <= j < count ==> expr_ok(#[trigger] lhs[j], o0.idents@.len() as int),
                self.objects.entities@.len() == e0 + crate::ast::lhs_ident_count(lhs, i as int),
                forall|j: int| 0 <= j < e0 ==> self.objects.entities@[j] == o0.entities@[j],
                forall|j: int|
                    e0 <= j < self.objects.entities@.len() ==> (
                    #[trigger] self.objects.entities@[j]).kind == EntityKind::Var
                        && self.objects.entities@[j].decl == DeclObj::AssignStmt(
                        assign as crate::ast::AssignStmtIndex,
                    ) && self.objects.entities@[j].data == EntityData::NoData,
                forall|k: int|
                    0 <= k < i && (#[trigger] lhs[k]) is Ident ==> self.objects.idents@[crate::ast::expr_ident_idx(
                        lhs[k],
                    )].entity is Entity,
                forall|j: int|
                    0 <= j < o0.idents@.len() && (forall|k: int|
                        0 <= k < i && lhs[k] is Ident ==> crate::ast::expr_ident_idx(lhs[k]) != j)
                        ==> self.objects.idents@[j] == o0.idents@[j],
                forall|j: int|
                    0 <= j < o0.idents@.len() ==> (#[trigger] self.objects.idents@[j]).name@
                        == o0.idents@[j].name@ && self.objects.idents@[j].pos == o0.idents@[j].pos,
                self.errors.errs@.len() == old(self).errors.errs@.len()
                    + crate::ast::lhs_non_ident_count(lhs, i as int),
                blank@ == "_"@,
                0 <= i <= count,
            decreases count - i,
        {
            let ident_or: Option<IdentIndex> = match &self.objects.a_stmts[assign].lhs[i] {
                Expr::Ident(id) => Some(**id),
                _ => None,
            };
            match ident_or {
                Some(id) => {
                    let name = self.objects.idents[id].name.clone();
                    let entity = self.objects.push_entity(
                        Entity {
                            kind: EntityKind::Var,
                            name: name.clone(),
                            decl: DeclObj::AssignStmt(assign),
                            data: EntityData::NoData,
                        },
                    );
                    self.objects.set_ident_entity(id, IdentEntity::Entity(entity));
                    if !(name == blank) {
                        let prev = self.objects.scope_insert(top, name, entity);
                        match prev {
                            Some(e) => {
                                // redeclared: reuse the earlier entity
                                self.objects.set_ident_entity(id, IdentEntity::Entity(e));
                            },
                            None => {
                                if n < usize::MAX {
                                    n = n + 1;
                                }
                            },
                        }
                    }
                },
                None => {
                    let pos = self.objects.a_stmts[assign].lhs[i].pos(&self.objects);
                    self.error_expected(pos, "identifier on left side of :=");
                },
            }
            i = i + 1;
        }
        if n == 0 {
            let pos = self.objects.a_stmts[assign].lhs[0].pos(&self.objects);
            self.error(pos, "no new variables on left side of :=");
        }
    }

    /// Parses a simple statement: an assignment or short declaration, a
    /// range clause where permitted, a label where permitted, a send, an
    /// increment or decrement, or a bare expression.  The second result
    /// tells a range clause apart.
    pub fn parse_simple_stmt(&mut self, mode: usize) -> (r: (Stmt, bool))
        requires
            old(self).wf(),
            old(self).top_scope is Some,
            old(self).label_scope is Some,
        ensures
            final(self).wf(),
            final(self).rem() <= old(self).rem(),
            !(old(self).token is EOF) ==> final(self).rem() < old(self).rem(),
            objs_grow(old(self).objects, final(self).objects),
            final(self).top_scope == old(self).top_scope,
            final(self).label_scope == old(self).label_scope,
            final(self).in_rhs == old(self).in_rhs,
            final(self).target_stack@ == old(self).target_stack@,
    {
        self.trace_begin("SimpleStmt");
        let mut is_range = false;
        let x = self.parse_lhs_list();
        let ghost after_lhs_len = self.objects.idents@.len() as int;
        let is_assign_op = match &self.token {
            Token::DEFINE | Token::ASSIGN | Token::ADD_ASSIGN | Token::SUB_ASSIGN
                | Token::MUL_ASSIGN | Token::QUO_ASSIGN | Token::REM_ASSIGN | Token::AND_ASSIGN
                | Token::OR_ASSIGN | Token::XOR_ASSIGN | Token::SHL_ASSIGN | Token::SHR_ASSIGN
                | Token::AND_NOT_ASSIGN => true,
            _ => false,
        };
        let ret: Stmt;
        if is_assign_op {
            // an assignment, possibly part of a range clause
            let mut pos = self.pos;
            let token0 = self.token.clone();
            self.next();
            let is_define = matches!(token0, Token::DEFINE);
            let is_plain_assign = matches!(token0, Token::ASSIGN);
            let y: Vec<Expr> = if mode == PSSTMT_RANGE_OK && matches!(self.token, Token::RANGE)
                && (is_define || is_plain_assign) {
                pos = self.pos;
                self.next();
                let rhs = self.parse_rhs();
                let mut v: Vec<Expr> = Vec::new();
                v.push(Expr::new_unary_expr(pos, Token::RANGE, rhs));
                is_range = true;
                v
            } else {
                self.parse_rhs_list()
            };
            let ghost lhs_view = x@;
            ret = Stmt::new_assign(&mut self.objects, x, pos, token0.clone(), y);
            if is_define {
                proof {
                    let idx = crate::ast::stmt_assign_idx(ret);
                    assert(idx == self.objects.a_stmts@.len() - 1);
                    assert(self.objects.a_stmts@[idx].lhs@ == lhs_view);
                    assert(lhs_view.len() > 0);
                    assert forall|j: int|
                        0 <= j < lhs_view.len() implies expr_ok(
                        #[trigger] lhs_view[j],
                        self.objects.idents@.len() as int,
                    ) by {
                        lemma_expr_ok_grow(
                            lhs_view[j],
                            after_lhs_len,
                            self.objects.idents@.len() as int,
                        );
                    }
                }
                self.short_var_decl(&ret);
            }
        } else {
            if x.len() > 1 {
                let p = x[0].pos(&self.objects);
                self.error_expected(p, "1 expression");
                // continue with the first expression
            }
            let mut xm = x;
            let x0 = xm.remove(0);
            match &self.token {
                Token::COLON => {
                    // a labeled statement
                    let colon = self.pos;
                    self.next();
                    let label_ok = mode == PSSTMT_LABEL_OK && matches!(x0, Expr::Ident(_));
                    if label_ok {
                        let lidx = x0.unwrap_ident();
                        // the scope of a label is the enclosing function
                        // body
                        let s = self.parse_stmt();
                        let ls = crate::ast::LabeledStmt::arena_new(
                            &mut self.objects,
                            lidx,
                            colon,
                            s,
                        );
                        let lsc = match &self.label_scope {
                            Some(sc) => *sc,
                            None => vstd::pervasive::unreached(),
                        };
                        self.declare(
                            DeclObj::LabeledStmt(ls),
                            EntityData::NoData,
                            EntityKind::Lbl,
                            &lsc,
                        );
                        ret = Stmt::Labeled(ls);
                    } else {
                        self.error(colon, "illegal label declaration");
                        let p = x0.pos(&self.objects);
                        ret = Stmt::new_bad(p, crate::ast::sat_add(colon, 1));
                    }
                },
                Token::ARROW => {
                    // a send statement
                    let arrow = self.pos;
                    self.next();
                    let y = self.parse_rhs();
                    ret = Stmt::Send(Box::new(SendStmt { chan: x0, arrow: arrow, val: y }));
                },
                Token::INC | Token::DEC => {
                    let s = Stmt::IncDec(
                        Box::new(
                            IncDecStmt {
                                expr: x0,
                                token_pos: self.pos,
                                token: self.token.clone(),
                            },
                        ),
                    );
                    self.next();
                    ret = s;
                },
                _ => {
                    ret = Stmt::Expr(Box::new(x0));
                },
            }
        }
        self.trace_end();
        (ret, is_range)
    }

    /// The parser's entry point; the grammar above the statement level is
    /// not provided in this core.
    pub fn parse(&mut self)
        requires
            old(self).wf(),
        ensures
            final(self).wf(),
            Parser::same_core(*old(self), *final(self)),
    {
        self.trace_begin("begin");
        self.trace_end();
    }
}

} // verus!
