use goscript::ast::{Expr, IdentEntity, Stmt};
use goscript::parser::{Parser, PSSTMT_BASIC};
use goscript::position::File;
use goscript::token::Token;

#[test]
fn test_parser() {
    let f = File::new("testfile1.gs".to_string(), 0, 100);
    let mut p = Parser::new(f, "1 + 3 /  (3 + 4 + 5) * 6 + a.b", true);
    p.next();
    p.parse_rhs();
}

#[test]
fn parse_rhs_builds_expected_shape() {
    // 1 + 3 / (3 + 4 + 5) * 6 + a.b parses as ((1 + (3/(3+4+5))*6) + a.b)
    let f = File::new("testfile1.gs".to_string(), 0, 100);
    let mut p = Parser::new(f, "1 + 3 /  (3 + 4 + 5) * 6 + a.b", false);
    p.next();
    let e = p.parse_rhs();
    match e {
        Expr::Binary(top) => {
            assert_eq!(top.op, Token::ADD);
            match &top.expr_b {
                Expr::Selector(sel) => {
                    match &sel.expr {
                        Expr::Ident(i) => {
                            assert_eq!(p.objects.idents[**i].name, "a");
                        }
                        other => panic!("left of selector should be an identifier: {:?}", other),
                    }
                    assert_eq!(p.objects.idents[sel.sel].name, "b");
                }
                other => panic!("right operand should be a selector: {:?}", other),
            }
            match &top.expr_a {
                Expr::Binary(left) => {
                    assert_eq!(left.op, Token::ADD);
                    match &left.expr_b {
                        Expr::Binary(mul) => {
                            assert_eq!(mul.op, Token::MUL);
                            match &mul.expr_a {
                                Expr::Binary(div) => {
                                    assert_eq!(div.op, Token::QUO);
                                }
                                other => panic!("expected a division: {:?}", other),
                            }
                        }
                        other => panic!("expected a multiplication: {:?}", other),
                    }
                }
                other => panic!("expected a nested sum: {:?}", other),
            }
        }
        other => panic!("expected a binary expression: {:?}", other),
    }
    // no diagnostics on a well-formed expression
    assert_eq!(p.errors.errs.len(), 0);
}

#[test]
fn parse_simple_stmt_short_decl_declares_new_local() {
    let f = File::new("testfile1.gs".to_string(), 0, 100);
    let mut p = Parser::new(f, "x := 7", false);
    p.next();
    p.open_scope();
    p.open_label_scope();
    let (stmt, is_range) = p.parse_simple_stmt(PSSTMT_BASIC);
    assert!(!is_range);
    match stmt {
        Stmt::Assign(idx) => {
            let a = &p.objects.a_stmts[idx];
            assert_eq!(a.lhs.len(), 1);
            assert_eq!(a.token, Token::DEFINE);
            assert_eq!(a.rhs.len(), 1);
            match &a.lhs[0] {
                Expr::Ident(i) => {
                    let ident = &p.objects.idents[**i];
                    assert_eq!(ident.name, "x");
                    // the new name is linked to a declared entity
                    match ident.entity {
                        IdentEntity::Entity(e) => {
                            assert_eq!(p.objects.entities[e].name, "x");
                        }
                        other => panic!("x should be declared: {:?}", other),
                    }
                }
                other => panic!("left side should be an identifier: {:?}", other),
            }
            match &a.rhs[0] {
                Expr::BasicLit(b) => {
                    assert_eq!(b.token, Token::INT("7".to_string()));
                }
                other => panic!("right side should be a literal: {:?}", other),
            }
        }
        other => panic!("expected an assignment: {:?}", other),
    }
    // no new variables on the left is an error
    let f2 = File::new("testfile1.gs".to_string(), 0, 100);
    let mut p2 = Parser::new(f2, "x := 1\nx := 2", false);
    p2.next();
    p2.open_scope();
    p2.open_label_scope();
    p2.parse_simple_stmt(PSSTMT_BASIC);
    let before = p2.errors.errs.len();
    assert_eq!(before, 0);
    p2.next(); // step over the inserted semicolon
    p2.parse_simple_stmt(PSSTMT_BASIC);
    assert!(p2.errors.errs.len() > 0);
}

#[test]
fn parse_type_reads_composite_types() {
    let f = File::new("testfile1.gs".to_string(), 0, 100);
    let mut p = Parser::new(f, "map[string][]*chan int", false);
    p.next();
    let t = p.parse_type();
    match t {
        Expr::GosMap(m) => {
            match &m.key {
                Expr::Ident(i) => assert_eq!(p.objects.idents[**i].name, "string"),
                other => panic!("map key should be a type name: {:?}", other),
            }
            match &m.val {
                Expr::Array(arr) => {
                    assert!(arr.len.is_none());
                    match &arr.elt {
                        Expr::Star(s) => match &s.expr {
                            Expr::Chan(c) => match &c.val {
                                Expr::Ident(i) => {
                                    assert_eq!(p.objects.idents[**i].name, "int")
                                }
                                other => panic!("channel element: {:?}", other),
                            },
                            other => panic!("pointer base: {:?}", other),
                        },
                        other => panic!("slice element: {:?}", other),
                    }
                }
                other => panic!("map value should be a slice type: {:?}", other),
            }
        }
        other => panic!("expected a map type: {:?}", other),
    }
    assert_eq!(p.errors.errs.len(), 0);
}

#[test]
fn parse_signature_reads_empty_parameter_list() {
    let f = File::new("testfile1.gs".to_string(), 0, 100);
    let mut p = Parser::new(f, "func()", false);
    p.next();
    let e = p.try_type().expect("a func type should parse");
    match e {
        Expr::Func(ft) => {
            assert_eq!(ft.params.list.len(), 0);
            let results = ft.results.as_ref().expect("results should be present");
            assert_eq!(results.list.len(), 0);
        }
        other => panic!("expected a func type: {:?}", other),
    }
    assert_eq!(p.errors.errs.len(), 0);
}

#[test]
fn parse_signature_recovers_from_grouped_parameters() {
    // grouped parameter declarations degrade to a single anonymous group,
    // with diagnostics, and parsing still hands a function type back
    let f = File::new("testfile1.gs".to_string(), 0, 100);
    let mut p = Parser::new(f, "func(a, b int, c string) (bool, int)", false);
    p.next();
    let e = p.try_type().expect("a func type should parse");
    match e {
        Expr::Func(ft) => {
            assert_eq!(ft.params.list.len(), 1);
            let first = &p.objects.fields[ft.params.list[0]];
            assert_eq!(first.names.len(), 0);
            match &first.typ {
                Expr::Ident(i) => assert_eq!(p.objects.idents[**i].name, "a"),
                other => panic!("expected a type name: {:?}", other),
            }
        }
        other => panic!("expected a func type: {:?}", other),
    }
    assert!(p.errors.errs.len() > 0);
}

#[test]
fn unresolved_identifier_is_collected() {
    let f = File::new("testfile1.gs".to_string(), 0, 100);
    let mut p = Parser::new(f, "y + 1", false);
    p.next();
    p.parse_rhs();
    assert_eq!(p.unresolved.len(), 1);
    let i = p.unresolved[0];
    assert_eq!(p.objects.idents[i].name, "y");
    assert_eq!(p.objects.idents[i].entity, IdentEntity::Sentinel);
}
