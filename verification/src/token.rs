//! The token vocabulary of the language's source form: literals carry
//! their text, the automatically inserted semicolon is told apart from a
//! written one by its flag, and every binary operator knows its
//! precedence.

use vstd::prelude::*;

verus! {

/// The lowest operator precedence; every binary operator binds tighter.
pub const LOWEST_PREC: usize = 0;

#[allow(non_camel_case_types)]
#[derive(Debug)]
pub enum Token {
    ILLEGAL(String),
    EOF,
    COMMENT(String),
    IDENT(String),
    INT(String),
    FLOAT(String),
    IMAG(String),
    CHAR(String),
    STRING(String),
    ADD,
    SUB,
    MUL,
    QUO,
    REM,
    AND,
    OR,
    XOR,
    SHL,
    SHR,
    AND_NOT,
    ADD_ASSIGN,
    SUB_ASSIGN,
    MUL_ASSIGN,
    QUO_ASSIGN,
    REM_ASSIGN,
    AND_ASSIGN,
    OR_ASSIGN,
    XOR_ASSIGN,
    SHL_ASSIGN,
    SHR_ASSIGN,
    AND_NOT_ASSIGN,
    LAND,
    LOR,
    ARROW,
    INC,
    DEC,
    EQL,
    LSS,
    GTR,
    ASSIGN,
    NOT,
    NEQ,
    LEQ,
    GEQ,
    DEFINE,
    ELLIPSIS,
    LPAREN,
    LBRACK,
    LBRACE,
    COMMA,
    PERIOD,
    RPAREN,
    RBRACK,
    RBRACE,
    /// The flag is true for a semicolon written in the source, false for
    /// one the scanner inserted at a line end.
    SEMICOLON(bool),
    COLON,
    BREAK,
    CASE,
    CHAN,
    CONST,
    CONTINUE,
    DEFAULT,
    DEFER,
    ELSE,
    FALLTHROUGH,
    FOR,
    FUNC,
    GO,
    GOTO,
    IF,
    IMPORT,
    INTERFACE,
    MAP,
    PACKAGE,
    RANGE,
    RETURN,
    SELECT,
    STRUCT,
    SWITCH,
    TYPE,
    VAR,
}

/// What token equality means: the same variant, and for a literal the
/// same text, for a semicolon the same flag.
pub open spec fn token_eq(a: Token, b: Token) -> bool {
    match (a, b) {
        (Token::ILLEGAL(x), Token::ILLEGAL(y)) => x@ == y@,
        (Token::COMMENT(x), Token::COMMENT(y)) => x@ == y@,
        (Token::IDENT(x), Token::IDENT(y)) => x@ == y@,
        (Token::INT(x), Token::INT(y)) => x@ == y@,
        (Token::FLOAT(x), Token::FLOAT(y)) => x@ == y@,
        (Token::IMAG(x), Token::IMAG(y)) => x@ == y@,
        (Token::CHAR(x), Token::CHAR(y)) => x@ == y@,
        (Token::STRING(x), Token::STRING(y)) => x@ == y@,
        (Token::SEMICOLON(x), Token::SEMICOLON(y)) => x == y,
        _ => is_same_kind(a, b),
    }
}

/// Whether two tokens are the same payload-free variant.
pub open spec fn is_same_kind(a: Token, b: Token) -> bool {
    match (a, b) {
        (Token::EOF, Token::EOF) => true,
        (Token::ADD, Token::ADD) => true,
        (Token::SUB, Token::SUB) => true,
        (Token::MUL, Token::MUL) => true,
        (Token::QUO, Token::QUO) => true,
        (Token::REM, Token::REM) => true,
        (Token::AND, Token::AND) => true,
        (Token::OR, Token::OR) => true,
        (Token::XOR, Token::XOR) => true,
        (Token::SHL, Token::SHL) => true,
        (Token::SHR, Token::SHR) => true,
        (Token::AND_NOT, Token::AND_NOT) => true,
        (Token::ADD_ASSIGN, Token::ADD_ASSIGN) => true,
        (Token::SUB_ASSIGN, Token::SUB_ASSIGN) => true,
        (Token::MUL_ASSIGN, Token::MUL_ASSIGN) => true,
        (Token::QUO_ASSIGN, Token::QUO_ASSIGN) => true,
        (Token::REM_ASSIGN, Token::REM_ASSIGN) => true,
        (Token::AND_ASSIGN, Token::AND_ASSIGN) => true,
        (Token::OR_ASSIGN, Token::OR_ASSIGN) => true,
        (Token::XOR_ASSIGN, Token::XOR_ASSIGN) => true,
        (Token::SHL_ASSIGN, Token::SHL_ASSIGN) => true,
        (Token::SHR_ASSIGN, Token::SHR_ASSIGN) => true,
        (Token::AND_NOT_ASSIGN, Token::AND_NOT_ASSIGN) => true,
        (Token::LAND, Token::LAND) => true,
        (Token::LOR, Token::LOR) => true,
        (Token::ARROW, Token::ARROW) => true,
        (Token::INC, Token::INC) => true,
        (Token::DEC, Token::DEC) => true,
        (Token::EQL, Token::EQL) => true,
        (Token::LSS, Token::LSS) => true,
        (Token::GTR, Token::GTR) => true,
        (Token::ASSIGN, Token::ASSIGN) => true,
        (Token::NOT, Token::NOT) => true,
        (Token::NEQ, Token::NEQ) => true,
        (Token::LEQ, Token::LEQ) => true,
        (Token::GEQ, Token::GEQ) => true,
        (Token::DEFINE, Token::DEFINE) => true,
        (Token::ELLIPSIS, Token::ELLIPSIS) => true,
        (Token::LPAREN, Token::LPAREN) => true,
        (Token::LBRACK, Token::LBRACK) => true,
        (Token::LBRACE, Token::LBRACE) => true,
        (Token::COMMA, Token::COMMA) => true,
        (Token::PERIOD, Token::PERIOD) => true,
        (Token::RPAREN, Token::RPAREN) => true,
        (Token::RBRACK, Token::RBRACK) => true,
        (Token::RBRACE, Token::RBRACE) => true,
        (Token::COLON, Token::COLON) => true,
        (Token::BREAK, Token::BREAK) => true,
        (Token::CASE, Token::CASE) => true,
        (Token::CHAN, Token::CHAN) => true,
        (Token::CONST, Token::CONST) => true,
        (Token::CONTINUE, Token::CONTINUE) => true,
        (Token::DEFAULT, Token::DEFAULT) => true,
        (Token::DEFER, Token::DEFER) => true,
        (Token::ELSE, Token::ELSE) => true,
        (Token::FALLTHROUGH, Token::FALLTHROUGH) => true,
        (Token::FOR, Token::FOR) => true,
        (Token::FUNC, Token::FUNC) => true,
        (Token::GO, Token::GO) => true,
        (Token::GOTO, Token::GOTO) => true,
        (Token::IF, Token::IF) => true,
        (Token::IMPORT, Token::IMPORT) => true,
        (Token::INTERFACE, Token::INTERFACE) => true,
        (Token::MAP, Token::MAP) => true,
        (Token::PACKAGE, Token::PACKAGE) => true,
        (Token::RANGE, Token::RANGE) => true,
        (Token::RETURN, Token::RETURN) => true,
        (Token::SELECT, Token::SELECT) => true,
        (Token::STRUCT, Token::STRUCT) => true,
        (Token::SWITCH, Token::SWITCH) => true,
        (Token::TYPE, Token::TYPE) => true,
        (Token::VAR, Token::VAR) => true,
        _ => false,
    }
}

impl Clone for Token {
    /// A copy of the token, equal to the original.
    fn clone(&self) -> (r: Token)
        ensures
            r == *self,
    {
        match self {
            Token::ILLEGAL(s) => Token::ILLEGAL(s.clone()),
            Token::EOF => Token::EOF,
            Token::COMMENT(s) => Token::COMMENT(s.clone()),
            Token::IDENT(s) => Token::IDENT(s.clone()),
            Token::INT(s) => Token::INT(s.clone()),
            Token::FLOAT(s) => Token::FLOAT(s.clone()),
            Token::IMAG(s) => Token::IMAG(s.clone()),
            Token::CHAR(s) => Token::CHAR(s.clone()),
            Token::STRING(s) => Token::STRING(s.clone()),
            Token::ADD => Token::ADD,
            Token::SUB => Token::SUB,
            Token::MUL => Token::MUL,
            Token::QUO => Token::QUO,
            Token::REM => Token::REM,
            Token::AND => Token::AND,
            Token::OR => Token::OR,
            Token::XOR => Token::XOR,
            Token::SHL => Token::SHL,
            Token::SHR => Token::SHR,
            Token::AND_NOT => Token::AND_NOT,
            Token::ADD_ASSIGN => Token::ADD_ASSIGN,
            Token::SUB_ASSIGN => Token::SUB_ASSIGN,
            Token::MUL_ASSIGN => Token::MUL_ASSIGN,
            Token::QUO_ASSIGN => Token::QUO_ASSIGN,
            Token::REM_ASSIGN => Token::REM_ASSIGN,
            Token::AND_ASSIGN => Token::AND_ASSIGN,
            Token::OR_ASSIGN => Token::OR_ASSIGN,
            Token::XOR_ASSIGN => Token::XOR_ASSIGN,
            Token::SHL_ASSIGN => Token::SHL_ASSIGN,
            Token::SHR_ASSIGN => Token::SHR_ASSIGN,
            Token::AND_NOT_ASSIGN => Token::AND_NOT_ASSIGN,
            Token::LAND => Token::LAND,
            Token::LOR => Token::LOR,
            Token::ARROW => Token::ARROW,
            Token::INC => Token::INC,
            Token::DEC => Token::DEC,
            Token::EQL => Token::EQL,
            Token::LSS => Token::LSS,
            Token::GTR => Token::GTR,
            Token::ASSIGN => Token::ASSIGN,
            Token::NOT => Token::NOT,
            Token::NEQ => Token::NEQ,
            Token::LEQ => Token::LEQ,
            Token::GEQ => Token::GEQ,
            Token::DEFINE => Token::DEFINE,
            Token::ELLIPSIS => Token::ELLIPSIS,
            Token::LPAREN => Token::LPAREN,
            Token::LBRACK => Token::LBRACK,
            Token::LBRACE => Token::LBRACE,
            Token::COMMA => Token::COMMA,
            Token::PERIOD => Token::PERIOD,
            Token::RPAREN => Token::RPAREN,
            Token::RBRACK => Token::RBRACK,
            Token::RBRACE => Token::RBRACE,
            Token::SEMICOLON(b) => Token::SEMICOLON(*b),
            Token::COLON => Token::COLON,
            Token::BREAK => Token::BREAK,
            Token::CASE => Token::CASE,
            Token::CHAN => Token::CHAN,
            Token::CONST => Token::CONST,
            Token::CONTINUE => Token::CONTINUE,
            Token::DEFAULT => Token::DEFAULT,
            Token::DEFER => Token::DEFER,
            Token::ELSE => Token::ELSE,
            Token::FALLTHROUGH => Token::FALLTHROUGH,
            Token::FOR => Token::FOR,
            Token::FUNC => Token::FUNC,
            Token::GO => Token::GO,
            Token::GOTO => Token::GOTO,
            Token::IF => Token::IF,
            Token::IMPORT => Token::IMPORT,
            Token::INTERFACE => Token::INTERFACE,
            Token::MAP => Token::MAP,
            Token::PACKAGE => Token::PACKAGE,
            Token::RANGE => Token::RANGE,
            Token::RETURN => Token::RETURN,
            Token::SELECT => Token::SELECT,
            Token::STRUCT => Token::STRUCT,
            Token::SWITCH => Token::SWITCH,
            Token::TYPE => Token::TYPE,
            Token::VAR => Token::VAR,
        }
    }
}

impl PartialEq for Token {
    fn eq(&self, other: &Token) -> (r: bool) {
        match (self, other) {
            (Token::ILLEGAL(x), Token::ILLEGAL(y)) => *x == *y,
            (Token::COMMENT(x), Token::COMMENT(y)) => *x == *y,
            (Token::IDENT(x), Token::IDENT(y)) => *x == *y,
            (Token::INT(x), Token::INT(y)) => *x == *y,
            (Token::FLOAT(x), Token::FLOAT(y)) => *x == *y,
            (Token::IMAG(x), Token::IMAG(y)) => *x == *y,
            (Token::CHAR(x), Token::CHAR(y)) => *x == *y,
            (Token::STRING(x), Token::STRING(y)) => *x == *y,
            (Token::SEMICOLON(x), Token::SEMICOLON(y)) => *x == *y,
            (a, b) => a.same_kind(b),
        }
    }
}

impl vstd::std_specs::cmp::PartialEqSpecImpl for Token {
    open spec fn obeys_eq_spec() -> bool {
        true
    }

    open spec fn eq_spec(&self, other: &Token) -> bool {
        token_eq(*self, *other)
    }
}

impl Token {
    /// Decides whether two tokens are the same payload-free variant.
    pub fn same_kind(&self, other: &Token) -> (r: bool)
        ensures
            r == is_same_kind(*self, *other),
    {
        match (self, other) {
            (Token::EOF, Token::EOF) => true,
            (Token::ADD, Token::ADD) => true,
            (Token::SUB, Token::SUB) => true,
            (Token::MUL, Token::MUL) => true,
            (Token::QUO, Token::QUO) => true,
            (Token::REM, Token::REM) => true,
            (Token::AND, Token::AND) => true,
            (Token::OR, Token::OR) => true,
            (Token::XOR, Token::XOR) => true,
            (Token::SHL, Token::SHL) => true,
            (Token::SHR, Token::SHR) => true,
            (Token::AND_NOT, Token::AND_NOT) => true,
            (Token::ADD_ASSIGN, Token::ADD_ASSIGN) => true,
            (Token::SUB_ASSIGN, Token::SUB_ASSIGN) => true,
            (Token::MUL_ASSIGN, Token::MUL_ASSIGN) => true,
            (Token::QUO_ASSIGN, Token::QUO_ASSIGN) => true,
            (Token::REM_ASSIGN, Token::REM_ASSIGN) => true,
            (Token::AND_ASSIGN, Token::AND_ASSIGN) => true,
            (Token::OR_ASSIGN, Token::OR_ASSIGN) => true,
            (Token::XOR_ASSIGN, Token::XOR_ASSIGN) => true,
            (Token::SHL_ASSIGN, Token::SHL_ASSIGN) => true,
            (Token::SHR_ASSIGN, Token::SHR_ASSIGN) => true,
            (Token::AND_NOT_ASSIGN, Token::AND_NOT_ASSIGN) => true,
            (Token::LAND, Token::LAND) => true,
            (Token::LOR, Token::LOR) => true,
            (Token::ARROW, Token::ARROW) => true,
            (Token::INC, Token::INC) => true,
            (Token::DEC, Token::DEC) => true,
            (Token::EQL, Token::EQL) => true,
            (Token::LSS, Token::LSS) => true,
            (Token::GTR, Token::GTR) => true,
            (Token::ASSIGN, Token::ASSIGN) => true,
            (Token::NOT, Token::NOT) => true,
            (Token::NEQ, Token::NEQ) => true,
            (Token::LEQ, Token::LEQ) => true,
            (Token::GEQ, Token::GEQ) => true,
            (Token::DEFINE, Token::DEFINE) => true,
            (Token::ELLIPSIS, Token::ELLIPSIS) => true,
            (Token::LPAREN, Token::LPAREN) => true,
            (Token::LBRACK, Token::LBRACK) => true,
            (Token::LBRACE, Token::LBRACE) => true,
            (Token::COMMA, Token::COMMA) => true,
            (Token::PERIOD, Token::PERIOD) => true,
            (Token::RPAREN, Token::RPAREN) => true,
            (Token::RBRACK, Token::RBRACK) => true,
            (Token::RBRACE, Token::RBRACE) => true,
            (Token::COLON, Token::COLON) => true,
            (Token::BREAK, Token::BREAK) => true,
            (Token::CASE, Token::CASE) => true,
            (Token::CHAN, Token::CHAN) => true,
            (Token::CONST, Token::CONST) => true,
            (Token::CONTINUE, Token::CONTINUE) => true,
            (Token::DEFAULT, Token::DEFAULT) => true,
            (Token::DEFER, Token::DEFER) => true,
            (Token::ELSE, Token::ELSE) => true,
            (Token::FALLTHROUGH, Token::FALLTHROUGH) => true,
            (Token::FOR, Token::FOR) => true,
            (Token::FUNC, Token::FUNC) => true,
            (Token::GO, Token::GO) => true,
            (Token::GOTO, Token::GOTO) => true,
            (Token::IF, Token::IF) => true,
            (Token::IMPORT, Token::IMPORT) => true,
            (Token::INTERFACE, Token::INTERFACE) => true,
            (Token::MAP, Token::MAP) => true,
            (Token::PACKAGE, Token::PACKAGE) => true,
            (Token::RANGE, Token::RANGE) => true,
            (Token::RETURN, Token::RETURN) => true,
            (Token::SELECT, Token::SELECT) => true,
            (Token::STRUCT, Token::STRUCT) => true,
            (Token::SWITCH, Token::SWITCH) => true,
            (Token::TYPE, Token::TYPE) => true,
            (Token::VAR, Token::VAR) => true,
            _ => false,
        }
    }

    /// The binding strength of a binary operator; everything else binds at
    /// the lowest level.
    pub open spec fn spec_precedence(self) -> usize {
        match self {
            Token::LOR => 1,
            Token::LAND => 2,
            Token::EQL | Token::NEQ | Token::LSS | Token::LEQ | Token::GTR | Token::GEQ => 3,
            Token::ADD | Token::SUB | Token::OR | Token::XOR => 4,
            Token::MUL | Token::QUO | Token::REM | Token::SHL | Token::SHR | Token::AND
                | Token::AND_NOT => 5,
            _ => LOWEST_PREC,
        }
    }

    pub fn precedence(&self) -> (r: usize)
        ensures
            r == self.spec_precedence(),
    {
        match self {
            Token::LOR => 1,
            Token::LAND => 2,
            Token::EQL | Token::NEQ | Token::LSS | Token::LEQ | Token::GTR | Token::GEQ => 3,
            Token::ADD | Token::SUB | Token::OR | Token::XOR => 4,
            Token::MUL | Token::QUO | Token::REM | Token::SHL | Token::SHR | Token::AND
                | Token::AND_NOT => 5,
            _ => LOWEST_PREC,
        }
    }

    /// Whether a statement may begin with this token; used for error
    /// recovery.
    pub open spec fn spec_is_stmt_start(self) -> bool {
        match self {
            Token::BREAK | Token::CONST | Token::CONTINUE | Token::DEFER | Token::FALLTHROUGH
                | Token::FOR | Token::GO | Token::GOTO | Token::IF | Token::RETURN | Token::SELECT
                | Token::SWITCH | Token::TYPE | Token::VAR => true,
            _ => false,
        }
    }

    pub fn is_stmt_start(&self) -> (r: bool)
        ensures
            r == self.spec_is_stmt_start(),
    {
        match self {
            Token::BREAK | Token::CONST | Token::CONTINUE | Token::DEFER | Token::FALLTHROUGH
                | Token::FOR | Token::GO | Token::GOTO | Token::IF | Token::RETURN | Token::SELECT
                | Token::SWITCH | Token::TYPE | Token::VAR => true,
            _ => false,
        }
    }

    /// Whether the scanner inserts a semicolon when a line ends after this
    /// token.
    pub fn ends_statement(&self) -> (r: bool) {
        match self {
            Token::IDENT(_) | Token::INT(_) | Token::FLOAT(_) | Token::IMAG(_) | Token::CHAR(_)
                | Token::STRING(_) | Token::BREAK | Token::CONTINUE | Token::FALLTHROUGH
                | Token::RETURN | Token::INC | Token::DEC | Token::RPAREN | Token::RBRACK
                | Token::RBRACE => true,
            _ => false,
        }
    }

    /// The display text of a token, used in messages.
    pub fn text(&self) -> (r: String) {
        let s: &str = match self {
            Token::ILLEGAL(_) => "ILLEGAL",
            Token::EOF => "EOF",
            Token::COMMENT(_) => "COMMENT",
            Token::IDENT(lit) => return lit.clone(),
            Token::INT(lit) => return lit.clone(),
            Token::FLOAT(lit) => return lit.clone(),
            Token::IMAG(lit) => return lit.clone(),
            Token::CHAR(lit) => return lit.clone(),
            Token::STRING(lit) => return lit.clone(),
            Token::ADD => "+",
            Token::SUB => "-",
            Token::MUL => "*",
            Token::QUO => "/",
            Token::REM => "%",
            Token::AND => "&",
            Token::OR => "|",
            Token::XOR => "^",
            Token::SHL => "<<",
            Token::SHR => ">>",
            Token::AND_NOT => "&^",
            Token::ADD_ASSIGN => "+=",
            Token::SUB_ASSIGN => "-=",
            Token::MUL_ASSIGN => "*=",
            Token::QUO_ASSIGN => "/=",
            Token::REM_ASSIGN => "%=",
            Token::AND_ASSIGN => "&=",
            Token::OR_ASSIGN => "|=",
            Token::XOR_ASSIGN => "^=",
            Token::SHL_ASSIGN => "<<=",
            Token::SHR_ASSIGN => ">>=",
            Token::AND_NOT_ASSIGN => "&^=",
            Token::LAND => "&&",
            Token::LOR => "||",
            Token::ARROW => "<-",
            Token::INC => "++",
            Token::DEC => "--",
            Token::EQL => "==",
            Token::LSS => "<",
            Token::GTR => ">",
            Token::ASSIGN => "=",
            Token::NOT => "!",
            Token::NEQ => "!=",
            Token::LEQ => "<=",
            Token::GEQ => ">=",
            Token::DEFINE => ":=",
            Token::ELLIPSIS => "...",
            Token::LPAREN => "(",
            Token::LBRACK => "[",
            Token::LBRACE => "{",
            Token::COMMA => ",",
            Token::PERIOD => ".",
            Token::RPAREN => ")",
            Token::RBRACK => "]",
            Token::RBRACE => "}",
            Token::SEMICOLON(_) => ";",
            Token::COLON => ":",
            Token::BREAK => "break",
            Token::CASE => "case",
            Token::CHAN => "chan",
            Token::CONST => "const",
            Token::CONTINUE => "continue",
            Token::DEFAULT => "default",
            Token::DEFER => "defer",
            Token::ELSE => "else",
            Token::FALLTHROUGH => "fallthrough",
            Token::FOR => "for",
            Token::FUNC => "func",
            Token::GO => "go",
            Token::GOTO => "goto",
            Token::IF => "if",
            Token::IMPORT => "import",
            Token::INTERFACE => "interface",
            Token::MAP => "map",
            Token::PACKAGE => "package",
            Token::RANGE => "range",
            Token::RETURN => "return",
            Token::SELECT => "select",
            Token::STRUCT => "struct",
            Token::SWITCH => "switch",
            Token::TYPE => "type",
            Token::VAR => "var",
        };
        s.to_owned()
    }
}

} // verus!
