//! The lexical scanner: turns source text into the token run the parser
//! pulls from, recording line starts in the file and inserting a
//! semicolon at a line end that closes a statement, as the language's
//! grammar asks.  The run always ends with a single end-of-input token.

use vstd::prelude::*;
use crate::position::{File, Pos};
use crate::token::Token;

verus! {

/// Relies on String::push: appends exactly one character.
#[verifier::external_body]
pub(crate) fn string_push(s: &mut String, c: char)
    ensures
        final(s)@ == old(s)@.push(c),
{
    s.push(c);
}

/// Builds a string whose characters are the given ASCII bytes.
#[verifier::loop_isolation(false)]
fn bytes_to_string(v: &[u8], from: usize, to: usize) -> (r: String)
    requires
        from <= to <= v@.len(),
    ensures
        r@.len() == to - from,
        forall|i: int| 0 <= i < to - from ==> r@[i] == v@[from + i] as char,
{
    let mut s = String::new();
    let mut i: usize = from;
    while i < to
        invariant
            from <= i <= to,
            s@.len() == i - from,
            forall|j: int| 0 <= j < i - from ==> s@[j] == v@[from + j] as char,
        decreases to - i,
    {
        string_push(&mut s, v[i] as char);
        i = i + 1;
    }
    s
}

/// Whether a run of bytes spells a keyword.
#[verifier::loop_isolation(false)]
fn bytes_match(v: &[u8], from: usize, to: usize, kw: &str) -> (r: bool)
    requires
        from <= to <= v@.len(),
{
    let kb = kw.as_bytes();
    if to - from != kb.len() {
        return false;
    }
    let mut i: usize = 0;
    while i < kb.len()
        invariant
            0 <= i <= kb@.len(),
            to - from == kb@.len(),
            from + kb@.len() <= v@.len(),
        decreases kb@.len() - i,
    {
        if v[from + i] != kb[i] {
            return false;
        }
        i = i + 1;
    }
    true
}

fn is_letter(c: u8) -> (r: bool) {
    (c >= 97 && c <= 122) || (c >= 65 && c <= 90) || c == 95
}

fn is_digit(c: u8) -> (r: bool) {
    c >= 48 && c <= 57
}

fn is_hex_digit(c: u8) -> (r: bool) {
    (c >= 48 && c <= 57) || (c >= 97 && c <= 102) || (c >= 65 && c <= 70)
}

/// The keyword a name spells, if any.
fn keyword_or_ident(v: &[u8], from: usize, to: usize) -> (r: Token)
    requires
        from <= to <= v@.len(),
        from < to,
    ensures
        !(r is EOF),
{
    if bytes_match(v, from, to, "break") {
        Token::BREAK
    } else if bytes_match(v, from, to, "case") {
        Token::CASE
    } else if bytes_match(v, from, to, "chan") {
        Token::CHAN
    } else if bytes_match(v, from, to, "const") {
        Token::CONST
    } else if bytes_match(v, from, to, "continue") {
        Token::CONTINUE
    } else if bytes_match(v, from, to, "default") {
        Token::DEFAULT
    } else if bytes_match(v, from, to, "defer") {
        Token::DEFER
    } else if bytes_match(v, from, to, "else") {
        Token::ELSE
    } else if bytes_match(v, from, to, "fallthrough") {
        Token::FALLTHROUGH
    } else if bytes_match(v, from, to, "for") {
        Token::FOR
    } else if bytes_match(v, from, to, "func") {
        Token::FUNC
    } else if bytes_match(v, from, to, "go") {
        Token::GO
    } else if bytes_match(v, from, to, "goto") {
        Token::GOTO
    } else if bytes_match(v, from, to, "if") {
        Token::IF
    } else if bytes_match(v, from, to, "import") {
        Token::IMPORT
    } else if bytes_match(v, from, to, "interface") {
        Token::INTERFACE
    } else if bytes_match(v, from, to, "map") {
        Token::MAP
    } else if bytes_match(v, from, to, "package") {
        Token::PACKAGE
    } else if bytes_match(v, from, to, "range") {
        Token::RANGE
    } else if bytes_match(v, from, to, "return") {
        Token::RETURN
    } else if bytes_match(v, from, to, "select") {
        Token::SELECT
    } else if bytes_match(v, from, to, "struct") {
        Token::STRUCT
    } else if bytes_match(v, from, to, "switch") {
        Token::SWITCH
    } else if bytes_match(v, from, to, "type") {
        Token::TYPE
    } else if bytes_match(v, from, to, "var") {
        Token::VAR
    } else {
        Token::IDENT(bytes_to_string(v, from, to))
    }
}

/// The scanner: the scanned token run, its positions, and the cursor the
/// parser pulls from.
#[derive(Debug)]
pub struct Scanner {
    pub file: File,
    pub tokens: Vec<Token>,
    pub poss: Vec<Pos>,
    pub idx: usize,
}

impl Scanner {
    /// One position per token, a single end-of-input token at the end and
    /// nowhere else, and a cursor inside the run.
    pub open spec fn wf(self) -> bool {
        &&& self.file.lines@.len() > 0
        &&& self.tokens@.len() == self.poss@.len()
        &&& self.tokens@.len() > 0
        &&& self.tokens@.last() is EOF
        &&& forall|j: int| 0 <= j < self.tokens@.len() - 1 ==> !((#[trigger] self.tokens@[j]) is EOF)
        &&& self.idx <= self.tokens@.len()
    }

    /// How many tokens are still to be handed out.
    pub open spec fn rem(self) -> int {
        self.tokens@.len() - self.idx
    }

    /// Scans the whole source up front.
    #[verifier::loop_isolation(false)]
    pub fn new(file: File, src: &str) -> (r: Scanner)
        requires
            file.lines@.len() > 0,
        ensures
            r.wf(),
            r.idx == 0,
    {
        let bytes = src.as_bytes();
        let n = bytes.len();
        let mut file = file;
        let mut tokens: Vec<Token> = Vec::new();
        let mut poss: Vec<Pos> = Vec::new();
        let mut off: usize = 0;
        let mut ends_stmt: bool = false;
        while off < n
            invariant
                off <= n,
                n == bytes@.len(),
                file.lines@.len() > 0,
                tokens@.len() == poss@.len(),
                forall|j: int| 0 <= j < tokens@.len() ==> !((#[trigger] tokens@[j]) is EOF),
            decreases n - off,
        {
            let c = bytes[off];
            if c == 32 || c == 9 || c == 13 {
                off = off + 1;
            } else if c == 10 {
                file.add_line(off + 1);
                if ends_stmt {
                    tokens.push(Token::SEMICOLON(false));
                    poss.push(off);
                    ends_stmt = false;
                }
                off = off + 1;
            } else if is_letter(c) {
                let start = off;
                off = off + 1;
                while off < n && (is_letter(bytes[off]) || is_digit(bytes[off]))
                    invariant
                        start < off <= n,
                    decreases n - off,
                {
                    off = off + 1;
                }
                let tok = keyword_or_ident(bytes, start, off);
                ends_stmt = tok.ends_statement();
                tokens.push(tok);
                poss.push(start);
            } else if is_digit(c) {
                let start = off;
                off = off + 1;
                if c == 48 && off < n && (bytes[off] == 120 || bytes[off] == 88) {
                    // a hexadecimal literal
                    off = off + 1;
                    while off < n && is_hex_digit(bytes[off])
                        invariant
                            start < off <= n,
                        decreases n - off,
                    {
                        off = off + 1;
                    }
                    let tok = Token::INT(bytes_to_string(bytes, start, off));
                    ends_stmt = true;
                    tokens.push(tok);
                    poss.push(start);
                } else {
                    while off < n && is_digit(bytes[off])
                        invariant
                            start < off <= n,
                        decreases n - off,
                    {
                        off = off + 1;
                    }
                    let mut is_float = false;
                    if off < n && bytes[off] == 46 && n - off > 1 && is_digit(bytes[off + 1]) {
                        is_float = true;
                        off = off + 1;
                        while off < n && is_digit(bytes[off])
                            invariant
                                start < off <= n,
                            decreases n - off,
                        {
                            off = off + 1;
                        }
                    }
                    let tok = if off < n && bytes[off] == 105 {
                        // an imaginary literal
                        off = off + 1;
                        Token::IMAG(bytes_to_string(bytes, start, off))
                    } else if is_float {
                        Token::FLOAT(bytes_to_string(bytes, start, off))
                    } else {
                        Token::INT(bytes_to_string(bytes, start, off))
                    };
                    ends_stmt = true;
                    tokens.push(tok);
                    poss.push(start);
                }
            } else if c == 34 || c == 39 {
                // a string or character literal, quotes kept in the text
                let quote = c;
                let start = off;
                off = off + 1;
                while off < n && bytes[off] != quote
                    invariant
                        start < off <= n,
                    decreases n - off,
                {
                    if bytes[off] == 92 && n - off > 1 {
                        off = off + 2;
                    } else {
                        off = off + 1;
                    }
                }
                if off < n {
                    off = off + 1;
                }
                let text = bytes_to_string(bytes, start, off);
                let tok = if quote == 34 {
                    Token::STRING(text)
                } else {
                    Token::CHAR(text)
                };
                ends_stmt = true;
                tokens.push(tok);
                poss.push(start);
            } else if c == 47 && n - off > 1 && bytes[off + 1] == 47 {
                // a line comment runs to the end of the line
                let cstart = off;
                off = off + 2;
                while off < n && bytes[off] != 10
                    invariant
                        cstart + 2 <= off <= n,
                    decreases n - off,
                {
                    off = off + 1;
                }
            } else if c == 47 && n - off > 1 && bytes[off + 1] == 42 {
                // a block comment runs to its closing pair
                let cstart = off;
                off = off + 2;
                while off < n && !(bytes[off] == 42 && n - off > 1 && bytes[off + 1] == 47)
                    invariant
                        cstart + 2 <= off <= n,
                        file.lines@.len() > 0,
                    decreases n - off,
                {
                    if bytes[off] == 10 {
                        file.add_line(off + 1);
                    }
                    off = off + 1;
                }
                if off < n {
                    off = off + 2;
                }
            } else {
                let start = off;
                let next = if n - off > 1 {
                    bytes[off + 1]
                } else {
                    0
                };
                let next2 = if n - off > 2 {
                    bytes[off + 2]
                } else {
                    0
                };
                let (tok, width): (Token, usize) = if c == 43 {
                    if next == 61 {
                        (Token::ADD_ASSIGN, 2)
                    } else if next == 43 {
                        (Token::INC, 2)
                    } else {
                        (Token::ADD, 1)
                    }
                } else if c == 45 {
                    if next == 61 {
                        (Token::SUB_ASSIGN, 2)
                    } else if next == 45 {
                        (Token::DEC, 2)
                    } else {
                        (Token::SUB, 1)
                    }
                } else if c == 42 {
                    if next == 61 {
                        (Token::MUL_ASSIGN, 2)
                    } else {
                        (Token::MUL, 1)
                    }
                } else if c == 47 {
                    if next == 61 {
                        (Token::QUO_ASSIGN, 2)
                    } else {
                        (Token::QUO, 1)
                    }
                } else if c == 37 {
                    if next == 61 {
                        (Token::REM_ASSIGN, 2)
                    } else {
                        (Token::REM, 1)
                    }
                } else if c == 94 {
                    if next == 61 {
                        (Token::XOR_ASSIGN, 2)
                    } else {
                        (Token::XOR, 1)
                    }
                } else if c == 38 {
                    if next == 38 {
                        (Token::LAND, 2)
                    } else if next == 94 {
                        if next2 == 61 {
                            (Token::AND_NOT_ASSIGN, 3)
                        } else {
                            (Token::AND_NOT, 2)
                        }
                    } else if next == 61 {
                        (Token::AND_ASSIGN, 2)
                    } else {
                        (Token::AND, 1)
                    }
                } else if c == 124 {
                    if next == 124 {
                        (Token::LOR, 2)
                    } else if next == 61 {
                        (Token::OR_ASSIGN, 2)
                    } else {
                        (Token::OR, 1)
                    }
                } else if c == 60 {
                    if next == 60 {
                        if next2 == 61 {
                            (Token::SHL_ASSIGN, 3)
                        } else {
                            (Token::SHL, 2)
                        }
                    } else if next == 61 {
                        (Token::LEQ, 2)
                    } else if next == 45 {
                        (Token::ARROW, 2)
                    } else {
                        (Token::LSS, 1)
                    }
                } else if c == 62 {
                    if next == 62 {
                        if next2 == 61 {
                            (Token::SHR_ASSIGN, 3)
                        } else {
                            (Token::SHR, 2)
                        }
                    } else if next == 61 {
                        (Token::GEQ, 2)
                    } else {
                        (Token::GTR, 1)
                    }
                } else if c == 61 {
                    if next == 61 {
                        (Token::EQL, 2)
                    } else {
                        (Token::ASSIGN, 1)
                    }
                } else if c == 33 {
                    if next == 61 {
                        (Token::NEQ, 2)
                    } else {
                        (Token::NOT, 1)
                    }
                } else if c == 58 {
                    if next == 61 {
                        (Token::DEFINE, 2)
                    } else {
                        (Token::COLON, 1)
                    }
                } else if c == 46 {
                    if next == 46 && next2 == 46 {
                        (Token::ELLIPSIS, 3)
                    } else {
                        (Token::PERIOD, 1)
                    }
                } else if c == 44 {
                    (Token::COMMA, 1)
                } else if c == 59 {
                    (Token::SEMICOLON(true), 1)
                } else if c == 40 {
                    (Token::LPAREN, 1)
                } else if c == 41 {
                    (Token::RPAREN, 1)
                } else if c == 91 {
                    (Token::LBRACK, 1)
                } else if c == 93 {
                    (Token::RBRACK, 1)
                } else if c == 123 {
                    (Token::LBRACE, 1)
                } else if c == 125 {
                    (Token::RBRACE, 1)
                } else {
                    (Token::ILLEGAL(bytes_to_string(bytes, off, off + 1)), 1)
                };
                ends_stmt = tok.ends_statement();
                tokens.push(tok);
                poss.push(start);
                off = off + width;
            }
        }
        if ends_stmt {
            tokens.push(Token::SEMICOLON(false));
            poss.push(n);
        }
        tokens.push(Token::EOF);
        poss.push(n);
        Scanner { file: file, tokens: tokens, poss: poss, idx: 0 }
    }

    /// Hands the next token out and advances; at the end of the run it
    /// keeps handing the end-of-input token out.
    pub fn scan(&mut self) -> (r: Token)
        requires
            old(self).wf(),
        ensures
            final(self).wf(),
            final(self).tokens@ == old(self).tokens@,
            final(self).poss@ == old(self).poss@,
            final(self).file == old(self).file,
            old(self).idx < old(self).tokens@.len() ==> final(self).idx == old(self).idx + 1 && r
                == old(self).tokens@[old(self).idx as int],
            old(self).idx == old(self).tokens@.len() ==> final(self).idx == old(self).idx && r
                is EOF,
            !(r is EOF) ==> final(self).idx < final(self).tokens@.len(),
    {
        if self.idx < self.tokens.len() {
            let t = self.tokens[self.idx].clone();
            self.idx = self.idx + 1;
            proof {
                if !(t is EOF) {
                    assert(self.tokens@[self.idx - 1] == t);
                    assert(self.idx - 1 < self.tokens@.len() - 1);
                }
            }
            t
        } else {
            Token::EOF
        }
    }

    /// The position of the token most recently handed out.
    pub fn pos(&self) -> (r: Pos)
        requires
            self.wf(),
        ensures
            self.idx > 0 ==> r == self.poss@[self.idx - 1],
    {
        if self.idx > 0 {
            self.poss[self.idx - 1]
        } else {
            0
        }
    }

    pub fn file(&self) -> (r: &File)
        ensures
            r == &self.file,
    {
        &self.file
    }

    pub fn file_mut(&mut self) -> (r: &mut File)
        ensures
            final(self).file == *final(r),
            final(self).tokens@ == old(self).tokens@,
            final(self).poss@ == old(self).poss@,
            final(self).idx == old(self).idx,
    {
        &mut self.file
    }
}

} // verus!
