//! The instruction set: opcode vocabulary, type-tag operand convention and
//! the packed-immediate encoding.
//!
//! An instruction is a fixed-width record: one opcode, up to three value-type
//! tags, and two signed 16-bit immediates that share one 32-bit word.  The
//! word is represented here by its two halves `imm0` and `imm1`; `OpIndex` is
//! the type of a single packed immediate slot.

use vstd::prelude::*;

verus! {

/// The signed integer type used for instruction immediates; it is as wide as
/// a single packed immediate slot.
pub type OpIndex = i16;

/// The primitive tag carried by every runtime value and, as an operand
/// annotation, by instructions, so the virtual machine can pick the correct
/// behavior without loading the full value.
#[derive(Debug, Clone, Copy, PartialEq, Eq, Structural)]
pub enum ValueType {
    Bool,
    Int,
    Int8,
    Int16,
    Int32,
    Int64,
    Uint,
    Uint8,
    Uint16,
    Uint32,
    Uint64,
    Float32,
    Float64,
    Complex64,
    Complex128,
    Str,
    Array,
    Slice,
    GosMap,
    Struct,
    Channel,
    Closure,
    Interface,
    Pointer,
    Named,
    Metadata,
    Package,
}

/// The operation vocabulary of the virtual machine.
#[allow(non_camel_case_types)]
#[derive(Debug, Clone, Copy, PartialEq, Eq, Structural)]
pub enum Opcode {
    PUSH_TRUE,
    PUSH_FALSE,
    PUSH_IMM,
    PUSH_CONST,
    POP,
    LOAD_LOCAL,
    STORE_LOCAL,
    LOAD_UPVALUE,
    STORE_UPVALUE,
    LOAD_FIELD,
    LOAD_FIELD_IMM,
    STORE_FIELD,
    LOAD_INDEX,
    LOAD_INDEX_IMM,
    STORE_INDEX,
    LOAD_THIS_PKG_FIELD,
    STORE_THIS_PKG_FIELD,
    STORE_DEREF,
    JUMP,
    JUMP_IF,
    JUMP_IF_NOT,
    PRE_CALL,
    CALL,
    CALL_ELLIPSIS,
    RETURN,
    RETURN_INIT_PKG,
    NEW,
    RANGE,
    IMPORT,
    ADD,
    SUB,
    MUL,
    QUO,
    REM,
    AND,
    OR,
    XOR,
    AND_NOT,
    SHL,
    SHR,
    UNARY_ADD,
    UNARY_SUB,
    UNARY_XOR,
    NOT,
    EQL,
    NEQ,
    LSS,
    GTR,
    LEQ,
    GEQ,
    REF_LOCAL,
    LEN,
    CAP,
}

/// One fixed-width instruction: the opcode, three optional value-type tags
/// (an absent tag is a reserved sentinel in the packed form), and the two
/// signed immediates `imm0` and `imm1` that share one 32-bit word.
#[derive(Debug, Clone, Copy, PartialEq, Eq, Structural)]
pub struct Instruction {
    pub op: Opcode,
    pub t0: Option<ValueType>,
    pub t1: Option<ValueType>,
    pub t2: Option<ValueType>,
    pub imm0: OpIndex,
    pub imm1: OpIndex,
}

impl Instruction {
    /// The record built by `new`: a lone immediate occupies `imm0` and the
    /// second slot is left zero.
    pub open spec fn spec_new(
        op: Opcode,
        t0: Option<ValueType>,
        t1: Option<ValueType>,
        t2: Option<ValueType>,
        imm: Option<OpIndex>,
    ) -> Instruction {
        Instruction {
            op: op,
            t0: t0,
            t1: t1,
            t2: t2,
            imm0: match imm {
                Some(i) => i,
                None => 0,
            },
            imm1: 0,
        }
    }

    pub fn new(
        op: Opcode,
        t0: Option<ValueType>,
        t1: Option<ValueType>,
        t2: Option<ValueType>,
        imm: Option<OpIndex>,
    ) -> (r: Instruction)
        ensures
            r == Instruction::spec_new(op, t0, t1, t2, imm),
    {
        let imm0: OpIndex = match imm {
            Some(i) => i,
            None => 0,
        };
        Instruction { op: op, t0: t0, t1: t1, t2: t2, imm0: imm0, imm1: 0 }
    }

    /// Packs the two immediates into the instruction's single immediate word.
    pub fn set_imm2(&mut self, imm0: OpIndex, imm1: OpIndex)
        ensures
            *final(self) == (Instruction { imm0: imm0, imm1: imm1, ..*old(self) }),
    {
        self.imm0 = imm0;
        self.imm1 = imm1;
    }

    /// The injective packing of a compound-assignment operator into `imm0`.
    /// The virtual machine tells this interpretation apart from a
    /// stack-relative index by the store-family opcode that carries it.
    pub open spec fn spec_code2index(op: Opcode) -> OpIndex {
        match op {
            Opcode::PUSH_TRUE => 0,
            Opcode::PUSH_FALSE => 1,
            Opcode::PUSH_IMM => 2,
            Opcode::PUSH_CONST => 3,
            Opcode::POP => 4,
            Opcode::LOAD_LOCAL => 5,
            Opcode::STORE_LOCAL => 6,
            Opcode::LOAD_UPVALUE => 7,
            Opcode::STORE_UPVALUE => 8,
            Opcode::LOAD_FIELD => 9,
            Opcode::LOAD_FIELD_IMM => 10,
            Opcode::STORE_FIELD => 11,
            Opcode::LOAD_INDEX => 12,
            Opcode::LOAD_INDEX_IMM => 13,
            Opcode::STORE_INDEX => 14,
            Opcode::LOAD_THIS_PKG_FIELD => 15,
            Opcode::STORE_THIS_PKG_FIELD => 16,
            Opcode::STORE_DEREF => 17,
            Opcode::JUMP => 18,
            Opcode::JUMP_IF => 19,
            Opcode::JUMP_IF_NOT => 20,
            Opcode::PRE_CALL => 21,
            Opcode::CALL => 22,
            Opcode::CALL_ELLIPSIS => 23,
            Opcode::RETURN => 24,
            Opcode::RETURN_INIT_PKG => 25,
            Opcode::NEW => 26,
            Opcode::RANGE => 27,
            Opcode::IMPORT => 28,
            Opcode::ADD => 29,
            Opcode::SUB => 30,
            Opcode::MUL => 31,
            Opcode::QUO => 32,
            Opcode::REM => 33,
            Opcode::AND => 34,
            Opcode::OR => 35,
            Opcode::XOR => 36,
            Opcode::AND_NOT => 37,
            Opcode::SHL => 38,
            Opcode::SHR => 39,
            Opcode::UNARY_ADD => 40,
            Opcode::UNARY_SUB => 41,
            Opcode::UNARY_XOR => 42,
            Opcode::NOT => 43,
            Opcode::EQL => 44,
            Opcode::NEQ => 45,
            Opcode::LSS => 46,
            Opcode::GTR => 47,
            Opcode::LEQ => 48,
            Opcode::GEQ => 49,
            Opcode::REF_LOCAL => 50,
            Opcode::LEN => 51,
            Opcode::CAP => 52,
        }
    }

    pub fn code2index(op: Opcode) -> (r: OpIndex)
        ensures
            r == Instruction::spec_code2index(op),
    {
        match op {
            Opcode::PUSH_TRUE => 0,
            Opcode::PUSH_FALSE => 1,
            Opcode::PUSH_IMM => 2,
            Opcode::PUSH_CONST => 3,
            Opcode::POP => 4,
            Opcode::LOAD_LOCAL => 5,
            Opcode::STORE_LOCAL => 6,
            Opcode::LOAD_UPVALUE => 7,
            Opcode::STORE_UPVALUE => 8,
            Opcode::LOAD_FIELD => 9,
            Opcode::LOAD_FIELD_IMM => 10,
            Opcode::STORE_FIELD => 11,
            Opcode::LOAD_INDEX => 12,
            Opcode::LOAD_INDEX_IMM => 13,
            Opcode::STORE_INDEX => 14,
            Opcode::LOAD_THIS_PKG_FIELD => 15,
            Opcode::STORE_THIS_PKG_FIELD => 16,
            Opcode::STORE_DEREF => 17,
            Opcode::JUMP => 18,
            Opcode::JUMP_IF => 19,
            Opcode::JUMP_IF_NOT => 20,
            Opcode::PRE_CALL => 21,
            Opcode::CALL => 22,
            Opcode::CALL_ELLIPSIS => 23,
            Opcode::RETURN => 24,
            Opcode::RETURN_INIT_PKG => 25,
            Opcode::NEW => 26,
            Opcode::RANGE => 27,
            Opcode::IMPORT => 28,
            Opcode::ADD => 29,
            Opcode::SUB => 30,
            Opcode::MUL => 31,
            Opcode::QUO => 32,
            Opcode::REM => 33,
            Opcode::AND => 34,
            Opcode::OR => 35,
            Opcode::XOR => 36,
            Opcode::AND_NOT => 37,
            Opcode::SHL => 38,
            Opcode::SHR => 39,
            Opcode::UNARY_ADD => 40,
            Opcode::UNARY_SUB => 41,
            Opcode::UNARY_XOR => 42,
            Opcode::NOT => 43,
            Opcode::EQL => 44,
            Opcode::NEQ => 45,
            Opcode::LSS => 46,
            Opcode::GTR => 47,
            Opcode::LEQ => 48,
            Opcode::GEQ => 49,
            Opcode::REF_LOCAL => 50,
            Opcode::LEN => 51,
            Opcode::CAP => 52,
        }
    }
}

/// The compound-operator packing never collides: distinct opcodes map to
/// distinct immediates, so the store-family decoder can recover the operator.
pub proof fn lemma_code2index_injective(a: Opcode, b: Opcode)
    requires
        Instruction::spec_code2index(a) == Instruction::spec_code2index(b),
    ensures
        a == b,
{
}

} // verus!
