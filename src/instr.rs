//! The instruction set that the analysis walks, and the read-only context
//! that accompanies it.
use vstd::prelude::*;

use crate::form::{ElemType, Form};

verus! {

/// The number of named temporary stacks: one for each variant of `TempStack`.
pub const TEMP_STACK_COUNT: usize = 2;

/// The named temporary stacks of the machine.
#[derive(Clone, Copy, Debug, PartialEq, Eq, Structural)]
pub enum TempStack {
    Inline,
    Under,
}

/// The storage kind of a literal value. A byte array is a compact form of a
/// numeric array.
#[derive(Clone, Copy, Debug, PartialEq, Eq, Structural)]
pub enum ValueKind {
    Num,
    Byte,
    Complex,
    Char,
    Box,
}

/// A literal value, described by its storage kind and its shape.
#[derive(Clone, Debug)]
pub struct Value {
    pub kind: ValueKind,
    pub shape: Vec<usize>,
}

/// The logical element type of a literal of the given storage kind.
pub open spec fn elem_type_of(kind: ValueKind) -> ElemType {
    match kind {
        ValueKind::Num | ValueKind::Byte => ElemType::Num,
        ValueKind::Complex => ElemType::Complex,
        ValueKind::Char => ElemType::Char,
        ValueKind::Box => ElemType::Box,
    }
}

/// An opaque handle to a quoted function.
#[derive(Clone, Copy, Debug, PartialEq, Eq, Structural)]
pub struct Function {
    pub id: u64,
}

/// The numbers of arguments and outputs of a function.
#[derive(Clone, Copy, Debug, PartialEq, Eq, Structural)]
pub struct Signature {
    pub args: usize,
    pub outputs: usize,
}

/// A primitive operator, by its identifier.
#[derive(Clone, Copy, Debug, PartialEq, Eq, Structural)]
pub struct Primitive {
    pub id: u32,
}

/// One instruction of the compiled program.
#[derive(Clone, Debug)]
pub enum Instr {
    Comment(String),
    Push(Value),
    CallGlobal { index: usize, call: bool, sig: Signature },
    BindGlobal { name: String, span: usize, index: usize },
    BeginArray,
    EndArray { boxed: bool, span: usize },
    Prim(Primitive, usize),
    ImplPrim(Primitive, usize),
    Call(usize),
    PushFunc(Function),
    Switch { count: usize, sig: Signature, span: usize },
    Format(Vec<String>, usize),
    Dynamic(usize),
    Unpack { count: usize, span: usize, unbox: bool },
    PushTempFunctions(usize),
    PopTempFunctions(usize),
    GetTempFunction { offset: usize, sig: Signature, span: usize },
    TouchStack { count: usize, span: usize },
    PushTemp { stack: TempStack, count: usize, span: usize },
    PopTemp { stack: TempStack, count: usize, span: usize },
    CopyToTemp { stack: TempStack, count: usize, span: usize },
    CopyFromTemp { stack: TempStack, offset: usize, count: usize, span: usize },
    DropTemp { stack: TempStack, count: usize, span: usize },
    SetOutputComment { i: usize, n: usize },
    PushSig(Signature),
    PopSig,
}

/// Whether the analysis has a transfer rule for the instruction: bookkeeping
/// markers, literal pushes, function pushes and unpacking.
pub open spec fn is_modeled(instr: Instr) -> bool {
    match instr {
        Instr::Comment(_) | Instr::PushSig(_) | Instr::PopSig => true,
        Instr::Push(_) | Instr::PushFunc(_) | Instr::Unpack { .. } => true,
        _ => false,
    }
}

/// Read-only lookups that accompany an analysis: the declared forms of the
/// program's globals.
pub struct Context {
    pub globals: Vec<Form>,
}

impl Context {
    pub fn new() -> (r: Context)
        ensures
            r.globals@.len() == 0,
    {
        Context { globals: Vec::new() }
    }
}

} // verus!
