//! The in-memory module model: the decoder-facing shape of a binary module
//! (type, function, code and export sections) and the instruction subset the
//! engine executes.

use vstd::prelude::*;

use crate::values::ValTy;

verus! {

/// The declared result shape of a block or if construct.
#[derive(Clone, Copy, Debug, PartialEq, Eq, Structural)]
pub enum BlockType {
    /// No result value.
    Empty,
    /// A single result value.
    Value(ValTy),
    /// A full signature, referenced by its id in the type section.
    MultiValue(u32),
}

/// One instruction. The subset covers locals, 32-bit integer constants and
/// arithmetic, calls, structured control flow and returns; every opcode
/// outside it decodes to [`Instr::Unsupported`] and faults at dispatch.
#[derive(Clone, Copy, Debug, PartialEq, Eq, Structural)]
pub enum Instr {
    /// Push the value of the indexed local slot.
    LocalGet(u32),
    /// Pop one value into the indexed local slot.
    LocalSet(u32),
    /// Push a 32-bit integer literal.
    I32Const(i32),
    /// Pop two 32-bit integers, push their wrapping sum.
    I32Add,
    /// Pop two 32-bit integers, push their wrapping difference.
    I32Sub,
    /// Pop two 32-bit integers, push 1 if the first is below the second as
    /// unsigned, else 0.
    I32LtU,
    /// Call the function with the given id.
    Call(u32),
    /// Open a block construct.
    BlockStart(BlockType),
    /// Pop a condition; enter the then-branch on nonzero, else jump to the
    /// matching else (or end, when no else exists).
    IfStart(BlockType),
    /// Close a then-branch: jump past the matching end.
    IfElse,
    /// Close a block or if construct.
    End,
    /// Return from the current function.
    Return,
    /// An opcode outside the supported subset.
    Unsupported,
}

/// A function signature: parameter types and result types.
#[derive(Clone, Debug)]
pub struct FuncType {
    pub params: Vec<ValTy>,
    pub results: Vec<ValTy>,
}

/// A run of declared local slots: a repeat count of one value type.
#[derive(Clone, Copy, Debug, PartialEq, Eq, Structural)]
pub struct Locals {
    pub repeat: u32,
    pub ty: ValTy,
}

/// A function body: the declared extra locals (appended after the parameter
/// slots) and the instruction sequence.
#[derive(Clone, Debug)]
pub struct FuncBody {
    pub locals: Vec<Locals>,
    pub expr: Vec<Instr>,
}

/// What an export points at: a function, table, memory or global, by id.
#[derive(Clone, Copy, Debug, PartialEq, Eq, Structural)]
pub enum ExportDesc {
    Func(u32),
    Table(u32),
    Mem(u32),
    Global(u32),
}

/// A named export.
#[derive(Clone, Debug)]
pub struct Export {
    pub name: String,
    pub desc: ExportDesc,
}

/// A decoded module, in the shape the external decoder hands over: one entry
/// per standard section, absent where the binary lacks the section.
///
/// The function and code sections are order-aligned: the i-th type id of
/// `functions` belongs to the i-th body of `code`.
#[derive(Clone, Debug)]
pub struct DecodedModule {
    pub types: Option<Vec<FuncType>>,
    pub functions: Option<Vec<u32>>,
    pub code: Option<Vec<FuncBody>>,
    pub exports: Option<Vec<Export>>,
}

} // verus!
