//! The tagged runtime value model: numeric and reference values manipulated
//! by the operand stack and by function locals.
//!
//! Floating-point values are carried as their IEEE 754 bit patterns (`u32`
//! for 32-bit, `u64` for 64-bit): no instruction in the supported subset
//! computes on them, so the engine only ever stores and moves the bits.

use vstd::prelude::*;

verus! {

/// The static type of a value slot: four numeric kinds and two reference
/// kinds.
#[derive(Clone, Copy, Debug, PartialEq, Eq, Structural)]
pub enum ValTy {
    I32,
    I64,
    F32,
    F64,
    Ref(RefType),
}

/// The kind of a reference value.
#[derive(Clone, Copy, Debug, PartialEq, Eq, Structural)]
pub enum RefType {
    FuncRef,
    ExternRef,
}

/// Address of a function instance.
#[derive(Clone, Copy, Debug, PartialEq, Eq, Structural)]
pub struct FuncAddr(pub u32);

/// Address of an external object.
#[derive(Clone, Copy, Debug, PartialEq, Eq, Structural)]
pub struct ExternAddr(pub u32);

/// A numeric runtime value. The 32/64-bit float kinds hold bit patterns.
#[derive(Clone, Copy, Debug, PartialEq, Eq, Structural)]
pub enum Num {
    I32(i32),
    I64(i64),
    F32(u32),
    F64(u64),
}

/// A reference runtime value: null (of a declared kind), a function
/// reference, or an external reference.
#[derive(Clone, Copy, Debug, PartialEq, Eq, Structural)]
pub enum Ref {
    Null(RefType),
    Ref(FuncAddr),
    Extern(ExternAddr),
}

/// A tagged runtime value: the unit of the operand stack and of locals.
#[derive(Clone, Copy, Debug, PartialEq, Eq, Structural)]
pub enum Val {
    Num(Num),
    Ref(Ref),
}

impl Val {
    /// The well-defined default of a static value type: zero for numeric
    /// kinds, null for reference kinds.
    pub open spec fn spec_default(val_type: ValTy) -> Val {
        match val_type {
            ValTy::I32 => Val::Num(Num::I32(0)),
            ValTy::I64 => Val::Num(Num::I64(0)),
            ValTy::F32 => Val::Num(Num::F32(0)),
            ValTy::F64 => Val::Num(Num::F64(0)),
            ValTy::Ref(r) => Val::Ref(Ref::Null(r)),
        }
    }

    /// Builds the default value of a static value type.
    pub fn default(val_type: &ValTy) -> (r: Val)
        ensures
            r == Val::spec_default(*val_type),
    {
        match val_type {
            ValTy::I32 => Val::i32(0),
            ValTy::I64 => Val::i64(0),
            ValTy::F32 => Val::f32_bits(0),
            ValTy::F64 => Val::f64_bits(0),
            ValTy::Ref(r) => Val::null(*r),
        }
    }

    /// The 32-bit integer payload of a value, if it is one.
    pub open spec fn spec_as_i32(self) -> Option<i32> {
        match self {
            Val::Num(Num::I32(i)) => Some(i),
            _ => None,
        }
    }

    /// Extracts the 32-bit integer payload, or `None` on any other tag.
    pub fn as_i32(self) -> (r: Option<i32>)
        ensures
            r == self.spec_as_i32(),
    {
        match self {
            Val::Num(Num::I32(i)) => Some(i),
            _ => None,
        }
    }

    pub(crate) fn i32(i: i32) -> (r: Val)
        ensures
            r == Val::Num(Num::I32(i)),
    {
        Val::Num(Num::I32(i))
    }

    pub(crate) fn i64(i: i64) -> (r: Val)
        ensures
            r == Val::Num(Num::I64(i)),
    {
        Val::Num(Num::I64(i))
    }

    /// Builds a 32-bit float value from its bit pattern.
    pub(crate) fn f32_bits(bits: u32) -> (r: Val)
        ensures
            r == Val::Num(Num::F32(bits)),
    {
        Val::Num(Num::F32(bits))
    }

    /// Builds a 64-bit float value from its bit pattern.
    pub(crate) fn f64_bits(bits: u64) -> (r: Val)
        ensures
            r == Val::Num(Num::F64(bits)),
    {
        Val::Num(Num::F64(bits))
    }

    pub(crate) fn null(ty: RefType) -> (r: Val)
        ensures
            r == Val::Ref(Ref::Null(ty)),
    {
        Val::Ref(Ref::Null(ty))
    }
}

impl From<i32> for Val {
    fn from(i: i32) -> (r: Val)
        ensures
            r == Val::Num(Num::I32(i)),
    {
        Val::i32(i)
    }
}

impl vstd::std_specs::convert::FromSpecImpl<i32> for Val {
    open spec fn obeys_from_spec() -> bool {
        true
    }

    open spec fn from_spec(i: i32) -> Val {
        Val::Num(Num::I32(i))
    }
}

impl From<i64> for Val {
    fn from(i: i64) -> (r: Val)
        ensures
            r == Val::Num(Num::I64(i)),
    {
        Val::i64(i)
    }
}

impl vstd::std_specs::convert::FromSpecImpl<i64> for Val {
    open spec fn obeys_from_spec() -> bool {
        true
    }

    open spec fn from_spec(i: i64) -> Val {
        Val::Num(Num::I64(i))
    }
}

/// Shorthand constructor: wraps a native scalar into a [`Val`].
pub fn v<T>(val: T) -> (r: Val) where
    Val: From<T> + vstd::std_specs::convert::FromSpec<T>,

    ensures
        <Val as vstd::std_specs::convert::FromSpec<T>>::obeys_from_spec() ==> r
            == <Val as vstd::std_specs::convert::FromSpec<T>>::from_spec(val),
{
    Val::from(val)
}

} // verus!
