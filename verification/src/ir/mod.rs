//! The intermediate representation: a flat, ordered instruction sequence per
//! function, over an unbounded supply of virtual registers, produced from
//! the abstract syntax tree by [`code_gen`].

pub mod instruction;
pub mod lower;

mod gen;

pub use instruction::{
    Add, Call, Conditional, CopyReg, DefFunc, DefFuncV, DefLabel, Div, Enter, Grt, InstrV,
    Instruction, Jump, Leave, LoadImm, Mul, Return, Sub, Type,
};
pub use gen::code_gen;

use vstd::prelude::*;

verus! {

/// A control-flow target: a generated or symbolic label name.
#[derive(Debug, Clone, PartialEq, Eq)]
pub struct Label(pub String);

impl View for Label {
    type V = Seq<char>;

    open spec fn view(&self) -> Seq<char> {
        self.0@
    }
}

/// A virtual register: an unsigned integer, unique within one function's
/// lowering.
#[derive(Debug, Hash, Clone, Copy, PartialEq, Eq, Structural)]
pub struct Reg(pub usize);

impl View for Reg {
    type V = int;

    open spec fn view(&self) -> int {
        self.0 as int
    }
}

/// A variable name.
#[derive(Debug, Hash, Clone, PartialEq, Eq)]
pub struct Var(pub String);

impl View for Var {
    type V = Seq<char>;

    open spec fn view(&self) -> Seq<char> {
        self.0@
    }
}

/// An unsigned 64-bit constant.
#[derive(Debug, Clone, PartialEq, Eq, Structural)]
pub struct Imm(pub u64);

} // verus!
