//! The physical register file of the 64-bit target, and its text rendering.

use vstd::prelude::*;
use vstd::string::StringExecFns;

verus! {

/// One of the sixteen 64-bit general-purpose registers.
#[derive(Debug, Clone, Copy, PartialEq, Eq, Hash, Structural)]
pub enum X86Reg {
    Rax,
    Rbx,
    Rcx,
    Rdx,
    Rsi,
    Rdi,
    Rbp,
    Rsp,
    R8,
    R9,
    R10,
    R11,
    R12,
    R13,
    R14,
    R15,
}

/// The assembly name of a register.
pub open spec fn x86_reg_name(r: X86Reg) -> Seq<char> {
    match r {
        X86Reg::Rax => "rax"@,
        X86Reg::Rbx => "rbx"@,
        X86Reg::Rcx => "rcx"@,
        X86Reg::Rdx => "rdx"@,
        X86Reg::Rsi => "rsi"@,
        X86Reg::Rdi => "rdi"@,
        X86Reg::Rbp => "rbp"@,
        X86Reg::Rsp => "rsp"@,
        X86Reg::R8 => "r8"@,
        X86Reg::R9 => "r9"@,
        X86Reg::R10 => "r10"@,
        X86Reg::R11 => "r11"@,
        X86Reg::R12 => "r12"@,
        X86Reg::R13 => "r13"@,
        X86Reg::R14 => "r14"@,
        X86Reg::R15 => "r15"@,
    }
}

impl X86Reg {
    /// The register rendered as text.
    pub fn to_text(&self) -> (r: String)
        ensures
            r@ == x86_reg_name(*self),
    {
        match self {
            X86Reg::Rax => String::from_str("rax"),
            X86Reg::Rbx => String::from_str("rbx"),
            X86Reg::Rcx => String::from_str("rcx"),
            X86Reg::Rdx => String::from_str("rdx"),
            X86Reg::Rsi => String::from_str("rsi"),
            X86Reg::Rdi => String::from_str("rdi"),
            X86Reg::Rbp => String::from_str("rbp"),
            X86Reg::Rsp => String::from_str("rsp"),
            X86Reg::R8 => String::from_str("r8"),
            X86Reg::R9 => String::from_str("r9"),
            X86Reg::R10 => String::from_str("r10"),
            X86Reg::R11 => String::from_str("r11"),
            X86Reg::R12 => String::from_str("r12"),
            X86Reg::R13 => String::from_str("r13"),
            X86Reg::R14 => String::from_str("r14"),
            X86Reg::R15 => String::from_str("r15"),
        }
    }
}

/// Whether the register belongs to the general allocation pool: the fixed
/// file minus the frame registers, the return register and the registers
/// the calling convention and the syscall convention reserve.
pub open spec fn is_general(r: X86Reg) -> bool {
    match r {
        X86Reg::Rbx => true,
        X86Reg::R11 => true,
        X86Reg::R12 => true,
        X86Reg::R13 => true,
        X86Reg::R14 => true,
        X86Reg::R15 => true,
        _ => false,
    }
}

/// The position of a register among the parameter slots of the calling
/// convention, or -1 when it is no parameter register.
pub open spec fn param_idx(r: X86Reg) -> int {
    match r {
        X86Reg::Rdi => 0,
        X86Reg::Rsi => 1,
        X86Reg::Rdx => 2,
        X86Reg::Rcx => 3,
        X86Reg::R8 => 4,
        X86Reg::R9 => 5,
        _ => -1,
    }
}

/// The general pool in allocation order.
pub open spec fn general_pool() -> Seq<X86Reg> {
    seq![X86Reg::Rbx, X86Reg::R11, X86Reg::R12, X86Reg::R13, X86Reg::R14, X86Reg::R15]
}

/// The parameter registers in calling-convention order.
pub open spec fn param_pool() -> Seq<X86Reg> {
    seq![X86Reg::Rdi, X86Reg::Rsi, X86Reg::Rdx, X86Reg::Rcx, X86Reg::R8, X86Reg::R9]
}

/// The parameter register for a given slot.
pub fn param_reg_at(i: usize) -> (r: X86Reg)
    requires
        i < 6,
    ensures
        r == param_pool()[i as int],
        param_idx(r) == i,
    {
    let r = match i {
        0 => X86Reg::Rdi,
        1 => X86Reg::Rsi,
        2 => X86Reg::Rdx,
        3 => X86Reg::Rcx,
        4 => X86Reg::R8,
        _ => X86Reg::R9,
    };
    proof {
        assert(param_pool()[i as int] == r);
    }
    r
}

/// The fresh general pool, in allocation order.
pub fn make_pool() -> (r: Vec<X86Reg>)
    ensures
        r@ == general_pool(),
{
    let mut v: Vec<X86Reg> = Vec::new();
    v.push(X86Reg::Rbx);
    v.push(X86Reg::R11);
    v.push(X86Reg::R12);
    v.push(X86Reg::R13);
    v.push(X86Reg::R14);
    v.push(X86Reg::R15);
    proof {
        assert(v@ =~= general_pool());
    }
    v
}

} // verus!
