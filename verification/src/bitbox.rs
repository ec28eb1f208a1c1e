//! An experimental register-machine target: its instruction set and the
//! text rendering of its instructions. Lowering the IR onto it is not
//! implemented yet.

use vstd::prelude::*;
use vstd::string::StringExecFns;
use crate::render::{dec_digits, pad_right, pad_right_exec, u64_to_dec};

verus! {

/// An instruction of the register machine.
#[derive(Debug, Clone, PartialEq, Eq)]
pub enum Instruction {
    Comment(String),
    Load(Reg, u64),
    Store(Reg, Reg),
    Copy(Reg, Reg),
    Aloc(Reg, Reg),
    Push(Reg),
    Pop(Reg),
    Add(Reg, Reg, Reg),
    Sub(Reg, Reg, Reg),
    Div(Reg, Reg, Reg),
    Mul(Reg, Reg, Reg),
    Inc(Reg),
    Eq(Reg, Reg),
    Jne(Reg, Reg, Label),
    Hult,
    Printreg(Reg),
    Call(Label),
    And(Reg, Reg, Reg),
    Or(Reg, Reg, Reg),
    Shr(Reg, Reg, Reg),
    Return,
    Syscall,
}

/// One of the machine's thirty-two registers.
#[derive(Debug, Clone, Copy, PartialEq, Eq, Structural)]
pub enum Reg {
    R0,
    R1,
    R2,
    R3,
    R4,
    R5,
    R6,
    R7,
    R8,
    R9,
    R10,
    R11,
    R12,
    R13,
    R14,
    R15,
    R16,
    R17,
    R18,
    R19,
    R20,
    R21,
    R22,
    R23,
    R24,
    R25,
    R26,
    R27,
    R28,
    R29,
    R30,
    R31,
}

/// A control-flow target.
pub type Label = String;

/// The number of a register.
pub open spec fn reg_index(r: Reg) -> int {
    match r {
        Reg::R0 => 0,
        Reg::R1 => 1,
        Reg::R2 => 2,
        Reg::R3 => 3,
        Reg::R4 => 4,
        Reg::R5 => 5,
        Reg::R6 => 6,
        Reg::R7 => 7,
        Reg::R8 => 8,
        Reg::R9 => 9,
        Reg::R10 => 10,
        Reg::R11 => 11,
        Reg::R12 => 12,
        Reg::R13 => 13,
        Reg::R14 => 14,
        Reg::R15 => 15,
        Reg::R16 => 16,
        Reg::R17 => 17,
        Reg::R18 => 18,
        Reg::R19 => 19,
        Reg::R20 => 20,
        Reg::R21 => 21,
        Reg::R22 => 22,
        Reg::R23 => 23,
        Reg::R24 => 24,
        Reg::R25 => 25,
        Reg::R26 => 26,
        Reg::R27 => 27,
        Reg::R28 => 28,
        Reg::R29 => 29,
        Reg::R30 => 30,
        Reg::R31 => 31,
    }
}

/// The text of a register: `%` and its number.
pub open spec fn reg_text(r: Reg) -> Seq<char> {
    "%"@ + dec_digits(reg_index(r) as nat)
}

impl Reg {
    /// The register's number.
    pub fn index(&self) -> (r: u64)
        ensures
            r == reg_index(*self),
    {
        match self {
            Reg::R0 => 0,
            Reg::R1 => 1,
            Reg::R2 => 2,
            Reg::R3 => 3,
            Reg::R4 => 4,
            Reg::R5 => 5,
            Reg::R6 => 6,
            Reg::R7 => 7,
            Reg::R8 => 8,
            Reg::R9 => 9,
            Reg::R10 => 10,
            Reg::R11 => 11,
            Reg::R12 => 12,
            Reg::R13 => 13,
            Reg::R14 => 14,
            Reg::R15 => 15,
            Reg::R16 => 16,
            Reg::R17 => 17,
            Reg::R18 => 18,
            Reg::R19 => 19,
            Reg::R20 => 20,
            Reg::R21 => 21,
            Reg::R22 => 22,
            Reg::R23 => 23,
            Reg::R24 => 24,
            Reg::R25 => 25,
            Reg::R26 => 26,
            Reg::R27 => 27,
            Reg::R28 => 28,
            Reg::R29 => 29,
            Reg::R30 => 30,
            Reg::R31 => 31,
        }
    }

    /// The register rendered as text.
    pub fn to_text(&self) -> (r: String)
        ensures
            r@ == reg_text(*self),
    {
        let mut s = String::from_str("%");
        let d = u64_to_dec(self.index());
        s.append(d.as_str());
        s
    }
}

/// A rendered instruction without arguments.
pub open spec fn text_0args(mn: Seq<char>) -> Seq<char> {
    "    "@ + mn
}

/// A rendered instruction of one argument.
pub open spec fn text_1args(mn: Seq<char>, a1: Seq<char>) -> Seq<char> {
    "    "@ + pad_right(mn, 10) + a1
}

/// A rendered instruction of two arguments.
pub open spec fn text_2args(mn: Seq<char>, a1: Seq<char>, a2: Seq<char>) -> Seq<char> {
    "    "@ + pad_right(mn, 10) + pad_right(a1, 10) + a2
}

/// A rendered instruction of three arguments.
pub open spec fn text_3args(mn: Seq<char>, a1: Seq<char>, a2: Seq<char>, a3: Seq<char>) -> Seq<
    char,
> {
    "    "@ + pad_right(mn, 10) + pad_right(a1, 10) + pad_right(a2, 10) + a3
}

fn stringify_instruction_0args(instruction: &str) -> (r: String)
    ensures
        r@ == text_0args(instruction@),
{
    let mut s = String::from_str("    ");
    s.append(instruction);
    s
}

fn stringify_instruction_1args(instruction: &str, arg1: &str) -> (r: String)
    ensures
        r@ == text_1args(instruction@, arg1@),
{
    let mut s = String::from_str("    ");
    let p = pad_right_exec(String::from_str(instruction), 10);
    s.append(p.as_str());
    s.append(arg1);
    s
}

fn stringify_instruction_2args(instruction: &str, arg1: &str, arg2: &str) -> (r: String)
    ensures
        r@ == text_2args(instruction@, arg1@, arg2@),
{
    let mut s = String::from_str("    ");
    let p = pad_right_exec(String::from_str(instruction), 10);
    s.append(p.as_str());
    let q = pad_right_exec(String::from_str(arg1), 10);
    s.append(q.as_str());
    s.append(arg2);
    s
}

fn stringify_instruction_3args(instruction: &str, arg1: &str, arg2: &str, arg3: &str) -> (r:
    String)
    ensures
        r@ == text_3args(instruction@, arg1@, arg2@, arg3@),
{
    let mut s = String::from_str("    ");
    let p = pad_right_exec(String::from_str(instruction), 10);
    s.append(p.as_str());
    let q = pad_right_exec(String::from_str(arg1), 10);
    s.append(q.as_str());
    let w = pad_right_exec(String::from_str(arg2), 10);
    s.append(w.as_str());
    s.append(arg3);
    s
}

/// Whether the renderer covers the instruction.
pub open spec fn renderable(i: Instruction) -> bool {
    match i {
        Instruction::Jne(_, _, _) => false,
        Instruction::Call(_) => false,
        Instruction::Hult => false,
        Instruction::Return => false,
        Instruction::Syscall => false,
        _ => true,
    }
}

/// The exact rendered line of one instruction.
pub open spec fn instr_text(i: Instruction) -> Seq<char> {
    (match i {
        Instruction::Comment(m) => "    ;; "@ + m@,
        Instruction::Load(a, v) => text_2args("load"@, reg_text(a), dec_digits(v as nat)),
        Instruction::Store(a, b) => text_2args("store"@, reg_text(a), reg_text(b)),
        Instruction::Copy(a, b) => text_2args("copy"@, reg_text(a), reg_text(b)),
        Instruction::Aloc(a, b) => text_2args("aloc"@, reg_text(a), reg_text(b)),
        Instruction::Eq(a, b) => text_2args("eq"@, reg_text(a), reg_text(b)),
        Instruction::Push(a) => text_1args("push"@, reg_text(a)),
        Instruction::Pop(a) => text_1args("pop"@, reg_text(a)),
        Instruction::Inc(a) => text_1args("inc"@, reg_text(a)),
        Instruction::Printreg(a) => text_1args("printreg"@, reg_text(a)),
        Instruction::Add(a, b, c) => text_3args("add"@, reg_text(a), reg_text(b), reg_text(c)),
        Instruction::Sub(a, b, c) => text_3args("sub"@, reg_text(a), reg_text(b), reg_text(c)),
        Instruction::Div(a, b, c) => text_3args("div"@, reg_text(a), reg_text(b), reg_text(c)),
        Instruction::Mul(a, b, c) => text_3args("mul"@, reg_text(a), reg_text(b), reg_text(c)),
        Instruction::And(a, b, c) => text_3args("and"@, reg_text(a), reg_text(b), reg_text(c)),
        Instruction::Or(a, b, c) => text_3args("or"@, reg_text(a), reg_text(b), reg_text(c)),
        Instruction::Shr(a, b, c) => text_3args("shr"@, reg_text(a), reg_text(b), reg_text(c)),
        _ => Seq::empty(),
    }) + "\n"@
}

impl Instruction {
    /// The instruction rendered as one line of text.
    pub fn to_text(&self) -> (r: String)
        requires
            renderable(*self),
        ensures
            r@ == instr_text(*self),
    {
        let mut line = match self {
            Instruction::Comment(m) => {
                let mut s = String::from_str("    ;; ");
                s.append(m.as_str());
                s
            },
            Instruction::Load(a, v) => stringify_instruction_2args(
                "load",
                a.to_text().as_str(),
                u64_to_dec(*v).as_str(),
            ),
            Instruction::Store(a, b) => stringify_instruction_2args(
                "store",
                a.to_text().as_str(),
                b.to_text().as_str(),
            ),
            Instruction::Copy(a, b) => stringify_instruction_2args(
                "copy",
                a.to_text().as_str(),
                b.to_text().as_str(),
            ),
            Instruction::Aloc(a, b) => stringify_instruction_2args(
                "aloc",
                a.to_text().as_str(),
                b.to_text().as_str(),
            ),
            Instruction::Eq(a, b) => stringify_instruction_2args(
                "eq",
                a.to_text().as_str(),
                b.to_text().as_str(),
            ),
            Instruction::Push(a) => stringify_instruction_1args("push", a.to_text().as_str()),
            Instruction::Pop(a) => stringify_instruction_1args("pop", a.to_text().as_str()),
            Instruction::Inc(a) => stringify_instruction_1args("inc", a.to_text().as_str()),
            Instruction::Printreg(a) => stringify_instruction_1args(
                "printreg",
                a.to_text().as_str(),
            ),
            Instruction::Add(a, b, c) => stringify_instruction_3args(
                "add",
                a.to_text().as_str(),
                b.to_text().as_str(),
                c.to_text().as_str(),
            ),
            Instruction::Sub(a, b, c) => stringify_instruction_3args(
                "sub",
                a.to_text().as_str(),
                b.to_text().as_str(),
                c.to_text().as_str(),
            ),
            Instruction::Div(a, b, c) => stringify_instruction_3args(
                "div",
                a.to_text().as_str(),
                b.to_text().as_str(),
                c.to_text().as_str(),
            ),
            Instruction::Mul(a, b, c) => stringify_instruction_3args(
                "mul",
                a.to_text().as_str(),
                b.to_text().as_str(),
                c.to_text().as_str(),
            ),
            Instruction::And(a, b, c) => stringify_instruction_3args(
                "and",
                a.to_text().as_str(),
                b.to_text().as_str(),
                c.to_text().as_str(),
            ),
            Instruction::Or(a, b, c) => stringify_instruction_3args(
                "or",
                a.to_text().as_str(),
                b.to_text().as_str(),
                c.to_text().as_str(),
            ),
            Instruction::Shr(a, b, c) => stringify_instruction_3args(
                "shr",
                a.to_text().as_str(),
                b.to_text().as_str(),
                c.to_text().as_str(),
            ),
            _ => unreached(),
        };
        line.append("\n");
        line
    }
}

} // verus!
