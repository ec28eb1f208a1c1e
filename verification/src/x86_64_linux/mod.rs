//! The 64-bit back end: consumes the IR function by function, assigns each
//! virtual register a physical slot through the allocator, and emits target
//! instructions, rendered as assembly text. The executable compiler is
//! proved to follow the instruction-selection model here exactly.

pub mod reg_state;
pub mod x86reg;

pub use x86reg::X86Reg;

use vstd::prelude::*;
use vstd::string::StringExecFns;
use crate::ir;
use crate::ir::instruction::{instrs_view, lemma_instrs_view_index, InstrV};
use crate::render::{dec_digits, pad_right, pad_right_exec, u64_to_dec};
use crate::symbol_table::SymbolTable;
use reg_state::{
    init_reg_st, reg_st_wf, spec_allocate, spec_param_allocate, spec_release, RegState, RegStV,
};
use x86reg::x86_reg_name;

verus! {

broadcast use vstd::std_specs::vec::group_vec_axioms;

/// A target instruction of the 64-bit instruction set.
#[derive(Debug, PartialEq, Eq)]
pub enum Instruction {
    Comment(String),
    MoveImm(X86Reg, u64),
    MoveReg(X86Reg, X86Reg),
    MoveMemReg(Mem, X86Reg),
    MoveRegMem(X86Reg, Mem),
    MoveZx(X86Reg),
    Add(X86Reg, X86Reg),
    Sub(X86Reg, X86Reg),
    Mul(X86Reg, X86Reg),
    Div(X86Reg, X86Reg),
    DefLabel(String),
    Call(String),
    Jump(String),
    JumpZero(String),
    Cmp(X86Reg, X86Reg),
    Test(X86Reg, X86Reg),
    SetG,
    ProLog,
    Epilog,
    Syscall,
}

/// A memory operand: a parameter slot in the frame.
#[derive(Debug, Clone, Copy, PartialEq, Eq, Structural)]
pub enum Mem {
    Param { ty: ir::Type, offset: usize },
}

/// The mathematical view of a target instruction: label and comment text as
/// character sequences.
#[verifier::ext_equal]
pub enum X86InstrV {
    Comment { text: Seq<char> },
    MoveImm { des: X86Reg, value: u64 },
    MoveReg { des: X86Reg, src: X86Reg },
    MoveMemReg { mem: Mem, reg: X86Reg },
    MoveRegMem { reg: X86Reg, mem: Mem },
    MoveZx { src: X86Reg },
    Add { des: X86Reg, reg: X86Reg },
    Sub { des: X86Reg, reg: X86Reg },
    Mul { des: X86Reg, reg: X86Reg },
    Div { des: X86Reg, reg: X86Reg },
    DefLabel { name: Seq<char> },
    Call { name: Seq<char> },
    Jump { name: Seq<char> },
    JumpZero { name: Seq<char> },
    Cmp { lhs: X86Reg, rhs: X86Reg },
    Test { lhs: X86Reg, rhs: X86Reg },
    SetG,
    ProLog,
    Epilog,
    Syscall,
}

/// The view of one target instruction.
pub open spec fn x86_instr_view(i: Instruction) -> X86InstrV {
    match i {
        Instruction::Comment(t) => X86InstrV::Comment { text: t@ },
        Instruction::MoveImm(d, v) => X86InstrV::MoveImm { des: d, value: v },
        Instruction::MoveReg(d, s) => X86InstrV::MoveReg { des: d, src: s },
        Instruction::MoveMemReg(m, r) => X86InstrV::MoveMemReg { mem: m, reg: r },
        Instruction::MoveRegMem(r, m) => X86InstrV::MoveRegMem { reg: r, mem: m },
        Instruction::MoveZx(s) => X86InstrV::MoveZx { src: s },
        Instruction::Add(d, r) => X86InstrV::Add { des: d, reg: r },
        Instruction::Sub(d, r) => X86InstrV::Sub { des: d, reg: r },
        Instruction::Mul(d, r) => X86InstrV::Mul { des: d, reg: r },
        Instruction::Div(d, r) => X86InstrV::Div { des: d, reg: r },
        Instruction::DefLabel(n) => X86InstrV::DefLabel { name: n@ },
        Instruction::Call(n) => X86InstrV::Call { name: n@ },
        Instruction::Jump(n) => X86InstrV::Jump { name: n@ },
        Instruction::JumpZero(n) => X86InstrV::JumpZero { name: n@ },
        Instruction::Cmp(l, r) => X86InstrV::Cmp { lhs: l, rhs: r },
        Instruction::Test(l, r) => X86InstrV::Test { lhs: l, rhs: r },
        Instruction::SetG => X86InstrV::SetG,
        Instruction::ProLog => X86InstrV::ProLog,
        Instruction::Epilog => X86InstrV::Epilog,
        Instruction::Syscall => X86InstrV::Syscall,
    }
}

impl View for Instruction {
    type V = X86InstrV;

    open spec fn view(&self) -> X86InstrV {
        x86_instr_view(*self)
    }
}

/// The views of a sequence of target instructions.
pub open spec fn x86_view(s: Seq<Instruction>) -> Seq<X86InstrV> {
    s.map_values(|i: Instruction| x86_instr_view(i))
}

/// What can stop the back end: exhaustion of the register file, or an IR
/// shape the instruction selection does not cover.
pub enum CompErr {
    Exhausted,
    Unsupported,
}

/// What one non-definition IR instruction selects, and how it moves the
/// allocator: exactly the table of the instruction selection, including
/// which operations release their operands.
pub open spec fn spec_compile_instr(i: InstrV, s: RegStV) -> Result<
    (Seq<X86InstrV>, RegStV),
    CompErr,
> {
    match i {
        InstrV::LoadImm { des, imm } => match spec_allocate(s, des) {
            Ok((x, s1)) => Ok((seq![X86InstrV::MoveImm { des: x, value: imm }], s1)),
            Err(_) => Err(CompErr::Exhausted),
        },
        InstrV::CopyReg { des, src } => match spec_allocate(s, des) {
            Ok((xd, s1)) => match spec_allocate(s1, src) {
                Ok((xs, s2)) => Ok((seq![X86InstrV::MoveReg { des: xd, src: xs }], s2)),
                Err(_) => Err(CompErr::Exhausted),
            },
            Err(_) => Err(CompErr::Exhausted),
        },
        InstrV::Add { des, lhs, rhs } => match spec_allocate(s, des) {
            Ok((xd, s1)) => match spec_allocate(s1, lhs) {
                Ok((xl, s2)) => {
                    let s3 = spec_release(s2, lhs);
                    match spec_allocate(s3, rhs) {
                        Ok((xr, s4)) => {
                            let s5 = spec_release(s4, rhs);
                            Ok(
                                (
                                    seq![
                                        X86InstrV::Comment { text: "Add"@ },
                                        X86InstrV::MoveReg { des: xd, src: xl },
                                        X86InstrV::Add { des: xd, reg: xr },
                                    ],
                                    s5,
                                ),
                            )
                        },
                        Err(_) => Err(CompErr::Exhausted),
                    }
                },
                Err(_) => Err(CompErr::Exhausted),
            },
            Err(_) => Err(CompErr::Exhausted),
        },
        InstrV::Mul { des, lhs, rhs } => match spec_allocate(s, des) {
            Ok((xd, s1)) => match spec_allocate(s1, lhs) {
                Ok((xl, s2)) => {
                    let s3 = spec_release(s2, lhs);
                    match spec_allocate(s3, rhs) {
                        Ok((xr, s4)) => {
                            let s5 = spec_release(s4, rhs);
                            Ok(
                                (
                                    seq![
                                        X86InstrV::Comment { text: "Mul"@ },
                                        X86InstrV::MoveReg { des: xd, src: xl },
                                        X86InstrV::Mul { des: xd, reg: xr },
                                    ],
                                    s5,
                                ),
                            )
                        },
                        Err(_) => Err(CompErr::Exhausted),
                    }
                },
                Err(_) => Err(CompErr::Exhausted),
            },
            Err(_) => Err(CompErr::Exhausted),
        },
        InstrV::Sub { des, lhs, rhs } => match spec_allocate(s, des) {
            Ok((xd, s1)) => match spec_allocate(s1, lhs) {
                Ok((xl, s2)) => match spec_allocate(s2, rhs) {
                    Ok((xr, s3)) => Ok(
                        (
                            seq![
                                X86InstrV::Comment { text: "Sub"@ },
                                X86InstrV::MoveReg { des: xd, src: xl },
                                X86InstrV::Sub { des: xd, reg: xr },
                            ],
                            s3,
                        ),
                    ),
                    Err(_) => Err(CompErr::Exhausted),
                },
                Err(_) => Err(CompErr::Exhausted),
            },
            Err(_) => Err(CompErr::Exhausted),
        },
        InstrV::Div { des, lhs, rhs } => match spec_allocate(s, des) {
            Ok((xd, s1)) => match spec_allocate(s1, lhs) {
                Ok((xl, s2)) => match spec_allocate(s2, rhs) {
                    Ok((xr, s3)) => Ok(
                        (
                            seq![
                                X86InstrV::Comment { text: "Div"@ },
                                X86InstrV::MoveReg { des: xd, src: xl },
                                X86InstrV::Div { des: xd, reg: xr },
                            ],
                            s3,
                        ),
                    ),
                    Err(_) => Err(CompErr::Exhausted),
                },
                Err(_) => Err(CompErr::Exhausted),
            },
            Err(_) => Err(CompErr::Exhausted),
        },
        InstrV::Grt { des, lhs, rhs } => match spec_allocate(s, des) {
            Ok((xd, s1)) => match spec_allocate(s1, lhs) {
                Ok((xl, s2)) => match spec_allocate(s2, rhs) {
                    Ok((xr, s3)) => Ok(
                        (
                            seq![
                                X86InstrV::Comment { text: "Grt"@ },
                                X86InstrV::MoveReg { des: xd, src: xl },
                                X86InstrV::Cmp { lhs: xd, rhs: xr },
                                X86InstrV::SetG,
                                X86InstrV::MoveZx { src: xd },
                            ],
                            s3,
                        ),
                    ),
                    Err(_) => Err(CompErr::Exhausted),
                },
                Err(_) => Err(CompErr::Exhausted),
            },
            Err(_) => Err(CompErr::Exhausted),
        },
        InstrV::Conditional { label, reg } => match spec_allocate(s, reg) {
            Ok((x, s1)) => Ok(
                (
                    seq![
                        X86InstrV::Comment { text: "Conditional"@ },
                        X86InstrV::Test { lhs: x, rhs: x },
                        X86InstrV::JumpZero { name: label },
                    ],
                    s1,
                ),
            ),
            Err(_) => Err(CompErr::Exhausted),
        },
        InstrV::Jump { label } => Ok(
            (
                seq![X86InstrV::Comment { text: "Jump"@ }, X86InstrV::Jump { name: label }],
                s,
            ),
        ),
        InstrV::DefLabel { label } => Ok(
            (
                seq![
                    X86InstrV::Comment { text: "DefLabel"@ },
                    X86InstrV::DefLabel { name: label },
                ],
                s,
            ),
        ),
        InstrV::Call { caller, args, ret } => match spec_allocate(s, ret) {
            Ok((x, s1)) => Ok(
                (
                    seq![
                        X86InstrV::Comment { text: "Call"@ },
                        X86InstrV::Call { name: caller },
                        X86InstrV::MoveReg { des: x, src: X86Reg::Rax },
                    ],
                    s1,
                ),
            ),
            Err(_) => Err(CompErr::Exhausted),
        },
        InstrV::Return { reg } => match reg {
            None => Ok((Seq::empty(), s)),
            Some(v) => match spec_allocate(s, v) {
                Ok((x, s1)) => Ok(
                    (
                        seq![
                            X86InstrV::Comment { text: "Return"@ },
                            X86InstrV::MoveReg { des: X86Reg::Rax, src: x },
                        ],
                        s1,
                    ),
                ),
                Err(_) => Err(CompErr::Exhausted),
            },
        },
        InstrV::Enter => Ok(
            (seq![X86InstrV::Comment { text: "Enter"@ }, X86InstrV::ProLog], s),
        ),
        InstrV::Leave => Ok(
            (seq![X86InstrV::Comment { text: "Leave"@ }, X86InstrV::Epilog], s),
        ),
        InstrV::Copy { to, from } => Err(CompErr::Unsupported),
        InstrV::DefFunc(_) => Err(CompErr::Unsupported),
    }
}

/// The instructions the first `n` body instructions select, threading the
/// allocator state.
pub open spec fn spec_compile_body(body: Seq<InstrV>, n: int, s: RegStV) -> Result<
    (Seq<X86InstrV>, RegStV),
    CompErr,
>
    decreases n,
{
    if 1 <= n <= body.len() {
        match spec_compile_body(body, n - 1, s) {
            Err(e) => Err(e),
            Ok((is0, s1)) => match spec_compile_instr(body[n - 1], s1) {
                Err(e) => Err(e),
                Ok((is1, s2)) => Ok((is0 + is1, s2)),
            },
        }
    } else {
        Ok((Seq::empty(), s))
    }
}

/// The parameter-copy sequence of the first `n` parameters: one parameter
/// register per slot, stored to and reloaded from the frame.
pub open spec fn spec_compile_params(params: Seq<(int, ir::Type)>, n: int, s: RegStV) -> Result<
    (Seq<X86InstrV>, RegStV),
    CompErr,
>
    decreases n,
{
    if 1 <= n <= params.len() {
        match spec_compile_params(params, n - 1, s) {
            Err(e) => Err(e),
            Ok((is0, s1)) => match spec_param_allocate(s1, params[n - 1].0) {
                Err(_) => Err(CompErr::Exhausted),
                Ok((xreg, s2)) => {
                    let m = Mem::Param { ty: params[n - 1].1, offset: (n * 8) as usize };
                    Ok(
                        (
                            is0 + seq![
                                X86InstrV::MoveMemReg { mem: m, reg: xreg },
                                X86InstrV::MoveRegMem { reg: xreg, mem: m },
                            ],
                            s2,
                        ),
                    )
                },
            },
        }
    } else {
        Ok((Seq::empty(), s))
    }
}

/// What one function definition compiles to: its label, the first
/// instruction of the compiled body, the parameter copies, and the rest of
/// the body; the allocator is reset afterwards.
pub open spec fn spec_compile_def(d: crate::ir::DefFuncV, s: RegStV) -> Result<
    Seq<X86InstrV>,
    CompErr,
> {
    match spec_compile_params(d.params, d.params.len() as int, s) {
        Err(e) => Err(e),
        Ok((pis, s1)) => match spec_compile_body(d.body, d.body.len() as int, s1) {
            Err(e) => Err(e),
            Ok((bis, _)) => if bis.len() == 0 {
                Err(CompErr::Unsupported)
            } else {
                Ok(
                    seq![X86InstrV::DefLabel { name: d.name }] + seq![bis[0]] + pis + bis.subrange(
                        1,
                        bis.len() as int,
                    ),
                )
            },
        },
    }
}

/// What the first `n` top-level IR instructions compile to. A failure
/// carries the name of the enclosing function, when there is one, for the
/// diagnostic.
pub open spec fn spec_compile_program(ir_code: Seq<InstrV>, n: int, s: RegStV) -> Result<
    (Seq<X86InstrV>, RegStV),
    (CompErr, Option<Seq<char>>),
>
    decreases n,
{
    if 1 <= n <= ir_code.len() {
        match spec_compile_program(ir_code, n - 1, s) {
            Err(e) => Err(e),
            Ok((is0, s1)) => match ir_code[n - 1] {
                InstrV::DefFunc(d) => match spec_compile_def(d, s1) {
                    Err(e) => Err((e, Some(d.name))),
                    Ok(is1) => Ok((is0 + is1, init_reg_st())),
                },
                _ => match spec_compile_instr(ir_code[n - 1], s1) {
                    Err(e) => Err((e, None)),
                    Ok((is1, s2)) => Ok((is0 + is1, s2)),
                },
            },
        }
    } else {
        Ok((Seq::empty(), s))
    }
}

/// The diagnostic text of a back-end failure.
pub open spec fn comp_msg(e: CompErr, name: Option<Seq<char>>) -> Seq<char> {
    match e {
        CompErr::Exhausted => match name {
            Some(n) => "register exhausted in "@ + n,
            None => "register exhausted"@,
        },
        CompErr::Unsupported => "unsupported instruction"@,
    }
}

/// Whether one body instruction is within what the instruction selection
/// covers: no nested definition, no generic copy.
pub open spec fn body_instr_ok(i: InstrV) -> bool {
    !(i is DefFunc) && !(i is Copy)
}

/// Whether a function definition is fit for the back end: a body that opens
/// with the prologue marker and stays within the selection table, and few
/// enough parameters for the frame offsets.
pub open spec fn def_func_ok(d: crate::ir::DefFuncV) -> bool {
    &&& forall|k: int| 0 <= k < d.body.len() ==> body_instr_ok(#[trigger] d.body[k])
    &&& d.body.len() > 0
    &&& d.body[0] is Enter
    &&& 8 * (d.params.len() + 1) <= usize::MAX
}

/// Whether a whole IR program is fit for the back end.
pub open spec fn x86_program_ok(ir_code: Seq<InstrV>) -> bool {
    forall|k: int|
        0 <= k < ir_code.len() ==> match #[trigger] ir_code[k] {
            InstrV::DefFunc(d) => def_func_ok(d),
            _ => body_instr_ok(ir_code[k]),
        }
}

/// A back-end failure, surfaced as an error.
#[derive(Debug, Clone, Copy, PartialEq, Eq, Structural)]
pub enum CompileError {
    RegisterExhausted,
}

impl View for CompileError {
    type V = CompErr;

    open spec fn view(&self) -> CompErr {
        CompErr::Exhausted
    }
}

/// One executable selection step agrees with the model.
spec fn compile_matches(
    r: Result<Vec<Instruction>, CompileError>,
    s: Result<(Seq<X86InstrV>, RegStV), CompErr>,
    post: RegStV,
) -> bool {
    match (r, s) {
        (Ok(v), Ok((si, ss))) => x86_view(v@) == si && post == ss,
        (Err(e), Err(se)) => e@ == se,
        _ => false,
    }
}

/// One selection step for one IR payload agrees with the model.
spec fn kind_matches(
    r: Result<Vec<Instruction>, CompileError>,
    iv: InstrV,
    pre: RegStV,
    post: RegStV,
) -> bool {
    compile_matches(r, spec_compile_instr(iv, pre), post)
}

/// Move-immediate selection.
fn compile_load_imm(x: &ir::LoadImm, state: &mut RegState) -> (r: Result<
    Vec<Instruction>,
    CompileError,
>)
    requires
        reg_st_wf(old(state)@),
    ensures
        reg_st_wf(final(state)@),
        kind_matches(r, InstrV::LoadImm { des: x.des@, imm: x.imm.0 }, old(state)@, final(state)@),
{
    let xd = match state.get_reg(&x.des) {
        Ok(v) => v,
        Err(_) => {
            return Err(CompileError::RegisterExhausted);
        },
    };
    let out = vec![Instruction::MoveImm(xd, x.imm.0)];
    proof {
        assert(x86_view(out@) =~= seq![X86InstrV::MoveImm { des: xd, value: x.imm.0 }]);
    }
    Ok(out)
}

/// Register-copy selection.
fn compile_copy_reg(x: &ir::CopyReg, state: &mut RegState) -> (r: Result<
    Vec<Instruction>,
    CompileError,
>)
    requires
        reg_st_wf(old(state)@),
    ensures
        reg_st_wf(final(state)@),
        kind_matches(r, InstrV::CopyReg { des: x.des@, src: x.src@ }, old(state)@, final(state)@),
{
    let xd = match state.get_reg(&x.des) {
        Ok(v) => v,
        Err(_) => {
            return Err(CompileError::RegisterExhausted);
        },
    };
    let xs = match state.get_reg(&x.src) {
        Ok(v) => v,
        Err(_) => {
            return Err(CompileError::RegisterExhausted);
        },
    };
    let out = vec![Instruction::MoveReg(xd, xs)];
    proof {
        assert(x86_view(out@) =~= seq![X86InstrV::MoveReg { des: xd, src: xs }]);
    }
    Ok(out)
}

/// Addition releases both operands after use.
fn compile_add(x: &ir::Add, state: &mut RegState) -> (r: Result<Vec<Instruction>, CompileError>)
    requires
        reg_st_wf(old(state)@),
    ensures
        reg_st_wf(final(state)@),
        kind_matches(
            r,
            InstrV::Add { des: x.des@, lhs: x.lhs@, rhs: x.rhs@ },
            old(state)@,
            final(state)@,
        ),
{
    let xd = match state.get_reg(&x.des) {
        Ok(v) => v,
        Err(_) => {
            return Err(CompileError::RegisterExhausted);
        },
    };
    let xl = match state.get_reg(&x.lhs) {
        Ok(v) => v,
        Err(_) => {
            return Err(CompileError::RegisterExhausted);
        },
    };
    state.release_reg(&x.lhs);
    let xr = match state.get_reg(&x.rhs) {
        Ok(v) => v,
        Err(_) => {
            return Err(CompileError::RegisterExhausted);
        },
    };
    state.release_reg(&x.rhs);
    let out = vec![
        Instruction::Comment(String::from_str("Add")),
        Instruction::MoveReg(xd, xl),
        Instruction::Add(xd, xr),
    ];
    proof {
        assert(x86_view(out@) =~= seq![
            X86InstrV::Comment { text: "Add"@ },
            X86InstrV::MoveReg { des: xd, src: xl },
            X86InstrV::Add { des: xd, reg: xr },
        ]);
    }
    Ok(out)
}

/// Multiplication releases both operands after use.
fn compile_mul(x: &ir::Mul, state: &mut RegState) -> (r: Result<Vec<Instruction>, CompileError>)
    requires
        reg_st_wf(old(state)@),
    ensures
        reg_st_wf(final(state)@),
        kind_matches(
            r,
            InstrV::Mul { des: x.des@, lhs: x.lhs@, rhs: x.rhs@ },
            old(state)@,
            final(state)@,
        ),
{
    let xd = match state.get_reg(&x.des) {
        Ok(v) => v,
        Err(_) => {
            return Err(CompileError::RegisterExhausted);
        },
    };
    let xl = match state.get_reg(&x.lhs) {
        Ok(v) => v,
        Err(_) => {
            return Err(CompileError::RegisterExhausted);
        },
    };
    state.release_reg(&x.lhs);
    let xr = match state.get_reg(&x.rhs) {
        Ok(v) => v,
        Err(_) => {
            return Err(CompileError::RegisterExhausted);
        },
    };
    state.release_reg(&x.rhs);
    let out = vec![
        Instruction::Comment(String::from_str("Mul")),
        Instruction::MoveReg(xd, xl),
        Instruction::Mul(xd, xr),
    ];
    proof {
        assert(x86_view(out@) =~= seq![
            X86InstrV::Comment { text: "Mul"@ },
            X86InstrV::MoveReg { des: xd, src: xl },
            X86InstrV::Mul { des: xd, reg: xr },
        ]);
    }
    Ok(out)
}

/// Subtraction keeps its operands live.
fn compile_sub(x: &ir::Sub, state: &mut RegState) -> (r: Result<Vec<Instruction>, CompileError>)
    requires
        reg_st_wf(old(state)@),
    ensures
        reg_st_wf(final(state)@),
        kind_matches(
            r,
            InstrV::Sub { des: x.des@, lhs: x.lhs@, rhs: x.rhs@ },
            old(state)@,
            final(state)@,
        ),
{
    let xd = match state.get_reg(&x.des) {
        Ok(v) => v,
        Err(_) => {
            return Err(CompileError::RegisterExhausted);
        },
    };
    let xl = match state.get_reg(&x.lhs) {
        Ok(v) => v,
        Err(_) => {
            return Err(CompileError::RegisterExhausted);
        },
    };
    let xr = match state.get_reg(&x.rhs) {
        Ok(v) => v,
        Err(_) => {
            return Err(CompileError::RegisterExhausted);
        },
    };
    let out = vec![
        Instruction::Comment(String::from_str("Sub")),
        Instruction::MoveReg(xd, xl),
        Instruction::Sub(xd, xr),
    ];
    proof {
        assert(x86_view(out@) =~= seq![
            X86InstrV::Comment { text: "Sub"@ },
            X86InstrV::MoveReg { des: xd, src: xl },
            X86InstrV::Sub { des: xd, reg: xr },
        ]);
    }
    Ok(out)
}

/// Division keeps its operands live.
fn compile_div(x: &ir::Div, state: &mut RegState) -> (r: Result<Vec<Instruction>, CompileError>)
    requires
        reg_st_wf(old(state)@),
    ensures
        reg_st_wf(final(state)@),
        kind_matches(
            r,
            InstrV::Div { des: x.des@, lhs: x.lhs@, rhs: x.rhs@ },
            old(state)@,
            final(state)@,
        ),
{
    let xd = match state.get_reg(&x.des) {
        Ok(v) => v,
        Err(_) => {
            return Err(CompileError::RegisterExhausted);
        },
    };
    let xl = match state.get_reg(&x.lhs) {
        Ok(v) => v,
        Err(_) => {
            return Err(CompileError::RegisterExhausted);
        },
    };
    let xr = match state.get_reg(&x.rhs) {
        Ok(v) => v,
        Err(_) => {
            return Err(CompileError::RegisterExhausted);
        },
    };
    let out = vec![
        Instruction::Comment(String::from_str("Div")),
        Instruction::MoveReg(xd, xl),
        Instruction::Div(xd, xr),
    ];
    proof {
        assert(x86_view(out@) =~= seq![
            X86InstrV::Comment { text: "Div"@ },
            X86InstrV::MoveReg { des: xd, src: xl },
            X86InstrV::Div { des: xd, reg: xr },
        ]);
    }
    Ok(out)
}

/// A comparison materializes its boolean as 0 or 1 in the destination.
fn compile_grt(x: &ir::Grt, state: &mut RegState) -> (r: Result<Vec<Instruction>, CompileError>)
    requires
        reg_st_wf(old(state)@),
    ensures
        reg_st_wf(final(state)@),
        kind_matches(
            r,
            InstrV::Grt { des: x.des@, lhs: x.lhs@, rhs: x.rhs@ },
            old(state)@,
            final(state)@,
        ),
{
    let xd = match state.get_reg(&x.des) {
        Ok(v) => v,
        Err(_) => {
            return Err(CompileError::RegisterExhausted);
        },
    };
    let xl = match state.get_reg(&x.lhs) {
        Ok(v) => v,
        Err(_) => {
            return Err(CompileError::RegisterExhausted);
        },
    };
    let xr = match state.get_reg(&x.rhs) {
        Ok(v) => v,
        Err(_) => {
            return Err(CompileError::RegisterExhausted);
        },
    };
    let out = vec![
        Instruction::Comment(String::from_str("Grt")),
        Instruction::MoveReg(xd, xl),
        Instruction::Cmp(xd, xr),
        Instruction::SetG,
        Instruction::MoveZx(xd),
    ];
    proof {
        assert(x86_view(out@) =~= seq![
            X86InstrV::Comment { text: "Grt"@ },
            X86InstrV::MoveReg { des: xd, src: xl },
            X86InstrV::Cmp { lhs: xd, rhs: xr },
            X86InstrV::SetG,
            X86InstrV::MoveZx { src: xd },
        ]);
    }
    Ok(out)
}

/// A conditional branch tests the register and jumps on zero.
fn compile_conditional(x: &ir::Conditional, state: &mut RegState) -> (r: Result<
    Vec<Instruction>,
    CompileError,
>)
    requires
        reg_st_wf(old(state)@),
    ensures
        reg_st_wf(final(state)@),
        kind_matches(
            r,
            InstrV::Conditional { label: x.label@, reg: x.reg@ },
            old(state)@,
            final(state)@,
        ),
{
    let xc = match state.get_reg(&x.reg) {
        Ok(v) => v,
        Err(_) => {
            return Err(CompileError::RegisterExhausted);
        },
    };
    let out = vec![
        Instruction::Comment(String::from_str("Conditional")),
        Instruction::Test(xc, xc),
        Instruction::JumpZero(x.label.0.clone()),
    ];
    proof {
        assert(x86_view(out@) =~= seq![
            X86InstrV::Comment { text: "Conditional"@ },
            X86InstrV::Test { lhs: xc, rhs: xc },
            X86InstrV::JumpZero { name: x.label@ },
        ]);
    }
    Ok(out)
}

/// A call's result is copied from the return slot into its own register.
fn compile_call(x: &ir::Call, state: &mut RegState) -> (r: Result<Vec<Instruction>, CompileError>)
    requires
        reg_st_wf(old(state)@),
    ensures
        reg_st_wf(final(state)@),
        kind_matches(
            r,
            InstrV::Call {
                caller: x.caller@,
                args: x.args@.map_values(|rg: crate::ir::Reg| rg@),
                ret: x.ret@,
            },
            old(state)@,
            final(state)@,
        ),
{
    let xr = match state.get_reg(&x.ret) {
        Ok(v) => v,
        Err(_) => {
            return Err(CompileError::RegisterExhausted);
        },
    };
    let out = vec![
        Instruction::Comment(String::from_str("Call")),
        Instruction::Call(x.caller.0.clone()),
        Instruction::MoveReg(xr, X86Reg::Rax),
    ];
    proof {
        assert(x86_view(out@) =~= seq![
            X86InstrV::Comment { text: "Call"@ },
            X86InstrV::Call { name: x.caller@ },
            X86InstrV::MoveReg { des: xr, src: X86Reg::Rax },
        ]);
    }
    Ok(out)
}

/// A return with a register moves it into the return slot; one without
/// emits nothing.
fn compile_return(x: &ir::Return, state: &mut RegState) -> (r: Result<
    Vec<Instruction>,
    CompileError,
>)
    requires
        reg_st_wf(old(state)@),
    ensures
        reg_st_wf(final(state)@),
        kind_matches(
            r,
            InstrV::Return {
                reg: match x.0 {
                    Some(rg) => Some(rg@),
                    None => None,
                },
            },
            old(state)@,
            final(state)@,
        ),
{
    match &x.0 {
        None => {
            let out: Vec<Instruction> = Vec::new();
            proof {
                assert(x86_view(out@) =~= Seq::<X86InstrV>::empty());
            }
            Ok(out)
        },
        Some(rg) => {
            let xv = match state.get_reg(rg) {
                Ok(v) => v,
                Err(_) => {
                    return Err(CompileError::RegisterExhausted);
                },
            };
            let ret = state.get_ret_reg();
            let out = vec![
                Instruction::Comment(String::from_str("Return")),
                Instruction::MoveReg(ret, xv),
            ];
            proof {
                assert(x86_view(out@) =~= seq![
                    X86InstrV::Comment { text: "Return"@ },
                    X86InstrV::MoveReg { des: X86Reg::Rax, src: xv },
                ]);
            }
            Ok(out)
        },
    }
}

/// Selects the target instructions for one body instruction, as the table
/// demands, by dispatching on its kind.
fn compile_body_instr(i: &ir::Instruction, state: &mut RegState) -> (r: Result<
    Vec<Instruction>,
    CompileError,
>)
    requires
        body_instr_ok(i@),
        reg_st_wf(old(state)@),
    ensures
        reg_st_wf(final(state)@),
        compile_matches(r, spec_compile_instr(i@, old(state)@), final(state)@),
{
    match i {
        ir::Instruction::LoadImm(x) => compile_load_imm(x, state),
        ir::Instruction::CopyReg(x) => compile_copy_reg(x, state),
        ir::Instruction::Add(x) => compile_add(x, state),
        ir::Instruction::Mul(x) => compile_mul(x, state),
        ir::Instruction::Sub(x) => compile_sub(x, state),
        ir::Instruction::Div(x) => compile_div(x, state),
        ir::Instruction::Grt(x) => compile_grt(x, state),
        ir::Instruction::Conditional(x) => compile_conditional(x, state),
        ir::Instruction::Jump(x) => {
            let out = vec![
                Instruction::Comment(String::from_str("Jump")),
                Instruction::Jump(x.name()),
            ];
            proof {
                assert(x86_view(out@) =~= seq![
                    X86InstrV::Comment { text: "Jump"@ },
                    X86InstrV::Jump { name: x.0@ },
                ]);
            }
            Ok(out)
        },
        ir::Instruction::DefLabel(x) => {
            let out = vec![
                Instruction::Comment(String::from_str("DefLabel")),
                Instruction::DefLabel(x.name()),
            ];
            proof {
                assert(x86_view(out@) =~= seq![
                    X86InstrV::Comment { text: "DefLabel"@ },
                    X86InstrV::DefLabel { name: x.0@ },
                ]);
            }
            Ok(out)
        },
        ir::Instruction::Call(x) => compile_call(x, state),
        ir::Instruction::Return(x) => compile_return(x, state),
        ir::Instruction::Enter(_) => {
            let out = vec![
                Instruction::Comment(String::from_str("Enter")),
                Instruction::ProLog,
            ];
            proof {
                assert(x86_view(out@) =~= seq![
                    X86InstrV::Comment { text: "Enter"@ },
                    X86InstrV::ProLog,
                ]);
            }
            Ok(out)
        },
        ir::Instruction::Leave(_) => {
            let out = vec![
                Instruction::Comment(String::from_str("Leave")),
                Instruction::Epilog,
            ];
            proof {
                assert(x86_view(out@) =~= seq![
                    X86InstrV::Comment { text: "Leave"@ },
                    X86InstrV::Epilog,
                ]);
            }
            Ok(out)
        },
        ir::Instruction::Copy(_) => unreached(),
        ir::Instruction::DefFunc(_) => unreached(),
    }
}

/// An error while compiling a body prefix is the error of the whole body.
proof fn lemma_compile_body_err_mono(body: Seq<InstrV>, k: int, n: int, s: RegStV)
    requires
        1 <= k <= n <= body.len(),
        spec_compile_body(body, k, s) is Err,
    ensures
        spec_compile_body(body, n, s) == spec_compile_body(body, k, s),
    decreases n,
{
    if k < n {
        lemma_compile_body_err_mono(body, k, n - 1, s);
    }
}

/// An error while copying a parameter prefix is the error of the whole
/// parameter list.
proof fn lemma_compile_params_err_mono(params: Seq<(int, ir::Type)>, k: int, n: int, s: RegStV)
    requires
        1 <= k <= n <= params.len(),
        spec_compile_params(params, k, s) is Err,
    ensures
        spec_compile_params(params, n, s) == spec_compile_params(params, k, s),
    decreases n,
{
    if k < n {
        lemma_compile_params_err_mono(params, k, n - 1, s);
    }
}

/// A body that opens with the prologue marker compiles to at least one
/// instruction, so taking the first compiled instruction is sound.
proof fn lemma_compile_body_first(body: Seq<InstrV>, n: int, s: RegStV)
    requires
        1 <= n <= body.len(),
        body[0] is Enter,
    ensures
        spec_compile_body(body, n, s) matches Ok((bis, _)) ==> bis.len() >= 2 && bis[0]
            == (X86InstrV::Comment { text: "Enter"@ }),
    decreases n,
{
    if n == 1 {
        match spec_compile_instr(body[0], s) {
            Ok((is1, _)) => {
                assert(Seq::<X86InstrV>::empty() + is1 =~= is1);
            },
            Err(_) => {},
        }
    } else {
        lemma_compile_body_first(body, n - 1, s);
    }
}

/// Compiles one function definition: the label, the compiled body's first
/// instruction, the parameter copies, then the rest of the body; the
/// allocator is reset at the end.
fn compile_def_func(d: &ir::DefFunc, state: &mut RegState) -> (r: Result<
    Vec<Instruction>,
    CompileError,
>)
    requires
        def_func_ok(d@),
        reg_st_wf(old(state)@),
    ensures
        reg_st_wf(final(state)@),
        match (r, spec_compile_def(d@, old(state)@)) {
            (Ok(v), Ok(si)) => x86_view(v@) == si && final(state)@ == init_reg_st(),
            (Err(e), Err(se)) => e@ == se,
            _ => false,
        },
{
    let ghost s0 = state@;
    let np = d.params.len();
    let mut pinstrs: Vec<Instruction> = Vec::new();
    let mut i: usize = 0;
    proof {
        assert(x86_view(pinstrs@) =~= Seq::<X86InstrV>::empty());
        assert(d@.params.len() == np) by {
            assert(d@.params == d.params@.map_values(|p: (ir::Reg, ir::Type)| (p.0@, p.1)));
        }
    }
    while i < np
        invariant
            i <= np,
            np == d.params.len(),
            def_func_ok(d@),
            d@.params.len() == np,
            s0 == old(state)@,
            reg_st_wf(state@),
            forall|k: int|
                0 <= k < np ==> (#[trigger] d@.params[k]) == (d.params@[k].0@, d.params@[k].1),
            spec_compile_params(d@.params, i as int, s0) == Ok::<(Seq<X86InstrV>, RegStV), CompErr>(
                (x86_view(pinstrs@), state@),
            ),
        decreases np - i,
    {
        let xreg = match state.get_param_reg(&d.params[i].0) {
            Ok(v) => v,
            Err(_) => {
                proof {
                    lemma_compile_params_err_mono(d@.params, i + 1 as int, np as int, s0);
                }
                return Err(CompileError::RegisterExhausted);
            },
        };
        let offset = (i + 1) * 8;
        let m = Mem::Param { ty: d.params[i].1, offset };
        let ghost before = pinstrs@;
        pinstrs.push(Instruction::MoveMemReg(m, xreg));
        pinstrs.push(Instruction::MoveRegMem(xreg, m));
        i = i + 1;
        proof {
            assert(x86_view(pinstrs@) =~= x86_view(before) + seq![
                X86InstrV::MoveMemReg { mem: m, reg: xreg },
                X86InstrV::MoveRegMem { reg: xreg, mem: m },
            ]);
        }
    }

    let ghost s1 = state@;
    let nb = d.body.len();
    let mut binstrs: Vec<Instruction> = Vec::new();
    let mut j: usize = 0;
    proof {
        assert(x86_view(binstrs@) =~= Seq::<X86InstrV>::empty());
        assert(d@.body == instrs_view(d.body@, nb as int));
        crate::ir::instruction::lemma_instrs_view_len(d.body@, nb as int);
    }
    while j < nb
        invariant
            j <= nb,
            nb == d.body.len(),
            def_func_ok(d@),
            d@.body == instrs_view(d.body@, nb as int),
            d@.body.len() == nb,
            s1_matches_params(d@, s0, s1),
            s0 == old(state)@,
            reg_st_wf(state@),
            spec_compile_body(d@.body, j as int, s1) == Ok::<(Seq<X86InstrV>, RegStV), CompErr>(
                (x86_view(binstrs@), state@),
            ),
        decreases nb - j,
    {
        proof {
            lemma_instrs_view_index(d.body@, nb as int, j as int);
        }
        let mut piece = match compile_body_instr(&d.body[j], state) {
            Ok(v) => v,
            Err(e) => {
                proof {
                    lemma_compile_body_err_mono(d@.body, j + 1 as int, nb as int, s1);
                }
                return Err(e);
            },
        };
        let ghost before = binstrs@;
        let ghost piece_snap = piece@;
        binstrs.append(&mut piece);
        j = j + 1;
        proof {
            assert(x86_view(binstrs@) =~= x86_view(before) + x86_view(piece_snap));
        }
    }

    proof {
        lemma_compile_body_first(d@.body, nb as int, s1);
    }
    let mut result: Vec<Instruction> = Vec::new();
    result.push(Instruction::DefLabel(d.name.clone()));
    let first = binstrs.remove(0);
    result.push(first);
    let ghost pre_params = result@;
    result.append(&mut pinstrs);
    result.append(&mut binstrs);
    state.reset();
    proof {
        let si = match spec_compile_def(d@, s0) {
            Ok(si) => si,
            Err(_) => Seq::empty(),
        };
        assert(x86_view(result@) =~= si);
    }
    Ok(result)
}

/// The allocator state after the parameter copies of `d` from `s0`.
spec fn s1_matches_params(d: crate::ir::DefFuncV, s0: RegStV, s1: RegStV) -> bool {
    spec_compile_params(d.params, d.params.len() as int, s0) matches Ok((_, ss)) && ss == s1
}

/// An error in a top-level prefix is the error of the whole program.
proof fn lemma_compile_program_err_mono(ir_code: Seq<InstrV>, k: int, n: int, s: RegStV)
    requires
        1 <= k <= n <= ir_code.len(),
        spec_compile_program(ir_code, k, s) is Err,
    ensures
        spec_compile_program(ir_code, n, s) == spec_compile_program(ir_code, k, s),
    decreases n,
{
    if k < n {
        lemma_compile_program_err_mono(ir_code, k, n - 1, s);
    }
}

/// Compiles a whole IR program onto the target instruction set, threading
/// one allocator through the pass and resetting it at every function
/// boundary. On failure no instructions are produced, only the diagnostic
/// naming the function whose compilation exhausted the register file.
#[verifier::rlimit(100)]
pub fn compile_ir_code(input: (Vec<ir::Instruction>, SymbolTable)) -> (r: Result<
    Vec<Instruction>,
    Vec<String>,
>)
    requires
        x86_program_ok(instrs_view(input.0@, input.0@.len() as int)),
    ensures
        match (r, spec_compile_program(
            instrs_view(input.0@, input.0@.len() as int),
            input.0@.len() as int,
            init_reg_st(),
        )) {
            (Ok(out), Ok((si, _))) => x86_view(out@) == si,
            (Err(msgs), Err((e, name))) => msgs@.len() == 1 && msgs@[0]@ == comp_msg(e, name),
            _ => false,
        },
{
    let (ir_code, _symbol_table) = input;
    let ghost iv = instrs_view(ir_code@, ir_code@.len() as int);
    let mut state = RegState::default();
    let mut out: Vec<Instruction> = Vec::new();
    let n = ir_code.len();
    let mut k: usize = 0;
    proof {
        crate::ir::instruction::lemma_instrs_view_len(ir_code@, n as int);
        assert(x86_view(out@) =~= Seq::<X86InstrV>::empty());
    }
    while k < n
        invariant
            k <= n,
            n == ir_code.len(),
            ir_code@ == input.0@,
            iv == instrs_view(ir_code@, n as int),
            iv.len() == n,
            x86_program_ok(iv),
            reg_st_wf(state@),
            spec_compile_program(iv, k as int, init_reg_st()) == Ok::<
                (Seq<X86InstrV>, RegStV),
                (CompErr, Option<Seq<char>>),
            >((x86_view(out@), state@)),
        decreases n - k,
    {
        let ghost st_k = state@;
        proof {
            lemma_instrs_view_index(ir_code@, n as int, k as int);
        }
        let step = match &ir_code[k] {
            ir::Instruction::DefFunc(d) => {
                match compile_def_func(d, &mut state) {
                    Ok(v) => v,
                    Err(_) => {
                        let mut msg = String::from_str("register exhausted in ");
                        msg.append(d.name.as_str());
                        proof {
                            assert(iv[k as int] == InstrV::DefFunc(d@));
                            assert(spec_compile_def(d@, st_k) is Err);
                            assert(spec_compile_program(iv, k + 1 as int, init_reg_st()) is Err);
                            lemma_compile_program_err_mono(iv, k + 1 as int, n as int, init_reg_st());
                            assert(msg@ == comp_msg(CompErr::Exhausted, Some(d@.name)));
                        }
                        let mut msgs: Vec<String> = Vec::new();
                        msgs.push(msg);
                        return Err(msgs);
                    },
                }
            },
            other => {
                match compile_body_instr(other, &mut state) {
                    Ok(v) => v,
                    Err(_) => {
                        let msg = String::from_str("register exhausted");
                        proof {
                            assert(!(iv[k as int] is DefFunc));
                            assert(spec_compile_instr(iv[k as int], st_k) is Err);
                            assert(spec_compile_program(iv, k + 1 as int, init_reg_st()) is Err);
                            lemma_compile_program_err_mono(iv, k + 1 as int, n as int, init_reg_st());
                            assert(msg@ == comp_msg(CompErr::Exhausted, None::<Seq<char>>));
                        }
                        let mut msgs: Vec<String> = Vec::new();
                        msgs.push(msg);
                        return Err(msgs);
                    },
                }
            },
        };
        let mut step = step;
        let ghost before = out@;
        let ghost step_snap = step@;
        out.append(&mut step);
        k = k + 1;
        proof {
            assert(x86_view(out@) =~= x86_view(before) + x86_view(step_snap));
        }
    }
    Ok(out)
}

/// The operand-size keyword of a value type; only 64-bit values have one.
pub open spec fn type_size_text(t: ir::Type) -> Seq<char> {
    match t {
        ir::Type::U64 => "qword"@,
        ir::Type::Null => Seq::empty(),
    }
}

/// The text of a memory operand.
pub open spec fn mem_text(m: Mem) -> Seq<char> {
    match m {
        Mem::Param { ty, offset } => type_size_text(ty) + " [rbp-"@ + dec_digits(offset as nat)
            + "]"@,
    }
}

/// The common shape of a two-operand line: four spaces, the mnemonic padded
/// to ten columns, the first operand and a comma padded likewise, then the
/// second operand.
pub open spec fn two_op_text(mn: Seq<char>, a: Seq<char>, w: nat, b: Seq<char>) -> Seq<char> {
    "    "@ + pad_right(mn, 10) + pad_right(a + ","@, w) + b + "\n"@
}

/// The exact text of one rendered target instruction: the layout is a
/// compatibility contract, byte for byte.
pub open spec fn x86_instr_text(i: X86InstrV) -> Seq<char> {
    match i {
        X86InstrV::Comment { text } => "    ;; "@ + text + "\n"@,
        X86InstrV::MoveImm { des, value } => two_op_text(
            "mov"@,
            x86_reg_name(des),
            10,
            dec_digits(value as nat),
        ),
        X86InstrV::MoveReg { des, src } => two_op_text(
            "mov"@,
            x86_reg_name(des),
            10,
            x86_reg_name(src),
        ),
        X86InstrV::MoveMemReg { mem, reg } => two_op_text(
            "mov"@,
            mem_text(mem),
            10,
            x86_reg_name(reg),
        ),
        X86InstrV::MoveRegMem { reg, mem } => two_op_text(
            "mov"@,
            x86_reg_name(reg),
            16,
            mem_text(mem),
        ),
        X86InstrV::MoveZx { src } => two_op_text("movzx"@, x86_reg_name(src), 10, "al"@),
        X86InstrV::Add { des, reg } => two_op_text(
            "add"@,
            x86_reg_name(des),
            10,
            x86_reg_name(reg),
        ),
        X86InstrV::Sub { des, reg } => two_op_text(
            "sub"@,
            x86_reg_name(des),
            10,
            x86_reg_name(reg),
        ),
        X86InstrV::Mul { des, reg } => two_op_text(
            "imul"@,
            x86_reg_name(des),
            10,
            x86_reg_name(reg),
        ),
        X86InstrV::Div { des, reg } => two_op_text(
            "idiv"@,
            x86_reg_name(des),
            10,
            x86_reg_name(reg),
        ),
        X86InstrV::DefLabel { name } => name + "__:\n"@,
        X86InstrV::Call { name } => "    "@ + pad_right("call"@, 10) + name + "__\n"@,
        X86InstrV::Jump { name } => "    "@ + pad_right("jmp"@, 10) + name + "__\n"@,
        X86InstrV::JumpZero { name } => "    "@ + pad_right("jz"@, 10) + name + "__\n"@,
        X86InstrV::Cmp { lhs, rhs } => two_op_text(
            "cmp"@,
            x86_reg_name(lhs),
            10,
            x86_reg_name(rhs),
        ),
        X86InstrV::Test { lhs, rhs } => two_op_text(
            "test"@,
            x86_reg_name(lhs),
            10,
            x86_reg_name(rhs),
        ),
        X86InstrV::SetG => "    "@ + pad_right("setg"@, 10) + "al\n"@,
        X86InstrV::ProLog => "    "@ + pad_right("push"@, 10) + "rbp\n"@ + "    "@ + pad_right(
            "mov"@,
            10,
        ) + pad_right("rbp,"@, 10) + "rsp\n"@,
        X86InstrV::Epilog => "    "@ + pad_right("mov"@, 10) + pad_right("rbp,"@, 10) + "rsp\n"@
            + "    "@ + pad_right("pop"@, 10) + "rbp\n"@ + "    ret\n"@,
        X86InstrV::Syscall => "    syscall\n"@,
    }
}

/// Whether the renderer covers the instruction: memory operands must carry
/// a sized type.
pub open spec fn x86_renderable(i: X86InstrV) -> bool {
    match i {
        X86InstrV::MoveMemReg { mem, .. } => mem_ok(mem),
        X86InstrV::MoveRegMem { mem, .. } => mem_ok(mem),
        _ => true,
    }
}

/// Whether a memory operand has a sized type.
pub open spec fn mem_ok(m: Mem) -> bool {
    match m {
        Mem::Param { ty, .. } => ty is U64,
    }
}

/// The operand-size keyword of a sized value type.
fn type_size(t: &ir::Type) -> (r: &'static str)
    requires
        *t is U64,
    ensures
        r@ == type_size_text(*t),
{
    "qword"
}

/// Renders a memory operand.
fn mem_to_text(m: &Mem) -> (r: String)
    requires
        mem_ok(*m),
    ensures
        r@ == mem_text(*m),
{
    match m {
        Mem::Param { ty, offset } => {
            let mut s = String::from_str(type_size(ty));
            s.append(" [rbp-");
            let d = u64_to_dec(*offset as u64);
            s.append(d.as_str());
            s.append("]");
            s
        },
    }
}

/// Emits one two-operand line.
fn two_op_exec(mn: &str, a: String, w: usize, b: &str) -> (r: String)
    ensures
        r@ == two_op_text(mn@, a@, w as nat, b@),
{
    let mut s = String::from_str("    ");
    let p1 = pad_right_exec(String::from_str(mn), 10);
    s.append(p1.as_str());
    let mut af = a;
    af.append(",");
    let p2 = pad_right_exec(af, w);
    s.append(p2.as_str());
    s.append(b);
    s.append("\n");
    s
}

impl Instruction {
    /// The instruction rendered exactly as the text layout demands.
    pub fn to_text(&self) -> (r: String)
        requires
            x86_renderable(self@),
        ensures
            r@ == x86_instr_text(self@),
    {
        match self {
            Instruction::Comment(t) => {
                let mut s = String::from_str("    ;; ");
                s.append(t.as_str());
                s.append("\n");
                s
            },
            Instruction::MoveImm(d, v) => two_op_exec("mov", d.to_text(), 10, u64_to_dec(
                *v,
            ).as_str()),
            Instruction::MoveReg(d, src) => two_op_exec("mov", d.to_text(), 10, src.to_text(
            ).as_str()),
            Instruction::MoveMemReg(m, rg) => two_op_exec("mov", mem_to_text(m), 10, rg.to_text(
            ).as_str()),
            Instruction::MoveRegMem(rg, m) => two_op_exec("mov", rg.to_text(), 16, mem_to_text(
                m,
            ).as_str()),
            Instruction::MoveZx(src) => two_op_exec("movzx", src.to_text(), 10, "al"),
            Instruction::Add(d, rg) => two_op_exec("add", d.to_text(), 10, rg.to_text().as_str()),
            Instruction::Sub(d, rg) => two_op_exec("sub", d.to_text(), 10, rg.to_text().as_str()),
            Instruction::Mul(d, rg) => two_op_exec("imul", d.to_text(), 10, rg.to_text().as_str()),
            Instruction::Div(d, rg) => two_op_exec("idiv", d.to_text(), 10, rg.to_text().as_str()),
            Instruction::DefLabel(n) => {
                let mut s = n.clone();
                s.append("__:\n");
                s
            },
            Instruction::Call(n) => {
                let mut s = String::from_str("    ");
                let p = pad_right_exec(String::from_str("call"), 10);
                s.append(p.as_str());
                s.append(n.as_str());
                s.append("__\n");
                s
            },
            Instruction::Jump(n) => {
                let mut s = String::from_str("    ");
                let p = pad_right_exec(String::from_str("jmp"), 10);
                s.append(p.as_str());
                s.append(n.as_str());
                s.append("__\n");
                s
            },
            Instruction::JumpZero(n) => {
                let mut s = String::from_str("    ");
                let p = pad_right_exec(String::from_str("jz"), 10);
                s.append(p.as_str());
                s.append(n.as_str());
                s.append("__\n");
                s
            },
            Instruction::Cmp(l, rr) => two_op_exec("cmp", l.to_text(), 10, rr.to_text().as_str()),
            Instruction::Test(l, rr) => two_op_exec("test", l.to_text(), 10, rr.to_text().as_str()),
            Instruction::SetG => {
                let mut s = String::from_str("    ");
                let p = pad_right_exec(String::from_str("setg"), 10);
                s.append(p.as_str());
                s.append("al\n");
                s
            },
            Instruction::ProLog => {
                let mut s = String::from_str("    ");
                let p1 = pad_right_exec(String::from_str("push"), 10);
                s.append(p1.as_str());
                s.append("rbp\n");
                s.append("    ");
                let p2 = pad_right_exec(String::from_str("mov"), 10);
                s.append(p2.as_str());
                let p3 = pad_right_exec(String::from_str("rbp,"), 10);
                s.append(p3.as_str());
                s.append("rsp\n");
                s
            },
            Instruction::Epilog => {
                let mut s = String::from_str("    ");
                let p1 = pad_right_exec(String::from_str("mov"), 10);
                s.append(p1.as_str());
                let p2 = pad_right_exec(String::from_str("rbp,"), 10);
                s.append(p2.as_str());
                s.append("rsp\n");
                s.append("    ");
                let p3 = pad_right_exec(String::from_str("pop"), 10);
                s.append(p3.as_str());
                s.append("rbp\n");
                s.append("    ret\n");
                s
            },
            Instruction::Syscall => String::from_str("    syscall\n"),
        }
    }
}

/// The concatenated text of the first `n` rendered instructions.
pub open spec fn x86_texts(is: Seq<X86InstrV>, n: int) -> Seq<char>
    decreases n,
{
    if 1 <= n <= is.len() {
        x86_texts(is, n - 1) + x86_instr_text(is[n - 1])
    } else {
        Seq::empty()
    }
}

/// Formats a compiled instruction sequence as one assembly text, each
/// instruction rendered in order.
pub fn instruction_to_string(ir_code: Vec<Instruction>) -> (r: Result<String, Vec<String>>)
    requires
        forall|k: int|
            0 <= k < ir_code@.len() ==> x86_renderable((#[trigger] ir_code@[k])@),
    ensures
        r matches Ok(text) && text@ == x86_texts(x86_view(ir_code@), ir_code@.len() as int),
{
    let mut out = String::new();
    let n = ir_code.len();
    let mut k: usize = 0;
    proof {
        assert(out@ =~= x86_texts(x86_view(ir_code@), 0));
    }
    while k < n
        invariant
            k <= n,
            n == ir_code@.len(),
            forall|j: int| 0 <= j < n ==> x86_renderable((#[trigger] ir_code@[j])@),
            out@ == x86_texts(x86_view(ir_code@), k as int),
        decreases n - k,
    {
        let t = ir_code[k].to_text();
        out.append(t.as_str());
        k = k + 1;
        proof {
            assert(x86_view(ir_code@).len() == n);
            assert(x86_view(ir_code@)[k - 1] == ir_code@[k - 1]@);
        }
    }
    Ok(out)
}

/// The text the whole pipeline produces for a program, when every stage
/// succeeds: IR generation, instruction selection, rendering.
pub open spec fn pipeline_text(items: Vec<crate::ast::Item>) -> Option<Seq<char>> {
    match crate::ir::lower::lower_program(items) {
        Err(_) => None,
        Ok(code) => match spec_compile_program(code, code.len() as int, init_reg_st()) {
            Err(_) => None,
            Ok((xi, _)) => Some(x86_texts(xi, xi.len() as int)),
        },
    }
}

/// Running the full pipeline twice on identical input produces
/// byte-identical rendered text: every stage's result is a mathematical
/// function of its input alone, and the verified pipeline functions are
/// proved to return exactly these functions' values.
pub proof fn lemma_pipeline_deterministic(
    items: Vec<crate::ast::Item>,
    r1: Option<Seq<char>>,
    r2: Option<Seq<char>>,
)
    requires
        r1 == pipeline_text(items),
        r2 == pipeline_text(items),
    ensures
        r1 == r2,
{
}

/// Lowering a 64-bit literal and rendering it round-trips the exact value
/// at both text stages: the decimal digits embedded in the IR line and in
/// the target line read back as precisely the value loaded.
pub proof fn lemma_load_imm_text_roundtrip(v: u64, des: int, phys: X86Reg)
    ensures
        crate::ir::instruction::instr_text(InstrV::LoadImm { des, imm: v }) == "    load "@
            + crate::ir::instruction::reg_text(des) + " "@ + dec_digits(v as nat),
        x86_instr_text(X86InstrV::MoveImm { des: phys, value: v }) == two_op_text(
            "mov"@,
            x86_reg_name(phys),
            10,
            dec_digits(v as nat),
        ),
        crate::render::dec_val(dec_digits(v as nat)) == v,
{
    crate::render::lemma_dec_roundtrip(v as nat);
}


/// Every definition the first `n` items lower to is fit for the back end.
proof fn lemma_lower_items_fit(items: Vec<crate::ast::Item>, n: int)
    requires
        forall|j: int|
            0 <= j < items.len() ==> match #[trigger] items[j] {
                crate::ast::Item::Fn(f) => 8 * (f.params.len() + 1) <= usize::MAX,
            },
        0 <= n <= items.len(),
    ensures
        ({
            let (code, errs) = crate::ir::lower::lower_items(items, n);
            forall|k: int|
                0 <= k < code.len() ==> (#[trigger] code[k]) is DefFunc && def_func_ok(
                    code[k]->DefFunc_0,
                )
        }),
    decreases n,
{
    if n > 0 {
        lemma_lower_items_fit(items, n - 1);
        let (code0, _) = crate::ir::lower::lower_items(items, n - 1);
        match items[n - 1] {
            crate::ast::Item::Fn(f) => {
                match crate::ir::lower::lower_item_fn(f) {
                    Ok(d) => {
                        crate::ir::lower::lemma_lower_item_fn_body_shape(f);
                        assert(def_func_ok(d));
                        assert forall|k: int|
                            0 <= k < code0.push(InstrV::DefFunc(d)).len() implies (#[trigger] code0.push(
                            InstrV::DefFunc(d),
                        )[k]) is DefFunc && def_func_ok(
                            code0.push(InstrV::DefFunc(d))[k]->DefFunc_0,
                        ) by {
                            if k < code0.len() {
                                assert(code0.push(InstrV::DefFunc(d))[k] == code0[k]);
                            }
                        }
                    },
                    Err(_) => {},
                }
            },
        }
    }
}

/// What the IR generator produces is fit for the back end: every top-level
/// instruction is a function definition whose body opens with the prologue
/// marker and stays within the selection table — provided each function has
/// few enough parameters for the frame offsets.
pub proof fn lemma_lowered_program_fits_backend(items: Vec<crate::ast::Item>)
    requires
        crate::ir::lower::lower_program(items) is Ok,
        forall|j: int|
            0 <= j < items.len() ==> match #[trigger] items[j] {
                crate::ast::Item::Fn(f) => 8 * (f.params.len() + 1) <= usize::MAX,
            },
    ensures
        x86_program_ok(crate::ir::lower::lower_program(items)->Ok_0),
{
    lemma_lower_items_fit(items, items.len() as int);
}

} // verus!
