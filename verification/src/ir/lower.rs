//! The mathematical model of IR generation: what one lowering of an
//! expression, statement list or function item emits, allocates and binds.
//! The executable generator is proved to follow this model exactly, so two
//! runs over the same tree produce the same instruction sequence.

use vstd::prelude::*;
use crate::ast::{
    block_measure, expr_measure, exprs_measure, op_supported, stmts_measure, Expr, ExprBlock,
    Item, ItemFn, Lit, Op, Param, Statement,
};
use crate::render::dec_digits;
use super::instruction::{DefFuncV, InstrV, Type};

verus! {

/// The lowering state of one function: the instructions emitted so far, the
/// next free virtual register, the next free generated-label number, and
/// the bindings from names to registers.
#[verifier::ext_equal]
pub struct LowerSt {
    pub block: Seq<InstrV>,
    pub next_reg: int,
    pub next_label: int,
    pub vars: Map<Seq<char>, int>,
}

/// What can go wrong while lowering: shapes that reach the lowering even
/// though validation should have caught them upstream.
pub enum LowerErr {
    /// A variable reference with no binding in the current function.
    UndefinedVariable { name: Seq<char> },
    /// A call whose callee is not a plain identifier.
    UnsupportedCallee,
    /// A block with no statements, where a value is required.
    EmptyBlock,
    /// A literal or operator outside the supported shapes.
    Unsupported,
}

/// The state a function's lowering starts from: counters at zero, nothing
/// emitted, nothing bound.
pub open spec fn init_st() -> LowerSt {
    LowerSt { block: Seq::empty(), next_reg: 0, next_label: 0, vars: Map::empty() }
}

/// The reserved label every return path jumps to.
pub open spec fn exit_label() -> Seq<char> {
    ".exit"@
}

/// The text of the `n`-th generated label of a function.
pub open spec fn gen_label_text(n: int) -> Seq<char> {
    ".L"@ + dec_digits(n as nat)
}

/// Allocates the next register and emits a load of `v` into it.
pub open spec fn emit_load(st: LowerSt, v: u64) -> (int, LowerSt) {
    let des = st.next_reg;
    (
        des,
        LowerSt {
            block: st.block.push(InstrV::LoadImm { des, imm: v }),
            next_reg: des + 1,
            next_label: st.next_label,
            vars: st.vars,
        },
    )
}

/// The binary-operation instruction for a supported operator.
pub open spec fn op_instr(op: Op, des: int, lhs: int, rhs: int) -> InstrV {
    match op {
        Op::Add => InstrV::Add { des, lhs, rhs },
        Op::Sub => InstrV::Sub { des, lhs, rhs },
        Op::Mul => InstrV::Mul { des, lhs, rhs },
        Op::Div => InstrV::Div { des, lhs, rhs },
        _ => InstrV::Grt { des, lhs, rhs },
    }
}

/// Lowers one expression: emits its instructions, returns the register
/// holding its value. The left operand of a binary expression is lowered
/// before the right one; a call allocates its return-value register before
/// its arguments; an if branches to a fresh label when the condition is
/// zero and falls through into the then branch otherwise.
pub open spec fn lower_expr(e: Expr, st: LowerSt) -> Result<(int, LowerSt), LowerErr>
    decreases e,
{
    match e {
        Expr::Lit(el) => match el.lit {
            Lit::Int(li) => Ok(emit_load(st, li.value)),
            Lit::Bool(lb) => Ok(emit_load(st, if lb.value { 1u64 } else { 0u64 })),
            Lit::Str(_) => Err(LowerErr::Unsupported),
            Lit::Char(_) => Err(LowerErr::Unsupported),
        },
        Expr::Binary(b) => if !op_supported(b.op) {
            Err(LowerErr::Unsupported)
        } else {
            match lower_expr(*b.left, st) {
                Err(er) => Err(er),
                Ok((lhs, st1)) => match lower_expr(*b.right, st1) {
                    Err(er) => Err(er),
                    Ok((rhs, st2)) => {
                        let des = st2.next_reg;
                        Ok(
                            (
                                des,
                                LowerSt {
                                    block: st2.block.push(op_instr(b.op, des, lhs, rhs)),
                                    next_reg: des + 1,
                                    next_label: st2.next_label,
                                    vars: st2.vars,
                                },
                            ),
                        )
                    },
                },
            }
        },
        Expr::Call(c) => match *c.caller {
            Expr::Var(v) => {
                let ret = st.next_reg;
                let st1 = LowerSt {
                    block: st.block,
                    next_reg: ret + 1,
                    next_label: st.next_label,
                    vars: st.vars,
                };
                match lower_args(c.args, c.args.len() as int, st1) {
                    Err(er) => Err(er),
                    Ok((regs, st2)) => Ok(
                        (
                            ret,
                            LowerSt {
                                block: st2.block.push(
                                    InstrV::Call { caller: v.name.value@, args: regs, ret },
                                ),
                                next_reg: st2.next_reg,
                                next_label: st2.next_label,
                                vars: st2.vars,
                            },
                        ),
                    ),
                }
            },
            _ => Err(LowerErr::UnsupportedCallee),
        },
        Expr::Var(v) => if st.vars.contains_key(v.name.value@) {
            Ok((st.vars[v.name.value@], st))
        } else {
            Err(LowerErr::UndefinedVariable { name: v.name.value@ })
        },
        Expr::If(i) => match lower_expr(*i.cond, st) {
            Err(er) => Err(er),
            Ok((cond_reg, st1)) => {
                let label = gen_label_text(st1.next_label);
                let st2 = LowerSt {
                    block: st1.block.push(InstrV::Conditional { label, reg: cond_reg }),
                    next_reg: st1.next_reg,
                    next_label: st1.next_label + 1,
                    vars: st1.vars,
                };
                match lower_block(i.then_branch, st2) {
                    Err(er) => Err(er),
                    Ok((_, st3)) => {
                        let st4 = LowerSt {
                            block: st3.block.push(InstrV::DefLabel { label }),
                            next_reg: st3.next_reg,
                            next_label: st3.next_label,
                            vars: st3.vars,
                        };
                        match i.else_branch {
                            None => Ok((cond_reg, st4)),
                            Some(el) => match lower_expr(*el, st4) {
                                Err(er) => Err(er),
                                Ok((_, st5)) => Ok((cond_reg, st5)),
                            },
                        }
                    },
                }
            },
        },
        Expr::Block(b) => lower_block(b, st),
        Expr::Return(r) => match lower_expr(*r.expr, st) {
            Err(er) => Err(er),
            Ok((reg, st1)) => {
                let carried = if *r.expr is Call {
                    None
                } else {
                    Some(reg)
                };
                Ok(
                    (
                        reg,
                        LowerSt {
                            block: st1.block.push(InstrV::Return { reg: carried }).push(
                                InstrV::Jump { label: exit_label() },
                            ),
                            next_reg: st1.next_reg,
                            next_label: st1.next_label,
                            vars: st1.vars,
                        },
                    ),
                )
            },
        },
        Expr::Let(l) => match lower_expr(*l.expr, st) {
            Err(er) => Err(er),
            Ok((reg, st1)) => Ok(
                (
                    reg,
                    LowerSt {
                        block: st1.block,
                        next_reg: st1.next_reg,
                        next_label: st1.next_label,
                        vars: st1.vars.insert(l.name.value@, reg),
                    },
                ),
            ),
        },
    }
}

/// Lowers the first `n` call arguments left to right, collecting their
/// value registers.
pub open spec fn lower_args(v: Vec<Expr>, n: int, st: LowerSt) -> Result<
    (Seq<int>, LowerSt),
    LowerErr,
>
    decreases v, n,
{
    if 1 <= n <= v.len() {
        match lower_args(v, n - 1, st) {
            Err(er) => Err(er),
            Ok((regs, st1)) => match lower_expr(v[n - 1], st1) {
                Err(er) => Err(er),
                Ok((r, st2)) => Ok((regs.push(r), st2)),
            },
        }
    } else {
        Ok((Seq::empty(), st))
    }
}

/// Lowers the first `n` statements in order; the value is the register of
/// the last one. A block with no statements has no value and is refused.
pub open spec fn lower_stmts(v: Vec<Statement>, n: int, st: LowerSt) -> Result<
    (int, LowerSt),
    LowerErr,
>
    decreases v, n,
{
    if 1 <= n <= v.len() {
        if n == 1 {
            lower_expr(v[0].stmt, st)
        } else {
            match lower_stmts(v, n - 1, st) {
                Err(er) => Err(er),
                Ok((_, st1)) => lower_expr(v[n - 1].stmt, st1),
            }
        }
    } else {
        Err(LowerErr::EmptyBlock)
    }
}

/// Lowers a block: its statements in order, its value the last statement's.
pub open spec fn lower_block(b: ExprBlock, st: LowerSt) -> Result<(int, LowerSt), LowerErr>
    decreases b,
{
    lower_stmts(b.stmts, b.stmts.len() as int, st)
}

/// Binds the first `n` parameters, one fresh register each, in declaration
/// order.
pub open spec fn bind_params(v: Vec<Param>, n: int, st: LowerSt) -> LowerSt
    decreases n,
{
    if 1 <= n <= v.len() {
        let st1 = bind_params(v, n - 1, st);
        LowerSt {
            block: st1.block,
            next_reg: st1.next_reg + 1,
            next_label: st1.next_label,
            vars: st1.vars.insert(v[n - 1].name.value@, st1.next_reg),
        }
    } else {
        st
    }
}

/// The parameter signature of a lowered function: register `i` for the
/// `i`-th parameter, all 64-bit.
pub open spec fn params_sig(n: nat) -> Seq<(int, Type)> {
    Seq::new(n, |i: int| (i, Type::U64))
}

/// Lowers one function item from a fresh state: parameters bound first,
/// then the prologue marker, the body, the exit label and the epilogue
/// marker.
pub open spec fn lower_item_fn(f: ItemFn) -> Result<DefFuncV, LowerErr> {
    let st1 = bind_params(f.params, f.params.len() as int, init_st());
    let st2 = LowerSt {
        block: st1.block.push(InstrV::Enter),
        next_reg: st1.next_reg,
        next_label: st1.next_label,
        vars: st1.vars,
    };
    match lower_block(f.block, st2) {
        Err(er) => Err(er),
        Ok((_, st3)) => Ok(
            DefFuncV {
                name: f.name.value@,
                params: params_sig(f.params.len() as nat),
                body: st3.block.push(InstrV::DefLabel { label: exit_label() }).push(InstrV::Leave),
            },
        ),
    }
}

/// Lowers the first `n` items in source order, collecting the function
/// definitions that lowered and the errors of those that did not.
pub open spec fn lower_items(v: Vec<Item>, n: int) -> (Seq<InstrV>, Seq<LowerErr>)
    decreases n,
{
    if 1 <= n <= v.len() {
        let (code, errs) = lower_items(v, n - 1);
        match v[n - 1] {
            Item::Fn(f) => match lower_item_fn(f) {
                Ok(d) => (code.push(InstrV::DefFunc(d)), errs),
                Err(er) => (code, errs.push(er)),
            },
        }
    } else {
        (Seq::empty(), Seq::empty())
    }
}

/// Lowers a whole program: all items in order; on any error, no output, the
/// collected diagnostics instead.
pub open spec fn lower_program(v: Vec<Item>) -> Result<Seq<InstrV>, Seq<LowerErr>> {
    let (code, errs) = lower_items(v, v.len() as int);
    if errs.len() == 0 {
        Ok(code)
    } else {
        Err(errs)
    }
}

/// The diagnostic text of a lowering error.
pub open spec fn err_text(e: LowerErr) -> Seq<char> {
    match e {
        LowerErr::UndefinedVariable { name } => "undefined variable: "@ + name,
        LowerErr::UnsupportedCallee => "unsupported callee expression"@,
        LowerErr::EmptyBlock => "empty block has no value"@,
        LowerErr::Unsupported => "unsupported expression"@,
    }
}

/// A successful lowering allocates registers and labels monotonically, and
/// no more of either than the expression has nodes.
pub proof fn lemma_lower_expr_bounds(e: Expr, st: LowerSt)
    ensures
        lower_expr(e, st) matches Ok((r, st1)) ==> st.next_reg <= st1.next_reg <= st.next_reg
            + expr_measure(e) && st.next_label <= st1.next_label <= st.next_label + expr_measure(e),
    decreases e,
{
    match e {
        Expr::Lit(_) => {},
        Expr::Binary(b) => {
            lemma_lower_expr_bounds(*b.left, st);
            match lower_expr(*b.left, st) {
                Ok((_, st1)) => {
                    lemma_lower_expr_bounds(*b.right, st1);
                },
                Err(_) => {},
            }
        },
        Expr::Call(c) => {
            match *c.caller {
                Expr::Var(_) => {
                    let ret = st.next_reg;
                    let st1 = LowerSt {
                        block: st.block,
                        next_reg: ret + 1,
                        next_label: st.next_label,
                        vars: st.vars,
                    };
                    lemma_lower_args_bounds(c.args, c.args.len() as int, st1);
                },
                _ => {},
            }
        },
        Expr::Var(_) => {},
        Expr::If(i) => {
            lemma_lower_expr_bounds(*i.cond, st);
            match lower_expr(*i.cond, st) {
                Ok((cond_reg, st1)) => {
                    let label = gen_label_text(st1.next_label);
                    let st2 = LowerSt {
                        block: st1.block.push(InstrV::Conditional { label, reg: cond_reg }),
                        next_reg: st1.next_reg,
                        next_label: st1.next_label + 1,
                        vars: st1.vars,
                    };
                    lemma_lower_block_bounds(i.then_branch, st2);
                    match lower_block(i.then_branch, st2) {
                        Ok((_, st3)) => {
                            let st4 = LowerSt {
                                block: st3.block.push(InstrV::DefLabel { label }),
                                next_reg: st3.next_reg,
                                next_label: st3.next_label,
                                vars: st3.vars,
                            };
                            match i.else_branch {
                                None => {},
                                Some(el) => {
                                    lemma_lower_expr_bounds(*el, st4);
                                },
                            }
                        },
                        Err(_) => {},
                    }
                },
                Err(_) => {},
            }
        },
        Expr::Block(b) => {
            lemma_lower_block_bounds(b, st);
        },
        Expr::Return(r) => {
            lemma_lower_expr_bounds(*r.expr, st);
        },
        Expr::Let(l) => {
            lemma_lower_expr_bounds(*l.expr, st);
        },
    }
}

/// Bounds for lowering an argument list.
pub proof fn lemma_lower_args_bounds(v: Vec<Expr>, n: int, st: LowerSt)
    ensures
        lower_args(v, n, st) matches Ok((regs, st1)) ==> st.next_reg <= st1.next_reg
            <= st.next_reg + exprs_measure(v, n) && st.next_label <= st1.next_label
            <= st.next_label + exprs_measure(v, n) && regs.len() == if 1 <= n <= v.len() {
            n
        } else {
            0
        },
    decreases v, n,
{
    if 1 <= n <= v.len() {
        lemma_lower_args_bounds(v, n - 1, st);
        match lower_args(v, n - 1, st) {
            Ok((_, st1)) => {
                lemma_lower_expr_bounds(v[n - 1], st1);
            },
            Err(_) => {},
        }
    }
}

/// Bounds for lowering a statement list.
pub proof fn lemma_lower_stmts_bounds(v: Vec<Statement>, n: int, st: LowerSt)
    ensures
        lower_stmts(v, n, st) matches Ok((r, st1)) ==> st.next_reg <= st1.next_reg <= st.next_reg
            + stmts_measure(v, n) && st.next_label <= st1.next_label <= st.next_label
            + stmts_measure(v, n),
    decreases v, n,
{
    if 1 <= n <= v.len() {
        if n == 1 {
            lemma_lower_expr_bounds(v[0].stmt, st);
        } else {
            lemma_lower_stmts_bounds(v, n - 1, st);
            match lower_stmts(v, n - 1, st) {
                Ok((_, st1)) => {
                    lemma_lower_expr_bounds(v[n - 1].stmt, st1);
                },
                Err(_) => {},
            }
        }
    }
}

/// Bounds for lowering a block.
pub proof fn lemma_lower_block_bounds(b: ExprBlock, st: LowerSt)
    ensures
        lower_block(b, st) matches Ok((r, st1)) ==> st.next_reg <= st1.next_reg <= st.next_reg
            + block_measure(b) && st.next_label <= st1.next_label <= st.next_label
            + block_measure(b),
    decreases b,
{
    lemma_lower_stmts_bounds(b.stmts, b.stmts.len() as int, st);
}

/// An error in a statement prefix is the error of every longer prefix.
pub proof fn lemma_lower_stmts_err_mono(v: Vec<Statement>, k: int, n: int, st: LowerSt)
    requires
        1 <= k <= n <= v.len(),
        lower_stmts(v, k, st) is Err,
    ensures
        lower_stmts(v, n, st) == lower_stmts(v, k, st),
    decreases n,
{
    if k < n {
        lemma_lower_stmts_err_mono(v, k, n - 1, st);
    }
}

/// An error in an argument prefix is the error of every longer prefix.
pub proof fn lemma_lower_args_err_mono(v: Vec<Expr>, k: int, n: int, st: LowerSt)
    requires
        1 <= k <= n <= v.len(),
        lower_args(v, k, st) is Err,
    ensures
        lower_args(v, n, st) == lower_args(v, k, st),
    decreases n,
{
    if k < n {
        lemma_lower_args_err_mono(v, k, n - 1, st);
    }
}

/// Binding parameters advances the register counter by exactly one per
/// parameter and touches nothing else.
pub proof fn lemma_bind_params_bounds(v: Vec<Param>, n: int, st: LowerSt)
    ensures
        0 <= n <= v.len() ==> bind_params(v, n, st).next_reg == st.next_reg + n,
        bind_params(v, n, st).next_label == st.next_label,
        bind_params(v, n, st).block == st.block,
    decreases n,
{
    if 1 <= n <= v.len() {
        lemma_bind_params_bounds(v, n - 1, st);
    }
}

/// The virtual registers an instruction allocates: the destination of a
/// load, copy or operation, and the return-value register of a call.
pub open spec fn instr_alloc_ids(i: InstrV) -> Set<int> {
    match i {
        InstrV::LoadImm { des, .. } => set![des],
        InstrV::CopyReg { des, .. } => set![des],
        InstrV::Add { des, .. } => set![des],
        InstrV::Sub { des, .. } => set![des],
        InstrV::Mul { des, .. } => set![des],
        InstrV::Div { des, .. } => set![des],
        InstrV::Grt { des, .. } => set![des],
        InstrV::Call { ret, .. } => set![ret],
        _ => Set::empty(),
    }
}

/// The registers the first `n` instructions of a block allocate.
pub open spec fn alloc_ids(block: Seq<InstrV>, n: int) -> Set<int>
    decreases n,
{
    if 1 <= n <= block.len() {
        alloc_ids(block, n - 1) + instr_alloc_ids(block[n - 1])
    } else {
        Set::empty()
    }
}

/// The integers from `a` inclusive to `b` exclusive.
pub open spec fn range_set(a: int, b: int) -> Set<int> {
    Set::new(|x: int| a <= x < b)
}

/// Appending an instruction adds exactly its allocations.
proof fn lemma_alloc_ids_push(block: Seq<InstrV>, x: InstrV)
    ensures
        alloc_ids(block.push(x), block.len() as int + 1) == alloc_ids(block, block.len() as int)
            + instr_alloc_ids(x),
        forall|n: int|
            0 <= n <= block.len() ==> #[trigger] alloc_ids(block.push(x), n) == alloc_ids(block, n),
{
    assert forall|n: int| 0 <= n <= block.len() implies #[trigger] alloc_ids(block.push(x), n)
        == alloc_ids(block, n) by {
        lemma_alloc_ids_push_prefix(block, x, n);
    }
    lemma_alloc_ids_push_prefix(block, x, block.len() as int);
    assert(block.push(x)[block.len() as int] == x);
}

proof fn lemma_alloc_ids_push_prefix(block: Seq<InstrV>, x: InstrV, n: int)
    requires
        0 <= n <= block.len(),
    ensures
        alloc_ids(block.push(x), n) == alloc_ids(block, n),
    decreases n,
{
    if n > 0 {
        lemma_alloc_ids_push_prefix(block, x, n - 1);
        assert(block.push(x)[n - 1] == block[n - 1]);
    }
}

/// A successful lowering allocates exactly the registers from the counter
/// it started with up to the counter it ends with: ids are handed out
/// consecutively, with no gaps and no reuse.
pub proof fn lemma_lower_expr_allocs(e: Expr, st: LowerSt)
    ensures
        lower_expr(e, st) matches Ok((r, st1)) ==> alloc_ids(st1.block, st1.block.len() as int)
            =~= alloc_ids(st.block, st.block.len() as int) + range_set(st.next_reg, st1.next_reg),
    decreases e,
{
    lemma_lower_expr_bounds(e, st);
    match e {
        Expr::Lit(el) => {
            match el.lit {
                Lit::Int(li) => {
                    lemma_alloc_ids_push(st.block, InstrV::LoadImm { des: st.next_reg, imm: li.value });
                },
                Lit::Bool(lb) => {
                    lemma_alloc_ids_push(
                        st.block,
                        InstrV::LoadImm {
                            des: st.next_reg,
                            imm: if lb.value {
                                1u64
                            } else {
                                0u64
                            },
                        },
                    );
                },
                _ => {},
            }
        },
        Expr::Binary(b) => {
            if op_supported(b.op) {
                lemma_lower_expr_allocs(*b.left, st);
                lemma_lower_expr_bounds(*b.left, st);
                match lower_expr(*b.left, st) {
                    Ok((lhs, st1)) => {
                        lemma_lower_expr_allocs(*b.right, st1);
                        lemma_lower_expr_bounds(*b.right, st1);
                        match lower_expr(*b.right, st1) {
                            Ok((rhs, st2)) => {
                                lemma_alloc_ids_push(
                                    st2.block,
                                    op_instr(b.op, st2.next_reg, lhs, rhs),
                                );
                            },
                            Err(_) => {},
                        }
                    },
                    Err(_) => {},
                }
            }
        },
        Expr::Call(c) => {
            match &*c.caller {
                Expr::Var(v) => {
                    let ret = st.next_reg;
                    let st1 = LowerSt {
                        block: st.block,
                        next_reg: ret + 1,
                        next_label: st.next_label,
                        vars: st.vars,
                    };
                    lemma_lower_args_allocs(c.args, c.args.len() as int, st1);
                    lemma_lower_args_bounds(c.args, c.args.len() as int, st1);
                    match lower_args(c.args, c.args.len() as int, st1) {
                        Ok((regs, st2)) => {
                            lemma_alloc_ids_push(
                                st2.block,
                                InstrV::Call { caller: v.name.value@, args: regs, ret },
                            );
                        },
                        Err(_) => {},
                    }
                },
                _ => {},
            }
        },
        Expr::Var(_) => {},
        Expr::If(i) => {
            lemma_lower_expr_allocs(*i.cond, st);
            lemma_lower_expr_bounds(*i.cond, st);
            match lower_expr(*i.cond, st) {
                Ok((cond_reg, st1)) => {
                    let label = gen_label_text(st1.next_label);
                    lemma_alloc_ids_push(st1.block, InstrV::Conditional { label, reg: cond_reg });
                    let st2 = LowerSt {
                        block: st1.block.push(InstrV::Conditional { label, reg: cond_reg }),
                        next_reg: st1.next_reg,
                        next_label: st1.next_label + 1,
                        vars: st1.vars,
                    };
                    lemma_lower_block_allocs(i.then_branch, st2);
                    lemma_lower_block_bounds(i.then_branch, st2);
                    match lower_block(i.then_branch, st2) {
                        Ok((_, st3)) => {
                            lemma_alloc_ids_push(st3.block, InstrV::DefLabel { label });
                            let st4 = LowerSt {
                                block: st3.block.push(InstrV::DefLabel { label }),
                                next_reg: st3.next_reg,
                                next_label: st3.next_label,
                                vars: st3.vars,
                            };
                            match &i.else_branch {
                                None => {},
                                Some(el) => {
                                    lemma_lower_expr_allocs(**el, st4);
                                    lemma_lower_expr_bounds(**el, st4);
                                },
                            }
                        },
                        Err(_) => {},
                    }
                },
                Err(_) => {},
            }
        },
        Expr::Block(b) => {
            lemma_lower_block_allocs(b, st);
        },
        Expr::Return(r) => {
            lemma_lower_expr_allocs(*r.expr, st);
            lemma_lower_expr_bounds(*r.expr, st);
            match lower_expr(*r.expr, st) {
                Ok((reg, st1)) => {
                    let carried = if *r.expr is Call {
                        None
                    } else {
                        Some(reg)
                    };
                    lemma_alloc_ids_push(st1.block, InstrV::Return { reg: carried });
                    lemma_alloc_ids_push(
                        st1.block.push(InstrV::Return { reg: carried }),
                        InstrV::Jump { label: exit_label() },
                    );
                },
                Err(_) => {},
            }
        },
        Expr::Let(l) => {
            lemma_lower_expr_allocs(*l.expr, st);
        },
    }
}

/// Allocation of an argument list, argument by argument.
pub proof fn lemma_lower_args_allocs(v: Vec<Expr>, n: int, st: LowerSt)
    ensures
        lower_args(v, n, st) matches Ok((regs, st1)) ==> alloc_ids(st1.block, st1.block.len() as int)
            =~= alloc_ids(st.block, st.block.len() as int) + range_set(st.next_reg, st1.next_reg),
    decreases v, n,
{
    if 1 <= n <= v.len() {
        lemma_lower_args_allocs(v, n - 1, st);
        lemma_lower_args_bounds(v, n - 1, st);
        match lower_args(v, n - 1, st) {
            Ok((_, st1)) => {
                lemma_lower_expr_allocs(v[n - 1], st1);
                lemma_lower_expr_bounds(v[n - 1], st1);
            },
            Err(_) => {},
        }
    }
}

/// Allocation of a statement list, statement by statement.
pub proof fn lemma_lower_stmts_allocs(v: Vec<Statement>, n: int, st: LowerSt)
    ensures
        lower_stmts(v, n, st) matches Ok((r, st1)) ==> alloc_ids(st1.block, st1.block.len() as int)
            =~= alloc_ids(st.block, st.block.len() as int) + range_set(st.next_reg, st1.next_reg),
    decreases v, n,
{
    if 1 <= n <= v.len() {
        if n == 1 {
            lemma_lower_expr_allocs(v[0].stmt, st);
            lemma_lower_expr_bounds(v[0].stmt, st);
        } else {
            lemma_lower_stmts_allocs(v, n - 1, st);
            lemma_lower_stmts_bounds(v, n - 1, st);
            match lower_stmts(v, n - 1, st) {
                Ok((_, st1)) => {
                    lemma_lower_expr_allocs(v[n - 1].stmt, st1);
                    lemma_lower_expr_bounds(v[n - 1].stmt, st1);
                },
                Err(_) => {},
            }
        }
    }
}

/// Allocation of a block.
pub proof fn lemma_lower_block_allocs(b: ExprBlock, st: LowerSt)
    ensures
        lower_block(b, st) matches Ok((r, st1)) ==> alloc_ids(st1.block, st1.block.len() as int)
            =~= alloc_ids(st.block, st.block.len() as int) + range_set(st.next_reg, st1.next_reg),
    decreases b,
{
    lemma_lower_stmts_allocs(b.stmts, b.stmts.len() as int, st);
}

/// Virtual-register ids within one lowered function are consecutive from
/// zero with no gaps: the parameters take ids 0 up to their count, and the
/// ids allocated by the body are exactly the next ones up to the final
/// counter value.
pub proof fn lemma_vreg_ids_gapless(f: ItemFn)
    requires
        lower_item_fn(f) is Ok,
    ensures
        ({
            let d = lower_item_fn(f)->Ok_0;
            let np = f.params.len() as int;
            &&& forall|j: int| 0 <= j < np ==> (#[trigger] d.params[j]).0 == j
            &&& exists|m: int|
                np <= m && alloc_ids(d.body, d.body.len() as int) =~= range_set(np, m)
        }),
{
    let d = lower_item_fn(f)->Ok_0;
    let np = f.params.len() as int;
    assert(forall|j: int| 0 <= j < np ==> (#[trigger] d.params[j]).0 == j);
    let st1 = bind_params(f.params, np, init_st());
    lemma_bind_params_bounds(f.params, np, init_st());
    let st2 = LowerSt {
        block: st1.block.push(InstrV::Enter),
        next_reg: st1.next_reg,
        next_label: st1.next_label,
        vars: st1.vars,
    };
    lemma_alloc_ids_push(st1.block, InstrV::Enter);
    lemma_lower_block_allocs(f.block, st2);
    lemma_lower_block_bounds(f.block, st2);
    match lower_block(f.block, st2) {
        Ok((_, st3)) => {
            lemma_alloc_ids_push(st3.block, InstrV::DefLabel { label: exit_label() });
            lemma_alloc_ids_push(
                st3.block.push(InstrV::DefLabel { label: exit_label() }),
                InstrV::Leave,
            );
            assert(alloc_ids(st2.block, st2.block.len() as int) =~= Set::<int>::empty());
            assert(alloc_ids(d.body, d.body.len() as int) =~= range_set(np, st3.next_reg));
        },
        Err(_) => {},
    }
}

/// One lowering only appends to the emitted block, and everything it
/// appends is a plain body instruction: never a nested function definition,
/// never a generic copy.
pub proof fn lemma_lower_expr_block_extends(e: Expr, st: LowerSt)
    ensures
        lower_expr(e, st) matches Ok((r, st1)) ==> block_extended(st.block, st1.block),
    decreases e,
{
    lemma_block_extended_refl(st.block);
    match e {
        Expr::Lit(el) => {
            match el.lit {
                Lit::Int(li) => {
                    lemma_block_extended_push(
                        st.block,
                        st.block,
                        InstrV::LoadImm { des: st.next_reg, imm: li.value },
                    );
                },
                Lit::Bool(lb) => {
                    lemma_block_extended_push(
                        st.block,
                        st.block,
                        InstrV::LoadImm {
                            des: st.next_reg,
                            imm: if lb.value {
                                1u64
                            } else {
                                0u64
                            },
                        },
                    );
                },
                _ => {},
            }
        },
        Expr::Binary(b) => {
            if op_supported(b.op) {
                lemma_lower_expr_block_extends(*b.left, st);
                match lower_expr(*b.left, st) {
                    Ok((lhs, st1)) => {
                        lemma_lower_expr_block_extends(*b.right, st1);
                        match lower_expr(*b.right, st1) {
                            Ok((rhs, st2)) => {
                                lemma_block_extended_trans(st.block, st1.block, st2.block);
                                lemma_block_extended_push(
                                    st.block,
                                    st2.block,
                                    op_instr(b.op, st2.next_reg, lhs, rhs),
                                );
                            },
                            Err(_) => {},
                        }
                    },
                    Err(_) => {},
                }
            }
        },
        Expr::Call(c) => {
            match &*c.caller {
                Expr::Var(v) => {
                    let ret = st.next_reg;
                    let st1 = LowerSt {
                        block: st.block,
                        next_reg: ret + 1,
                        next_label: st.next_label,
                        vars: st.vars,
                    };
                    lemma_lower_args_block_extends(c.args, c.args.len() as int, st1);
                    match lower_args(c.args, c.args.len() as int, st1) {
                        Ok((regs, st2)) => {
                            lemma_block_extended_push(
                                st.block,
                                st2.block,
                                InstrV::Call { caller: v.name.value@, args: regs, ret },
                            );
                        },
                        Err(_) => {},
                    }
                },
                _ => {},
            }
        },
        Expr::Var(_) => {},
        Expr::If(i) => {
            lemma_lower_expr_block_extends(*i.cond, st);
            match lower_expr(*i.cond, st) {
                Ok((cond_reg, st1)) => {
                    let label = gen_label_text(st1.next_label);
                    lemma_block_extended_push(
                        st.block,
                        st1.block,
                        InstrV::Conditional { label, reg: cond_reg },
                    );
                    let st2 = LowerSt {
                        block: st1.block.push(InstrV::Conditional { label, reg: cond_reg }),
                        next_reg: st1.next_reg,
                        next_label: st1.next_label + 1,
                        vars: st1.vars,
                    };
                    lemma_lower_block_block_extends(i.then_branch, st2);
                    match lower_block(i.then_branch, st2) {
                        Ok((_, st3)) => {
                            lemma_block_extended_trans(st.block, st2.block, st3.block);
                            lemma_block_extended_push(st.block, st3.block, InstrV::DefLabel { label });
                            let st4 = LowerSt {
                                block: st3.block.push(InstrV::DefLabel { label }),
                                next_reg: st3.next_reg,
                                next_label: st3.next_label,
                                vars: st3.vars,
                            };
                            match &i.else_branch {
                                None => {},
                                Some(el) => {
                                    lemma_lower_expr_block_extends(**el, st4);
                                    match lower_expr(**el, st4) {
                                        Ok((_, st5)) => {
                                            lemma_block_extended_trans(
                                                st.block,
                                                st4.block,
                                                st5.block,
                                            );
                                        },
                                        Err(_) => {},
                                    }
                                },
                            }
                        },
                        Err(_) => {},
                    }
                },
                Err(_) => {},
            }
        },
        Expr::Block(b) => {
            lemma_lower_block_block_extends(b, st);
        },
        Expr::Return(r) => {
            lemma_lower_expr_block_extends(*r.expr, st);
            match lower_expr(*r.expr, st) {
                Ok((reg, st1)) => {
                    let carried = if *r.expr is Call {
                        None
                    } else {
                        Some(reg)
                    };
                    lemma_block_extended_push(st.block, st1.block, InstrV::Return { reg: carried });
                    lemma_block_extended_push(
                        st.block,
                        st1.block.push(InstrV::Return { reg: carried }),
                        InstrV::Jump { label: exit_label() },
                    );
                },
                Err(_) => {},
            }
        },
        Expr::Let(l) => {
            lemma_lower_expr_block_extends(*l.expr, st);
        },
    }
}

/// `b1` extends `b0` by plain body instructions only.
pub open spec fn block_extended(b0: Seq<InstrV>, b1: Seq<InstrV>) -> bool {
    &&& b1.len() >= b0.len()
    &&& b1.take(b0.len() as int) == b0
    &&& forall|k: int|
        b0.len() <= k < b1.len() ==> !((#[trigger] b1[k]) is DefFunc) && !(b1[k] is Copy)
}

/// Every block extends itself.
proof fn lemma_block_extended_refl(b: Seq<InstrV>)
    ensures
        block_extended(b, b),
{
    assert(b.take(b.len() as int) =~= b);
}

/// Extension survives a push of a plain instruction.
proof fn lemma_block_extended_push(b0: Seq<InstrV>, b1: Seq<InstrV>, x: InstrV)
    requires
        block_extended(b0, b1),
        !(x is DefFunc),
        !(x is Copy),
    ensures
        block_extended(b0, b1.push(x)),
{
    assert(b1.push(x).take(b0.len() as int) =~= b1.take(b0.len() as int));
}

/// Extension is transitive.
proof fn lemma_block_extended_trans(b0: Seq<InstrV>, b1: Seq<InstrV>, b2: Seq<InstrV>)
    requires
        block_extended(b0, b1),
        block_extended(b1, b2),
    ensures
        block_extended(b0, b2),
{
    assert(b2.take(b0.len() as int) =~= b2.take(b1.len() as int).take(b0.len() as int));
    assert forall|k: int| b0.len() <= k < b2.len() implies !((#[trigger] b2[k]) is DefFunc) && !(
    b2[k] is Copy) by {
        if k < b1.len() {
            assert(b1[k] == b2.take(b1.len() as int)[k]);
        }
    }
}

/// Argument lowering only appends plain body instructions.
pub proof fn lemma_lower_args_block_extends(v: Vec<Expr>, n: int, st: LowerSt)
    ensures
        lower_args(v, n, st) matches Ok((regs, st1)) ==> block_extended(st.block, st1.block),
    decreases v, n,
{
    lemma_block_extended_refl(st.block);
    if 1 <= n <= v.len() {
        lemma_lower_args_block_extends(v, n - 1, st);
        match lower_args(v, n - 1, st) {
            Ok((_, st1)) => {
                lemma_lower_expr_block_extends(v[n - 1], st1);
                match lower_expr(v[n - 1], st1) {
                    Ok((_, st2)) => {
                        lemma_block_extended_trans(st.block, st1.block, st2.block);
                    },
                    Err(_) => {},
                }
            },
            Err(_) => {},
        }
    }
}

/// Statement lowering only appends plain body instructions.
pub proof fn lemma_lower_stmts_block_extends(v: Vec<Statement>, n: int, st: LowerSt)
    ensures
        lower_stmts(v, n, st) matches Ok((r, st1)) ==> block_extended(st.block, st1.block),
    decreases v, n,
{
    lemma_block_extended_refl(st.block);
    if 1 <= n <= v.len() {
        if n == 1 {
            lemma_lower_expr_block_extends(v[0].stmt, st);
        } else {
            lemma_lower_stmts_block_extends(v, n - 1, st);
            match lower_stmts(v, n - 1, st) {
                Ok((_, st1)) => {
                    lemma_lower_expr_block_extends(v[n - 1].stmt, st1);
                    match lower_expr(v[n - 1].stmt, st1) {
                        Ok((_, st2)) => {
                            lemma_block_extended_trans(st.block, st1.block, st2.block);
                        },
                        Err(_) => {},
                    }
                },
                Err(_) => {},
            }
        }
    }
}

/// Block lowering only appends plain body instructions.
pub proof fn lemma_lower_block_block_extends(b: ExprBlock, st: LowerSt)
    ensures
        lower_block(b, st) matches Ok((r, st1)) ==> block_extended(st.block, st1.block),
    decreases b,
{
    lemma_lower_stmts_block_extends(b.stmts, b.stmts.len() as int, st);
}

/// A lowered function body opens with the prologue marker and holds plain
/// body instructions throughout.
pub proof fn lemma_lower_item_fn_body_shape(f: ItemFn)
    requires
        lower_item_fn(f) is Ok,
    ensures
        ({
            let d = lower_item_fn(f)->Ok_0;
            &&& d.body.len() > 0
            &&& d.body[0] is Enter
            &&& forall|k: int|
                1 <= k < d.body.len() ==> !((#[trigger] d.body[k]) is DefFunc) && !(d.body[k]
                    is Copy)
        }),
{
    let st1 = bind_params(f.params, f.params.len() as int, init_st());
    lemma_bind_params_bounds(f.params, f.params.len() as int, init_st());
    let st2 = LowerSt {
        block: st1.block.push(InstrV::Enter),
        next_reg: st1.next_reg,
        next_label: st1.next_label,
        vars: st1.vars,
    };
    lemma_lower_block_block_extends(f.block, st2);
    match lower_block(f.block, st2) {
        Ok((_, st3)) => {
            let d = lower_item_fn(f)->Ok_0;
            assert(st2.block.len() == 1 && st2.block[0] is Enter);
            assert(st3.block.take(1) == st2.block);
            assert(st3.block[0] == st2.block[0]);
            assert(d.body[0] is Enter);
        },
        Err(_) => {},
    }
}

} // verus!
