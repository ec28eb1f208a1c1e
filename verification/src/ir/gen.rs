//! The executable IR generator: walks the syntax tree function by function,
//! emitting instructions into a per-function buffer, allocating virtual
//! registers and labels from per-function counters, and wrapping each body
//! into a function-definition node. Every step is proved to follow the
//! model in [`super::lower`] exactly.

use vstd::prelude::*;
use vstd::string::StringExecFns;
use crate::ast::{
    block_measure, block_wf, expr_measure, expr_wf, exprs_measure, exprs_wf, item_fn_measure,
    item_fn_wf, lemma_exprs_measure_mono, lemma_exprs_wf_index, lemma_stmts_measure_mono,
    lemma_stmts_wf_index, stmts_measure, stmts_wf, Expr, ExprBinary, ExprBlock, ExprCall, ExprIf,
    ExprLet, ExprLit, ExprReturn, ExprVar, Item, ItemFn, Lit, LitBool, LitInt, Op, Param,
    Statement,
};
use crate::render::u64_to_dec;
use crate::str_map::StrMap;
use crate::symbol_table::SymbolTable;
use super::instruction::{
    instrs_view, lemma_instrs_view_push_full, Add, Call, Conditional, DefFunc, DefLabel, Div, Enter,
    Grt, InstrV, Instruction, Jump, Leave, LoadImm, Mul, Return, Sub, Type,
};
use super::lower::{
    bind_params, emit_load, err_text, gen_label_text, init_st, lemma_bind_params_bounds,
    lemma_lower_args_bounds, lemma_lower_args_err_mono, lemma_lower_block_bounds,
    lemma_lower_expr_bounds, lemma_lower_stmts_bounds, lemma_lower_stmts_err_mono, lower_args,
    lower_block, lower_expr, lower_item_fn, lower_items, lower_program, lower_stmts, op_instr,
    params_sig, LowerErr, LowerSt,
};
use super::{Imm, Label, Reg};

verus! {

broadcast use vstd::std_specs::vec::group_vec_axioms;

/// A lowering failure surfaced as a diagnostic rather than a trap.
#[derive(Debug)]
pub enum IrError {
    UndefinedVariable(String),
    UnsupportedCallee,
    EmptyBlock,
}

impl View for IrError {
    type V = LowerErr;

    open spec fn view(&self) -> LowerErr {
        match self {
            IrError::UndefinedVariable(n) => LowerErr::UndefinedVariable { name: n@ },
            IrError::UnsupportedCallee => LowerErr::UnsupportedCallee,
            IrError::EmptyBlock => LowerErr::EmptyBlock,
        }
    }
}

/// The diagnostic line for one lowering error.
fn err_message(e: &IrError) -> (r: String)
    ensures
        r@ == err_text(e@),
{
    match e {
        IrError::UndefinedVariable(n) => {
            let mut s = String::from_str("undefined variable: ");
            s.append(n.as_str());
            s
        },
        IrError::UnsupportedCallee => String::from_str("unsupported callee expression"),
        IrError::EmptyBlock => String::from_str("empty block has no value"),
    }
}

/// Whether every item of the program is within the supported shapes and
/// small enough for the per-function counters.
pub open spec fn program_wf(v: Vec<Item>) -> bool {
    forall|j: int|
        0 <= j < v.len() ==> match #[trigger] v[j] {
            Item::Fn(f) => item_fn_wf(f) && item_fn_measure(f) <= usize::MAX,
        }
}

/// One executable visit agrees with the model: same register, same state on
/// success; the same diagnostic on failure.
spec fn visit_matches(
    r: Result<Reg, IrError>,
    s: Result<(int, LowerSt), LowerErr>,
    post: LowerSt,
) -> bool {
    match (r, s) {
        (Ok(reg), Ok((sreg, sst))) => reg@ == sreg && post == sst,
        (Err(e), Err(se)) => e@ == se,
        _ => false,
    }
}

/// Both counters have room for `m` more allocations.
spec fn counters_ok(st: LowerSt, m: nat) -> bool {
    st.next_reg + m <= usize::MAX && st.next_label + m <= usize::MAX
}

/// The stateful lowering context of one pass: the finished function
/// definitions, the current function's instruction buffer, its register and
/// label counters, its name bindings, and the front end's symbol table,
/// carried through untouched.
struct IrGenerator {
    code: Vec<Instruction>,
    block: Vec<Instruction>,
    reg_counter: usize,
    vars: StrMap<Reg>,
    gen_label_number: usize,
    symbol_table: SymbolTable,
}

impl IrGenerator {
    /// The current function's lowering state, as the model sees it.
    spec fn st_view(&self) -> LowerSt {
        LowerSt {
            block: instrs_view(self.block@, self.block@.len() as int),
            next_reg: self.reg_counter as int,
            next_label: self.gen_label_number as int,
            vars: self.vars@,
        }
    }

    /// The finished output so far, as the model sees it.
    spec fn code_view(&self) -> Seq<InstrV> {
        instrs_view(self.code@, self.code@.len() as int)
    }

    fn new(symbol_table: SymbolTable) -> (r: Self)
        ensures
            r.st_view() == init_st(),
            r.code_view() == Seq::<InstrV>::empty(),
            r.code@.len() == 0,
            r.symbol_table == symbol_table,
    {
        let r = IrGenerator {
            code: Vec::new(),
            block: Vec::new(),
            reg_counter: 0,
            vars: StrMap::new(),
            gen_label_number: 0,
            symbol_table,
        };
        proof {
            assert(r.st_view() =~= init_st());
        }
        r
    }

    /// Appends one instruction to the current function's buffer.
    fn push_to_block(&mut self, ir: Instruction)
        ensures
            final(self).st_view() == (LowerSt {
                block: old(self).st_view().block.push(ir@),
                next_reg: old(self).st_view().next_reg,
                next_label: old(self).st_view().next_label,
                vars: old(self).st_view().vars,
            }),
            final(self).code == old(self).code,
            final(self).symbol_table == old(self).symbol_table,
    {
        proof {
            lemma_instrs_view_push_full(self.block@, ir);
        }
        self.block.push(ir);
        proof {
            assert(self.st_view() =~= (LowerSt {
                block: old(self).st_view().block.push(ir@),
                next_reg: old(self).st_view().next_reg,
                next_label: old(self).st_view().next_label,
                vars: old(self).st_view().vars,
            }));
        }
    }

    /// Appends one finished function definition to the output.
    fn push_fn(&mut self, ir: Instruction)
        ensures
            final(self).code_view() == old(self).code_view().push(ir@),
            final(self).st_view() == old(self).st_view(),
            final(self).symbol_table == old(self).symbol_table,
    {
        proof {
            lemma_instrs_view_push_full(self.code@, ir);
        }
        self.code.push(ir);
    }

    /// Hands out the next virtual register: ids are consecutive from zero
    /// within one function.
    fn get_reg(&mut self) -> (r: Reg)
        requires
            old(self).st_view().next_reg < usize::MAX,
        ensures
            r@ == old(self).st_view().next_reg,
            final(self).st_view() == (LowerSt {
                block: old(self).st_view().block,
                next_reg: old(self).st_view().next_reg + 1,
                next_label: old(self).st_view().next_label,
                vars: old(self).st_view().vars,
            }),
            final(self).code == old(self).code,
            final(self).symbol_table == old(self).symbol_table,
    {
        let reg = Reg(self.reg_counter);
        self.reg_counter = self.reg_counter + 1;
        proof {
            assert(self.st_view() =~= (LowerSt {
                block: old(self).st_view().block,
                next_reg: old(self).st_view().next_reg + 1,
                next_label: old(self).st_view().next_label,
                vars: old(self).st_view().vars,
            }));
        }
        reg
    }

    /// Restarts the register supply at zero for the next function.
    fn reset_regester_count(&mut self)
        ensures
            final(self).st_view() == (LowerSt {
                block: old(self).st_view().block,
                next_reg: 0,
                next_label: old(self).st_view().next_label,
                vars: old(self).st_view().vars,
            }),
            final(self).code == old(self).code,
            final(self).symbol_table == old(self).symbol_table,
    {
        self.reg_counter = 0;
        proof {
            assert(self.st_view() =~= (LowerSt {
                block: old(self).st_view().block,
                next_reg: 0,
                next_label: old(self).st_view().next_label,
                vars: old(self).st_view().vars,
            }));
        }
    }

    /// Hands out the next generated label of this function.
    fn gen_label(&mut self) -> (r: Label)
        requires
            old(self).st_view().next_label < usize::MAX,
        ensures
            r@ == gen_label_text(old(self).st_view().next_label),
            final(self).st_view() == (LowerSt {
                block: old(self).st_view().block,
                next_reg: old(self).st_view().next_reg,
                next_label: old(self).st_view().next_label + 1,
                vars: old(self).st_view().vars,
            }),
            final(self).code == old(self).code,
            final(self).symbol_table == old(self).symbol_table,
    {
        let number = self.gen_label_number;
        self.gen_label_number = self.gen_label_number + 1;
        let mut s = String::from_str(".L");
        let d = u64_to_dec(number as u64);
        s.append(d.as_str());
        proof {
            assert(self.st_view() =~= (LowerSt {
                block: old(self).st_view().block,
                next_reg: old(self).st_view().next_reg,
                next_label: old(self).st_view().next_label + 1,
                vars: old(self).st_view().vars,
            }));
        }
        Label(s)
    }

    /// Emits a label definition.
    fn def_label(&mut self, label: Label)
        ensures
            final(self).st_view() == (LowerSt {
                block: old(self).st_view().block.push(InstrV::DefLabel { label: label@ }),
                next_reg: old(self).st_view().next_reg,
                next_label: old(self).st_view().next_label,
                vars: old(self).st_view().vars,
            }),
            final(self).code == old(self).code,
            final(self).symbol_table == old(self).symbol_table,
    {
        self.push_to_block(Instruction::DefLabel(DefLabel(label)));
    }

    /// Emits an unconditional jump.
    fn jump(&mut self, label: Label)
        ensures
            final(self).st_view() == (LowerSt {
                block: old(self).st_view().block.push(InstrV::Jump { label: label@ }),
                next_reg: old(self).st_view().next_reg,
                next_label: old(self).st_view().next_label,
                vars: old(self).st_view().vars,
            }),
            final(self).code == old(self).code,
            final(self).symbol_table == old(self).symbol_table,
    {
        self.push_to_block(Instruction::Jump(Jump(label)));
    }

    /// Allocates a destination and emits a load of the constant into it.
    fn load_imm(&mut self, imm: Imm) -> (r: Reg)
        requires
            old(self).st_view().next_reg < usize::MAX,
        ensures
            ({
                let (sreg, sst) = emit_load(old(self).st_view(), imm.0);
                r@ == sreg && final(self).st_view() == sst
            }),
            final(self).code == old(self).code,
            final(self).symbol_table == old(self).symbol_table,
    {
        let des = self.get_reg();
        self.push_to_block(Instruction::LoadImm(LoadImm { des, imm }));
        des
    }

    /// Allocates a destination and emits the matching binary operation.
    fn binary(&mut self, op: &Op, lhs: Reg, rhs: Reg) -> (r: Reg)
        requires
            crate::ast::op_supported(*op),
            old(self).st_view().next_reg < usize::MAX,
        ensures
            r@ == old(self).st_view().next_reg,
            final(self).st_view() == (LowerSt {
                block: old(self).st_view().block.push(
                    op_instr(*op, old(self).st_view().next_reg, lhs@, rhs@),
                ),
                next_reg: old(self).st_view().next_reg + 1,
                next_label: old(self).st_view().next_label,
                vars: old(self).st_view().vars,
            }),
            final(self).code == old(self).code,
            final(self).symbol_table == old(self).symbol_table,
    {
        let des = self.get_reg();
        let instruction = match op {
            Op::Add => Instruction::Add(Add { des, lhs, rhs }),
            Op::Sub => Instruction::Sub(Sub { des, lhs, rhs }),
            Op::Mul => Instruction::Mul(Mul { des, lhs, rhs }),
            Op::Div => Instruction::Div(Div { des, lhs, rhs }),
            Op::Grt => Instruction::Grt(Grt { des, lhs, rhs }),
            _ => unreached(),
        };
        self.push_to_block(instruction);
        des
    }

    /// Emits the branch taken when the condition register is zero.
    fn conditional(&mut self, label: Label, reg: Reg) -> (r: Reg)
        ensures
            r == reg,
            final(self).st_view() == (LowerSt {
                block: old(self).st_view().block.push(
                    InstrV::Conditional { label: label@, reg: reg@ },
                ),
                next_reg: old(self).st_view().next_reg,
                next_label: old(self).st_view().next_label,
                vars: old(self).st_view().vars,
            }),
            final(self).code == old(self).code,
            final(self).symbol_table == old(self).symbol_table,
    {
        self.push_to_block(Instruction::Conditional(Conditional { label, reg }));
        reg
    }

    /// Emits a call instruction; its value lives in `ret`.
    fn call(&mut self, caller: Label, args: Vec<Reg>, ret: Reg) -> (r: Reg)
        ensures
            r == ret,
            final(self).st_view() == (LowerSt {
                block: old(self).st_view().block.push(
                    InstrV::Call {
                        caller: caller@,
                        args: args@.map_values(|rg: Reg| rg@),
                        ret: ret@,
                    },
                ),
                next_reg: old(self).st_view().next_reg,
                next_label: old(self).st_view().next_label,
                vars: old(self).st_view().vars,
            }),
            final(self).code == old(self).code,
            final(self).symbol_table == old(self).symbol_table,
    {
        self.push_to_block(Instruction::Call(Call { caller, args, ret }));
        ret
    }

    /// Emits the early-return marker.
    fn early_return(&mut self, reg: Option<Reg>)
        ensures
            final(self).st_view() == (LowerSt {
                block: old(self).st_view().block.push(
                    InstrV::Return {
                        reg: match reg {
                            Some(rg) => Some(rg@),
                            None => None,
                        },
                    },
                ),
                next_reg: old(self).st_view().next_reg,
                next_label: old(self).st_view().next_label,
                vars: old(self).st_view().vars,
            }),
            final(self).code == old(self).code,
            final(self).symbol_table == old(self).symbol_table,
    {
        self.push_to_block(Instruction::Return(Return(reg)));
    }

    /// Binds one parameter to a fresh register.
    fn visit_params(&mut self, p: &Param) -> (r: Reg)
        requires
            old(self).st_view().next_reg < usize::MAX,
        ensures
            r@ == old(self).st_view().next_reg,
            final(self).st_view() == (LowerSt {
                block: old(self).st_view().block,
                next_reg: old(self).st_view().next_reg + 1,
                next_label: old(self).st_view().next_label,
                vars: old(self).st_view().vars.insert(
                    p.name.value@,
                    old(self).st_view().next_reg,
                ),
            }),
            final(self).code == old(self).code,
            final(self).symbol_table == old(self).symbol_table,
    {
        let des = self.get_reg();
        self.vars.insert(p.name.value(), des);
        proof {
            assert(self.st_view() =~= (LowerSt {
                block: old(self).st_view().block,
                next_reg: old(self).st_view().next_reg + 1,
                next_label: old(self).st_view().next_label,
                vars: old(self).st_view().vars.insert(p.name.value@, old(self).st_view().next_reg),
            }));
        }
        des
    }

    /// Looks a variable up; an unbound name is a diagnostic, not a trap.
    fn visit_expr_var(&mut self, ev: &ExprVar) -> (r: Result<Reg, IrError>)
        ensures
            *final(self) == *old(self),
            visit_matches(r, lower_expr(Expr::Var(ExprVar { name: ev.name }), old(self).st_view()), final(self).st_view()),
    {
        match self.vars.get(&ev.name.value) {
            Some(reg) => Ok(*reg),
            None => Err(IrError::UndefinedVariable(ev.name.value())),
        }
    }

    /// Lowers an integer literal.
    fn visit_lit_int(&mut self, li: &LitInt) -> (r: Reg)
        requires
            old(self).st_view().next_reg < usize::MAX,
        ensures
            ({
                let (sreg, sst) = emit_load(old(self).st_view(), li.value);
                r@ == sreg && final(self).st_view() == sst
            }),
            final(self).code == old(self).code,
            final(self).symbol_table == old(self).symbol_table,
    {
        self.load_imm(Imm(li.value))
    }

    /// Lowers a boolean literal to 0 or 1.
    fn visit_lit_bool(&mut self, lb: &LitBool) -> (r: Reg)
        requires
            old(self).st_view().next_reg < usize::MAX,
        ensures
            ({
                let (sreg, sst) = emit_load(
                    old(self).st_view(),
                    if lb.value {
                        1u64
                    } else {
                        0u64
                    },
                );
                r@ == sreg && final(self).st_view() == sst
            }),
            final(self).code == old(self).code,
            final(self).symbol_table == old(self).symbol_table,
    {
        let num: u64 = if lb.value {
            1
        } else {
            0
        };
        self.load_imm(Imm(num))
    }

    /// Lowers a literal of any supported kind.
    fn visit_lit(&mut self, lit: &Lit) -> (r: Reg)
        requires
            lit is Int || lit is Bool,
            old(self).st_view().next_reg < usize::MAX,
        ensures
            ({
                let s = lower_expr(
                    Expr::Lit(ExprLit { lit: *lit }),
                    old(self).st_view(),
                );
                s is Ok && r@ == s->Ok_0.0 && final(self).st_view() == s->Ok_0.1
            }),
            final(self).code == old(self).code,
            final(self).symbol_table == old(self).symbol_table,
    {
        match lit {
            Lit::Int(li) => self.visit_lit_int(li),
            Lit::Bool(lb) => self.visit_lit_bool(lb),
            Lit::Str(_) => unreached(),
            Lit::Char(_) => unreached(),
        }
    }

    /// Lowers a literal expression.
    fn visit_expr_lit(&mut self, el: &ExprLit) -> (r: Reg)
        requires
            el.lit is Int || el.lit is Bool,
            old(self).st_view().next_reg < usize::MAX,
        ensures
            ({
                let s = lower_expr(Expr::Lit(*el), old(self).st_view());
                s is Ok && r@ == s->Ok_0.0 && final(self).st_view() == s->Ok_0.1
            }),
            final(self).code == old(self).code,
            final(self).symbol_table == old(self).symbol_table,
    {
        self.visit_lit(&el.lit)
    }

    /// Lowers both operands, left first, then the operation itself.
    fn visit_expr_binary(&mut self, bin: &ExprBinary) -> (r: Result<Reg, IrError>)
        requires
            expr_wf(Expr::Binary(*bin)),
            counters_ok(old(self).st_view(), expr_measure(Expr::Binary(*bin))),
        ensures
            final(self).code == old(self).code,
            final(self).symbol_table == old(self).symbol_table,
            visit_matches(
                r,
                lower_expr(Expr::Binary(*bin), old(self).st_view()),
                final(self).st_view(),
            ),
        decreases *bin,
    {
        let ghost st0 = old(self).st_view();
        proof {
            lemma_lower_expr_bounds(*bin.left, st0);
        }
        let lhs = match self.visit_expr(&bin.left) {
            Ok(v) => v,
            Err(e) => {
                return Err(e);
            },
        };
        let ghost st1 = self.st_view();
        proof {
            lemma_lower_expr_bounds(*bin.right, st1);
        }
        let rhs = match self.visit_expr(&bin.right) {
            Ok(v) => v,
            Err(e) => {
                return Err(e);
            },
        };
        Ok(self.binary(&bin.op, lhs, rhs))
    }

    /// Lowers a call: the return-value register first, then the arguments
    /// left to right, then the call itself.
    fn visit_expr_call(&mut self, ec: &ExprCall) -> (r: Result<Reg, IrError>)
        requires
            expr_wf(Expr::Call(*ec)),
            counters_ok(old(self).st_view(), expr_measure(Expr::Call(*ec))),
        ensures
            final(self).code == old(self).code,
            final(self).symbol_table == old(self).symbol_table,
            visit_matches(
                r,
                lower_expr(Expr::Call(*ec), old(self).st_view()),
                final(self).st_view(),
            ),
        decreases *ec,
    {
        let caller_label: Label = match &*ec.caller {
            Expr::Var(v) => Label(v.name.value()),
            _ => {
                return Err(IrError::UnsupportedCallee);
            },
        };
        let ret = self.get_reg();
        let ghost st1 = self.st_view();
        let mut args: Vec<Reg> = Vec::new();
        let ghost mut sregs = Seq::<int>::empty();
        let n = ec.args.len();
        let mut i: usize = 0;
        while i < n
            invariant
                i <= n,
                n == ec.args.len(),
                expr_wf(Expr::Call(*ec)),
                exprs_wf(ec.args, n as int),
                ret@ == old(self).st_view().next_reg,
                st1 == (LowerSt {
                    block: old(self).st_view().block,
                    next_reg: old(self).st_view().next_reg + 1,
                    next_label: old(self).st_view().next_label,
                    vars: old(self).st_view().vars,
                }),
                *ec.caller matches Expr::Var(vv) && caller_label@ == vv.name.value@,
                counters_ok(st1, exprs_measure(ec.args, n as int)),
                lower_args(ec.args, i as int, st1) == Ok::<(Seq<int>, LowerSt), LowerErr>(
                    (sregs, self.st_view()),
                ),
                sregs.len() == args@.len(),
                forall|k: int| 0 <= k < sregs.len() ==> sregs[k] == (#[trigger] args@[k])@,
                self.code == old(self).code,
                self.symbol_table == old(self).symbol_table,
            decreases n - i,
        {
            proof {
                lemma_exprs_wf_index(ec.args, n as int, i as int);
                lemma_lower_args_bounds(ec.args, i as int, st1);
                lemma_exprs_measure_mono(ec.args, i + 1 as int, n as int);
            }
            let a = match self.visit_expr(&ec.args[i]) {
                Ok(v) => v,
                Err(e) => {
                    proof {
                        lemma_lower_args_err_mono(ec.args, i + 1 as int, n as int, st1);
                    }
                    return Err(e);
                },
            };
            args.push(a);
            proof {
                sregs = sregs.push(a@);
            }
            i = i + 1;
        }
        proof {
            assert(args@.map_values(|rg: Reg| rg@) =~= sregs);
        }
        Ok(self.call(caller_label, args, ret))
    }

    /// Lowers an if: condition, branch-if-zero to a fresh label, then
    /// branch, label, and the else branch behind the label if there is one.
    fn visit_expr_if(&mut self, ei: &ExprIf) -> (r: Result<Reg, IrError>)
        requires
            expr_wf(Expr::If(*ei)),
            counters_ok(old(self).st_view(), expr_measure(Expr::If(*ei))),
        ensures
            final(self).code == old(self).code,
            final(self).symbol_table == old(self).symbol_table,
            visit_matches(
                r,
                lower_expr(Expr::If(*ei), old(self).st_view()),
                final(self).st_view(),
            ),
        decreases *ei,
    {
        let ghost st0 = old(self).st_view();
        proof {
            lemma_lower_expr_bounds(*ei.cond, st0);
        }
        let cond_reg = match self.visit_expr(&ei.cond) {
            Ok(v) => v,
            Err(e) => {
                return Err(e);
            },
        };
        let label = self.gen_label();
        let label_copy = Label(label.0.clone());
        let des = self.conditional(label_copy, cond_reg);
        let ghost st2 = self.st_view();
        proof {
            lemma_lower_block_bounds(ei.then_branch, st2);
        }
        match self.visit_expr_block(&ei.then_branch) {
            Ok(_) => {},
            Err(e) => {
                return Err(e);
            },
        };
        self.def_label(label);
        match &ei.else_branch {
            None => {},
            Some(el) => {
                match self.visit_expr(el) {
                    Ok(_) => {},
                    Err(e) => {
                        return Err(e);
                    },
                };
            },
        };
        Ok(des)
    }

    /// Lowers a let binding: the name is bound to the initializer's own
    /// destination register, with no separate store.
    fn visit_expr_let(&mut self, el: &ExprLet) -> (r: Result<Reg, IrError>)
        requires
            expr_wf(Expr::Let(*el)),
            counters_ok(old(self).st_view(), expr_measure(Expr::Let(*el))),
        ensures
            final(self).code == old(self).code,
            final(self).symbol_table == old(self).symbol_table,
            visit_matches(
                r,
                lower_expr(Expr::Let(*el), old(self).st_view()),
                final(self).st_view(),
            ),
        decreases *el,
    {
        let reg = match self.visit_expr(&el.expr) {
            Ok(v) => v,
            Err(e) => {
                return Err(e);
            },
        };
        self.vars.insert(el.name.value(), reg);
        Ok(reg)
    }

    /// Lowers a return: the early-return marker carries the register unless
    /// the returned expression was a call, then the jump to the exit label.
    fn visit_expr_return(&mut self, er: &ExprReturn) -> (r: Result<Reg, IrError>)
        requires
            expr_wf(Expr::Return(*er)),
            counters_ok(old(self).st_view(), expr_measure(Expr::Return(*er))),
        ensures
            final(self).code == old(self).code,
            final(self).symbol_table == old(self).symbol_table,
            visit_matches(
                r,
                lower_expr(Expr::Return(*er), old(self).st_view()),
                final(self).st_view(),
            ),
        decreases *er,
    {
        let reg = match self.visit_expr(&er.expr) {
            Ok(v) => v,
            Err(e) => {
                return Err(e);
            },
        };
        let carried = if (&*er.expr).is_call() {
            None
        } else {
            Some(reg)
        };
        self.early_return(carried);
        self.jump(Label(String::from_str(".exit")));
        Ok(reg)
    }

    /// Lowers one statement.
    fn visit_stmt(&mut self, stmt: &Statement) -> (r: Result<Reg, IrError>)
        requires
            expr_wf(stmt.stmt),
            counters_ok(old(self).st_view(), expr_measure(stmt.stmt)),
        ensures
            final(self).code == old(self).code,
            final(self).symbol_table == old(self).symbol_table,
            visit_matches(r, lower_expr(stmt.stmt, old(self).st_view()), final(self).st_view()),
        decreases *stmt,
    {
        self.visit_expr(&stmt.stmt)
    }

    /// Lowers a block: its statements in order; its value is the last
    /// statement's register, and a block with none is refused.
    fn visit_expr_block(&mut self, block: &ExprBlock) -> (r: Result<Reg, IrError>)
        requires
            block_wf(*block),
            counters_ok(old(self).st_view(), block_measure(*block)),
        ensures
            final(self).code == old(self).code,
            final(self).symbol_table == old(self).symbol_table,
            visit_matches(r, lower_block(*block, old(self).st_view()), final(self).st_view()),
        decreases *block,
    {
        let ghost st0 = old(self).st_view();
        let n = block.stmts.len();
        if n == 0 {
            return Err(IrError::EmptyBlock);
        }
        proof {
            lemma_stmts_wf_index(block.stmts, n as int, 0);
            lemma_stmts_measure_mono(block.stmts, 1, n as int);
        }
        let mut reg = match self.visit_stmt(&block.stmts[0]) {
            Ok(v) => v,
            Err(e) => {
                proof {
                    lemma_lower_stmts_err_mono(block.stmts, 1, n as int, st0);
                }
                return Err(e);
            },
        };
        let mut i: usize = 1;
        while i < n
            invariant
                1 <= i <= n,
                n == block.stmts.len(),
                st0 == old(self).st_view(),
                stmts_wf(block.stmts, n as int),
                counters_ok(st0, stmts_measure(block.stmts, n as int)),
                lower_stmts(block.stmts, i as int, st0) == Ok::<(int, LowerSt), LowerErr>(
                    (reg@, self.st_view()),
                ),
                self.code == old(self).code,
                self.symbol_table == old(self).symbol_table,
            decreases n - i,
        {
            proof {
                lemma_stmts_wf_index(block.stmts, n as int, i as int);
                lemma_lower_stmts_bounds(block.stmts, i as int, st0);
                lemma_stmts_measure_mono(block.stmts, i + 1 as int, n as int);
            }
            reg = match self.visit_stmt(&block.stmts[i]) {
                Ok(v) => v,
                Err(e) => {
                    proof {
                        lemma_lower_stmts_err_mono(block.stmts, i + 1 as int, n as int, st0);
                    }
                    return Err(e);
                },
            };
            i = i + 1;
        }
        Ok(reg)
    }

    /// Lowers any expression by dispatching on its shape.
    fn visit_expr(&mut self, e: &Expr) -> (r: Result<Reg, IrError>)
        requires
            expr_wf(*e),
            counters_ok(old(self).st_view(), expr_measure(*e)),
        ensures
            final(self).code == old(self).code,
            final(self).symbol_table == old(self).symbol_table,
            visit_matches(r, lower_expr(*e, old(self).st_view()), final(self).st_view()),
        decreases *e,
    {
        match e {
            Expr::Lit(el) => Ok(self.visit_expr_lit(el)),
            Expr::Binary(b) => self.visit_expr_binary(b),
            Expr::Call(c) => self.visit_expr_call(c),
            Expr::Var(v) => self.visit_expr_var(v),
            Expr::If(ei) => self.visit_expr_if(ei),
            Expr::Block(b) => self.visit_expr_block(b),
            Expr::Return(er) => self.visit_expr_return(er),
            Expr::Let(el) => self.visit_expr_let(el),
        }
    }

    /// Lowers one function item: counters and bindings reset, parameters
    /// bound in order, the body bracketed by the prologue marker, the exit
    /// label and the epilogue marker, and the whole wrapped into one
    /// function-definition node. On failure nothing is added to the output.
    fn visit_item_fn(&mut self, f: &ItemFn) -> (r: Result<(), IrError>)
        requires
            item_fn_wf(*f),
            item_fn_measure(*f) <= usize::MAX,
        ensures
            final(self).symbol_table == old(self).symbol_table,
            match (r, lower_item_fn(*f)) {
                (Ok(_), Ok(d)) => final(self).code_view() == old(self).code_view().push(
                    InstrV::DefFunc(d),
                ),
                (Err(e), Err(se)) => e@ == se && final(self).code == old(self).code,
                _ => false,
            },
    {
        self.gen_label_number = 0;
        self.reset_regester_count();
        self.block.clear();
        self.vars.clear();
        proof {
            assert(self.st_view() =~= init_st());
        }

        let mut params: Vec<(Reg, Type)> = Vec::new();
        let np = f.params.len();
        let mut i: usize = 0;
        while i < np
            invariant
                i <= np,
                np == f.params.len(),
                np + block_measure(f.block) <= usize::MAX,
                self.st_view() == bind_params(f.params, i as int, init_st()),
                self.st_view().next_reg == i,
                params@.len() == i,
                forall|k: int|
                    0 <= k < i ==> (#[trigger] params@[k]).0@ == k && params@[k].1 == Type::U64,
                self.code == old(self).code,
                self.symbol_table == old(self).symbol_table,
            decreases np - i,
        {
            let rg = self.visit_params(&f.params[i]);
            params.push((rg, Type::U64));
            i = i + 1;
            proof {
                assert(self.st_view() =~= bind_params(f.params, i as int, init_st()));
            }
        }
        proof {
            assert(params@.map_values(|p: (Reg, Type)| (p.0@, p.1)) =~= params_sig(np as nat));
        }
        proof {
            lemma_bind_params_bounds(f.params, np as int, init_st());
        }

        self.push_to_block(Instruction::Enter(Enter));
        let _reg = match self.visit_expr_block(&f.block) {
            Ok(v) => v,
            Err(e) => {
                return Err(e);
            },
        };
        self.def_label(Label(String::from_str(".exit")));
        self.push_to_block(Instruction::Leave(Leave));

        let mut body: Vec<Instruction> = Vec::new();
        core::mem::swap(&mut body, &mut self.block);
        let def = DefFunc { name: f.name.value(), params, body };
        proof {
            let d = match lower_item_fn(*f) {
                Ok(d) => d,
                Err(_) => arbitrary(),
            };
            assert(def@ =~= d);
        }
        self.push_fn(Instruction::DefFunc(def));
        Ok(())
    }

    /// Lowers every item in source order, collecting the diagnostics of the
    /// items that failed; only the ones that lowered reach the output.
    fn visit(&mut self, items: &Vec<Item>) -> (r: Vec<IrError>)
        requires
            program_wf(*items),
        ensures
            final(self).symbol_table == old(self).symbol_table,
            ({
                let (scode, serrs) = lower_items(*items, items@.len() as int);
                final(self).code_view() == old(self).code_view() + scode && r@.map_values(
                    |e: IrError| e@,
                ) == serrs
            }),
    {
        let mut errs: Vec<IrError> = Vec::new();
        let n = items.len();
        let mut i: usize = 0;
        proof {
            let (scode, serrs) = lower_items(*items, 0);
            assert(self.code_view() =~= old(self).code_view() + scode);
            assert(errs@.map_values(|e: IrError| e@) =~= serrs);
        }
        while i < n
            invariant
                i <= n,
                n == items@.len(),
                program_wf(*items),
                ({
                    let (scode, serrs) = lower_items(*items, i as int);
                    self.code_view() == old(self).code_view() + scode && errs@.map_values(
                        |e: IrError| e@,
                    ) == serrs
                }),
                self.symbol_table == old(self).symbol_table,
            decreases n - i,
        {
            let ghost (scode0, serrs0) = lower_items(*items, i as int);
            match &items[i] {
                Item::Fn(f) => {
                    match self.visit_item_fn(f) {
                        Ok(_) => {
                            proof {
                                let (scode1, serrs1) = lower_items(*items, i + 1 as int);
                                assert(self.code_view() =~= old(self).code_view() + scode1);
                            }
                        },
                        Err(e) => {
                            errs.push(e);
                            proof {
                                let (scode1, serrs1) = lower_items(*items, i + 1 as int);
                                assert(errs@.map_values(|er: IrError| er@) =~= serrs1);
                            }
                        },
                    }
                },
            }
            i = i + 1;
        }
        errs
    }
}

/// Lowers the whole program to its IR: one function definition per item in
/// source order, carrying the symbol table through unchanged. On any
/// failure no output is produced, only the collected diagnostics.
pub fn code_gen(input: (Vec<Item>, SymbolTable)) -> (r: Result<
    (Vec<Instruction>, SymbolTable),
    Vec<String>,
>)
    requires
        program_wf(input.0),
    ensures
        match (r, lower_program(input.0)) {
            (Ok(out), Ok(scode)) => instrs_view(out.0@, out.0@.len() as int) == scode && out.1
                == input.1,
            (Err(msgs), Err(serrs)) => msgs@.len() == serrs.len() && (forall|j: int|
                0 <= j < serrs.len() ==> (#[trigger] msgs@[j])@ == err_text(serrs[j])),
            _ => false,
        },
{
    let (ast, symbol_table) = input;
    let mut generator = IrGenerator::new(symbol_table);
    let errs = generator.visit(&ast);
    if errs.len() == 0 {
        proof {
            let (scode, serrs) = lower_items(ast, ast@.len() as int);
            assert(generator.code_view() =~= scode);
        }
        Ok((generator.code, generator.symbol_table))
    } else {
        let mut msgs: Vec<String> = Vec::new();
        let n = errs.len();
        let mut i: usize = 0;
        while i < n
            invariant
                i <= n,
                n == errs@.len(),
                msgs@.len() == i,
                forall|j: int|
                    0 <= j < i ==> (#[trigger] msgs@[j])@ == err_text(errs@[j]@),
            decreases n - i,
        {
            msgs.push(err_message(&errs[i]));
            i = i + 1;
        }
        Err(msgs)
    }
}

} // verus!
