//! The IR generator on whole programs: instruction sequences, register and
//! label discipline, and the diagnostics for the shapes it refuses.

use bitbox::ast::{
    Expr, ExprBinary, ExprBlock, ExprCall, ExprIf, ExprLet, ExprLit, ExprReturn, ExprVar, Ident,
    Item, ItemFn, Lit, LitBool, LitInt, Op, Param, Span, Statement, Type,
};
use bitbox::ir::{
    code_gen, Add, DefFunc, DefLabel, Enter, Instruction, Jump, Label, Leave, LoadImm, Reg, Return,
    Imm,
};
use bitbox::symbol_table::SymbolTable;

fn sp() -> Span {
    Span { start: 0, end: 0 }
}

fn ident(name: &str) -> Ident {
    Ident { value: name.to_string(), span: sp() }
}

fn lit_int(v: u64) -> Expr {
    Expr::Lit(ExprLit { lit: Lit::Int(LitInt { value: v, span: sp() }) })
}

fn var(name: &str) -> Expr {
    Expr::Var(ExprVar { name: ident(name) })
}

fn binary(left: Expr, op: Op, right: Expr) -> Expr {
    Expr::Binary(ExprBinary { left: Box::new(left), right: Box::new(right), op })
}

fn ret(e: Expr) -> Expr {
    Expr::Return(ExprReturn { expr: Box::new(e) })
}

fn stmt(e: Expr) -> Statement {
    Statement { stmt: e, span: sp() }
}

fn item_fn(name: &str, params: Vec<Param>, stmts: Vec<Statement>, ret_ty: Option<&str>) -> Item {
    Item::Fn(ItemFn {
        name: ident(name),
        params,
        block: ExprBlock { stmts },
        ret_type: ret_ty.map(|t| Type(ident(t))),
        span: sp(),
    })
}

fn param(name: &str, ty: &str) -> Param {
    Param { name: ident(name), kind: Type(ident(ty)), span: sp() }
}

fn lower_one(item: Item) -> Vec<Instruction> {
    let (code, _) = code_gen((vec![item], SymbolTable::default())).expect("lowering failed");
    code
}

#[test]
fn main_return_sum_lowers_exactly() {
    // fn main() { return 1 + 2; }
    let item = item_fn(
        "main",
        vec![],
        vec![stmt(ret(binary(lit_int(1), Op::Add, lit_int(2))))],
        None,
    );
    let code = lower_one(item);
    assert_eq!(code.len(), 1);
    let expected = Instruction::DefFunc(DefFunc {
        name: "main".to_string(),
        params: vec![],
        body: vec![
            Instruction::Enter(Enter),
            Instruction::LoadImm(LoadImm { des: Reg(0), imm: Imm(1) }),
            Instruction::LoadImm(LoadImm { des: Reg(1), imm: Imm(2) }),
            Instruction::Add(Add { des: Reg(2), lhs: Reg(0), rhs: Reg(1) }),
            Instruction::Return(Return(Some(Reg(2)))),
            Instruction::Jump(Jump(Label(".exit".to_string()))),
            Instruction::DefLabel(DefLabel(Label(".exit".to_string()))),
            Instruction::Leave(Leave),
        ],
    });
    assert_eq!(code[0], expected);
}

#[test]
fn vreg_ids_count_up_from_zero_without_gaps() {
    // fn main() { return 1 + 2; } allocates %0, %1, %2 and nothing else.
    let item = item_fn(
        "main",
        vec![],
        vec![stmt(ret(binary(lit_int(1), Op::Add, lit_int(2))))],
        None,
    );
    let code = lower_one(item);
    let Instruction::DefFunc(d) = &code[0] else { panic!("expected a function") };
    let mut ids = vec![];
    for i in &d.body {
        match i {
            Instruction::LoadImm(x) => ids.push(x.des.0),
            Instruction::Add(x) => ids.push(x.des.0),
            Instruction::Sub(x) => ids.push(x.des.0),
            Instruction::Mul(x) => ids.push(x.des.0),
            Instruction::Div(x) => ids.push(x.des.0),
            Instruction::Grt(x) => ids.push(x.des.0),
            Instruction::Call(x) => ids.push(x.ret.0),
            _ => {}
        }
    }
    assert_eq!(ids, vec![0, 1, 2]);
}

#[test]
fn max_emits_one_conditional_to_one_later_label() {
    // fn max(a: u64, b: u64) -> u64 { if a > b { return a; } return b; }
    let body = vec![
        stmt(Expr::If(ExprIf {
            cond: Box::new(binary(var("a"), Op::Grt, var("b"))),
            then_branch: ExprBlock { stmts: vec![stmt(ret(var("a")))] },
            else_branch: None,
        })),
        stmt(ret(var("b"))),
    ];
    let item = item_fn("max", vec![param("a", "u64"), param("b", "u64")], body, Some("u64"));
    let code = lower_one(item);
    let Instruction::DefFunc(d) = &code[0] else { panic!("expected a function") };
    let conditionals: Vec<(usize, String)> = d
        .body
        .iter()
        .enumerate()
        .filter_map(|(k, i)| match i {
            Instruction::Conditional(c) => Some((k, c.label.0.clone())),
            _ => None,
        })
        .collect();
    assert_eq!(conditionals.len(), 1);
    let (cond_at, label) = &conditionals[0];
    assert_eq!(label, ".L0");
    let defs: Vec<usize> = d
        .body
        .iter()
        .enumerate()
        .filter_map(|(k, i)| match i {
            Instruction::DefLabel(dl) => {
                if dl.name() == *label {
                    Some(k)
                } else {
                    None
                }
            }
            _ => None,
        })
        .collect();
    assert_eq!(defs.len(), 1);
    assert!(defs[0] > *cond_at);
}

#[test]
fn labels_and_registers_reset_between_functions() {
    // Two identical functions lower to identical bodies: counters reset.
    let mk = || {
        item_fn(
            "f",
            vec![],
            vec![stmt(Expr::If(ExprIf {
                cond: Box::new(lit_int(1)),
                then_branch: ExprBlock { stmts: vec![stmt(ret(lit_int(2)))] },
                else_branch: None,
            }))],
            None,
        )
    };
    let mk_named = |name: &str| {
        let Item::Fn(mut f) = mk();
        f.name = ident(name);
        Item::Fn(f)
    };
    let (code, _) = code_gen((
        vec![mk_named("first"), mk_named("second")],
        SymbolTable::default(),
    ))
    .expect("lowering failed");
    assert_eq!(code.len(), 2);
    let Instruction::DefFunc(d1) = &code[0] else { panic!() };
    let Instruction::DefFunc(d2) = &code[1] else { panic!() };
    assert_eq!(d1.body, d2.body);
}

#[test]
fn let_binding_reuses_initializer_register() {
    // fn main() { let x = 5; return x; }
    let body = vec![
        stmt(Expr::Let(ExprLet { name: ident("x"), expr: Box::new(lit_int(5)) })),
        stmt(ret(var("x"))),
    ];
    let item = item_fn("main", vec![], body, None);
    let code = lower_one(item);
    let Instruction::DefFunc(d) = &code[0] else { panic!() };
    assert_eq!(
        d.body[1],
        Instruction::LoadImm(LoadImm { des: Reg(0), imm: Imm(5) })
    );
    assert_eq!(d.body[2], Instruction::Return(Return(Some(Reg(0)))));
}

#[test]
fn returned_call_carries_no_register() {
    // fn main() { return helper(); } hands the value over by convention.
    let body = vec![stmt(ret(Expr::Call(ExprCall {
        caller: Box::new(var("helper")),
        args: vec![],
        span: sp(),
    })))];
    let item = item_fn("main", vec![], body, None);
    let code = lower_one(item);
    let Instruction::DefFunc(d) = &code[0] else { panic!() };
    assert_eq!(d.body[2], Instruction::Return(Return(None)));
}

#[test]
fn undefined_variable_is_a_diagnostic() {
    let item = item_fn("main", vec![], vec![stmt(ret(var("x")))], None);
    let errs = code_gen((vec![item], SymbolTable::default())).unwrap_err();
    assert_eq!(errs, vec!["undefined variable: x".to_string()]);
}

#[test]
fn empty_block_is_a_diagnostic() {
    let item = item_fn("main", vec![], vec![], None);
    let errs = code_gen((vec![item], SymbolTable::default())).unwrap_err();
    assert_eq!(errs, vec!["empty block has no value".to_string()]);
}

#[test]
fn non_identifier_callee_is_a_diagnostic() {
    let callee_is_literal = Expr::Call(ExprCall {
        caller: Box::new(lit_int(1)),
        args: vec![],
        span: sp(),
    });
    let item = item_fn("main", vec![], vec![stmt(ret(callee_is_literal))], None);
    let errs = code_gen((vec![item], SymbolTable::default())).unwrap_err();
    assert_eq!(errs, vec!["unsupported callee expression".to_string()]);
}

#[test]
fn failing_function_leaves_no_partial_output() {
    // The first function is fine, the second refers to an unbound name:
    // the pass reports the error and emits nothing.
    let good = item_fn("good", vec![], vec![stmt(ret(lit_int(1)))], None);
    let bad = item_fn("bad", vec![], vec![stmt(ret(var("nope")))], None);
    let r = code_gen((vec![good, bad], SymbolTable::default()));
    let errs = r.unwrap_err();
    assert_eq!(errs, vec!["undefined variable: nope".to_string()]);
}

#[test]
fn ir_text_of_main_return_sum() {
    let item = item_fn(
        "main",
        vec![],
        vec![stmt(ret(binary(lit_int(1), Op::Add, lit_int(2))))],
        None,
    );
    let code = lower_one(item);
    let text: String = code.iter().map(|i| i.to_text()).collect();
    let expected = "function main() {\n    enter\n    load %0 1\n    load %1 2\n    %2 = %0 + %1\n    return %2\n    goto .exit\n.exit:\n    leave\n}\n\n";
    assert_eq!(text, expected);
}

#[test]
fn ir_text_renders_params_ops_and_calls() {
    // fn add(a: u64, b: u64) -> u64 { return a + b; }
    let item = item_fn(
        "add",
        vec![param("a", "u64"), param("b", "u64")],
        vec![stmt(ret(binary(var("a"), Op::Add, var("b"))))],
        Some("u64"),
    );
    let code = lower_one(item);
    let text: String = code.iter().map(|i| i.to_text()).collect();
    let expected = "function add(%0: u64, %1: u64) {\n    enter\n    %2 = %0 + %1\n    return %2\n    goto .exit\n.exit:\n    leave\n}\n\n";
    assert_eq!(text, expected);
}

#[test]
fn jump_and_def_label_expose_their_names() {
    let j = Jump(Label(".exit".to_string()));
    assert_eq!(j.name(), ".exit");
    let d = DefLabel(Label(".L0".to_string()));
    assert_eq!(d.name(), ".L0");
}

#[test]
fn booleans_load_as_zero_or_one() {
    // Boolean literals lower to 0 and 1.
    let body = vec![stmt(ret(Expr::Lit(ExprLit {
        lit: Lit::Bool(LitBool { value: true, span: sp() }),
    })))];
    let item = item_fn("main", vec![], body, None);
    let code = lower_one(item);
    let Instruction::DefFunc(d) = &code[0] else { panic!() };
    assert_eq!(
        d.body[1],
        Instruction::LoadImm(LoadImm { des: Reg(0), imm: Imm(1) })
    );

    let body = vec![stmt(ret(Expr::Lit(ExprLit {
        lit: Lit::Bool(LitBool { value: false, span: sp() }),
    })))];
    let item = item_fn("main", vec![], body, None);
    let code = lower_one(item);
    let Instruction::DefFunc(d) = &code[0] else { panic!() };
    assert_eq!(
        d.body[1],
        Instruction::LoadImm(LoadImm { des: Reg(0), imm: Imm(0) })
    );
}

#[test]
fn else_branch_lowers_behind_the_label_with_no_skip_jump() {
    // if 1 { return 2; } else { return 3; }: the then branch falls through
    // into the else body behind the generated label, as specified.
    let body = vec![stmt(Expr::If(ExprIf {
        cond: Box::new(lit_int(1)),
        then_branch: ExprBlock { stmts: vec![stmt(ret(lit_int(2)))] },
        else_branch: Some(Box::new(Expr::Block(ExprBlock {
            stmts: vec![stmt(ret(lit_int(3)))],
        }))),
    }))];
    let item = item_fn("main", vec![], body, None);
    let code = lower_one(item);
    let Instruction::DefFunc(d) = &code[0] else { panic!() };
    // Enter, load cond, Conditional .L0, load 2, return, goto .exit,
    // .L0:, load 3, return, goto .exit, .exit:, Leave  -- and no jump
    // between the then branch and the label.
    let label_at = d
        .body
        .iter()
        .position(|i| matches!(i, Instruction::DefLabel(dl) if dl.name() == ".L0"))
        .expect("generated label not defined");
    assert!(matches!(&d.body[label_at - 1], Instruction::Jump(j) if j.name() == ".exit"));
    assert!(matches!(
        &d.body[label_at + 1],
        Instruction::LoadImm(LoadImm { des: _, imm: Imm(3) })
    ));
}
