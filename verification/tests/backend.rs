//! The back end: register allocation, instruction selection, the exact
//! rendered text, and the pipeline run end to end.

use bitbox::ast::{
    Expr, ExprBinary, ExprBlock, ExprLit, ExprReturn, ExprVar, Ident, Item, ItemFn, Lit, LitInt,
    Op, Param, Span, Statement, Type,
};
use bitbox::ir::{code_gen, Imm, LoadImm, Reg};
use bitbox::render::u64_to_dec;
use bitbox::symbol_table::SymbolTable;
use bitbox::x86_64_linux::reg_state::RegState;
use bitbox::x86_64_linux::{compile_ir_code, instruction_to_string, Instruction, Mem, X86Reg};

fn sp() -> Span {
    Span { start: 0, end: 0 }
}

fn ident(name: &str) -> Ident {
    Ident { value: name.to_string(), span: sp() }
}

fn lit_int(v: u64) -> Expr {
    Expr::Lit(ExprLit { lit: Lit::Int(LitInt { value: v, span: sp() }) })
}

fn var(name: &str) -> Expr {
    Expr::Var(ExprVar { name: ident(name) })
}

fn binary(left: Expr, op: Op, right: Expr) -> Expr {
    Expr::Binary(ExprBinary { left: Box::new(left), right: Box::new(right), op })
}

fn ret(e: Expr) -> Expr {
    Expr::Return(ExprReturn { expr: Box::new(e) })
}

fn stmt(e: Expr) -> Statement {
    Statement { stmt: e, span: sp() }
}

fn item_fn(name: &str, params: Vec<Param>, stmts: Vec<Statement>, ret_ty: Option<&str>) -> Item {
    Item::Fn(ItemFn {
        name: ident(name),
        params,
        block: ExprBlock { stmts },
        ret_type: ret_ty.map(|t| Type(ident(t))),
        span: sp(),
    })
}

fn param(name: &str, ty: &str) -> Param {
    Param { name: ident(name), kind: Type(ident(ty)), span: sp() }
}

fn pipeline(items: Vec<Item>) -> Result<String, Vec<String>> {
    let ir = code_gen((items, SymbolTable::default()))?;
    let target = compile_ir_code(ir)?;
    instruction_to_string(target)
}

fn main_return_sum() -> Item {
    item_fn(
        "main",
        vec![],
        vec![stmt(ret(binary(lit_int(1), Op::Add, lit_int(2))))],
        None,
    )
}

#[test]
fn allocator_hands_out_the_pool_in_order() {
    let mut st = RegState::default();
    assert_eq!(st.get_reg(&Reg(0)).unwrap(), X86Reg::Rbx);
    assert_eq!(st.get_reg(&Reg(1)).unwrap(), X86Reg::R11);
    // asking again for a live register returns its existing binding
    assert_eq!(st.get_reg(&Reg(0)).unwrap(), X86Reg::Rbx);
}

#[test]
fn allocator_never_doubles_a_live_slot() {
    let mut st = RegState::default();
    let mut seen = vec![];
    for v in 0..6usize {
        let phys = st.get_reg(&Reg(v)).unwrap();
        assert!(!seen.contains(&phys), "two live registers share {:?}", phys);
        seen.push(phys);
    }
    assert!(st.get_reg(&Reg(6)).is_err(), "the file has six general slots");
}

#[test]
fn released_slots_are_reused() {
    let mut st = RegState::default();
    assert_eq!(st.get_reg(&Reg(0)).unwrap(), X86Reg::Rbx);
    st.release_reg(&Reg(0));
    // the freed slot rejoins the pool behind the remaining ones
    assert_eq!(st.get_reg(&Reg(1)).unwrap(), X86Reg::R11);
    assert_eq!(st.get_reg(&Reg(2)).unwrap(), X86Reg::R12);
    assert_eq!(st.get_reg(&Reg(3)).unwrap(), X86Reg::R13);
    assert_eq!(st.get_reg(&Reg(4)).unwrap(), X86Reg::R14);
    assert_eq!(st.get_reg(&Reg(5)).unwrap(), X86Reg::R15);
    assert_eq!(st.get_reg(&Reg(6)).unwrap(), X86Reg::Rbx);
}

#[test]
fn reset_restores_the_initial_mapping() {
    // Virtual register 0 of two consecutively compiled functions lands in
    // the same physical register once the allocator is reset in between.
    let mut st = RegState::default();
    let first = st.get_reg(&Reg(0)).unwrap();
    let _ = st.get_reg(&Reg(1)).unwrap();
    st.reset();
    let second = st.get_reg(&Reg(0)).unwrap();
    assert_eq!(first, second);
}

#[test]
fn param_registers_follow_the_calling_convention() {
    let mut st = RegState::default();
    let expected = [X86Reg::Rdi, X86Reg::Rsi, X86Reg::Rdx, X86Reg::Rcx, X86Reg::R8, X86Reg::R9];
    for (v, want) in expected.iter().enumerate() {
        assert_eq!(st.get_param_reg(&Reg(v)).unwrap(), *want);
    }
    assert!(st.get_param_reg(&Reg(6)).is_err());
    assert_eq!(st.get_ret_reg(), X86Reg::Rax);
}

#[test]
fn rendered_text_of_main_return_sum() {
    let text = pipeline(vec![main_return_sum()]).expect("pipeline failed");
    let expected = "main__:\n    ;; Enter\n    push      rbp\n    mov       rbp,      rsp\n    mov       rbx,      1\n    mov       r11,      2\n    ;; Add\n    mov       r12,      rbx\n    add       r12,      r11\n    ;; Return\n    mov       rax,      r12\n    ;; Jump\n    jmp       .exit__\n    ;; DefLabel\n.exit__:\n    ;; Leave\n    mov       rbp,      rsp\n    pop       rbp\n    ret\n";
    assert_eq!(text, expected);
}

#[test]
fn pipeline_is_byte_identical_across_runs() {
    let mk = || {
        vec![
            item_fn(
                "add",
                vec![param("a", "u64"), param("b", "u64")],
                vec![stmt(ret(binary(var("a"), Op::Add, var("b"))))],
                Some("u64"),
            ),
            main_return_sum(),
        ]
    };
    let first = pipeline(mk()).expect("pipeline failed");
    let second = pipeline(mk()).expect("pipeline failed");
    assert_eq!(first, second);
    assert_eq!(first.as_bytes(), second.as_bytes());
}

#[test]
fn load_imm_round_trips_the_largest_value() {
    // The exact value survives lowering and rendering at both text stages.
    let v = u64::MAX;
    let ir_line = bitbox::ir::Instruction::LoadImm(LoadImm { des: Reg(0), imm: Imm(v) }).to_text();
    assert_eq!(ir_line, "    load %0 18446744073709551615");
    let digits = ir_line.rsplit(' ').next().unwrap();
    assert_eq!(digits.parse::<u64>().unwrap(), v);

    let target_line = Instruction::MoveImm(X86Reg::Rbx, v).to_text();
    assert_eq!(target_line, "    mov       rbx,      18446744073709551615\n");
    let digits = target_line.trim_end().rsplit(' ').next().unwrap();
    assert_eq!(digits.parse::<u64>().unwrap(), v);
}

#[test]
fn decimal_rendering_matches_std() {
    for v in [0u64, 1, 9, 10, 99, 100, 12345, u64::MAX] {
        assert_eq!(u64_to_dec(v), v.to_string());
    }
}

#[test]
fn sub_chain_exhausts_the_register_file() {
    // Subtraction keeps its operands live, so a long chain runs the fixed
    // file dry and the back end names the function.
    let mut e = lit_int(1);
    for v in 2..10u64 {
        e = binary(e, Op::Sub, lit_int(v));
    }
    let item = item_fn("main", vec![], vec![stmt(ret(e))], None);
    let ir = code_gen((vec![item], SymbolTable::default())).expect("lowering failed");
    let errs = compile_ir_code(ir).unwrap_err();
    assert_eq!(errs, vec!["register exhausted in main".to_string()]);
}

#[test]
fn add_releases_operands_so_chains_fit() {
    // Addition releases both operands, so the same chain compiles fine.
    let mut e = lit_int(1);
    for v in 2..10u64 {
        e = binary(e, Op::Add, lit_int(v));
    }
    let item = item_fn("main", vec![], vec![stmt(ret(e))], None);
    let text = pipeline(vec![item]).expect("pipeline failed");
    assert!(text.contains("add"));
}

#[test]
fn params_copy_through_their_frame_slots() {
    let item = item_fn(
        "add",
        vec![param("a", "u64"), param("b", "u64")],
        vec![stmt(ret(binary(var("a"), Op::Add, var("b"))))],
        Some("u64"),
    );
    let ir = code_gen((vec![item], SymbolTable::default())).expect("lowering failed");
    let target = compile_ir_code(ir).expect("compiling failed");
    // store-then-load for each parameter slot, offsets 8 and 16
    assert!(target.contains(&Instruction::MoveMemReg(
        Mem::Param { ty: bitbox::ir::Type::U64, offset: 8 },
        X86Reg::Rdi
    )));
    assert!(target.contains(&Instruction::MoveRegMem(
        X86Reg::Rdi,
        Mem::Param { ty: bitbox::ir::Type::U64, offset: 8 }
    )));
    assert!(target.contains(&Instruction::MoveMemReg(
        Mem::Param { ty: bitbox::ir::Type::U64, offset: 16 },
        X86Reg::Rsi
    )));
    let text = instruction_to_string(target).expect("rendering failed");
    assert!(text.contains("qword [rbp-8]"));
    assert!(text.contains("qword [rbp-16]"));
}

#[test]
fn greater_than_materializes_a_boolean() {
    let item = item_fn(
        "main",
        vec![],
        vec![stmt(ret(binary(lit_int(3), Op::Grt, lit_int(2))))],
        None,
    );
    let text = pipeline(vec![item]).expect("pipeline failed");
    assert!(text.contains("    mov       r12,      rbx\n"));
    assert!(text.contains("    cmp       r12,      r11\n"));
    assert!(text.contains("    setg      al\n"));
    assert!(text.contains("    movzx     r12,      al\n"));
}

#[test]
fn call_result_lands_in_its_register() {
    // fn id(a: u64) -> u64 { return a; }  fn main() { return id(7); }
    let id_fn = item_fn(
        "id",
        vec![param("a", "u64")],
        vec![stmt(ret(var("a")))],
        Some("u64"),
    );
    let call_expr = Expr::Call(bitbox::ast::ExprCall {
        caller: Box::new(var("id")),
        args: vec![lit_int(7)],
        span: sp(),
    });
    let main_fn = item_fn("main", vec![], vec![stmt(ret(call_expr))], None);
    let text = pipeline(vec![id_fn, main_fn]).expect("pipeline failed");
    assert!(text.contains("    call      id__\n"));
    // the value comes back out of the return slot into the call's register
    assert!(text.contains("    mov       r11,      rax\n"));
}

#[test]
fn x86_registers_render_by_name() {
    assert_eq!(X86Reg::Rax.to_text(), "rax");
    assert_eq!(X86Reg::R15.to_text(), "r15");
}
