//! The semantic analysis: the symbol table built from a small program, and
//! the table operations themselves.

use bitbox::ast::{
    Expr, ExprBinary, ExprBlock, ExprCall, ExprLit, ExprReturn, ExprVar, Ident, Item, ItemFn, Lit,
    LitInt, Op, Param, Span, Statement, Type as AstType,
};
use bitbox::semantic_analysis::{
    Scope, SemanticAnalysisVisitor, Symbol, SymbolTable, SymbolTableBuilder, Type, Variable,
};

fn sp() -> Span {
    Span { start: 0, end: 0 }
}

fn ident(name: &str) -> Ident {
    Ident { value: name.to_string(), span: sp() }
}

fn lit_int(v: u64) -> Expr {
    Expr::Lit(ExprLit { lit: Lit::Int(LitInt { value: v, span: sp() }) })
}

fn var(name: &str) -> Expr {
    Expr::Var(ExprVar { name: ident(name) })
}

fn stmt(e: Expr) -> Statement {
    Statement { stmt: e, span: sp() }
}

fn param(name: &str, ty: &str) -> Param {
    Param { name: ident(name), kind: AstType(ident(ty)), span: sp() }
}

/// The program
///     fn add(a: u64, b: u64) -> u64 { return a + b; }
///     fn main() { return add(1,2); }
/// as the front end would hand it over.
fn add_main_program() -> Vec<Item> {
    let sum = Expr::Binary(ExprBinary {
        left: Box::new(var("a")),
        right: Box::new(var("b")),
        op: Op::Add,
    });
    let add_fn = ItemFn {
        name: ident("add"),
        params: vec![param("a", "u64"), param("b", "u64")],
        block: ExprBlock {
            stmts: vec![stmt(Expr::Return(ExprReturn { expr: Box::new(sum) }))],
        },
        ret_type: Some(AstType(ident("u64"))),
        span: sp(),
    };
    let call = Expr::Call(ExprCall {
        caller: Box::new(var("add")),
        args: vec![lit_int(1), lit_int(2)],
        span: sp(),
    });
    let main_fn = ItemFn {
        name: ident("main"),
        params: vec![],
        block: ExprBlock {
            stmts: vec![stmt(Expr::Return(ExprReturn { expr: Box::new(call) }))],
        },
        ret_type: None,
        span: sp(),
    };
    vec![Item::Fn(add_fn), Item::Fn(main_fn)]
}

#[test]
fn symbol_table_test() {
    let ast = add_main_program();
    let mut builder = SymbolTableBuilder::default();
    builder.visit(&ast);
    let symbol_table = builder.build();
    let Symbol::Variable(var_param_a) = symbol_table.get("a").unwrap() else {
        unreachable!()
    };
    assert_eq!(var_param_a.scope, Scope::Param);
    assert_eq!(var_param_a.name, "a");
    assert_eq!(var_param_a.ty, Type::U64);
}

#[test]
fn functions_record_their_signatures() {
    let ast = add_main_program();
    let mut builder = SymbolTableBuilder::default();
    builder.visit(&ast);
    let table = builder.build();
    let Symbol::Function(add_sym) = table.get("add").unwrap() else {
        unreachable!()
    };
    assert_eq!(add_sym.name, "add");
    assert_eq!(add_sym.ret, Type::U64);
    assert_eq!(add_sym.params.len(), 2);
    assert_eq!(add_sym.params[1].name, "b");
    let Symbol::Function(main_sym) = table.get("main").unwrap() else {
        unreachable!()
    };
    assert_eq!(main_sym.ret, Type::Unit);
    assert_eq!(main_sym.params.len(), 0);
}

#[test]
fn lookups_miss_unknown_names() {
    let table = SymbolTable::default();
    assert!(table.get("missing").is_none());
}

#[test]
fn later_symbols_shadow_earlier_ones() {
    let mut table = SymbolTable::default();
    table.insert(Symbol::Variable(Variable {
        scope: Scope::Global,
        name: "x".to_string(),
        ty: Type::Unit,
        span: sp(),
    }));
    table.insert(Symbol::Variable(Variable {
        scope: Scope::Block,
        name: "x".to_string(),
        ty: Type::U64,
        span: sp(),
    }));
    let Symbol::Variable(v) = table.get("x").unwrap() else {
        unreachable!()
    };
    assert_eq!(v.scope, Scope::Block);
    assert_eq!(v.ty, Type::U64);
    assert_eq!(Symbol::Variable(v.clone()).name(), "x");
}

#[test]
fn sizes_follow_the_type() {
    assert_eq!(Type::Unit._size(), 0);
    assert_eq!(Type::U64._size(), 8);
}

#[test]
fn builder_scope_defaults_to_global() {
    let builder = SymbolTableBuilder::default();
    assert_eq!(builder.current_scope(), Scope::Global);
}
