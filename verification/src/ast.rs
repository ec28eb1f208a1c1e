//! The abstract syntax tree handed in by the front end: function items with
//! typed parameters and bodies built from literal, variable, binary, call,
//! if, let, return and block expressions.
//!
//! The lowering passes consume this tree; the well-formedness predicates and
//! the node measure here bound what those passes accept and allocate.

use vstd::prelude::*;

verus! {

broadcast use vstd::std_specs::vec::group_vec_axioms;

/// A source location, carried through for diagnostics.
#[derive(Debug, Clone, Copy, PartialEq, Eq, Hash, Structural)]
pub struct Span {
    pub start: usize,
    pub end: usize,
}

impl Default for Span {
    fn default() -> (r: Self)
        ensures
            r.start == 0 && r.end == 0,
    {
        Span { start: 0, end: 0 }
    }
}

/// A name appearing in the source.
#[derive(Debug, Clone)]
pub struct Ident {
    pub value: String,
    pub span: Span,
}

impl Ident {
    /// The name as text.
    pub fn value(&self) -> (r: String)
        ensures
            r@ == self.value@,
    {
        self.value.clone()
    }
}

/// A type annotation as written in the source.
#[derive(Debug, Clone)]
pub struct Type(pub Ident);

/// A binary operator.
#[derive(Debug, Clone, Copy, PartialEq, Eq, Structural)]
pub enum Op {
    Add,
    Sub,
    Mul,
    Div,
    Grt,
    Les,
    Geq,
    Leq,
    EqualEqual,
    Neq,
}

/// An integer literal, already parsed to its value by the front end.
#[derive(Debug, Clone)]
pub struct LitInt {
    pub value: u64,
    pub span: Span,
}

/// A boolean literal.
#[derive(Debug, Clone)]
pub struct LitBool {
    pub value: bool,
    pub span: Span,
}

/// A string literal.
#[derive(Debug, Clone)]
pub struct LitStr {
    pub value: String,
    pub span: Span,
}

/// A character literal.
#[derive(Debug, Clone)]
pub struct LitChar {
    pub value: char,
    pub span: Span,
}

/// A literal of any kind.
#[derive(Debug, Clone)]
pub enum Lit {
    Int(LitInt),
    Bool(LitBool),
    Str(LitStr),
    Char(LitChar),
}

/// A literal expression.
#[derive(Debug, Clone)]
pub struct ExprLit {
    pub lit: Lit,
}

/// A binary expression.
#[derive(Debug)]
pub struct ExprBinary {
    pub left: Box<Expr>,
    pub right: Box<Expr>,
    pub op: Op,
}

/// A call expression.
#[derive(Debug)]
pub struct ExprCall {
    pub caller: Box<Expr>,
    pub args: Vec<Expr>,
    pub span: Span,
}

/// A variable reference.
#[derive(Debug, Clone)]
pub struct ExprVar {
    pub name: Ident,
}

/// An if expression with an optional else branch.
#[derive(Debug)]
pub struct ExprIf {
    pub cond: Box<Expr>,
    pub then_branch: ExprBlock,
    pub else_branch: Option<Box<Expr>>,
}

/// A braced block of statements.
#[derive(Debug)]
pub struct ExprBlock {
    pub stmts: Vec<Statement>,
}

/// A return expression.
#[derive(Debug)]
pub struct ExprReturn {
    pub expr: Box<Expr>,
}

/// A let binding.
#[derive(Debug)]
pub struct ExprLet {
    pub name: Ident,
    pub expr: Box<Expr>,
}

/// Any expression.
#[derive(Debug)]
pub enum Expr {
    Lit(ExprLit),
    Binary(ExprBinary),
    Call(ExprCall),
    Var(ExprVar),
    If(ExprIf),
    Block(ExprBlock),
    Return(ExprReturn),
    Let(ExprLet),
}

/// A statement: an expression with its source span.
#[derive(Debug)]
pub struct Statement {
    pub stmt: Expr,
    pub span: Span,
}

/// A function parameter.
#[derive(Debug, Clone)]
pub struct Param {
    pub name: Ident,
    pub kind: Type,
    pub span: Span,
}

/// A function item.
#[derive(Debug)]
pub struct ItemFn {
    pub name: Ident,
    pub params: Vec<Param>,
    pub block: ExprBlock,
    pub ret_type: Option<Type>,
    pub span: Span,
}

/// A top-level item.
#[derive(Debug)]
pub enum Item {
    Fn(ItemFn),
}

impl Expr {
    /// Whether this expression is a call; a returned call hands its value
    /// over by the calling convention rather than through a register.
    pub fn is_call(&self) -> (r: bool)
        ensures
            r == (self is Call),
    {
        match self {
            Expr::Call(_) => true,
            _ => false,
        }
    }
}

/// Whether the operator is one the lowering supports.
pub open spec fn op_supported(op: Op) -> bool {
    op == Op::Add || op == Op::Sub || op == Op::Mul || op == Op::Div || op == Op::Grt
}

/// Whether the expression stays within the shapes the lowering supports:
/// integer and boolean literals only, and only the five supported operators.
pub open spec fn expr_wf(e: Expr) -> bool
    decreases e,
{
    match e {
        Expr::Lit(l) => l.lit is Int || l.lit is Bool,
        Expr::Binary(b) => op_supported(b.op) && expr_wf(*b.left) && expr_wf(*b.right),
        Expr::Call(c) => exprs_wf(c.args, c.args.len() as int),
        Expr::Var(_) => true,
        Expr::If(i) => expr_wf(*i.cond) && block_wf(i.then_branch) && (match i.else_branch {
            Some(el) => expr_wf(*el),
            None => true,
        }),
        Expr::Block(b) => block_wf(b),
        Expr::Return(r) => expr_wf(*r.expr),
        Expr::Let(l) => expr_wf(*l.expr),
    }
}

/// Whether the first `n` expressions of `v` are all well formed.
pub open spec fn exprs_wf(v: Vec<Expr>, n: int) -> bool
    decreases v, n,
{
    if 1 <= n <= v.len() {
        exprs_wf(v, n - 1) && expr_wf(v[n - 1])
    } else {
        true
    }
}

/// Whether every statement of the block is well formed.
pub open spec fn block_wf(b: ExprBlock) -> bool
    decreases b,
{
    stmts_wf(b.stmts, b.stmts.len() as int)
}

/// Whether the first `n` statements of `v` are all well formed.
pub open spec fn stmts_wf(v: Vec<Statement>, n: int) -> bool
    decreases v, n,
{
    if 1 <= n <= v.len() {
        stmts_wf(v, n - 1) && expr_wf(v[n - 1].stmt)
    } else {
        true
    }
}

/// The number of expression nodes, an upper bound on the registers and
/// labels one lowering of `e` can allocate.
pub open spec fn expr_measure(e: Expr) -> nat
    decreases e,
{
    match e {
        Expr::Lit(_) => 1,
        Expr::Binary(b) => 1 + expr_measure(*b.left) + expr_measure(*b.right),
        Expr::Call(c) => 1 + exprs_measure(c.args, c.args.len() as int),
        Expr::Var(_) => 1,
        Expr::If(i) => 1 + expr_measure(*i.cond) + block_measure(i.then_branch) + (
        match i.else_branch {
            Some(el) => expr_measure(*el),
            None => 0,
        }),
        Expr::Block(b) => 1 + block_measure(b),
        Expr::Return(r) => 1 + expr_measure(*r.expr),
        Expr::Let(l) => 1 + expr_measure(*l.expr),
    }
}

/// The node count of the first `n` expressions of `v`.
pub open spec fn exprs_measure(v: Vec<Expr>, n: int) -> nat
    decreases v, n,
{
    if 1 <= n <= v.len() {
        exprs_measure(v, n - 1) + expr_measure(v[n - 1])
    } else {
        0
    }
}

/// The node count of the block's statements.
pub open spec fn block_measure(b: ExprBlock) -> nat
    decreases b,
{
    stmts_measure(b.stmts, b.stmts.len() as int)
}

/// The node count of the first `n` statements of `v`.
pub open spec fn stmts_measure(v: Vec<Statement>, n: int) -> nat
    decreases v, n,
{
    if 1 <= n <= v.len() {
        stmts_measure(v, n - 1) + expr_measure(v[n - 1].stmt)
    } else {
        0
    }
}

/// Well-formedness of a prefix extends to each of its members.
pub proof fn lemma_exprs_wf_index(v: Vec<Expr>, n: int, j: int)
    requires
        exprs_wf(v, n),
        0 <= j < n <= v.len(),
    ensures
        expr_wf(v[j]),
    decreases n,
{
    if j < n - 1 {
        lemma_exprs_wf_index(v, n - 1, j);
    }
}

/// Well-formedness of a statement prefix extends to each of its members.
pub proof fn lemma_stmts_wf_index(v: Vec<Statement>, n: int, j: int)
    requires
        stmts_wf(v, n),
        0 <= j < n <= v.len(),
    ensures
        expr_wf(v[j].stmt),
    decreases n,
{
    if j < n - 1 {
        lemma_stmts_wf_index(v, n - 1, j);
    }
}

/// The measure of a shorter prefix never exceeds that of a longer one.
pub proof fn lemma_exprs_measure_mono(v: Vec<Expr>, j: int, n: int)
    requires
        0 <= j <= n <= v.len(),
    ensures
        exprs_measure(v, j) <= exprs_measure(v, n),
    decreases n,
{
    if j < n {
        lemma_exprs_measure_mono(v, j, n - 1);
    }
}

/// The measure of a shorter statement prefix never exceeds a longer one's.
pub proof fn lemma_stmts_measure_mono(v: Vec<Statement>, j: int, n: int)
    requires
        0 <= j <= n <= v.len(),
    ensures
        stmts_measure(v, j) <= stmts_measure(v, n),
    decreases n,
{
    if j < n {
        lemma_stmts_measure_mono(v, j, n - 1);
    }
}

/// The node count of a function item: its parameters and its body.
pub open spec fn item_fn_measure(f: ItemFn) -> nat {
    f.params.len() as nat + block_measure(f.block)
}

/// Whether the body of the function item is well formed for lowering.
pub open spec fn item_fn_wf(f: ItemFn) -> bool {
    block_wf(f.block)
}

} // verus!
