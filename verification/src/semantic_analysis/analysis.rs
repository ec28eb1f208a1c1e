//! The symbol-table builder: a visitor over the syntax tree that records
//! every function with its signature and every parameter, and checks the
//! expressions it walks against the table built so far.

use vstd::prelude::*;
use crate::ast::{
    Expr, ExprBinary, ExprBlock, ExprCall, ExprLit, ExprReturn, ExprVar, Item, ItemFn, Lit, Param,
    Statement,
};
use super::{
    ast_ty, ast_ty_ok, resolve_ast_ty, Function, FunctionV, Scope, Symbol, SymbolTable, SymbolV,
    Type, Variable, VariableV, vars_view,
};

verus! {

broadcast use vstd::std_specs::vec::group_vec_axioms;

/// The type an expression has under the table: literals are 64-bit, a
/// binary expression takes its left operand's type, calls their callee's
/// return type, variables their declared type, blocks the unit type.
pub open spec fn expr_ty(e: Expr, tbl: Map<Seq<char>, SymbolV>) -> Type
    decreases e,
{
    match e {
        Expr::Lit(_) => Type::U64,
        Expr::Binary(b) => expr_ty(*b.left, tbl),
        Expr::Call(c) => match *c.caller {
            Expr::Var(v) => if tbl.contains_key(v.name.value@) {
                match tbl[v.name.value@] {
                    SymbolV::Function(f) => f.ret,
                    SymbolV::Variable(_) => Type::Unit,
                }
            } else {
                Type::Unit
            },
            _ => Type::Unit,
        },
        Expr::Var(v) => if tbl.contains_key(v.name.value@) {
            match tbl[v.name.value@] {
                SymbolV::Variable(x) => x.ty,
                SymbolV::Function(_) => Type::Unit,
            }
        } else {
            Type::Unit
        },
        Expr::Return(r) => expr_ty(*r.expr, tbl),
        _ => Type::Unit,
    }
}

/// Whether the expression passes the analysis against the table: integer
/// literals only, callees that name known functions with matching arity and
/// argument types, variables that name known variables.
pub open spec fn expr_checks(e: Expr, tbl: Map<Seq<char>, SymbolV>) -> bool
    decreases e,
{
    match e {
        Expr::Lit(l) => l.lit is Int,
        Expr::Binary(b) => expr_checks(*b.left, tbl),
        Expr::Call(c) => match *c.caller {
            Expr::Var(v) => tbl.contains_key(v.name.value@) && (match tbl[v.name.value@] {
                SymbolV::Function(f) => f.params.len() == c.args.len() && args_check(
                    c.args,
                    c.args.len() as int,
                    f.params,
                    tbl,
                ),
                SymbolV::Variable(_) => false,
            }),
            _ => false,
        },
        Expr::Var(v) => tbl.contains_key(v.name.value@) && tbl[v.name.value@] is Variable,
        Expr::If(_) => false,
        Expr::Block(b) => stmts_check(b.stmts, b.stmts.len() as int, tbl),
        Expr::Return(r) => expr_checks(*r.expr, tbl),
        Expr::Let(_) => false,
    }
}

/// Whether the first `n` arguments check and have the parameters' types.
pub open spec fn args_check(
    args: Vec<Expr>,
    n: int,
    params: Seq<VariableV>,
    tbl: Map<Seq<char>, SymbolV>,
) -> bool
    decreases args, n,
{
    if 1 <= n <= args.len() {
        args_check(args, n - 1, params, tbl) && expr_checks(args[n - 1], tbl) && (n - 1
            < params.len() ==> expr_ty(args[n - 1], tbl) == params[n - 1].ty)
    } else {
        true
    }
}

/// Whether the first `n` statements check.
pub open spec fn stmts_check(v: Vec<Statement>, n: int, tbl: Map<Seq<char>, SymbolV>) -> bool
    decreases v, n,
{
    if 1 <= n <= v.len() {
        stmts_check(v, n - 1, tbl) && expr_checks(v[n - 1].stmt, tbl)
    } else {
        true
    }
}

/// A checked prefix checks at each member.
pub proof fn lemma_args_check_index(
    args: Vec<Expr>,
    n: int,
    params: Seq<VariableV>,
    tbl: Map<Seq<char>, SymbolV>,
    j: int,
)
    requires
        args_check(args, n, params, tbl),
        0 <= j < n <= args.len(),
    ensures
        expr_checks(args[j], tbl),
    decreases n,
{
    if j < n - 1 {
        lemma_args_check_index(args, n - 1, params, tbl, j);
    }
}

/// A checked statement prefix checks at each member.
pub proof fn lemma_stmts_check_index(
    v: Vec<Statement>,
    n: int,
    tbl: Map<Seq<char>, SymbolV>,
    j: int,
)
    requires
        stmts_check(v, n, tbl),
        0 <= j < n <= v.len(),
    ensures
        expr_checks(v[j].stmt, tbl),
    decreases n,
{
    if j < n - 1 {
        lemma_stmts_check_index(v, n - 1, tbl, j);
    }
}

/// The views of the first `n` parameters as parameter-scoped variables.
pub open spec fn param_vars(params: Vec<Param>, n: int) -> Seq<VariableV>
    decreases n,
{
    if 1 <= n <= params.len() {
        param_vars(params, n - 1).push(
            VariableV {
                scope: Scope::Param,
                name: params[n - 1].name.value@,
                ty: ast_ty(params[n - 1].kind),
                span: params[n - 1].span,
            },
        )
    } else {
        Seq::empty()
    }
}

/// The table after filing the first `n` parameters.
pub open spec fn params_tbl(tbl: Map<Seq<char>, SymbolV>, params: Vec<Param>, n: int) -> Map<
    Seq<char>,
    SymbolV,
>
    decreases n,
{
    if 1 <= n <= params.len() {
        params_tbl(tbl, params, n - 1).insert(
            params[n - 1].name.value@,
            SymbolV::Variable(
                VariableV {
                    scope: Scope::Param,
                    name: params[n - 1].name.value@,
                    ty: ast_ty(params[n - 1].kind),
                    span: params[n - 1].span,
                },
            ),
        )
    } else {
        tbl
    }
}

/// Whether every parameter annotation of the item is known.
pub open spec fn item_tys_ok(f: ItemFn) -> bool {
    &&& forall|k: int| 0 <= k < f.params.len() ==> ast_ty_ok((#[trigger] f.params[k]).kind)
    &&& match f.ret_type {
        Some(t) => ast_ty_ok(t),
        None => true,
    }
}

/// The function symbol an item declares.
pub open spec fn func_sym(f: ItemFn) -> FunctionV {
    FunctionV {
        scope: Scope::Global,
        name: f.name.value@,
        params: param_vars(f.params, f.params.len() as int),
        ret: match f.ret_type {
            Some(t) => ast_ty(t),
            None => Type::Unit,
        },
        span: f.span,
    }
}

/// The table after analysing one item: its function symbol filed first,
/// then its parameters.
pub open spec fn item_tbl(tbl: Map<Seq<char>, SymbolV>, f: ItemFn) -> Map<Seq<char>, SymbolV> {
    params_tbl(
        tbl.insert(f.name.value@, SymbolV::Function(func_sym(f))),
        f.params,
        f.params.len() as int,
    )
}

/// Whether the item's body checks against the table as it stands after the
/// item's own declarations are filed.
pub open spec fn item_checks(tbl: Map<Seq<char>, SymbolV>, f: ItemFn) -> bool {
    &&& item_tys_ok(f)
    &&& stmts_check(f.block.stmts, f.block.stmts.len() as int, item_tbl(tbl, f))
}

/// The table after analysing the first `n` items in order.
pub open spec fn items_tbl(tbl: Map<Seq<char>, SymbolV>, items: Vec<Item>, n: int) -> Map<
    Seq<char>,
    SymbolV,
>
    decreases n,
{
    if 1 <= n <= items.len() {
        match items[n - 1] {
            Item::Fn(f) => item_tbl(items_tbl(tbl, items, n - 1), f),
        }
    } else {
        tbl
    }
}

/// Whether the first `n` items check, each against the table its
/// predecessors built.
pub open spec fn items_check(tbl: Map<Seq<char>, SymbolV>, items: Vec<Item>, n: int) -> bool
    decreases n,
{
    if 1 <= n <= items.len() {
        items_check(tbl, items, n - 1) && match items[n - 1] {
            Item::Fn(f) => item_checks(items_tbl(tbl, items, n - 1), f),
        }
    } else {
        true
    }
}

/// The analysis pass over the syntax tree: every method checks or records
/// what it visits against the symbol table built so far.
pub trait SemanticAnalysisVisitor: Sized {
    /// The symbol table as the analysis sees it.
    spec fn sym_view(&self) -> Map<Seq<char>, SymbolV>;

    /// The type of a literal; only integer literals are analysed.
    fn visit_lit(&mut self, l: &Lit) -> (t: Type)
        requires
            l is Int,
        ensures
            final(self).sym_view() == old(self).sym_view(),
            t == Type::U64,
    ;

    /// The type of a binary expression: its left operand's.
    fn visit_expr_binary(&mut self, b: &ExprBinary) -> (t: Type)
        requires
            expr_checks(Expr::Binary(ExprBinary { left: b.left, right: b.right, op: b.op }), old(self).sym_view()),
        ensures
            final(self).sym_view() == old(self).sym_view(),
            t == expr_ty(*b.left, old(self).sym_view()),
    ;

    /// The type of a call: the callee's declared return type.
    fn visit_expr_call(&mut self, call: &ExprCall) -> (t: Type)
        requires
            expr_checks(Expr::Call(ExprCall { caller: call.caller, args: call.args, span: call.span }), old(self).sym_view()),
        ensures
            final(self).sym_view() == old(self).sym_view(),
            t == expr_ty(Expr::Call(ExprCall { caller: call.caller, args: call.args, span: call.span }), old(self).sym_view()),
    ;

    /// The type of a variable reference: its declared type.
    fn visit_expr_var(&mut self, var: &ExprVar) -> (t: Type)
        requires
            old(self).sym_view().contains_key(var.name.value@),
            old(self).sym_view()[var.name.value@] is Variable,
        ensures
            final(self).sym_view() == old(self).sym_view(),
            t == expr_ty(Expr::Var(ExprVar { name: var.name }), old(self).sym_view()),
    ;

    /// The type of a return expression: its inner expression's.
    fn visit_expr_return(&mut self, var: &ExprReturn) -> (t: Type)
        requires
            expr_checks(Expr::Return(ExprReturn { expr: var.expr }), old(self).sym_view()),
        ensures
            final(self).sym_view() == old(self).sym_view(),
            t == expr_ty(*var.expr, old(self).sym_view()),
    ;

    /// The type of any checked expression.
    fn visit_expr(&mut self, e: &Expr) -> (t: Type)
        requires
            expr_checks(*e, old(self).sym_view()),
        ensures
            final(self).sym_view() == old(self).sym_view(),
            t == expr_ty(*e, old(self).sym_view()),
    ;

    /// Analyses one statement.
    fn visit_stmt(&mut self, s: &Statement)
        requires
            expr_checks(s.stmt, old(self).sym_view()),
        ensures
            final(self).sym_view() == old(self).sym_view(),
    ;

    /// Analyses a block: its statements in order, in a block scope.
    fn visit_block(&mut self, b: &ExprBlock)
        requires
            stmts_check(b.stmts, b.stmts.len() as int, old(self).sym_view()),
        ensures
            final(self).sym_view() == old(self).sym_view(),
    ;

    /// Files every parameter as a parameter-scoped variable.
    fn visit_params(&mut self, params: &Vec<Param>)
        requires
            forall|k: int| 0 <= k < params.len() ==> ast_ty_ok((#[trigger] params[k]).kind),
        ensures
            final(self).sym_view() == params_tbl(
                old(self).sym_view(),
                *params,
                params@.len() as int,
            ),
    ;

    /// Files the item's function symbol and parameters, then analyses its
    /// body against the extended table.
    fn visit_item_fn(&mut self, f: &ItemFn)
        requires
            item_checks(old(self).sym_view(), *f),
        ensures
            final(self).sym_view() == item_tbl(old(self).sym_view(), *f),
    ;

    /// Analyses every item in source order.
    fn visit(&mut self, items: &Vec<Item>)
        requires
            items_check(old(self).sym_view(), *items, items@.len() as int),
        ensures
            final(self).sym_view() == items_tbl(old(self).sym_view(), *items, items@.len() as int),
    ;
}

/// Builds the symbol table by visiting the whole tree.
pub struct SymbolTableBuilder {
    symbol_table: SymbolTable,
    scope: Vec<Scope>,
}

impl Default for SymbolTableBuilder {
    fn default() -> (r: Self)
        ensures
            r.sym_view() == Map::<Seq<char>, SymbolV>::empty(),
    {
        SymbolTableBuilder { symbol_table: SymbolTable::default(), scope: Vec::new() }
    }
}

impl SymbolTableBuilder {
    /// The scope stack as the analysis sees it.
    pub closed spec fn scope_view(&self) -> Seq<Scope> {
        self.scope@
    }

    /// Hands the finished table over.
    pub fn build(self) -> (r: SymbolTable)
        ensures
            r@ == self.sym_view(),
    {
        self.symbol_table
    }

    /// The scope the analysis currently stands in.
    pub fn current_scope(&self) -> (r: Scope)
        ensures
            r == (if self.scope_view().len() > 0 {
                self.scope_view().last()
            } else {
                Scope::Global
            }),
    {
        if self.scope.len() > 0 {
            self.scope[self.scope.len() - 1]
        } else {
            Scope::Global
        }
    }
}

impl SemanticAnalysisVisitor for SymbolTableBuilder {
    closed spec fn sym_view(&self) -> Map<Seq<char>, SymbolV> {
        self.symbol_table@
    }

    fn visit_lit(&mut self, l: &Lit) -> (t: Type) {
        match l {
            Lit::Int(_) => Type::U64,
            _ => unreached(),
        }
    }

    fn visit_expr_binary(&mut self, b: &ExprBinary) -> (t: Type)
        decreases *b,
    {
        let left = self.visit_expr(&b.left);
        let right = self.visit_expr(&b.left);
        left
    }

    fn visit_expr_call(&mut self, call: &ExprCall) -> (t: Type)
        decreases *call,
    {
        let name = match &*call.caller {
            Expr::Var(v) => &v.name,
            _ => unreached(),
        };
        let ret: Type = match self.symbol_table.get(name.value.as_str()) {
            Some(Symbol::Function(function)) => function.ret,
            _ => unreached(),
        };
        let n = call.args.len();
        let mut i: usize = 0;
        while i < n
            invariant
                i <= n,
                n == call.args.len(),
                expr_checks(
                    Expr::Call(ExprCall { caller: call.caller, args: call.args, span: call.span }),
                    old(self).sym_view(),
                ),
                self.sym_view() == old(self).sym_view(),
            decreases n - i,
        {
            proof {
                let tbl = old(self).sym_view();
                match &*call.caller {
                    Expr::Var(v) => {
                        match tbl[v.name.value@] {
                            SymbolV::Function(fv) => {
                                lemma_args_check_index(call.args, n as int, fv.params, tbl, i as int);
                            },
                            SymbolV::Variable(_) => {},
                        }
                    },
                    _ => {},
                }
            }
            let _ = self.visit_expr(&call.args[i]);
            i = i + 1;
        }
        ret
    }

    fn visit_expr_var(&mut self, var: &ExprVar) -> (t: Type) {
        match self.symbol_table.get(var.name.value.as_str()) {
            Some(Symbol::Variable(v)) => v.ty,
            _ => unreached(),
        }
    }

    fn visit_expr_return(&mut self, var: &ExprReturn) -> (t: Type)
        decreases *var,
    {
        self.visit_expr(&var.expr)
    }

    fn visit_expr(&mut self, e: &Expr) -> (t: Type)
        decreases *e,
    {
        match e {
            Expr::Lit(ExprLit { lit }) => self.visit_lit(lit),
            Expr::Binary(b) => self.visit_expr_binary(b),
            Expr::Call(c) => self.visit_expr_call(c),
            Expr::Var(v) => self.visit_expr_var(v),
            Expr::Block(b) => {
                self.visit_block(b);
                Type::Unit
            },
            Expr::Return(r) => self.visit_expr_return(r),
            _ => unreached(),
        }
    }

    fn visit_stmt(&mut self, s: &Statement)
        decreases *s,
    {
        let _ = self.visit_expr(&s.stmt);
    }

    fn visit_block(&mut self, b: &ExprBlock)
        decreases *b,
    {
        self.scope.push(Scope::Block);
        let n = b.stmts.len();
        let mut i: usize = 0;
        while i < n
            invariant
                i <= n,
                n == b.stmts.len(),
                stmts_check(b.stmts, n as int, old(self).sym_view()),
                self.sym_view() == old(self).sym_view(),
            decreases n - i,
        {
            proof {
                lemma_stmts_check_index(b.stmts, n as int, old(self).sym_view(), i as int);
            }
            self.visit_stmt(&b.stmts[i]);
            i = i + 1;
        }
        self.scope.pop();
    }

    fn visit_params(&mut self, params: &Vec<Param>) {
        self.scope.push(Scope::Param);
        let n = params.len();
        let mut i: usize = 0;
        while i < n
            invariant
                i <= n,
                n == params.len(),
                forall|k: int| 0 <= k < n ==> ast_ty_ok((#[trigger] params[k]).kind),
                self.sym_view() == params_tbl(old(self).sym_view(), *params, i as int),
            decreases n - i,
        {
            let symbol = Variable {
                name: params[i].name.value(),
                scope: Scope::Param,
                ty: resolve_ast_ty(&params[i].kind),
                span: params[i].span,
            };
            self.symbol_table.insert(Symbol::Variable(symbol));
            i = i + 1;
        }
        self.scope.pop();
    }

    fn visit_item_fn(&mut self, f: &ItemFn) {
        let mut vars: Vec<Variable> = Vec::new();
        let np = f.params.len();
        let mut i: usize = 0;
        while i < np
            invariant
                i <= np,
                np == f.params.len(),
                item_checks(old(self).sym_view(), *f),
                *self == *old(self),
                vars@.len() == i,
                vars_view(vars@) =~= param_vars(f.params, i as int),
            decreases np - i,
        {
            vars.push(
                Variable {
                    name: f.params[i].name.value(),
                    scope: Scope::Param,
                    ty: resolve_ast_ty(&f.params[i].kind),
                    span: f.params[i].span,
                },
            );
            i = i + 1;
            proof {
                assert(vars_view(vars@) =~= param_vars(f.params, i as int));
            }
        }
        let ret: Type = match &f.ret_type {
            Some(t) => resolve_ast_ty(t),
            None => Type::Unit,
        };
        let symbol = Function {
            scope: Scope::Global,
            name: f.name.value(),
            params: vars,
            ret,
            span: f.span,
        };
        self.symbol_table.insert(Symbol::Function(symbol));
        self.visit_params(&f.params);
        self.visit_block(&f.block);
    }

    fn visit(&mut self, items: &Vec<Item>) {
        let n = items.len();
        let mut i: usize = 0;
        while i < n
            invariant
                i <= n,
                n == items.len(),
                items_check(old(self).sym_view(), *items, n as int),
                self.sym_view() == items_tbl(old(self).sym_view(), *items, i as int),
            decreases n - i,
        {
            proof {
                lemma_items_check_index(old(self).sym_view(), *items, n as int, i as int);
            }
            match &items[i] {
                Item::Fn(f) => self.visit_item_fn(f),
            }
            i = i + 1;
        }
    }
}

/// A checked item prefix checks at each item, against its predecessors'
/// table.
proof fn lemma_items_check_index(tbl: Map<Seq<char>, SymbolV>, items: Vec<Item>, n: int, j: int)
    requires
        items_check(tbl, items, n),
        0 <= j < n <= items.len(),
    ensures
        match items[j] {
            Item::Fn(f) => item_checks(items_tbl(tbl, items, j), f),
        },
    decreases n,
{
    if j < n - 1 {
        lemma_items_check_index(tbl, items, n - 1, j);
    }
}

} // verus!
