//! Semantic analysis: builds a table of the program's symbols — functions,
//! parameters and variables with their types and scopes — by walking the
//! syntax tree.

mod analysis;

pub use analysis::SemanticAnalysisVisitor;
pub use analysis::SymbolTableBuilder;

use vstd::prelude::*;
use vstd::string::StringExecFns;
use crate::ast::Span;
use crate::str_map::StrMap;

verus! {

/// The type of a value as the analysis sees it.
#[derive(Debug, Clone, Copy, PartialEq, Eq, Structural)]
pub enum Type {
    Unit,
    U64,
}

impl Default for Type {
    fn default() -> (r: Self)
        ensures
            r == Type::Unit,
    {
        Type::Unit
    }
}

impl Type {
    /// The size of a value of this type in bytes.
    pub fn _size(&self) -> (r: usize)
        ensures
            r == (match *self {
                Type::Unit => 0usize,
                Type::U64 => 8usize,
            }),
    {
        match self {
            Type::Unit => 0,
            Type::U64 => 8,
        }
    }
}

/// The semantic type named by a type annotation; `()` is the unit type and
/// everything else supported is 64-bit.
pub open spec fn ast_ty(t: crate::ast::Type) -> Type {
    if t.0.value@ == "()"@ {
        Type::Unit
    } else {
        Type::U64
    }
}

/// Whether the annotation names a type the analysis knows.
pub open spec fn ast_ty_ok(t: crate::ast::Type) -> bool {
    t.0.value@ == "()"@ || t.0.value@ == "u64"@
}

/// Resolves a type annotation.
pub fn resolve_ast_ty(t: &crate::ast::Type) -> (r: Type)
    requires
        ast_ty_ok(*t),
    ensures
        r == ast_ty(*t),
{
    let unit_name = String::from_str("()");
    if t.0.value == unit_name {
        Type::Unit
    } else {
        Type::U64
    }
}

/// Where a symbol was declared.
#[derive(Debug, Clone, Copy, PartialEq, Eq, Structural)]
pub enum Scope {
    Global,
    Block,
    Param,
}

impl Default for Scope {
    fn default() -> (r: Self)
        ensures
            r == Scope::Global,
    {
        Scope::Global
    }
}

/// A declared variable or parameter.
#[derive(Debug, Clone)]
pub struct Variable {
    pub scope: Scope,
    pub name: String,
    pub ty: Type,
    pub span: Span,
}

/// A declared function with its parameters and return type.
#[derive(Debug, Clone)]
pub struct Function {
    pub scope: Scope,
    pub name: String,
    pub params: Vec<Variable>,
    pub ret: Type,
    pub span: Span,
}

/// A symbol of either kind.
#[derive(Debug, Clone)]
pub enum Symbol {
    Variable(Variable),
    Function(Function),
}

/// The mathematical view of a variable.
#[verifier::ext_equal]
pub struct VariableV {
    pub scope: Scope,
    pub name: Seq<char>,
    pub ty: Type,
    pub span: Span,
}

/// The mathematical view of a function symbol.
#[verifier::ext_equal]
pub struct FunctionV {
    pub scope: Scope,
    pub name: Seq<char>,
    pub params: Seq<VariableV>,
    pub ret: Type,
    pub span: Span,
}

/// The mathematical view of a symbol.
#[verifier::ext_equal]
pub enum SymbolV {
    Variable(VariableV),
    Function(FunctionV),
}

impl View for Variable {
    type V = VariableV;

    open spec fn view(&self) -> VariableV {
        VariableV { scope: self.scope, name: self.name@, ty: self.ty, span: self.span }
    }
}

/// The views of a list of variables.
pub open spec fn vars_view(s: Seq<Variable>) -> Seq<VariableV> {
    s.map_values(|v: Variable| v@)
}

impl View for Function {
    type V = FunctionV;

    open spec fn view(&self) -> FunctionV {
        FunctionV {
            scope: self.scope,
            name: self.name@,
            params: vars_view(self.params@),
            ret: self.ret,
            span: self.span,
        }
    }
}

impl View for Symbol {
    type V = SymbolV;

    open spec fn view(&self) -> SymbolV {
        match self {
            Symbol::Variable(v) => SymbolV::Variable(v@),
            Symbol::Function(f) => SymbolV::Function(f@),
        }
    }
}

/// The name a symbol is filed under.
pub open spec fn symbol_name(s: SymbolV) -> Seq<char> {
    match s {
        SymbolV::Variable(v) => v.name,
        SymbolV::Function(f) => f.name,
    }
}

impl Symbol {
    /// The symbol's name.
    pub fn name(&self) -> (r: &str)
        ensures
            r@ == symbol_name(self@),
    {
        match self {
            Symbol::Variable(v) => v.name.as_str(),
            Symbol::Function(f) => f.name.as_str(),
        }
    }
}

/// The table of all symbols the analysis has seen, keyed by name.
pub struct SymbolTable {
    pub symbols: StrMap<Symbol>,
}

impl View for SymbolTable {
    type V = Map<Seq<char>, SymbolV>;

    open spec fn view(&self) -> Map<Seq<char>, SymbolV> {
        self.symbols@
    }
}

impl Default for SymbolTable {
    fn default() -> (r: Self)
        ensures
            r@ == Map::<Seq<char>, SymbolV>::empty(),
    {
        SymbolTable { symbols: StrMap::new() }
    }
}

impl SymbolTable {
    /// Files the symbol under its own name, shadowing an earlier one.
    pub fn insert(&mut self, symbol: Symbol)
        ensures
            final(self)@ == old(self)@.insert(symbol_name(symbol@), symbol@),
    {
        let key = String::from_str(symbol.name());
        self.symbols.insert(key, symbol);
    }

    /// The symbol filed under `name`, if any.
    pub fn get(&self, name: &str) -> (r: Option<&Symbol>)
        ensures
            match r {
                Some(sym) => self@.contains_key(name@) && sym@ == self@[name@],
                None => !self@.contains_key(name@),
            },
    {
        let owned = name.to_owned();
        self.symbols.get(&owned)
    }
}

} // verus!
