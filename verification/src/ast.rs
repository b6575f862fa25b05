//! The syntax tree that dependency extraction walks.
//!
//! The tree is its own model: specifications read a node's children
//! directly and its names through their views.

use vstd::prelude::*;

verus! {

/// A half-open range of source positions.
#[derive(Clone, Copy, Debug, PartialEq, Eq, Hash)]
pub struct Span {
    pub start: usize,
    pub end: usize,
}

impl Span {
    pub fn new(start: usize, end: usize) -> (s: Span)
        ensures
            s.start == start,
            s.end == end,
    {
        Span { start, end }
    }
}

/// A name as written in source.
#[derive(Clone, Debug, PartialEq, Eq, Hash)]
pub struct Ident(pub String);

impl View for Ident {
    type V = Seq<char>;

    open spec fn view(&self) -> Seq<char> {
        self.0@
    }
}

/// A literal constant.
#[derive(Clone, Debug)]
pub enum Literal {
    Int(i64),
    /// A floating-point constant, held as its IEEE 754 bit pattern.
    Float(u64),
    Bool(bool),
    String(String),
}

/// A type expression.
#[derive(Debug)]
pub enum Type {
    Int,
    Float,
    Bool,
    String,
    Unit,
    Var(String),
    UserDefined { name: String, type_params: Vec<Type> },
    Function(Box<Type>, Box<Type>),
    FunctionWithEffect { from: Box<Type>, to: Box<Type>, effects: Vec<String> },
    List(Box<Type>),
    Option(Box<Type>),
    Tuple(Vec<Type>),
    Record { fields: Vec<(String, Type)> },
}

/// A pattern of a match arm or a handler clause.
#[derive(Debug)]
pub enum Pattern {
    Wildcard(Span),
    Literal(Literal, Span),
    Variable(Ident, Span),
    Constructor { name: Ident, patterns: Vec<Pattern>, span: Span },
    List { patterns: Vec<Pattern>, span: Span },
}

/// A parameter of a function definition.
#[derive(Debug)]
pub struct FunctionParam {
    pub name: Ident,
    pub typ: Option<Type>,
}

/// A statement of a monadic sequence.
#[derive(Debug)]
pub enum DoStatement {
    Bind { name: Ident, expr: Expr, span: Span },
    Expression(Expr),
}

/// A clause of a `handle` expression: the effect it handles, the
/// patterns of the effect's arguments, the continuation and the body.
#[derive(Debug)]
pub struct HandlerCase {
    pub effect: Ident,
    pub patterns: Vec<Pattern>,
    pub continuation: Ident,
    pub body: Expr,
}

/// An expression.
#[derive(Debug)]
#[allow(inconsistent_fields)]
pub enum Expr {
    Literal(Literal, Span),
    Ident(Ident, Span),
    QualifiedIdent { module_name: Ident, name: Ident, span: Span },
    Lambda { params: Vec<(Ident, Option<Type>)>, body: Box<Expr>, span: Span },
    /// A binding that later expressions of the enclosing sequence see.
    Let { name: Ident, type_ann: Option<Type>, value: Box<Expr>, span: Span },
    /// A binding that its own body sees.
    LetIn { name: Ident, type_ann: Option<Type>, value: Box<Expr>, body: Box<Expr>, span: Span },
    /// A recursive binding that later expressions of the enclosing sequence see.
    LetRec { name: Ident, type_ann: Option<Type>, value: Box<Expr>, span: Span },
    /// A recursive binding that its own body sees.
    LetRecIn { name: Ident, value: Box<Expr>, body: Box<Expr>, span: Span },
    /// A recursive function.
    Rec {
        name: Ident,
        params: Vec<(Ident, Option<Type>)>,
        return_type: Option<Type>,
        body: Box<Expr>,
        span: Span,
    },
    If { cond: Box<Expr>, then_expr: Box<Expr>, else_expr: Box<Expr>, span: Span },
    Apply { func: Box<Expr>, args: Vec<Expr>, span: Span },
    Match { expr: Box<Expr>, cases: Vec<(Pattern, Expr)>, span: Span },
    List(Vec<Expr>, Span),
    Constructor { name: Ident, args: Vec<Expr>, span: Span },
    Module { name: Ident, body: Vec<Expr>, span: Span },
    Import { span: Span },
    Use { span: Span },
    TypeDef { span: Span },
    /// An effect handler: each case names an effect, the patterns of its
    /// arguments, its continuation and its body.
    Handler { cases: Vec<(Ident, Vec<Pattern>, Ident, Expr)>, body: Box<Expr>, span: Span },
    WithHandler { handler: Box<Expr>, body: Box<Expr>, span: Span },
    Perform { effect: Ident, args: Vec<Expr>, span: Span },
    Pipeline { expr: Box<Expr>, func: Box<Expr>, span: Span },
    Block { exprs: Vec<Expr>, span: Span },
    Hole { span: Span },
    Do { statements: Vec<DoStatement>, span: Span },
    RecordLiteral { fields: Vec<(Ident, Expr)>, span: Span },
    RecordAccess { record: Box<Expr>, field: Ident, span: Span },
    RecordUpdate { record: Box<Expr>, updates: Vec<(Ident, Expr)>, span: Span },
    /// A handled expression with its clauses. The return clause, where
    /// there is one, names the returned value and gives the result.
    HandleExpr {
        expr: Box<Expr>,
        handlers: Vec<HandlerCase>,
        return_handler: Option<(Ident, Box<Expr>)>,
        span: Span,
    },
    FunctionDef {
        name: Ident,
        params: Vec<FunctionParam>,
        return_type: Option<Type>,
        effects: Vec<String>,
        body: Box<Expr>,
        span: Span,
    },
    /// A reference to a definition by the hexadecimal text of its hash.
    HashRef { hash: String, span: Span },
}

} // verus!
