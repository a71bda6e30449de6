//! The syntax tree that the generator walks.
//!
//! The tree is produced by a parser and is only read here. Each of its types
//! has a view: the same tree with every `String` taken as its sequence of
//! characters and every `Vec` as the sequence of its items' views. Contracts
//! speak of the views, so that two trees built apart with the same content
//! are the same tree to them.

use vstd::prelude::*;

verus! {

/// An identifier: the raw name text.
#[derive(Debug, PartialEq)]
pub struct Ident(pub String);

/// A prefix operator.
#[derive(Clone, Copy, Debug, PartialEq, Eq)]
pub enum Prefix {
    Plus,
    Minus,
    Not,
}

/// An infix operator.
#[derive(Clone, Copy, Debug, PartialEq, Eq)]
pub enum Infix {
    Plus,
    Minus,
    Divide,
    Multiply,
    Equal,
    NotEqual,
    GreaterThanEqual,
    GreaterThan,
    LessThanEqual,
    LessThan,
}

/// A numeric literal.
#[derive(Debug, PartialEq)]
pub enum Number {
    /// An integer.
    Int(i64),
    /// A floating-point number, held as the text that the platform's default
    /// formatting gives for its value.
    Float(String),
}

/// A literal value.
#[derive(Debug, PartialEq)]
pub enum Literal {
    Number(Number),
    /// A string, held with the quote characters that surround it.
    String(String),
    Bool(bool),
    Array(Vec<Expr>),
    /// Key and value pairs, in insertion order.
    Hash(Vec<(Expr, Expr)>),
}

/// An expression.
#[derive(Debug, PartialEq)]
#[allow(inconsistent_fields)]
pub enum Expr {
    Let(Ident, Box<Expr>),
    Assign(Box<Expr>, Box<Expr>),
    Prefix(Prefix, Box<Expr>),
    Infix(Infix, Box<Expr>, Box<Expr>),
    Index(Box<Expr>, Box<Expr>),
    /// Member access: a base and the segments of the accessor.
    Accessor(Box<Expr>, Vec<Ident>),
    Literal(Literal),
    Ident(Ident),
    Func { params: Vec<Ident>, body: BlockStmt, name: Option<Ident> },
    Call { func: Box<Expr>, args: Vec<Expr> },
    Macro { name: Box<Expr>, args: Vec<Expr> },
    Regexp { pattern: Box<Expr>, flags: Option<Ident> },
    While { cond: Box<Expr>, consequence: BlockStmt },
    If { cond: Box<Expr>, consequence: BlockStmt, alternative: Option<BlockStmt> },
}

/// A statement.
#[derive(Debug, PartialEq)]
pub enum Stmt {
    /// The terminator: generation of the enclosing sequence stops here.
    Blank,
    Expr(Expr),
    Return(Expr),
}

/// The body of a function or of a control-flow construct.
pub type BlockStmt = Vec<Stmt>;

/// The top-level statements of a program.
pub type Program = BlockStmt;

impl Prefix {
    /// The operator's text in the generated code.
    pub open spec fn text(self) -> Seq<char> {
        match self {
            Prefix::Plus => "+"@,
            Prefix::Minus => "-"@,
            Prefix::Not => "!"@,
        }
    }

    /// Gives the operator's text.
    pub fn as_str(self) -> (s: &'static str)
        ensures
            s@ == self.text(),
    {
        match self {
            Prefix::Plus => "+",
            Prefix::Minus => "-",
            Prefix::Not => "!",
        }
    }
}

impl Infix {
    /// The operator's text in the generated code.
    pub open spec fn text(self) -> Seq<char> {
        match self {
            Infix::Plus => "+"@,
            Infix::Minus => "-"@,
            Infix::Divide => "/"@,
            Infix::Multiply => "*"@,
            Infix::Equal => "=="@,
            Infix::NotEqual => "!="@,
            Infix::GreaterThanEqual => ">="@,
            Infix::GreaterThan => ">"@,
            Infix::LessThanEqual => "<="@,
            Infix::LessThan => "<"@,
        }
    }

    /// Gives the operator's text.
    pub fn as_str(self) -> (s: &'static str)
        ensures
            s@ == self.text(),
    {
        match self {
            Infix::Plus => "+",
            Infix::Minus => "-",
            Infix::Divide => "/",
            Infix::Multiply => "*",
            Infix::Equal => "==",
            Infix::NotEqual => "!=",
            Infix::GreaterThanEqual => ">=",
            Infix::GreaterThan => ">",
            Infix::LessThanEqual => "<=",
            Infix::LessThan => "<",
        }
    }
}

/// The view of a [`Number`].
pub enum NumberView {
    Int(int),
    Float(Seq<char>),
}

/// The view of a [`Literal`].
pub enum LiteralView {
    Number(NumberView),
    String(Seq<char>),
    Bool(bool),
    Array(Seq<ExprView>),
    Hash(Seq<(ExprView, ExprView)>),
}

/// The view of an [`Expr`].
#[allow(inconsistent_fields)]
pub enum ExprView {
    Let(Seq<char>, Box<ExprView>),
    Assign(Box<ExprView>, Box<ExprView>),
    Prefix(Prefix, Box<ExprView>),
    Infix(Infix, Box<ExprView>, Box<ExprView>),
    Index(Box<ExprView>, Box<ExprView>),
    Accessor(Box<ExprView>, Seq<Seq<char>>),
    Literal(LiteralView),
    Ident(Seq<char>),
    Func { params: Seq<Seq<char>>, body: Seq<StmtView>, name: Option<Seq<char>> },
    Call { func: Box<ExprView>, args: Seq<ExprView> },
    Macro { name: Box<ExprView>, args: Seq<ExprView> },
    Regexp { pattern: Box<ExprView>, flags: Option<Seq<char>> },
    While { cond: Box<ExprView>, consequence: Seq<StmtView> },
    If { cond: Box<ExprView>, consequence: Seq<StmtView>, alternative: Option<Seq<StmtView>> },
}

/// The view of a [`Stmt`].
pub enum StmtView {
    Blank,
    Expr(ExprView),
    Return(ExprView),
}

/// The name that an optional identifier holds.
pub open spec fn name_view(name: Option<Ident>) -> Option<Seq<char>> {
    match name {
        Some(ident) => Some(ident.0@),
        None => None,
    }
}

/// The names that a sequence of identifiers holds.
pub open spec fn names_view(idents: Seq<Ident>) -> Seq<Seq<char>> {
    Seq::new(idents.len(), |i: int| idents[i].0@)
}

/// The view of a numeric literal.
pub open spec fn number_view(number: Number) -> NumberView {
    match number {
        Number::Int(value) => NumberView::Int(value as int),
        Number::Float(text) => NumberView::Float(text@),
    }
}

/// The view of a literal.
pub open spec fn literal_view(literal: Literal) -> LiteralView
    decreases literal,
{
    match literal {
        Literal::Number(number) => LiteralView::Number(number_view(number)),
        Literal::String(text) => LiteralView::String(text@),
        Literal::Bool(value) => LiteralView::Bool(value),
        Literal::Array(elements) => LiteralView::Array(exprs_view(elements@)),
        Literal::Hash(entries) => LiteralView::Hash(entries_view(entries@)),
    }
}

/// The view of an expression.
pub open spec fn expr_view(expr: Expr) -> ExprView
    decreases expr,
{
    match expr {
        Expr::Let(ident, value) => ExprView::Let(ident.0@, Box::new(expr_view(*value))),
        Expr::Assign(target, value) => ExprView::Assign(
            Box::new(expr_view(*target)),
            Box::new(expr_view(*value)),
        ),
        Expr::Prefix(op, operand) => ExprView::Prefix(op, Box::new(expr_view(*operand))),
        Expr::Infix(op, left, right) => ExprView::Infix(
            op,
            Box::new(expr_view(*left)),
            Box::new(expr_view(*right)),
        ),
        Expr::Index(base, key) => ExprView::Index(
            Box::new(expr_view(*base)),
            Box::new(expr_view(*key)),
        ),
        Expr::Accessor(base, names) => ExprView::Accessor(
            Box::new(expr_view(*base)),
            names_view(names@),
        ),
        Expr::Literal(literal) => ExprView::Literal(literal_view(literal)),
        Expr::Ident(ident) => ExprView::Ident(ident.0@),
        Expr::Func { params, body, name } => ExprView::Func {
            params: names_view(params@),
            body: block_view(body@),
            name: name_view(name),
        },
        Expr::Call { func, args } => ExprView::Call {
            func: Box::new(expr_view(*func)),
            args: exprs_view(args@),
        },
        Expr::Macro { name, args } => ExprView::Macro {
            name: Box::new(expr_view(*name)),
            args: exprs_view(args@),
        },
        Expr::Regexp { pattern, flags } => ExprView::Regexp {
            pattern: Box::new(expr_view(*pattern)),
            flags: name_view(flags),
        },
        Expr::While { cond, consequence } => ExprView::While {
            cond: Box::new(expr_view(*cond)),
            consequence: block_view(consequence@),
        },
        Expr::If { cond, consequence, alternative } => ExprView::If {
            cond: Box::new(expr_view(*cond)),
            consequence: block_view(consequence@),
            alternative: match alternative {
                Some(alternative) => Some(block_view(alternative@)),
                None => None,
            },
        },
    }
}

/// The view of a statement.
pub open spec fn stmt_view(stmt: Stmt) -> StmtView
    decreases stmt,
{
    match stmt {
        Stmt::Blank => StmtView::Blank,
        Stmt::Expr(expr) => StmtView::Expr(expr_view(expr)),
        Stmt::Return(expr) => StmtView::Return(expr_view(expr)),
    }
}

/// The views of a sequence of expressions.
pub open spec fn exprs_view(exprs: Seq<Expr>) -> Seq<ExprView>
    decreases exprs,
{
    Seq::new(
        exprs.len(),
        |i: int|
            if 0 <= i < exprs.len() {
                expr_view(exprs[i])
            } else {
                arbitrary()
            },
    )
}

/// The views of the entries of a map literal.
pub open spec fn entries_view(entries: Seq<(Expr, Expr)>) -> Seq<(ExprView, ExprView)>
    decreases entries,
{
    Seq::new(
        entries.len(),
        |i: int|
            if 0 <= i < entries.len() {
                (expr_view(entries[i].0), expr_view(entries[i].1))
            } else {
                arbitrary()
            },
    )
}

/// The views of the statements of a block or of a program.
pub open spec fn block_view(stmts: Seq<Stmt>) -> Seq<StmtView>
    decreases stmts,
{
    Seq::new(
        stmts.len(),
        |i: int|
            if 0 <= i < stmts.len() {
                stmt_view(stmts[i])
            } else {
                arbitrary()
            },
    )
}

impl View for Number {
    type V = NumberView;

    open spec fn view(&self) -> NumberView {
        number_view(*self)
    }
}

impl View for Literal {
    type V = LiteralView;

    open spec fn view(&self) -> LiteralView {
        literal_view(*self)
    }
}

impl View for Expr {
    type V = ExprView;

    open spec fn view(&self) -> ExprView {
        expr_view(*self)
    }
}

impl View for Stmt {
    type V = StmtView;

    open spec fn view(&self) -> StmtView {
        stmt_view(*self)
    }
}

impl View for Ident {
    type V = Seq<char>;

    open spec fn view(&self) -> Seq<char> {
        self.0@
    }
}

} // verus!
