//! Laws of the rendering, proved of every tree.

use vstd::prelude::*;
use crate::ast::{ExprView, Infix, LiteralView, NumberView, Prefix, StmtView};
use crate::compiler::Compiler;
use crate::decimal::{int_text, int_value, is_canonical_int, lemma_int_text_round_trip};
use crate::macros::{MacroExpander, NoMacros};
use crate::model::{
    render_args, render_block, render_elements, render_entries, render_expr, render_literal,
    render_program, Rendered,
};

verus! {

/// An integer literal renders as the canonical decimal text of its value,
/// whatever the scope holds, and leaves the scope as it is. Reading that
/// text back gives the value again.
pub proof fn lemma_integer_literal_round_trip<M: MacroExpander>(
    macros: &M,
    value: i64,
    scope: Set<Seq<char>>,
)
    ensures
        render_expr(
            macros,
            ExprView::Literal(LiteralView::Number(NumberView::Int(value as int))),
            scope,
        ) == Rendered::ok(int_text(value as int), scope),
        is_canonical_int(int_text(value as int)),
        int_value(int_text(value as int)) == value,
{
    lemma_int_text_round_trip(value as int);
    reveal_with_fuel(render_expr, 2);
}

/// A numeric literal that is held as text renders as that text, unchanged.
pub proof fn lemma_float_literal_verbatim<M: MacroExpander>(
    macros: &M,
    text: Seq<char>,
    scope: Set<Seq<char>>,
)
    ensures
        render_expr(macros, ExprView::Literal(LiteralView::Number(NumberView::Float(text))), scope)
            == Rendered::ok(text, scope),
{
    reveal_with_fuel(render_expr, 2);
}

/// Rendering an expression never removes a name from the scope.
pub proof fn lemma_expr_keeps_scope<M: MacroExpander>(
    macros: &M,
    expr: ExprView,
    scope: Set<Seq<char>>,
)
    ensures
        scope.subset_of(render_expr(macros, expr, scope).scope),
    decreases expr, 0nat,
{
    match expr {
        ExprView::Let(_, value) => {
            lemma_expr_keeps_scope(macros, *value, scope);
        },
        ExprView::Assign(target, value) => {
            lemma_expr_keeps_scope(macros, *value, scope);
            let v = render_expr(macros, *value, scope);
            lemma_expr_keeps_scope(macros, *target, v.scope);
        },
        ExprView::Prefix(_, operand) => {
            lemma_expr_keeps_scope(macros, *operand, scope);
        },
        ExprView::Infix(_, left, right) => {
            lemma_expr_keeps_scope(macros, *left, scope);
            let l = render_expr(macros, *left, scope);
            lemma_expr_keeps_scope(macros, *right, l.scope);
        },
        ExprView::Index(base, key) => {
            lemma_expr_keeps_scope(macros, *base, scope);
            let b = render_expr(macros, *base, scope);
            lemma_expr_keeps_scope(macros, *key, b.scope);
        },
        ExprView::Accessor(base, _) => {
            lemma_expr_keeps_scope(macros, *base, scope);
        },
        ExprView::Literal(literal) => {
            lemma_literal_keeps_scope(macros, literal, scope);
        },
        ExprView::Ident(_) => {},
        ExprView::Func { params, body, name } => {
            match name {
                Some(name) => {
                    lemma_block_keeps_scope(macros, body, 0, scope.insert(name));
                },
                None => {},
            }
        },
        ExprView::Call { func, args } => {
            lemma_expr_keeps_scope(macros, *func, scope);
            let f = render_expr(macros, *func, scope);
            lemma_args_keep_scope(macros, args, 0, f.scope);
        },
        ExprView::Macro { name, args } => {
            lemma_expr_keeps_scope(macros, *name, scope);
        },
        ExprView::Regexp { pattern, flags } => {
            lemma_expr_keeps_scope(macros, *pattern, scope);
        },
        ExprView::While { cond, consequence } => {
            lemma_expr_keeps_scope(macros, *cond, scope);
            let c = render_expr(macros, *cond, scope);
            lemma_block_keeps_scope(macros, consequence, 0, c.scope);
        },
        ExprView::If { cond, consequence, alternative } => {
            lemma_expr_keeps_scope(macros, *cond, scope);
            let c = render_expr(macros, *cond, scope);
            lemma_block_keeps_scope(macros, consequence, 0, c.scope);
            let then = render_block(macros, consequence, 0, c.scope);
            match alternative {
                Some(alternative) => {
                    lemma_block_keeps_scope(macros, alternative, 0, then.scope);
                },
                None => {},
            }
        },
    }
}

/// Rendering a literal never removes a name from the scope.
pub proof fn lemma_literal_keeps_scope<M: MacroExpander>(
    macros: &M,
    literal: LiteralView,
    scope: Set<Seq<char>>,
)
    ensures
        scope.subset_of(render_literal(macros, literal, scope).scope),
    decreases literal, 0nat,
{
    match literal {
        LiteralView::Array(elements) => {
            lemma_elements_keep_scope(macros, elements, 0, scope);
        },
        LiteralView::Hash(entries) => {
            lemma_entries_keep_scope(macros, entries, 0, scope);
        },
        _ => {},
    }
}

/// Rendering the arguments of a call never removes a name from the scope.
pub proof fn lemma_args_keep_scope<M: MacroExpander>(
    macros: &M,
    args: Seq<ExprView>,
    i: int,
    scope: Set<Seq<char>>,
)
    ensures
        scope.subset_of(render_args(macros, args, i, scope).scope),
    decreases args, args.len() - i,
{
    if 0 <= i < args.len() {
        lemma_expr_keeps_scope(macros, args[i], scope);
        let arg = render_expr(macros, args[i], scope);
        lemma_args_keep_scope(macros, args, i + 1, arg.scope);
    }
}

/// Rendering the elements of an array never removes a name from the scope.
pub proof fn lemma_elements_keep_scope<M: MacroExpander>(
    macros: &M,
    elements: Seq<ExprView>,
    i: int,
    scope: Set<Seq<char>>,
)
    ensures
        scope.subset_of(render_elements(macros, elements, i, scope).scope),
    decreases elements, elements.len() - i,
{
    if 0 <= i < elements.len() {
        lemma_expr_keeps_scope(macros, elements[i], scope);
        let element = render_expr(macros, elements[i], scope);
        lemma_elements_keep_scope(macros, elements, i + 1, element.scope);
    }
}

/// Rendering the entries of a map never removes a name from the scope.
pub proof fn lemma_entries_keep_scope<M: MacroExpander>(
    macros: &M,
    entries: Seq<(ExprView, ExprView)>,
    i: int,
    scope: Set<Seq<char>>,
)
    ensures
        scope.subset_of(render_entries(macros, entries, i, scope).scope),
    decreases entries, entries.len() - i,
{
    if 0 <= i < entries.len() {
        lemma_expr_keeps_scope(macros, entries[i].1, scope);
        let value = render_expr(macros, entries[i].1, scope);
        if value.text is Some {
            lemma_expr_keeps_scope(macros, entries[i].0, value.scope);
            let key = render_expr(macros, entries[i].0, value.scope);
            lemma_entries_keep_scope(macros, entries, i + 1, key.scope);
        } else {
            lemma_entries_keep_scope(macros, entries, i + 1, value.scope);
        }
    }
}

/// Rendering a block never removes a name from the scope.
pub proof fn lemma_block_keeps_scope<M: MacroExpander>(
    macros: &M,
    stmts: Seq<StmtView>,
    i: int,
    scope: Set<Seq<char>>,
)
    ensures
        scope.subset_of(render_block(macros, stmts, i, scope).scope),
    decreases stmts, stmts.len() - i,
{
    if 0 <= i < stmts.len() {
        match stmts[i] {
            StmtView::Blank => {},
            StmtView::Expr(expr) => {
                lemma_expr_keeps_scope(macros, expr, scope);
                let stmt = render_expr(macros, expr, scope);
                lemma_block_keeps_scope(macros, stmts, i + 1, stmt.scope);
            },
            StmtView::Return(expr) => {
                lemma_expr_keeps_scope(macros, expr, scope);
                let stmt = render_expr(macros, expr, scope);
                lemma_block_keeps_scope(macros, stmts, i + 1, stmt.scope);
            },
        }
    }
}

/// The names of the named function literals that stand anywhere in `expr`.
pub open spec fn functions_in_expr(expr: ExprView) -> Set<Seq<char>>
    decreases expr, 0nat,
{
    match expr {
        ExprView::Let(_, value) => functions_in_expr(*value),
        ExprView::Assign(target, value) => functions_in_expr(*target).union(
            functions_in_expr(*value),
        ),
        ExprView::Prefix(_, operand) => functions_in_expr(*operand),
        ExprView::Infix(_, left, right) => functions_in_expr(*left).union(
            functions_in_expr(*right),
        ),
        ExprView::Index(base, key) => functions_in_expr(*base).union(functions_in_expr(*key)),
        ExprView::Accessor(base, _) => functions_in_expr(*base),
        ExprView::Literal(literal) => functions_in_literal(literal),
        ExprView::Ident(_) => Set::empty(),
        ExprView::Func { params, body, name } => match name {
            Some(name) => functions_in_block(body, 0).insert(name),
            None => functions_in_block(body, 0),
        },
        ExprView::Call { func, args } => functions_in_expr(*func).union(
            functions_in_exprs(args, 0),
        ),
        ExprView::Macro { name, args } => functions_in_expr(*name).union(
            functions_in_exprs(args, 0),
        ),
        ExprView::Regexp { pattern, flags } => functions_in_expr(*pattern),
        ExprView::While { cond, consequence } => functions_in_expr(*cond).union(
            functions_in_block(consequence, 0),
        ),
        ExprView::If { cond, consequence, alternative } => functions_in_expr(*cond).union(
            functions_in_block(consequence, 0),
        ).union(
            match alternative {
                Some(alternative) => functions_in_block(alternative, 0),
                None => Set::empty(),
            },
        ),
    }
}

/// The names of the named function literals that stand anywhere in
/// `literal`.
pub open spec fn functions_in_literal(literal: LiteralView) -> Set<Seq<char>>
    decreases literal, 0nat,
{
    match literal {
        LiteralView::Array(elements) => functions_in_exprs(elements, 0),
        LiteralView::Hash(entries) => functions_in_entries(entries, 0),
        _ => Set::empty(),
    }
}

/// The names of the named function literals that stand anywhere in
/// `exprs[i..]`.
pub open spec fn functions_in_exprs(exprs: Seq<ExprView>, i: int) -> Set<Seq<char>>
    decreases exprs, exprs.len() - i,
{
    if 0 <= i < exprs.len() {
        functions_in_expr(exprs[i]).union(functions_in_exprs(exprs, i + 1))
    } else {
        Set::empty()
    }
}

/// The names of the named function literals that stand anywhere in
/// `entries[i..]`.
pub open spec fn functions_in_entries(entries: Seq<(ExprView, ExprView)>, i: int) -> Set<
    Seq<char>,
>
    decreases entries, entries.len() - i,
{
    if 0 <= i < entries.len() {
        functions_in_expr(entries[i].0).union(functions_in_expr(entries[i].1)).union(
            functions_in_entries(entries, i + 1),
        )
    } else {
        Set::empty()
    }
}

/// The names of the named function literals that stand anywhere in
/// `stmts[i..]`.
pub open spec fn functions_in_block(stmts: Seq<StmtView>, i: int) -> Set<Seq<char>>
    decreases stmts, stmts.len() - i,
{
    if 0 <= i < stmts.len() {
        match stmts[i] {
            StmtView::Blank => Set::empty(),
            StmtView::Expr(expr) => functions_in_expr(expr),
            StmtView::Return(expr) => functions_in_expr(expr),
        }.union(functions_in_block(stmts, i + 1))
    } else {
        Set::empty()
    }
}

/// Rendering an expression declares no name but those of the named function
/// literals that stand in it.
pub proof fn lemma_expr_declares_its_functions<M: MacroExpander>(
    macros: &M,
    expr: ExprView,
    scope: Set<Seq<char>>,
)
    ensures
        render_expr(macros, expr, scope).scope.subset_of(scope.union(functions_in_expr(expr))),
    decreases expr, 0nat,
{
    match expr {
        ExprView::Let(_, value) => {
            lemma_expr_declares_its_functions(macros, *value, scope);
        },
        ExprView::Assign(target, value) => {
            lemma_expr_declares_its_functions(macros, *value, scope);
            let v = render_expr(macros, *value, scope);
            lemma_expr_declares_its_functions(macros, *target, v.scope);
        },
        ExprView::Prefix(_, operand) => {
            lemma_expr_declares_its_functions(macros, *operand, scope);
        },
        ExprView::Infix(_, left, right) => {
            lemma_expr_declares_its_functions(macros, *left, scope);
            let l = render_expr(macros, *left, scope);
            lemma_expr_declares_its_functions(macros, *right, l.scope);
        },
        ExprView::Index(base, key) => {
            lemma_expr_declares_its_functions(macros, *base, scope);
            let b = render_expr(macros, *base, scope);
            lemma_expr_declares_its_functions(macros, *key, b.scope);
        },
        ExprView::Accessor(base, _) => {
            lemma_expr_declares_its_functions(macros, *base, scope);
        },
        ExprView::Literal(literal) => {
            lemma_literal_declares_its_functions(macros, literal, scope);
        },
        ExprView::Ident(_) => {},
        ExprView::Func { params, body, name } => {
            match name {
                Some(name) => {
                    lemma_block_declares_its_functions(macros, body, 0, scope.insert(name));
                },
                None => {},
            }
        },
        ExprView::Call { func, args } => {
            lemma_expr_declares_its_functions(macros, *func, scope);
            let f = render_expr(macros, *func, scope);
            lemma_args_declare_their_functions(macros, args, 0, f.scope);
        },
        ExprView::Macro { name, args } => {
            lemma_expr_declares_its_functions(macros, *name, scope);
        },
        ExprView::Regexp { pattern, flags } => {
            lemma_expr_declares_its_functions(macros, *pattern, scope);
        },
        ExprView::While { cond, consequence } => {
            lemma_expr_declares_its_functions(macros, *cond, scope);
            let c = render_expr(macros, *cond, scope);
            lemma_block_declares_its_functions(macros, consequence, 0, c.scope);
        },
        ExprView::If { cond, consequence, alternative } => {
            lemma_expr_declares_its_functions(macros, *cond, scope);
            let c = render_expr(macros, *cond, scope);
            lemma_block_declares_its_functions(macros, consequence, 0, c.scope);
            let then = render_block(macros, consequence, 0, c.scope);
            match alternative {
                Some(alternative) => {
                    lemma_block_declares_its_functions(macros, alternative, 0, then.scope);
                },
                None => {},
            }
        },
    }
}

/// Rendering a literal declares no name but those of the named function
/// literals that stand in it.
pub proof fn lemma_literal_declares_its_functions<M: MacroExpander>(
    macros: &M,
    literal: LiteralView,
    scope: Set<Seq<char>>,
)
    ensures
        render_literal(macros, literal, scope).scope.subset_of(
            scope.union(functions_in_literal(literal)),
        ),
    decreases literal, 0nat,
{
    match literal {
        LiteralView::Array(elements) => {
            lemma_elements_declare_their_functions(macros, elements, 0, scope);
        },
        LiteralView::Hash(entries) => {
            lemma_entries_declare_their_functions(macros, entries, 0, scope);
        },
        _ => {},
    }
}

/// Rendering the arguments of a call declares no name but those of the named
/// function literals that stand in them.
pub proof fn lemma_args_declare_their_functions<M: MacroExpander>(
    macros: &M,
    args: Seq<ExprView>,
    i: int,
    scope: Set<Seq<char>>,
)
    ensures
        render_args(macros, args, i, scope).scope.subset_of(
            scope.union(functions_in_exprs(args, i)),
        ),
    decreases args, args.len() - i,
{
    if 0 <= i < args.len() {
        lemma_expr_declares_its_functions(macros, args[i], scope);
        let arg = render_expr(macros, args[i], scope);
        lemma_args_declare_their_functions(macros, args, i + 1, arg.scope);
    }
}

/// Rendering the elements of an array declares no name but those of the named
/// function literals that stand in them.
pub proof fn lemma_elements_declare_their_functions<M: MacroExpander>(
    macros: &M,
    elements: Seq<ExprView>,
    i: int,
    scope: Set<Seq<char>>,
)
    ensures
        render_elements(macros, elements, i, scope).scope.subset_of(
            scope.union(functions_in_exprs(elements, i)),
        ),
    decreases elements, elements.len() - i,
{
    if 0 <= i < elements.len() {
        lemma_expr_declares_its_functions(macros, elements[i], scope);
        let element = render_expr(macros, elements[i], scope);
        lemma_elements_declare_their_functions(macros, elements, i + 1, element.scope);
    }
}

/// Rendering the entries of a map declares no name but those of the named
/// function literals that stand in them.
pub proof fn lemma_entries_declare_their_functions<M: MacroExpander>(
    macros: &M,
    entries: Seq<(ExprView, ExprView)>,
    i: int,
    scope: Set<Seq<char>>,
)
    ensures
        render_entries(macros, entries, i, scope).scope.subset_of(
            scope.union(functions_in_entries(entries, i)),
        ),
    decreases entries, entries.len() - i,
{
    if 0 <= i < entries.len() {
        lemma_expr_declares_its_functions(macros, entries[i].1, scope);
        let value = render_expr(macros, entries[i].1, scope);
        if value.text is Some {
            lemma_expr_declares_its_functions(macros, entries[i].0, value.scope);
            let key = render_expr(macros, entries[i].0, value.scope);
            lemma_entries_declare_their_functions(macros, entries, i + 1, key.scope);
        } else {
            lemma_entries_declare_their_functions(macros, entries, i + 1, value.scope);
        }
    }
}

/// Rendering a block declares no name but those of the named function
/// literals that stand in it.
pub proof fn lemma_block_declares_its_functions<M: MacroExpander>(
    macros: &M,
    stmts: Seq<StmtView>,
    i: int,
    scope: Set<Seq<char>>,
)
    ensures
        render_block(macros, stmts, i, scope).scope.subset_of(
            scope.union(functions_in_block(stmts, i)),
        ),
    decreases stmts, stmts.len() - i,
{
    if 0 <= i < stmts.len() {
        match stmts[i] {
            StmtView::Blank => {},
            StmtView::Expr(expr) => {
                lemma_expr_declares_its_functions(macros, expr, scope);
                let stmt = render_expr(macros, expr, scope);
                lemma_block_declares_its_functions(macros, stmts, i + 1, stmt.scope);
            },
            StmtView::Return(expr) => {
                lemma_expr_declares_its_functions(macros, expr, scope);
                let stmt = render_expr(macros, expr, scope);
                lemma_block_declares_its_functions(macros, stmts, i + 1, stmt.scope);
            },
        }
    }
}

/// A call of a name is rendered only where the name was declared before: a
/// call that follows the expression `before`, which holds no function
/// literal of that name, in a scope that does not hold the name either,
/// renders nothing.
pub proof fn lemma_call_of_undeclared_function<M: MacroExpander>(
    macros: &M,
    before: ExprView,
    name: Seq<char>,
    args: Seq<ExprView>,
    scope: Set<Seq<char>>,
)
    requires
        !scope.contains(name),
        !functions_in_expr(before).contains(name),
    ensures
        render_expr(
            macros,
            ExprView::Call { func: Box::new(ExprView::Ident(name)), args },
            render_expr(macros, before, scope).scope,
        ).text is None,
{
    lemma_expr_declares_its_functions(macros, before, scope);
    lemma_undeclared_name_call_renders_nothing(
        macros,
        name,
        args,
        render_expr(macros, before, scope).scope,
    );
}

/// A named function literal declares its name, whether or not its body can
/// be rendered.
pub proof fn lemma_named_function_is_declared<M: MacroExpander>(
    macros: &M,
    name: Seq<char>,
    params: Seq<Seq<char>>,
    body: Seq<StmtView>,
    scope: Set<Seq<char>>,
)
    ensures
        render_expr(macros, ExprView::Func { params, body, name: Some(name) }, scope)
            .scope.contains(name),
{
    lemma_block_keeps_scope(macros, body, 0, scope.insert(name));
    assert(scope.insert(name).contains(name));
}

/// A function literal without a name renders as the empty text and declares
/// nothing.
pub proof fn lemma_anonymous_function_vanishes<M: MacroExpander>(
    macros: &M,
    params: Seq<Seq<char>>,
    body: Seq<StmtView>,
    scope: Set<Seq<char>>,
)
    ensures
        render_expr(macros, ExprView::Func { params, body, name: None }, scope) == Rendered::ok(
            Seq::empty(),
            scope,
        ),
{
}

/// A call of a declared name is rendered: the name, then the arguments in
/// parentheses, then a semicolon. It fails only where an argument fails.
pub proof fn lemma_declared_call_is_rendered<M: MacroExpander>(
    macros: &M,
    name: Seq<char>,
    args: Seq<ExprView>,
    scope: Set<Seq<char>>,
)
    requires
        scope.contains(name),
    ensures
        render_expr(macros, ExprView::Call { func: Box::new(ExprView::Ident(name)), args }, scope)
            == render_args(macros, args, 0, scope).after(name + "("@).before(");"@),
{
    reveal_with_fuel(render_expr, 2);
}

/// A call whose callee text is not a declared name renders nothing: no text
/// comes out, and the arguments are not walked.
pub proof fn lemma_undeclared_call_renders_nothing<M: MacroExpander>(
    macros: &M,
    func: ExprView,
    args: Seq<ExprView>,
    scope: Set<Seq<char>>,
)
    requires
        render_expr(macros, func, scope).text matches Some(callee) ==> !render_expr(
            macros,
            func,
            scope,
        ).scope.contains(callee),
    ensures
        render_expr(macros, ExprView::Call { func: Box::new(func), args }, scope)
            == Rendered::failed(render_expr(macros, func, scope).scope),
{
}

/// A call of a name that the scope does not hold renders nothing and leaves
/// the scope as it is.
pub proof fn lemma_undeclared_name_call_renders_nothing<M: MacroExpander>(
    macros: &M,
    name: Seq<char>,
    args: Seq<ExprView>,
    scope: Set<Seq<char>>,
)
    requires
        !scope.contains(name),
    ensures
        render_expr(macros, ExprView::Call { func: Box::new(ExprView::Ident(name)), args }, scope)
            == Rendered::failed(scope),
{
    reveal_with_fuel(render_expr, 2);
}

/// An `if` without an alternative renders without any `else` part.
pub proof fn lemma_if_without_else<M: MacroExpander>(
    macros: &M,
    cond: ExprView,
    consequence: Seq<StmtView>,
    scope: Set<Seq<char>>,
)
    ensures
        ({
            let c = render_expr(macros, cond, scope);
            let b = render_block(macros, consequence, 0, c.scope);
            let whole = render_expr(
                macros,
                ExprView::If { cond: Box::new(cond), consequence, alternative: None },
                scope,
            );
            match (c.text, b.text) {
                (Some(cond_text), Some(body_text)) => whole == Rendered::ok(
                    "if("@ + cond_text + "){"@ + body_text + "}"@,
                    b.scope,
                ),
                (Some(_), None) => whole == b,
                (None, _) => whole == c,
            }
        }),
{
}

/// An `if` with an alternative renders as the same `if` without it, followed
/// by `else{`, the alternative and `}`. The alternative is rendered in the
/// scope that the consequence leaves.
pub proof fn lemma_else_follows_if<M: MacroExpander>(
    macros: &M,
    cond: ExprView,
    consequence: Seq<StmtView>,
    alternative: Seq<StmtView>,
    scope: Set<Seq<char>>,
)
    ensures
        ({
            let plain = render_expr(
                macros,
                ExprView::If { cond: Box::new(cond), consequence, alternative: None },
                scope,
            );
            let whole = render_expr(
                macros,
                ExprView::If { cond: Box::new(cond), consequence, alternative: Some(alternative) },
                scope,
            );
            match plain.text {
                Some(plain_text) => whole == render_block(
                    macros,
                    alternative,
                    0,
                    plain.scope,
                ).after(plain_text + "else{"@).before("}"@),
                None => whole == plain,
            }
        }),
{
}

/// An infix expression renders as its left operand, the operator and its
/// right operand, with nothing between them. The right operand is rendered
/// in the scope that the left one leaves.
pub proof fn lemma_infix_is_joined<M: MacroExpander>(
    macros: &M,
    op: Infix,
    left: ExprView,
    right: ExprView,
    scope: Set<Seq<char>>,
)
    ensures
        ({
            let l = render_expr(macros, left, scope);
            let r = render_expr(macros, right, l.scope);
            let whole = render_expr(
                macros,
                ExprView::Infix(op, Box::new(left), Box::new(right)),
                scope,
            );
            match (l.text, r.text) {
                (Some(left_text), Some(right_text)) => whole == Rendered::ok(
                    left_text + op.text() + right_text,
                    r.scope,
                ),
                (Some(_), None) => whole == r,
                (None, _) => whole == l,
            }
        }),
{
}

/// A prefix expression renders as the operator and its operand, with nothing
/// between them.
pub proof fn lemma_prefix_is_joined<M: MacroExpander>(
    macros: &M,
    op: Prefix,
    operand: ExprView,
    scope: Set<Seq<char>>,
)
    ensures
        ({
            let o = render_expr(macros, operand, scope);
            let whole = render_expr(macros, ExprView::Prefix(op, Box::new(operand)), scope);
            match o.text {
                Some(operand_text) => whole == Rendered::ok(op.text() + operand_text, o.scope),
                None => whole == o,
            }
        }),
{
}

/// Whether `c` is a space, a tab or a line break.
pub open spec fn is_whitespace(c: char) -> bool {
    c == ' ' || c == '\t' || c == '\n' || c == '\r'
}

/// The text of an operator holds one or two characters, none of them
/// whitespace.
pub proof fn lemma_operator_text_has_no_whitespace(prefix: Prefix, infix: Infix)
    ensures
        prefix.text().len() == 1,
        1 <= infix.text().len() <= 2,
        forall|i: int| 0 <= i < prefix.text().len() ==> !is_whitespace(#[trigger] prefix.text()[i]),
        forall|i: int| 0 <= i < infix.text().len() ==> !is_whitespace(#[trigger] infix.text()[i]),
{
    reveal_strlit("+");
    reveal_strlit("-");
    reveal_strlit("!");
    reveal_strlit("/");
    reveal_strlit("*");
    reveal_strlit("==");
    reveal_strlit("!=");
    reveal_strlit(">=");
    reveal_strlit(">");
    reveal_strlit("<=");
    reveal_strlit("<");
}

/// A blank statement ends its block: it renders as one line break, and
/// nothing behind it is rendered.
pub proof fn lemma_blank_ends_block<M: MacroExpander>(
    macros: &M,
    stmts: Seq<StmtView>,
    k: int,
    scope: Set<Seq<char>>,
)
    requires
        0 <= k < stmts.len(),
        stmts[k] is Blank,
    ensures
        render_block(macros, stmts, k, scope) == Rendered::ok("\n"@, scope),
{
}

/// Two blocks that agree up to a blank statement render alike from any
/// statement before it: what stands behind the blank has no effect.
pub proof fn lemma_block_ignores_what_follows_blank<M: MacroExpander>(
    macros: &M,
    a: Seq<StmtView>,
    b: Seq<StmtView>,
    i: int,
    k: int,
    scope: Set<Seq<char>>,
)
    requires
        0 <= i <= k,
        k < a.len(),
        k < b.len(),
        a[k] is Blank,
        forall|j: int| i <= j <= k ==> a[j] == b[j],
    ensures
        render_block(macros, a, i, scope) == render_block(macros, b, i, scope),
    decreases k - i,
{
    if i < k {
        match a[i] {
            StmtView::Blank => {},
            StmtView::Expr(expr) => {
                let stmt = render_expr(macros, expr, scope);
                lemma_block_ignores_what_follows_blank(macros, a, b, i + 1, k, stmt.scope);
            },
            StmtView::Return(expr) => {
                let stmt = render_expr(macros, expr, scope);
                lemma_block_ignores_what_follows_blank(macros, a, b, i + 1, k, stmt.scope);
            },
        }
    }
}

/// A block renders as its statements up to and with its first blank
/// statement do.
pub proof fn lemma_block_is_cut_at_blank<M: MacroExpander>(
    macros: &M,
    stmts: Seq<StmtView>,
    k: int,
    scope: Set<Seq<char>>,
)
    requires
        0 <= k < stmts.len(),
        stmts[k] is Blank,
    ensures
        render_block(macros, stmts, 0, scope) == render_block(
            macros,
            stmts.take(k + 1),
            0,
            scope,
        ),
{
    lemma_block_ignores_what_follows_blank(macros, stmts, stmts.take(k + 1), 0, k, scope);
}

/// Two programs that agree up to a blank statement give the same text from
/// any statement before it: generation stops at the blank.
pub proof fn lemma_program_ignores_what_follows_blank<M: MacroExpander>(
    macros: &M,
    a: Seq<StmtView>,
    b: Seq<StmtView>,
    i: int,
    k: int,
    scope: Set<Seq<char>>,
)
    requires
        0 <= i <= k,
        k < a.len(),
        k < b.len(),
        a[k] is Blank,
        forall|j: int| i <= j <= k ==> a[j] == b[j],
    ensures
        render_program(macros, a, i, scope) == render_program(macros, b, i, scope),
    decreases k - i,
{
    if i < k {
        match a[i] {
            StmtView::Blank => {},
            StmtView::Expr(expr) => {
                let stmt = render_expr(macros, expr, scope);
                lemma_program_ignores_what_follows_blank(macros, a, b, i + 1, k, stmt.scope);
            },
            StmtView::Return(_) => {
                lemma_program_ignores_what_follows_blank(macros, a, b, i + 1, k, scope);
            },
        }
    }
}

/// A literal is always rendered.
pub proof fn lemma_literal_always_renders<M: MacroExpander>(
    macros: &M,
    literal: LiteralView,
    scope: Set<Seq<char>>,
)
    ensures
        render_literal(macros, literal, scope).text is Some,
{
    match literal {
        LiteralView::Array(elements) => {
            lemma_elements_always_render(macros, elements, 0, scope);
        },
        LiteralView::Hash(entries) => {
            lemma_entries_always_render(macros, entries, 0, scope);
        },
        _ => {},
    }
}

/// The elements of an array are always rendered: one that fails is left out.
pub proof fn lemma_elements_always_render<M: MacroExpander>(
    macros: &M,
    elements: Seq<ExprView>,
    i: int,
    scope: Set<Seq<char>>,
)
    ensures
        render_elements(macros, elements, i, scope).text is Some,
    decreases elements.len() - i,
{
    if 0 <= i < elements.len() {
        let element = render_expr(macros, elements[i], scope);
        lemma_elements_always_render(macros, elements, i + 1, element.scope);
    }
}

/// The entries of a map are always rendered: one that fails is left out.
pub proof fn lemma_entries_always_render<M: MacroExpander>(
    macros: &M,
    entries: Seq<(ExprView, ExprView)>,
    i: int,
    scope: Set<Seq<char>>,
)
    ensures
        render_entries(macros, entries, i, scope).text is Some,
    decreases entries.len() - i,
{
    if 0 <= i < entries.len() {
        let value = render_expr(macros, entries[i].1, scope);
        if value.text is Some {
            let key = render_expr(macros, entries[i].0, value.scope);
            lemma_entries_always_render(macros, entries, i + 1, key.scope);
        } else {
            lemma_entries_always_render(macros, entries, i + 1, value.scope);
        }
    }
}

/// Two generators that hold the same program and the same macros emit the
/// same text: a pass starts from nothing but the program.
pub proof fn lemma_equal_generators_agree<M: MacroExpander>(a: Compiler<M>, b: Compiler<M>)
    requires
        a.program() == b.program(),
        a.macros() == b.macros(),
    ensures
        a.output() == b.output(),
{
}

/// Two generators that were each made for a program, without macros, emit
/// the same text where the two programs have the same view: nothing of one
/// pass reaches another.
pub proof fn lemma_fresh_generators_agree(a: Compiler<NoMacros>, b: Compiler<NoMacros>)
    requires
        a.program() == b.program(),
    ensures
        a.output() == b.output(),
{
}

} // verus!
