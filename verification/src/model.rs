//! What the generator emits, as a function of the tree.
//!
//! Rendering walks the tree in one fixed order and threads the set of
//! declared function names through the walk. Every rendering therefore has
//! two results: the text, or none where the construct cannot be rendered,
//! and the declared names after the walk, which are kept also where the
//! rendering fails.

use vstd::prelude::*;
use crate::ast::{ExprView, LiteralView, NumberView, StmtView};
use crate::decimal::int_text;
use crate::macros::MacroExpander;

verus! {

/// The outcome of rendering a part of the tree.
pub struct Rendered {
    /// The generated text, or `None` where the part cannot be rendered.
    pub text: Option<Seq<char>>,
    /// The function names that are declared after the part has been walked.
    pub scope: Set<Seq<char>>,
}

impl Rendered {
    /// A rendering that produced `text`.
    pub open spec fn ok(text: Seq<char>, scope: Set<Seq<char>>) -> Rendered {
        Rendered { text: Some(text), scope }
    }

    /// A rendering that produced nothing.
    pub open spec fn failed(scope: Set<Seq<char>>) -> Rendered {
        Rendered { text: None, scope }
    }

    /// This rendering behind the text `head`: a failure stays a failure.
    pub open spec fn after(self, head: Seq<char>) -> Rendered {
        match self.text {
            Some(text) => Rendered::ok(head + text, self.scope),
            None => self,
        }
    }

    /// This rendering before the text `tail`: a failure stays a failure.
    pub open spec fn before(self, tail: Seq<char>) -> Rendered {
        match self.text {
            Some(text) => Rendered::ok(text + tail, self.scope),
            None => self,
        }
    }
}

/// Putting a rendering behind `inner` and then behind `outer` puts it behind
/// the two texts joined.
pub proof fn lemma_after_after(r: Rendered, inner: Seq<char>, outer: Seq<char>)
    ensures
        r.after(inner).after(outer) == r.after(outer + inner),
{
    match r.text {
        Some(text) => {
            assert(outer + (inner + text) =~= (outer + inner) + text);
        },
        None => {},
    }
}

/// The first line of every generated program.
pub open spec fn banner() -> Seq<char> {
    "// Generated by uwu compiler v0.0\n"@
}

/// The separator behind item `i` of `len` items: a comma, but none behind
/// the last item.
pub open spec fn separator(i: int, len: int) -> Seq<char> {
    if i + 1 < len {
        ","@
    } else {
        Seq::empty()
    }
}

/// The text of a numeric literal.
pub open spec fn number_text(number: NumberView) -> Seq<char> {
    match number {
        NumberView::Int(value) => int_text(value),
        NumberView::Float(text) => text,
    }
}

/// The names `params[i..]`, separated by commas.
pub open spec fn param_list(params: Seq<Seq<char>>, i: int) -> Seq<char>
    decreases params.len() - i,
{
    if 0 <= i < params.len() {
        params[i] + separator(i, params.len() as int) + param_list(params, i + 1)
    } else {
        Seq::empty()
    }
}

/// The rendering of the expression `expr` where `scope` holds the declared
/// function names.
pub open spec fn render_expr<M: MacroExpander>(
    macros: &M,
    expr: ExprView,
    scope: Set<Seq<char>>,
) -> Rendered
    decreases expr, 0nat,
{
    match expr {
        ExprView::Let(name, value) => {
            render_expr(macros, *value, scope).after("let "@ + name + " = "@).before("; \n"@)
        },
        ExprView::Assign(target, value) => {
            let v = render_expr(macros, *value, scope);
            match v.text {
                Some(value_text) => render_expr(macros, *target, v.scope).before(
                    " = "@ + value_text + "; \n"@,
                ),
                None => v,
            }
        },
        ExprView::Prefix(op, operand) => render_expr(macros, *operand, scope).after(op.text()),
        ExprView::Infix(op, left, right) => {
            let l = render_expr(macros, *left, scope);
            match l.text {
                Some(left_text) => render_expr(macros, *right, l.scope).after(
                    left_text + op.text(),
                ),
                None => l,
            }
        },
        ExprView::Index(base, key) => {
            let b = render_expr(macros, *base, scope);
            match b.text {
                Some(base_text) => render_expr(macros, *key, b.scope).after(
                    base_text + "["@,
                ).before("]"@),
                None => b,
            }
        },
        ExprView::Accessor(base, names) => {
            let b = render_expr(macros, *base, scope);
            if names.len() > 0 {
                b.before("."@ + names[0])
            } else {
                Rendered::failed(b.scope)
            }
        },
        ExprView::Literal(literal) => render_literal(macros, literal, scope),
        ExprView::Ident(name) => Rendered::ok(name, scope),
        ExprView::Func { params, body, name } => match name {
            Some(name) => render_block(macros, body, 0, scope.insert(name)).after(
                "function "@ + name + "("@ + param_list(params, 0) + "){"@,
            ).before("}"@),
            None => Rendered::ok(Seq::empty(), scope),
        },
        ExprView::Call { func, args } => {
            let f = render_expr(macros, *func, scope);
            match f.text {
                Some(callee) => if f.scope.contains(callee) {
                    render_args(macros, args, 0, f.scope).after(callee + "("@).before(");"@)
                } else {
                    Rendered::failed(f.scope)
                },
                None => f,
            }
        },
        ExprView::Macro { name, args } => {
            let n = render_expr(macros, *name, scope);
            match n.text {
                Some(macro_name) => Rendered {
                    text: macros.expansion(macro_name, args),
                    scope: n.scope,
                },
                None => n,
            }
        },
        ExprView::Regexp { pattern, flags } => render_expr(macros, *pattern, scope).after(
            "/"@,
        ).before(
            "/"@ + match flags {
                Some(flags) => flags,
                None => Seq::empty(),
            },
        ),
        ExprView::While { cond, consequence } => {
            let c = render_expr(macros, *cond, scope);
            match c.text {
                Some(cond_text) => render_block(macros, consequence, 0, c.scope).after(
                    "while("@ + cond_text + "){"@,
                ).before("}"@),
                None => c,
            }
        },
        ExprView::If { cond, consequence, alternative } => {
            let c = render_expr(macros, *cond, scope);
            match c.text {
                Some(cond_text) => {
                    let then = render_block(macros, consequence, 0, c.scope).after(
                        "if("@ + cond_text + "){"@,
                    ).before("}"@);
                    match (then.text, alternative) {
                        (Some(then_text), Some(alternative)) => render_block(
                            macros,
                            alternative,
                            0,
                            then.scope,
                        ).after(then_text + "else{"@).before("}"@),
                        _ => then,
                    }
                },
                None => c,
            }
        },
    }
}

/// The rendering of the literal `literal`. It never fails.
pub open spec fn render_literal<M: MacroExpander>(
    macros: &M,
    literal: LiteralView,
    scope: Set<Seq<char>>,
) -> Rendered
    decreases literal, 0nat,
{
    match literal {
        LiteralView::Number(number) => Rendered::ok(number_text(number), scope),
        LiteralView::String(text) => Rendered::ok(text, scope),
        LiteralView::Bool(value) => Rendered::ok(
            if value {
                "true"@
            } else {
                "false"@
            },
            scope,
        ),
        LiteralView::Array(elements) => render_elements(macros, elements, 0, scope).after(
            "["@,
        ).before("]"@),
        LiteralView::Hash(entries) => render_entries(macros, entries, 0, scope).after("{"@).before(
            "}"@,
        ),
    }
}

/// The rendering of the call arguments `args[i..]`, separated by commas. It
/// fails at the first argument that fails.
pub open spec fn render_args<M: MacroExpander>(
    macros: &M,
    args: Seq<ExprView>,
    i: int,
    scope: Set<Seq<char>>,
) -> Rendered
    decreases args, args.len() - i,
{
    if 0 <= i < args.len() {
        let arg = render_expr(macros, args[i], scope);
        match arg.text {
            Some(text) => render_args(macros, args, i + 1, arg.scope).after(
                text + separator(i, args.len() as int),
            ),
            None => arg,
        }
    } else {
        Rendered::ok(Seq::empty(), scope)
    }
}

/// The rendering of the array elements `elements[i..]`. An element that fails
/// is left out, with its separator.
pub open spec fn render_elements<M: MacroExpander>(
    macros: &M,
    elements: Seq<ExprView>,
    i: int,
    scope: Set<Seq<char>>,
) -> Rendered
    decreases elements, elements.len() - i,
{
    if 0 <= i < elements.len() {
        let element = render_expr(macros, elements[i], scope);
        let rest = render_elements(macros, elements, i + 1, element.scope);
        match element.text {
            Some(text) => rest.after(text + separator(i, elements.len() as int)),
            None => rest,
        }
    } else {
        Rendered::ok(Seq::empty(), scope)
    }
}

/// The rendering of the map entries `entries[i..]`. The value of an entry is
/// rendered before its key, and the key only where the value did not fail. An
/// entry of which either fails is left out, with its separator.
pub open spec fn render_entries<M: MacroExpander>(
    macros: &M,
    entries: Seq<(ExprView, ExprView)>,
    i: int,
    scope: Set<Seq<char>>,
) -> Rendered
    decreases entries, entries.len() - i,
{
    if 0 <= i < entries.len() {
        let value = render_expr(macros, entries[i].1, scope);
        match value.text {
            Some(value_text) => {
                let key = render_expr(macros, entries[i].0, value.scope);
                let rest = render_entries(macros, entries, i + 1, key.scope);
                match key.text {
                    Some(key_text) => rest.after(
                        key_text + ":"@ + value_text + separator(i, entries.len() as int),
                    ),
                    None => rest,
                }
            },
            None => render_entries(macros, entries, i + 1, value.scope),
        }
    } else {
        Rendered::ok(Seq::empty(), scope)
    }
}

/// The rendering of the statements `stmts[i..]` of a block. It ends behind
/// the first blank statement, and fails at the first statement that fails.
pub open spec fn render_block<M: MacroExpander>(
    macros: &M,
    stmts: Seq<StmtView>,
    i: int,
    scope: Set<Seq<char>>,
) -> Rendered
    decreases stmts, stmts.len() - i,
{
    if 0 <= i < stmts.len() {
        match stmts[i] {
            StmtView::Blank => Rendered::ok("\n"@, scope),
            StmtView::Expr(expr) => {
                let stmt = render_expr(macros, expr, scope);
                match stmt.text {
                    Some(text) => render_block(macros, stmts, i + 1, stmt.scope).after(text),
                    None => stmt,
                }
            },
            StmtView::Return(expr) => {
                let stmt = render_expr(macros, expr, scope);
                match stmt.text {
                    Some(text) => render_block(macros, stmts, i + 1, stmt.scope).after(
                        "return "@ + text,
                    ),
                    None => stmt,
                }
            },
        }
    } else {
        Rendered::ok(Seq::empty(), scope)
    }
}

/// The text of the top-level statements `stmts[i..]`. It ends behind the
/// first blank statement. A statement that fails, and one that is no
/// expression statement, adds nothing.
pub open spec fn render_program<M: MacroExpander>(
    macros: &M,
    stmts: Seq<StmtView>,
    i: int,
    scope: Set<Seq<char>>,
) -> Seq<char>
    decreases stmts.len() - i,
{
    if 0 <= i < stmts.len() {
        match stmts[i] {
            StmtView::Blank => "\n"@,
            StmtView::Expr(expr) => {
                let stmt = render_expr(macros, expr, scope);
                match stmt.text {
                    Some(text) => text + render_program(macros, stmts, i + 1, stmt.scope),
                    None => render_program(macros, stmts, i + 1, stmt.scope),
                }
            },
            StmtView::Return(_) => render_program(macros, stmts, i + 1, scope),
        }
    } else {
        Seq::empty()
    }
}

/// The text generated for the program `stmts`: the banner, then the
/// top-level statements rendered from an empty scope.
pub open spec fn program_text<M: MacroExpander>(macros: &M, stmts: Seq<StmtView>) -> Seq<char> {
    banner() + render_program(macros, stmts, 0, Set::empty())
}

} // verus!
