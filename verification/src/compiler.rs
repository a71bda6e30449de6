//! The generator: the recursive walk that turns a program into text.

use vstd::prelude::*;
use crate::ast::{
    block_view, entries_view, exprs_view, names_view, BlockStmt, Expr, Ident, Literal, Number,
    Program, Stmt, StmtView,
};
use crate::decimal::format_int;
use crate::env::Env;
use crate::macros::{text_of, MacroExpander, NoMacros};
use crate::model::{
    lemma_after_after, number_text, param_list, program_text, render_args, render_block,
    render_elements, render_entries, render_expr, render_literal, render_program, separator,
    Rendered,
};

verus! {

/// What a renderer hands back, as a rendering: the text it returned and the
/// names that the scope table holds when it returns.
pub open spec fn outcome(out: Option<String>, scope: Env) -> Rendered {
    Rendered { text: text_of(out), scope: scope@ }
}

/// A generator for one program.
pub struct Compiler<M: MacroExpander> {
    ast: Program,
    macros: M,
}

impl Compiler<NoMacros> {
    /// Creates a generator for the program `ast` that knows no macro.
    pub fn new(ast: Program) -> (compiler: Self)
        ensures
            compiler.program() == block_view(ast@),
    {
        Compiler { ast, macros: NoMacros }
    }
}

impl<M: MacroExpander> Compiler<M> {
    /// The top-level statements of the program.
    pub closed spec fn program(&self) -> Seq<StmtView> {
        block_view(self.ast@)
    }

    /// The macro expander that the generator asks.
    pub closed spec fn macros(&self) -> &M {
        &self.macros
    }

    /// The text that the generator emits for its program.
    pub open spec fn output(&self) -> Seq<char> {
        program_text(self.macros(), self.program())
    }

    /// Creates a generator for the program `ast` that asks `macros` for the
    /// expansion of macro calls.
    pub fn with_macros(ast: Program, macros: M) -> (compiler: Self)
        ensures
            compiler.program() == block_view(ast@),
            *compiler.macros() == macros,
    {
        Compiler { ast, macros }
    }

    /// Generates the text of the program: the banner, then the top-level
    /// statements in order, up to the first blank statement. Every pass
    /// starts from an empty scope table.
    pub fn compile(&self) -> (out: String)
        ensures
            out@ == self.output(),
    {
        let mut scope = Env::new();
        let mut source = String::from_str("// Generated by uwu compiler v0.0\n");
        let mut i: usize = 0;
        while i < self.ast.len()
            invariant
                i <= self.ast@.len(),
                self.output() == source@ + render_program(
                    self.macros(),
                    block_view(self.ast@),
                    i as int,
                    scope@,
                ),
            decreases self.ast@.len() - i,
        {
            match &self.ast[i] {
                Stmt::Blank => {
                    source.append("\n");
                    return source;
                },
                Stmt::Expr(expr) => {
                    let ghost before = source@;
                    match self.compile_expr(expr, &mut scope) {
                        Some(text) => {
                            source.append(text.as_str());
                            let ghost rest = render_program(
                                self.macros(),
                                block_view(self.ast@),
                                i + 1,
                                scope@,
                            );
                            assert(before + (text@ + rest) =~= source@ + rest);
                        },
                        None => {},
                    }
                },
                Stmt::Return(_) => {},
            }
            i += 1;
        }
        assert(source@ + Seq::<char>::empty() =~= source@);
        source
    }

    /// Renders the statements of a block, up to the first blank statement.
    /// The block is rendered whole or not at all: `None` comes back where a
    /// statement cannot be rendered.
    pub fn compile_block(&self, ast: &BlockStmt, scope: &mut Env) -> (out: Option<String>)
        ensures
            outcome(out, *final(scope)) == render_block(
                self.macros(),
                block_view(ast@),
                0,
                old(scope)@,
            ),
        decreases ast,
    {
        let ghost stmts = block_view(ast@);
        let mut source = String::new();
        let mut i: usize = 0;
        assert(render_block(self.macros(), stmts, 0, scope@).after(source@) =~~= render_block(
            self.macros(),
            stmts,
            0,
            scope@,
        ));
        while i < ast.len()
            invariant
                i <= ast@.len(),
                stmts == block_view(ast@),
                render_block(self.macros(), stmts, 0, old(scope)@) == render_block(
                    self.macros(),
                    stmts,
                    i as int,
                    scope@,
                ).after(source@),
            decreases ast@.len() - i,
        {
            let ghost before = source@;
            match &ast[i] {
                Stmt::Blank => {
                    source.append("\n");
                    return Some(source);
                },
                Stmt::Expr(expr) => {
                    match self.compile_expr(expr, scope) {
                        Some(text) => {
                            source.append(text.as_str());
                            proof {
                                lemma_after_after(
                                    render_block(self.macros(), stmts, i + 1, scope@),
                                    text@,
                                    before,
                                );
                            }
                        },
                        None => {
                            return None;
                        },
                    }
                },
                Stmt::Return(expr) => {
                    match self.compile_expr(expr, scope) {
                        Some(text) => {
                            source.append("return ");
                            source.append(text.as_str());
                            proof {
                                lemma_after_after(
                                    render_block(self.macros(), stmts, i + 1, scope@),
                                    "return "@ + text@,
                                    before,
                                );
                                assert(source@ =~= before + ("return "@ + text@));
                            }
                        },
                        None => {
                            return None;
                        },
                    }
                },
            }
            i += 1;
        }
        assert(source@ + Seq::<char>::empty() =~= source@);
        Some(source)
    }

    /// Renders one expression. `None` comes back where the expression, or a
    /// part of it that it cannot do without, cannot be rendered. A named
    /// function literal registers its name in `scope`; a call is rendered
    /// only where `scope` holds the text of its callee.
    pub fn compile_expr(&self, expr: &Expr, scope: &mut Env) -> (out: Option<String>)
        ensures
            outcome(out, *final(scope)) == render_expr(self.macros(), expr@, old(scope)@),
        decreases expr,
    {
        match expr {
            Expr::Let(ident, value) => {
                match self.compile_expr(value, scope) {
                    Some(value_text) => {
                        let mut source = String::from_str("let ");
                        source.append(ident.0.as_str());
                        source.append(" = ");
                        source.append(value_text.as_str());
                        source.append("; \n");
                        assert(source@ =~= ("let "@ + ident.0@ + " = "@) + value_text@ + "; \n"@);
                        Some(source)
                    },
                    None => None,
                }
            },
            Expr::Assign(target, value) => {
                match self.compile_expr(value, scope) {
                    Some(value_text) => match self.compile_expr(target, scope) {
                        Some(target_text) => {
                            let mut source = target_text;
                            source.append(" = ");
                            source.append(value_text.as_str());
                            source.append("; \n");
                            assert(source@ =~= target_text@ + (" = "@ + value_text@ + "; \n"@));
                            Some(source)
                        },
                        None => None,
                    },
                    None => None,
                }
            },
            Expr::Prefix(op, operand) => {
                match self.compile_expr(operand, scope) {
                    Some(operand_text) => {
                        let mut source = String::from_str(op.as_str());
                        source.append(operand_text.as_str());
                        Some(source)
                    },
                    None => None,
                }
            },
            Expr::Infix(op, left, right) => {
                match self.compile_expr(left, scope) {
                    Some(left_text) => match self.compile_expr(right, scope) {
                        Some(right_text) => {
                            let mut source = left_text;
                            source.append(op.as_str());
                            source.append(right_text.as_str());
                            Some(source)
                        },
                        None => None,
                    },
                    None => None,
                }
            },
            Expr::Index(base, key) => {
                match self.compile_expr(base, scope) {
                    Some(base_text) => match self.compile_expr(key, scope) {
                        Some(key_text) => {
                            let mut source = base_text;
                            source.append("[");
                            source.append(key_text.as_str());
                            source.append("]");
                            Some(source)
                        },
                        None => None,
                    },
                    None => None,
                }
            },
            Expr::Accessor(base, names) => {
                match self.compile_expr(base, scope) {
                    Some(base_text) => {
                        if names.len() > 0 {
                            let mut source = base_text;
                            source.append(".");
                            source.append(names[0].0.as_str());
                            assert(source@ =~= base_text@ + ("."@ + names@[0].0@));
                            Some(source)
                        } else {
                            None
                        }
                    },
                    None => None,
                }
            },
            Expr::Literal(literal) => self.compile_literal(literal, scope),
            Expr::Ident(ident) => Some(ident.0.clone()),
            Expr::Func { params, body, name } => {
                match name {
                    Some(ident) => {
                        scope.add(ident.0.clone());
                        let mut source = String::from_str("function ");
                        source.append(ident.0.as_str());
                        source.append("(");
                        let names = Self::compile_params(params);
                        source.append(names.as_str());
                        source.append("){");
                        match self.compile_block(body, scope) {
                            Some(body_text) => {
                                source.append(body_text.as_str());
                                source.append("}");
                                assert(source@ =~= ("function "@ + ident.0@ + "("@ + param_list(
                                    names_view(params@),
                                    0,
                                ) + "){"@) + body_text@ + "}"@);
                                Some(source)
                            },
                            None => None,
                        }
                    },
                    None => Some(String::new()),
                }
            },
            Expr::Call { func, args } => {
                match self.compile_expr(func, scope) {
                    Some(callee) => {
                        if !scope.has(&callee) {
                            return None;
                        }
                        match self.compile_args(args, scope) {
                            Some(args_text) => {
                                let mut source = callee;
                                source.append("(");
                                source.append(args_text.as_str());
                                source.append(");");
                                Some(source)
                            },
                            None => None,
                        }
                    },
                    None => None,
                }
            },
            Expr::Macro { name, args } => {
                match self.compile_expr(name, scope) {
                    Some(macro_name) => self.macros.expand(macro_name.as_str(), args),
                    None => None,
                }
            },
            Expr::Regexp { pattern, flags } => {
                match self.compile_expr(pattern, scope) {
                    Some(pattern_text) => {
                        let mut source = String::from_str("/");
                        source.append(pattern_text.as_str());
                        source.append("/");
                        match flags {
                            Some(ident) => {
                                source.append(ident.0.as_str());
                                assert(source@ =~= "/"@ + pattern_text@ + ("/"@ + ident.0@));
                            },
                            None => {
                                assert(source@ =~= "/"@ + pattern_text@ + ("/"@
                                    + Seq::<char>::empty()));
                            },
                        }
                        Some(source)
                    },
                    None => None,
                }
            },
            Expr::While { cond, consequence } => {
                match self.compile_expr(cond, scope) {
                    Some(cond_text) => match self.compile_block(consequence, scope) {
                        Some(body_text) => {
                            let mut source = String::from_str("while(");
                            source.append(cond_text.as_str());
                            source.append("){");
                            source.append(body_text.as_str());
                            source.append("}");
                            Some(source)
                        },
                        None => None,
                    },
                    None => None,
                }
            },
            Expr::If { cond, consequence, alternative } => {
                match self.compile_expr(cond, scope) {
                    Some(cond_text) => match self.compile_block(consequence, scope) {
                        Some(body_text) => {
                            let mut source = String::from_str("if(");
                            source.append(cond_text.as_str());
                            source.append("){");
                            source.append(body_text.as_str());
                            source.append("}");
                            match alternative {
                                Some(alternative) => {
                                    let ghost then_text = source@;
                                    match self.compile_block(alternative, scope) {
                                        Some(else_text) => {
                                            source.append("else{");
                                            source.append(else_text.as_str());
                                            source.append("}");
                                            assert(source@ =~= (then_text + "else{"@)
                                                + else_text@ + "}"@);
                                            Some(source)
                                        },
                                        None => None,
                                    }
                                },
                                None => Some(source),
                            }
                        },
                        None => None,
                    },
                    None => None,
                }
            },
        }
    }

    /// Renders a literal. A literal is always rendered: an element of an
    /// array, or an entry of a map, that cannot be rendered is left out.
    pub fn compile_literal(&self, literal: &Literal, scope: &mut Env) -> (out: Option<String>)
        ensures
            out is Some,
            outcome(out, *final(scope)) == render_literal(self.macros(), literal@, old(scope)@),
        decreases literal,
    {
        match literal {
            Literal::Number(number) => Some(self.compile_number(number)),
            Literal::String(text) => Some(text.clone()),
            Literal::Bool(value) => {
                if *value {
                    Some(String::from_str("true"))
                } else {
                    Some(String::from_str("false"))
                }
            },
            Literal::Array(elements) => {
                let mut source = String::from_str("[");
                let inner = self.compile_elements(elements, scope);
                source.append(inner.as_str());
                source.append("]");
                Some(source)
            },
            Literal::Hash(entries) => {
                let mut source = String::from_str("{");
                let inner = self.compile_entries(entries, scope);
                source.append(inner.as_str());
                source.append("}");
                Some(source)
            },
        }
    }

    /// Renders a numeric literal: an integer as its canonical decimal text, a
    /// floating-point number as the text it is held as.
    pub fn compile_number(&self, val: &Number) -> (out: String)
        ensures
            out@ == number_text(val@),
    {
        match val {
            Number::Int(value) => format_int(*value),
            Number::Float(text) => text.clone(),
        }
    }

    /// Writes the parameter names of a function, separated by commas.
    fn compile_params(params: &Vec<Ident>) -> (out: String)
        ensures
            out@ == param_list(names_view(params@), 0),
    {
        let ghost names = names_view(params@);
        let mut source = String::new();
        let mut i: usize = 0;
        assert(source@ + param_list(names, 0) =~= param_list(names, 0));
        while i < params.len()
            invariant
                i <= params@.len(),
                names == names_view(params@),
                param_list(names, 0) == source@ + param_list(names, i as int),
            decreases params@.len() - i,
        {
            let ghost before = source@;
            source.append(params[i].0.as_str());
            if i + 1 < params.len() {
                source.append(",");
            }
            assert(source@ + param_list(names, i + 1) =~= before + param_list(names, i as int));
            i += 1;
        }
        assert(source@ + Seq::<char>::empty() =~= source@);
        source
    }

    /// Renders the arguments of a call, separated by commas. `None` comes
    /// back where an argument cannot be rendered.
    fn compile_args(&self, args: &Vec<Expr>, scope: &mut Env) -> (out: Option<String>)
        ensures
            outcome(out, *final(scope)) == render_args(
                self.macros(),
                exprs_view(args@),
                0,
                old(scope)@,
            ),
        decreases args,
    {
        let ghost items = exprs_view(args@);
        let mut source = String::new();
        let mut i: usize = 0;
        assert(render_args(self.macros(), items, 0, scope@).after(source@) =~~= render_args(
            self.macros(),
            items,
            0,
            scope@,
        ));
        while i < args.len()
            invariant
                i <= args@.len(),
                items == exprs_view(args@),
                render_args(self.macros(), items, 0, old(scope)@) == render_args(
                    self.macros(),
                    items,
                    i as int,
                    scope@,
                ).after(source@),
            decreases args@.len() - i,
        {
            let ghost before = source@;
            match self.compile_expr(&args[i], scope) {
                Some(text) => {
                    source.append(text.as_str());
                    if i + 1 < args.len() {
                        source.append(",");
                    }
                    proof {
                        let piece = text@ + separator(i as int, args@.len() as int);
                        lemma_after_after(
                            render_args(self.macros(), items, i + 1, scope@),
                            piece,
                            before,
                        );
                        assert(source@ =~= before + piece);
                    }
                },
                None => {
                    return None;
                },
            }
            i += 1;
        }
        assert(source@ + Seq::<char>::empty() =~= source@);
        Some(source)
    }

    /// Renders the elements of an array literal, separated by commas. An
    /// element that cannot be rendered is left out.
    fn compile_elements(&self, elements: &Vec<Expr>, scope: &mut Env) -> (out: String)
        ensures
            Rendered::ok(out@, final(scope)@) == render_elements(
                self.macros(),
                exprs_view(elements@),
                0,
                old(scope)@,
            ),
        decreases elements,
    {
        let ghost items = exprs_view(elements@);
        let mut source = String::new();
        let mut i: usize = 0;
        assert(render_elements(self.macros(), items, 0, scope@).after(source@)
            =~~= render_elements(self.macros(), items, 0, scope@));
        while i < elements.len()
            invariant
                i <= elements@.len(),
                items == exprs_view(elements@),
                render_elements(self.macros(), items, 0, old(scope)@) == render_elements(
                    self.macros(),
                    items,
                    i as int,
                    scope@,
                ).after(source@),
            decreases elements@.len() - i,
        {
            let ghost before = source@;
            match self.compile_expr(&elements[i], scope) {
                Some(text) => {
                    source.append(text.as_str());
                    if i + 1 < elements.len() {
                        source.append(",");
                    }
                    proof {
                        let piece = text@ + separator(i as int, elements@.len() as int);
                        lemma_after_after(
                            render_elements(self.macros(), items, i + 1, scope@),
                            piece,
                            before,
                        );
                        assert(source@ =~= before + piece);
                    }
                },
                None => {},
            }
            i += 1;
        }
        assert(source@ + Seq::<char>::empty() =~= source@);
        source
    }

    /// Renders the entries of a map literal, separated by commas. The value
    /// of an entry is rendered before its key. An entry of which either
    /// cannot be rendered is left out.
    fn compile_entries(&self, entries: &Vec<(Expr, Expr)>, scope: &mut Env) -> (out: String)
        ensures
            Rendered::ok(out@, final(scope)@) == render_entries(
                self.macros(),
                entries_view(entries@),
                0,
                old(scope)@,
            ),
        decreases entries,
    {
        let ghost items = entries_view(entries@);
        let mut source = String::new();
        let mut i: usize = 0;
        assert(render_entries(self.macros(), items, 0, scope@).after(source@) =~~= render_entries(
            self.macros(),
            items,
            0,
            scope@,
        ));
        while i < entries.len()
            invariant
                i <= entries@.len(),
                items == entries_view(entries@),
                render_entries(self.macros(), items, 0, old(scope)@) == render_entries(
                    self.macros(),
                    items,
                    i as int,
                    scope@,
                ).after(source@),
            decreases entries@.len() - i,
        {
            let ghost before = source@;
            match self.compile_expr(&entries[i].1, scope) {
                Some(value_text) => match self.compile_expr(&entries[i].0, scope) {
                    Some(key_text) => {
                        source.append(key_text.as_str());
                        source.append(":");
                        source.append(value_text.as_str());
                        if i + 1 < entries.len() {
                            source.append(",");
                        }
                        proof {
                            let piece = key_text@ + ":"@ + value_text@ + separator(
                                i as int,
                                entries@.len() as int,
                            );
                            lemma_after_after(
                                render_entries(self.macros(), items, i + 1, scope@),
                                piece,
                                before,
                            );
                            assert(source@ =~= before + piece);
                        }
                    },
                    None => {},
                },
                None => {},
            }
            i += 1;
        }
        assert(source@ + Seq::<char>::empty() =~= source@);
        source
    }
}

} // verus!
