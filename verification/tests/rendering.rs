//! Single constructs: what each renders as, and what happens where a part
//! of it cannot be rendered.

use uwu::ast::{Expr, Ident, Infix, Literal, Number, Prefix, Program, Stmt};
use uwu::compiler::Compiler;
use uwu::env::Env;
use uwu::macros::{MacroExpander, MacroTable, NoMacros};

const BANNER: &str = "// Generated by uwu compiler v0.0\n";

fn compile(ast: Program) -> String {
    Compiler::new(ast).compile()
}

fn body_of(ast: Program) -> String {
    let out = compile(ast);
    assert!(out.starts_with(BANNER));
    out[BANNER.len()..].to_string()
}

fn ident(name: &str) -> Ident {
    Ident(name.to_string())
}

fn var(name: &str) -> Expr {
    Expr::Ident(ident(name))
}

fn integer(value: i64) -> Expr {
    Expr::Literal(Literal::Number(Number::Int(value)))
}

fn func(name: &str, params: &[&str], body: Vec<Stmt>) -> Expr {
    Expr::Func { params: params.iter().map(|p| ident(p)).collect(), body, name: Some(ident(name)) }
}

fn call(name: &str, args: Vec<Expr>) -> Expr {
    Expr::Call { func: Box::new(var(name)), args }
}

fn missing() -> Expr {
    call("missing", vec![])
}

fn stmt(expr: Expr) -> Stmt {
    Stmt::Expr(expr)
}

fn generator() -> Compiler<NoMacros> {
    Compiler::new(vec![])
}

#[test]
fn empty_program_is_the_banner() {
    assert_eq!(compile(vec![]), "// Generated by uwu compiler v0.0\n");
}

#[test]
fn undeclared_call_renders_nothing() {
    assert_eq!(body_of(vec![stmt(call("add", vec![integer(1), integer(2)]))]), "");
    let mut scope = Env::new();
    let out = generator().compile_expr(&call("add", vec![]), &mut scope);
    assert_eq!(out, None);
}

#[test]
fn call_before_declaration_is_dropped() {
    let ast = vec![stmt(call("add", vec![])), stmt(func("add", &[], vec![]))];
    assert_eq!(body_of(ast), "function add(){}");
}

#[test]
fn function_may_call_itself() {
    let ast = vec![stmt(func("loop_", &["n"], vec![stmt(call("loop_", vec![var("n")]))]))];
    assert_eq!(body_of(ast), "function loop_(n){loop_(n);}");
}

#[test]
fn nested_function_name_is_visible_outside() {
    let ast = vec![
        stmt(func("outer", &[], vec![stmt(func("inner", &[], vec![]))])),
        stmt(call("inner", vec![])),
    ];
    assert_eq!(body_of(ast), "function outer(){function inner(){}}inner();");
}

#[test]
fn failed_body_keeps_the_name_declared() {
    let ast = vec![
        stmt(func("f", &[], vec![stmt(missing())])),
        stmt(call("f", vec![])),
    ];
    assert_eq!(body_of(ast), "f();");
}

#[test]
fn anonymous_function_vanishes() {
    let anonymous = Expr::Func { params: vec![ident("x")], body: vec![], name: None };
    let mut scope = Env::new();
    assert_eq!(generator().compile_expr(&anonymous, &mut scope), Some(String::new()));
    let ast = vec![stmt(Expr::Let(
        ident("f"),
        Box::new(Expr::Func { params: vec![], body: vec![stmt(missing())], name: None }),
    ))];
    assert_eq!(body_of(ast), "let f = ; \n");
}

#[test]
fn failing_argument_fails_the_call() {
    let ast = vec![
        stmt(func("f", &[], vec![])),
        stmt(call("f", vec![integer(1), missing(), integer(3)])),
    ];
    assert_eq!(body_of(ast), "function f(){}");
}

#[test]
fn callee_text_is_the_lookup_key() {
    let mut scope = Env::new();
    scope.add("a.b".to_string());
    let callee = Expr::Accessor(Box::new(var("a")), vec![ident("b")]);
    let by_text = Expr::Call { func: Box::new(callee), args: vec![] };
    let out = generator().compile_expr(&by_text, &mut scope);
    assert_eq!(out, Some("a.b();".to_string()));
}

#[test]
fn blank_ends_the_program() {
    let ast = vec![
        stmt(var("a")),
        Stmt::Blank,
        stmt(var("b")),
        Stmt::Blank,
    ];
    assert_eq!(body_of(ast), "a\n");
}

#[test]
fn blank_ends_a_block() {
    let body = vec![stmt(var("a")), Stmt::Blank, stmt(missing()), Stmt::Return(var("b"))];
    let mut scope = Env::new();
    assert_eq!(generator().compile_block(&body, &mut scope), Some("a\n".to_string()));
    let ast = vec![stmt(func("f", &[], vec![Stmt::Blank, stmt(var("x"))]))];
    assert_eq!(body_of(ast), "function f(){\n}");
}

#[test]
fn block_is_all_or_nothing() {
    let body = vec![stmt(var("a")), stmt(missing()), stmt(var("b"))];
    let mut scope = Env::new();
    assert_eq!(generator().compile_block(&body, &mut scope), None);
    let failing_return = vec![Stmt::Return(missing())];
    assert_eq!(generator().compile_block(&failing_return, &mut scope), None);
    let empty: Vec<Stmt> = vec![];
    assert_eq!(generator().compile_block(&empty, &mut scope), Some(String::new()));
}

#[test]
fn return_at_top_level_adds_nothing() {
    let ast = vec![Stmt::Return(var("a")), stmt(var("b"))];
    assert_eq!(body_of(ast), "b");
}

#[test]
fn return_in_a_block() {
    let body = vec![Stmt::Return(var("a")), Stmt::Return(integer(2))];
    let mut scope = Env::new();
    assert_eq!(generator().compile_block(&body, &mut scope), Some("return areturn 2".to_string()));
}

#[test]
fn failing_top_level_statement_is_dropped() {
    let ast = vec![stmt(var("a")), stmt(missing()), stmt(var("b"))];
    assert_eq!(body_of(ast), "ab");
}

#[test]
fn let_and_assign() {
    let mut scope = Env::new();
    let g = generator();
    let binding = Expr::Let(ident("a"), Box::new(integer(1)));
    assert_eq!(g.compile_expr(&binding, &mut scope), Some("let a = 1; \n".to_string()));
    let target = Expr::Index(Box::new(var("a")), Box::new(integer(0)));
    let assign = Expr::Assign(Box::new(target), Box::new(var("b")));
    assert_eq!(g.compile_expr(&assign, &mut scope), Some("a[0] = b; \n".to_string()));
    let failing = Expr::Let(ident("a"), Box::new(missing()));
    assert_eq!(g.compile_expr(&failing, &mut scope), None);
}

#[test]
fn assign_renders_its_value_first() {
    let assign = Expr::Assign(Box::new(call("f", vec![])), Box::new(func("f", &[], vec![])));
    let mut scope = Env::new();
    assert_eq!(
        generator().compile_expr(&assign, &mut scope),
        Some("f(); = function f(){}; \n".to_string())
    );
}

#[test]
fn infix_renders_left_before_right() {
    let declared_late =
        Expr::Infix(Infix::Plus, Box::new(call("f", vec![])), Box::new(func("f", &[], vec![])));
    let mut scope = Env::new();
    assert_eq!(generator().compile_expr(&declared_late, &mut scope), None);
    assert!(!scope.has(&"f".to_string()));
    let declared_first =
        Expr::Infix(Infix::Plus, Box::new(func("f", &[], vec![])), Box::new(call("f", vec![])));
    assert_eq!(
        generator().compile_expr(&declared_first, &mut scope),
        Some("function f(){}+f();".to_string())
    );
    assert!(scope.has(&"f".to_string()));
}

#[test]
fn operators_have_no_space_around_them() {
    let g = generator();
    let mut scope = Env::new();
    let infixes = [
        (Infix::Plus, "a+b"),
        (Infix::Minus, "a-b"),
        (Infix::Divide, "a/b"),
        (Infix::Multiply, "a*b"),
        (Infix::Equal, "a==b"),
        (Infix::NotEqual, "a!=b"),
        (Infix::GreaterThanEqual, "a>=b"),
        (Infix::GreaterThan, "a>b"),
        (Infix::LessThanEqual, "a<=b"),
        (Infix::LessThan, "a<b"),
    ];
    for (op, expected) in infixes {
        let expr = Expr::Infix(op, Box::new(var("a")), Box::new(var("b")));
        assert_eq!(g.compile_expr(&expr, &mut scope), Some(expected.to_string()));
    }
    let prefixes = [(Prefix::Plus, "+a"), (Prefix::Minus, "-a"), (Prefix::Not, "!a")];
    for (op, expected) in prefixes {
        let expr = Expr::Prefix(op, Box::new(var("a")));
        assert_eq!(g.compile_expr(&expr, &mut scope), Some(expected.to_string()));
    }
    assert_eq!(Infix::NotEqual.as_str(), "!=");
    assert_eq!(Prefix::Not.as_str(), "!");
}

#[test]
fn accessor_uses_its_first_segment() {
    let g = generator();
    let mut scope = Env::new();
    let access = Expr::Accessor(Box::new(var("a")), vec![ident("b"), ident("c")]);
    assert_eq!(g.compile_expr(&access, &mut scope), Some("a.b".to_string()));
    let empty = Expr::Accessor(Box::new(var("a")), vec![]);
    assert_eq!(g.compile_expr(&empty, &mut scope), None);
}

#[test]
fn regexp_with_and_without_flags() {
    let g = generator();
    let mut scope = Env::new();
    let with = Expr::Regexp { pattern: Box::new(var("ab+c")), flags: Some(ident("gi")) };
    assert_eq!(g.compile_expr(&with, &mut scope), Some("/ab+c/gi".to_string()));
    let without = Expr::Regexp { pattern: Box::new(var("ab+c")), flags: None };
    assert_eq!(g.compile_expr(&without, &mut scope), Some("/ab+c/".to_string()));
}

#[test]
fn if_without_else_has_no_else() {
    let g = generator();
    let mut scope = Env::new();
    let plain = Expr::If {
        cond: Box::new(var("x")),
        consequence: vec![stmt(var("a"))],
        alternative: None,
    };
    assert_eq!(g.compile_expr(&plain, &mut scope), Some("if(x){a}".to_string()));
    let both = Expr::If {
        cond: Box::new(var("x")),
        consequence: vec![stmt(var("a"))],
        alternative: Some(vec![Stmt::Return(var("b"))]),
    };
    assert_eq!(g.compile_expr(&both, &mut scope), Some("if(x){a}else{return b}".to_string()));
    let failing = Expr::If {
        cond: Box::new(var("x")),
        consequence: vec![],
        alternative: Some(vec![stmt(missing())]),
    };
    assert_eq!(g.compile_expr(&failing, &mut scope), None);
}

#[test]
fn while_fails_with_its_parts() {
    let g = generator();
    let mut scope = Env::new();
    let ok = Expr::While { cond: Box::new(var("x")), consequence: vec![stmt(var("a"))] };
    assert_eq!(g.compile_expr(&ok, &mut scope), Some("while(x){a}".to_string()));
    let bad_cond = Expr::While { cond: Box::new(missing()), consequence: vec![] };
    assert_eq!(g.compile_expr(&bad_cond, &mut scope), None);
    let bad_body = Expr::While { cond: Box::new(var("x")), consequence: vec![stmt(missing())] };
    assert_eq!(g.compile_expr(&bad_body, &mut scope), None);
}

#[test]
fn literals() {
    let g = generator();
    let mut scope = Env::new();
    assert_eq!(g.compile_literal(&Literal::Bool(true), &mut scope), Some("true".to_string()));
    assert_eq!(g.compile_literal(&Literal::Bool(false), &mut scope), Some("false".to_string()));
    assert_eq!(
        g.compile_literal(&Literal::String("'it\"s'".to_string()), &mut scope),
        Some("'it\"s'".to_string())
    );
    assert_eq!(
        g.compile_literal(&Literal::String("bare".to_string()), &mut scope),
        Some("bare".to_string())
    );
    assert_eq!(g.compile_literal(&Literal::Array(vec![]), &mut scope), Some("[]".to_string()));
    assert_eq!(g.compile_literal(&Literal::Hash(vec![]), &mut scope), Some("{}".to_string()));
    assert_eq!(
        g.compile_literal(&Literal::Number(Number::Int(-12)), &mut scope),
        Some("-12".to_string())
    );
}

#[test]
fn numbers() {
    let g = generator();
    assert_eq!(g.compile_number(&Number::Int(0)), "0");
    assert_eq!(g.compile_number(&Number::Int(42)), "42");
    assert_eq!(g.compile_number(&Number::Int(-7)), "-7");
    assert_eq!(g.compile_number(&Number::Int(i64::MAX)), "9223372036854775807");
    assert_eq!(g.compile_number(&Number::Int(i64::MIN)), "-9223372036854775808");
    assert_eq!(g.compile_number(&Number::Float(format!("{}", 1.5f64))), "1.5");
    assert_eq!(g.compile_number(&Number::Float(format!("{}", 2.0f64))), "2");
    assert_eq!(g.compile_number(&Number::Float("1e21".to_string())), "1e21");
}

#[test]
fn array_skips_what_fails() {
    let g = generator();
    let mut scope = Env::new();
    let middle = Literal::Array(vec![integer(1), missing(), integer(2)]);
    assert_eq!(g.compile_literal(&middle, &mut scope), Some("[1,2]".to_string()));
    let last = Literal::Array(vec![integer(1), missing()]);
    assert_eq!(g.compile_literal(&last, &mut scope), Some("[1,]".to_string()));
    let all = Literal::Array(vec![missing(), missing()]);
    assert_eq!(g.compile_literal(&all, &mut scope), Some("[]".to_string()));
    let nested = Literal::Array(vec![Expr::Literal(Literal::Array(vec![integer(1)])), var("x")]);
    assert_eq!(g.compile_literal(&nested, &mut scope), Some("[[1],x]".to_string()));
}

#[test]
fn map_skips_what_fails() {
    let g = generator();
    let mut scope = Env::new();
    let two = Literal::Hash(vec![(var("x"), integer(1)), (integer(2), var("y"))]);
    assert_eq!(g.compile_literal(&two, &mut scope), Some("{x:1,2:y}".to_string()));
    let bad_value = Literal::Hash(vec![(var("x"), missing()), (var("y"), integer(2))]);
    assert_eq!(g.compile_literal(&bad_value, &mut scope), Some("{y:2}".to_string()));
    let bad_key = Literal::Hash(vec![(missing(), integer(1)), (var("y"), integer(2))]);
    assert_eq!(g.compile_literal(&bad_key, &mut scope), Some("{y:2}".to_string()));
    let bad_last = Literal::Hash(vec![(var("x"), integer(1)), (var("y"), missing())]);
    assert_eq!(g.compile_literal(&bad_last, &mut scope), Some("{x:1,}".to_string()));
}

#[test]
fn map_renders_value_before_key() {
    let g = generator();
    let mut scope = Env::new();
    let entry = Literal::Hash(vec![(call("f", vec![]), func("f", &[], vec![]))]);
    assert_eq!(g.compile_literal(&entry, &mut scope), Some("{f();:function f(){}}".to_string()));
    let mut fresh = Env::new();
    let skipped = Literal::Hash(vec![(func("g", &[], vec![]), missing())]);
    assert_eq!(g.compile_literal(&skipped, &mut fresh), Some("{}".to_string()));
    assert!(!fresh.has(&"g".to_string()));
}

#[test]
fn skipped_element_still_declares() {
    let ast = vec![
        stmt(Expr::Literal(Literal::Array(vec![func(
            "f",
            &[],
            vec![stmt(missing())],
        )]))),
        stmt(call("f", vec![])),
    ];
    assert_eq!(body_of(ast), "[]f();");
}

#[test]
fn unknown_macro_renders_nothing() {
    let ast = vec![stmt(Expr::Macro { name: Box::new(var("log")), args: vec![integer(1)] })];
    assert_eq!(body_of(ast), "");
    assert_eq!(NoMacros.expand("log", &vec![]), None);
}

#[test]
fn known_macro_is_spliced() {
    let program = || {
        vec![
            stmt(Expr::Macro {
                name: Box::new(var("log")),
                args: vec![integer(1), integer(2)],
            }),
            stmt(Expr::Macro { name: Box::new(var("other")), args: vec![integer(1)] }),
            stmt(Expr::Macro { name: Box::new(missing()), args: vec![] }),
            stmt(Expr::Let(
                ident("y"),
                Box::new(Expr::Macro { name: Box::new(var("now")), args: vec![] }),
            )),
        ]
    };
    let mut macros = MacroTable::new();
    macros.define("log".to_string(), "console.log();".to_string());
    macros.define("now".to_string(), "0".to_string());
    macros.define("now".to_string(), "Date.now()".to_string());
    let out = Compiler::with_macros(program(), macros).compile();
    assert_eq!(out, "// Generated by uwu compiler v0.0\nconsole.log();let y = Date.now(); \n");
    assert_eq!(compile(program()), "// Generated by uwu compiler v0.0\n");
}

#[test]
fn macro_table_answers_by_name() {
    let mut macros = MacroTable::new();
    assert_eq!(macros.expand("log", &vec![]), None);
    macros.define("log".to_string(), "a".to_string());
    macros.define("warn".to_string(), "b".to_string());
    assert_eq!(macros.expand("log", &vec![integer(1)]), Some("a".to_string()));
    assert_eq!(macros.expand("warn", &vec![]), Some("b".to_string()));
    assert_eq!(macros.expand("lo", &vec![]), None);
    macros.define("log".to_string(), "c".to_string());
    assert_eq!(macros.expand("log", &vec![]), Some("c".to_string()));
    assert_eq!(macros.expand("warn", &vec![]), Some("b".to_string()));
}

#[test]
fn fresh_generators_agree() {
    let program = || {
        vec![
            stmt(call("f", vec![])),
            stmt(func("f", &["a", "b", "c"], vec![Stmt::Return(integer(-3))])),
            stmt(call("f", vec![integer(1)])),
        ]
    };
    let first = Compiler::new(program()).compile();
    let second = Compiler::new(program()).compile();
    assert_eq!(first, second);
    assert_eq!(first, "// Generated by uwu compiler v0.0\nfunction f(a,b,c){return -3}f(1);");
}

#[test]
fn every_pass_starts_from_an_empty_scope() {
    let compiler = Compiler::new(vec![
        stmt(call("f", vec![])),
        stmt(func("f", &[], vec![])),
    ]);
    let first = compiler.compile();
    let second = compiler.compile();
    assert_eq!(first, "// Generated by uwu compiler v0.0\nfunction f(){}");
    assert_eq!(first, second);
}
