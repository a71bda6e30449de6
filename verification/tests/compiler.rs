//! Whole programs: the tree that the parser gives for a source text, and the
//! JavaScript that the generator emits for it.

use uwu::ast::{Expr, Ident, Infix, Literal, Number, Prefix, Program, Stmt};
use uwu::compiler::Compiler;

fn c(ast: Program) -> String {
    let compiler = Compiler::new(ast);
    compiler.compile()
}

fn ident(name: &str) -> Ident {
    Ident(name.to_string())
}

fn var(name: &str) -> Expr {
    Expr::Ident(ident(name))
}

fn integer(value: i64) -> Expr {
    Expr::Literal(Literal::Number(Number::Int(value)))
}

fn boolean(value: bool) -> Expr {
    Expr::Literal(Literal::Bool(value))
}

fn let_(name: &str, value: Expr) -> Stmt {
    Stmt::Expr(Expr::Let(ident(name), Box::new(value)))
}

fn infix(op: Infix, left: Expr, right: Expr) -> Expr {
    Expr::Infix(op, Box::new(left), Box::new(right))
}

fn func(name: &str, params: &[&str], body: Vec<Stmt>) -> Stmt {
    Stmt::Expr(Expr::Func {
        params: params.iter().map(|p| ident(p)).collect(),
        body,
        name: Some(ident(name)),
    })
}

fn call(name: &str, args: Vec<Expr>) -> Stmt {
    Stmt::Expr(Expr::Call { func: Box::new(var(name)), args })
}

#[test]
fn compile_decl() {
    let source =
        "let a = 1; let b = \"hello world\"; let c = true; let d = [1, 2, 2]; let e = { x: 1 }";
    let ast = vec![
        let_("a", integer(1)),
        let_("b", Expr::Literal(Literal::String("\"hello world\"".to_string()))),
        let_("c", boolean(true)),
        let_("d", Expr::Literal(Literal::Array(vec![integer(1), integer(2), integer(2)]))),
        let_("e", Expr::Literal(Literal::Hash(vec![(var("x"), integer(1))]))),
    ];
    assert_eq!(c(ast), "// Generated by uwu compiler v0.0\nlet a = 1; \nlet b = \"hello world\"; \nlet c = true; \nlet d = [1,2,2]; \nlet e = {x:1}; \n", "{}", source);
}

#[test]
fn compile_mut_decl() {
    let source = "let a = 1; a = a + 1 / 2";
    let ast = vec![
        let_("a", integer(1)),
        Stmt::Expr(Expr::Assign(
            Box::new(var("a")),
            Box::new(infix(Infix::Plus, var("a"), infix(Infix::Divide, integer(1), integer(2)))),
        )),
    ];
    assert_eq!(
        c(ast),
        "// Generated by uwu compiler v0.0\nlet a = 1; \na = a+1/2; \n",
        "{}",
        source
    );
}

#[test]
fn compile_fn() {
    let source = "fn add(x, y): end";
    let ast = vec![func("add", &["x", "y"], vec![])];
    assert_eq!(
        c(ast),
        "// Generated by uwu compiler v0.0\nfunction add(x,y){}",
        "{}",
        source
    );
}

#[test]
fn compile_fn_return() {
    let source = "fn add(x, y): return 0 end";
    let ast = vec![func("add", &["x", "y"], vec![Stmt::Return(integer(0))])];
    assert_eq!(
        c(ast),
        "// Generated by uwu compiler v0.0\nfunction add(x,y){return 0}",
        "{}",
        source
    );
}

#[test]
fn compile_call() {
    let source = "fn add(x, y): return x + y end add(1, 2)";
    let ast = vec![
        func("add", &["x", "y"], vec![Stmt::Return(infix(Infix::Plus, var("x"), var("y")))]),
        call("add", vec![integer(1), integer(2)]),
    ];
    assert_eq!(
        c(ast),
        "// Generated by uwu compiler v0.0\nfunction add(x,y){return x+y}add(1,2);",
        "{}",
        source
    );
}

#[test]
fn compile_while() {
    let source = "fn print(): end while(true): print(1) end";
    let ast = vec![
        func("print", &[], vec![]),
        Stmt::Expr(Expr::While {
            cond: Box::new(boolean(true)),
            consequence: vec![call("print", vec![integer(1)])],
        }),
    ];
    assert_eq!(
        c(ast),
        "// Generated by uwu compiler v0.0\nfunction print(){}while(true){print(1);}",
        "{}",
        source
    );
}

#[test]
fn compile_if() {
    let source = "fn print(): end if(true): print(1); end";
    let ast = vec![
        func("print", &[], vec![]),
        Stmt::Expr(Expr::If {
            cond: Box::new(boolean(true)),
            consequence: vec![call("print", vec![integer(1)])],
            alternative: None,
        }),
    ];
    assert_eq!(
        c(ast),
        "// Generated by uwu compiler v0.0\nfunction print(){}if(true){print(1);}",
        "{}",
        source
    );
}

#[test]
fn compile_if_else() {
    let source = "if(x): else: end";
    let ast = vec![Stmt::Expr(Expr::If {
        cond: Box::new(var("x")),
        consequence: vec![],
        alternative: Some(vec![]),
    })];
    assert_eq!(
        c(ast),
        "// Generated by uwu compiler v0.0\nif(x){}else{}",
        "{}",
        source
    );
}

#[test]
fn compile_prefix_expr() {
    let source = "!x";
    let ast = vec![Stmt::Expr(Expr::Prefix(Prefix::Not, Box::new(var("x"))))];
    assert_eq!(c(ast), "// Generated by uwu compiler v0.0\n!x", "{}", source);
}

#[test]
fn compile_infix_expr() {
    let source = "x + 2 - 1";
    let ast = vec![Stmt::Expr(infix(
        Infix::Minus,
        infix(Infix::Plus, var("x"), integer(2)),
        integer(1),
    ))];
    assert_eq!(c(ast), "// Generated by uwu compiler v0.0\nx+2-1", "{}", source);
}

#[test]
fn compile_index_expr() {
    let source = "x[1]";
    let ast = vec![Stmt::Expr(Expr::Index(Box::new(var("x")), Box::new(integer(1))))];
    assert_eq!(c(ast), "// Generated by uwu compiler v0.0\nx[1]", "{}", source);
}
