use adder::ast::{parse_expr, Expr, ParseError};
use adder::codegen::{compile_expr, compile_program, instructions, render, Instr};
use adder::interp::eval;
use adder::reader::SExp;
use adder::{compile_source, parse_source, CompileError};

fn sym(s: &str) -> SExp {
    SExp::Sym(s.to_string())
}

/// Runs generated instructions on a 64-bit accumulator.
fn run(code: &[Instr]) -> i64 {
    let mut acc: i64 = 0;
    for i in code {
        acc = match *i {
            Instr::Load(n) => n as i64,
            Instr::Inc => acc.wrapping_add(1),
            Instr::Dec => acc.wrapping_sub(1),
            Instr::Neg => acc.wrapping_neg(),
        };
    }
    acc
}

#[test]
fn scenario_number() {
    let e = parse_source("5").unwrap();
    assert_eq!(e, Expr::Num(5));
    assert_eq!(instructions(&e), vec![Instr::Load(5)]);
    assert_eq!(compile_expr(&e), "mov rax, 5");
    assert_eq!(eval(&e), 5);
}

#[test]
fn scenario_add1() {
    let e = parse_source("(add1 5)").unwrap();
    assert_eq!(e, Expr::Add1(Box::new(Expr::Num(5))));
    assert_eq!(instructions(&e), vec![Instr::Load(5), Instr::Inc]);
    assert_eq!(compile_expr(&e), "mov rax, 5\nadd rax, 1");
    assert_eq!(eval(&e), 6);
}

#[test]
fn scenario_negate_add1() {
    let e = parse_source("(negate (add1 5))").unwrap();
    assert_eq!(eval(&e), -6);
    assert_eq!(instructions(&e), vec![Instr::Load(5), Instr::Inc, Instr::Neg]);
    assert_eq!(compile_expr(&e), "mov rax, 5\nadd rax, 1\nneg rax");
}

#[test]
fn scenario_sub1_sub1() {
    let e = parse_source("(sub1 (sub1 10))").unwrap();
    assert_eq!(eval(&e), 8);
    assert_eq!(compile_expr(&e), "mov rax, 10\nsub rax, 1\nsub rax, 1");
}

#[test]
fn scenario_add1_negate() {
    let e = parse_source("(add1 (negate 3))").unwrap();
    assert_eq!(eval(&e), -2);
}

#[test]
fn scenario_unknown_operator() {
    assert_eq!(parse_source("(mul 1 2)"), Err(CompileError::Parse(ParseError::Malformed)));
}

#[test]
fn rejects_malformed_shapes() {
    for text in ["(foo 1)", "(add1)", "(add1 1 2)", "add1", "x", "()", "(5 1)", "((add1) 1)", "1.5"] {
        assert_eq!(parse_source(text), Err(CompileError::Parse(ParseError::Malformed)), "{}", text);
    }
}

#[test]
fn rejects_malformed_trees() {
    let one = || SExp::Int(1);
    assert_eq!(parse_expr(&SExp::List(vec![sym("foo"), one()])), Err(ParseError::Malformed));
    assert_eq!(parse_expr(&SExp::List(vec![sym("add1")])), Err(ParseError::Malformed));
    assert_eq!(parse_expr(&SExp::List(vec![sym("add1"), one(), one()])), Err(ParseError::Malformed));
    assert_eq!(parse_expr(&sym("negate")), Err(ParseError::Malformed));
    assert_eq!(parse_expr(&SExp::Float), Err(ParseError::Malformed));
    assert_eq!(parse_expr(&SExp::List(vec![])), Err(ParseError::Malformed));
}

#[test]
fn number_out_of_range() {
    assert_eq!(parse_expr(&SExp::Int(2147483648)), Err(ParseError::NumberOutOfRange));
    assert_eq!(parse_expr(&SExp::Int(-2147483649)), Err(ParseError::NumberOutOfRange));
    assert_eq!(parse_source("(add1 3000000000)"), Err(CompileError::Parse(ParseError::NumberOutOfRange)));
}

#[test]
fn number_round_trip() {
    for n in [0, 1, -1, 10, -10, 123456, i32::MAX, i32::MIN] {
        let e = parse_expr(&SExp::Int(n as i64)).unwrap();
        assert_eq!(e, Expr::Num(n));
        assert_eq!(eval(&e), n);
        let e = parse_source(&n.to_string()).unwrap();
        assert_eq!(eval(&e), n);
    }
}

#[test]
fn malformed_operand_error_comes_through() {
    assert_eq!(parse_source("(negate (foo 1))"), Err(CompileError::Parse(ParseError::Malformed)));
}

#[test]
fn read_errors() {
    assert!(matches!(parse_source("(add1 5"), Err(CompileError::Read(_))));
    assert!(matches!(parse_source(""), Err(CompileError::Read(_))));
    assert!(matches!(parse_source("(add1 5) 6"), Err(CompileError::Read(_))));
    assert!(matches!(parse_source(")"), Err(CompileError::Read(_))));
}

#[test]
fn reader_feeds_the_builder() {
    let e = parse_source("  (add1 ; comment\n 5)  ").unwrap();
    assert_eq!(e, Expr::Add1(Box::new(Expr::Num(5))));
    assert_eq!(parse_source("-12").unwrap(), Expr::Num(-12));
    assert_eq!(parse_source("2.5"), Err(CompileError::Parse(ParseError::Malformed)));
    assert_eq!(parse_source("\"add1\""), Err(CompileError::Parse(ParseError::Malformed)));
}

#[test]
fn negative_and_extreme_immediates() {
    assert_eq!(compile_expr(&Expr::Num(-7)), "mov rax, -7");
    assert_eq!(compile_expr(&Expr::Num(0)), "mov rax, 0");
    assert_eq!(compile_expr(&Expr::Num(i32::MIN)), "mov rax, -2147483648");
    assert_eq!(compile_expr(&Expr::Num(i32::MAX)), "mov rax, 2147483647");
}

#[test]
fn render_joins_lines() {
    assert_eq!(render(&vec![]), "");
    assert_eq!(render(&vec![Instr::Dec, Instr::Neg]), "sub rax, 1\nneg rax");
}

#[test]
fn compile_is_deterministic() {
    let e = parse_source("(negate (sub1 (add1 -4)))").unwrap();
    assert_eq!(compile_expr(&e), compile_expr(&e));
    assert_eq!(compile_program(&e), compile_program(&e));
}

#[test]
fn generated_code_agrees_with_eval() {
    for text in ["5", "(add1 5)", "(negate (add1 5))", "(sub1 (sub1 10))", "(add1 (negate 3))", "(negate -2147483647)"] {
        let e = parse_source(text).unwrap();
        assert_eq!(run(&instructions(&e)), eval(&e) as i64, "{}", text);
    }
}

#[test]
fn whole_program_text() {
    let out = compile_source("(add1 5)").unwrap();
    assert_eq!(
        out,
        "\nsection .text\nglobal our_code_starts_here\nour_code_starts_here:\n  mov rax, 5\nadd rax, 1\n  ret\n"
    );
    assert_eq!(compile_source("(mul 1 2)"), Err(CompileError::Parse(ParseError::Malformed)));
    assert!(matches!(compile_source("(("), Err(CompileError::Read(_))));
}
