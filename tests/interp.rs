use adder::ast::Expr;
use adder::interp::eval;

fn num(n: i32) -> Expr {
    Expr::Num(n)
}

fn add1(e: Expr) -> Expr {
    Expr::Add1(Box::new(e))
}

fn sub1(e: Expr) -> Expr {
    Expr::Sub1(Box::new(e))
}

fn negate(e: Expr) -> Expr {
    Expr::Negate(Box::new(e))
}

#[test]
fn test1() {
    let expr1 = Expr::Num(10);
    let result = eval(&expr1);
    assert_eq!(result, 10);

    let expr2 = Expr::Negate(Box::new(Expr::Num(10)));
    let result = eval(&expr2);
    assert_eq!(result, -10);
}

#[test]
fn add1_adds_one() {
    assert_eq!(eval(&add1(num(41))), 42);
    assert_eq!(eval(&add1(num(-1))), 0);
}

#[test]
fn sub1_subtracts_one() {
    assert_eq!(eval(&sub1(num(0))), -1);
    assert_eq!(eval(&sub1(sub1(num(10)))), 8);
}

#[test]
fn negate_changes_sign() {
    assert_eq!(eval(&negate(num(7))), -7);
    assert_eq!(eval(&negate(negate(num(7)))), 7);
    assert_eq!(eval(&negate(num(0))), 0);
}

#[test]
fn nested_operators() {
    assert_eq!(eval(&negate(add1(num(5)))), -6);
    assert_eq!(eval(&add1(negate(num(3)))), -2);
}

#[test]
fn eval_wraps_at_the_word_edges() {
    assert_eq!(eval(&add1(num(i32::MAX))), i32::MIN);
    assert_eq!(eval(&sub1(num(i32::MIN))), i32::MAX);
    assert_eq!(eval(&negate(num(i32::MIN))), i32::MIN);
    assert_eq!(eval(&negate(num(i32::MAX))), -i32::MAX);
}
