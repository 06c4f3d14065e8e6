use vstd::prelude::*;
use vstd::wrapping::i32_specs;

use crate::ast::{parsed, Expr, ParseError};
use crate::reader::SExp;

verus! {

/// The mathematical value of an expression, over unbounded integers.
pub open spec fn value(e: Expr) -> int
    decreases e,
{
    match e {
        Expr::Num(n) => n as int,
        Expr::Add1(x) => value(*x) + 1,
        Expr::Sub1(x) => value(*x) - 1,
        Expr::Negate(x) => -value(*x),
    }
}

/// Whether every intermediate value of `e` fits a 32-bit signed integer.
pub open spec fn fits_i32(e: Expr) -> bool
    decreases e,
{
    match e {
        Expr::Num(_) => true,
        Expr::Add1(x) => fits_i32(*x) && value(*x) + 1 <= i32::MAX,
        Expr::Sub1(x) => fits_i32(*x) && value(*x) - 1 >= i32::MIN,
        Expr::Negate(x) => fits_i32(*x) && -value(*x) <= i32::MAX,
    }
}

/// The value of an expression in 32-bit two's complement arithmetic, each
/// operation wrapping around on overflow.
pub open spec fn evaluated(e: Expr) -> i32
    decreases e,
{
    match e {
        Expr::Num(n) => n,
        Expr::Add1(x) => i32_specs::wrapping_add(evaluated(*x), 1),
        Expr::Sub1(x) => i32_specs::wrapping_sub(evaluated(*x), 1),
        Expr::Negate(x) => i32_specs::wrapping_sub(0, evaluated(*x)),
    }
}

/// Computes the value of an expression directly, in 32-bit two's complement
/// arithmetic. Where no step overflows this is the exact value.
pub fn eval(e: &Expr) -> (r: i32)
    ensures
        r == evaluated(*e),
        fits_i32(*e) ==> r as int == value(*e),
    decreases e,
{
    match e {
        Expr::Num(n) => *n,
        Expr::Add1(x) => eval(x).wrapping_add(1),
        Expr::Sub1(x) => eval(x).wrapping_sub(1),
        Expr::Negate(x) => 0i32.wrapping_sub(eval(x)),
    }
}

/// Where no step overflows 32 bits, the interpreter's result is the exact value.
pub proof fn lemma_evaluated_is_value(e: Expr)
    requires
        fits_i32(e),
    ensures
        evaluated(e) as int == value(e),
    decreases e,
{
    match e {
        Expr::Num(_) => {},
        Expr::Add1(x) => lemma_evaluated_is_value(*x),
        Expr::Sub1(x) => lemma_evaluated_is_value(*x),
        Expr::Negate(x) => lemma_evaluated_is_value(*x),
    }
}

/// Each operator moves the 32-bit value as its name says: `add1` adds one,
/// `sub1` subtracts one and `negate` changes the sign, where the result is
/// representable; otherwise the value wraps around.
pub proof fn lemma_operator_semantics(e: Expr)
    ensures
        evaluated(e) < i32::MAX ==> evaluated(Expr::Add1(Box::new(e))) == evaluated(e) + 1,
        evaluated(e) == i32::MAX ==> evaluated(Expr::Add1(Box::new(e))) == i32::MIN,
        evaluated(e) > i32::MIN ==> evaluated(Expr::Sub1(Box::new(e))) == evaluated(e) - 1,
        evaluated(e) == i32::MIN ==> evaluated(Expr::Sub1(Box::new(e))) == i32::MAX,
        evaluated(e) > i32::MIN ==> evaluated(Expr::Negate(Box::new(e))) == -evaluated(e),
        evaluated(e) == i32::MIN ==> evaluated(Expr::Negate(Box::new(e))) == i32::MIN,
        value(Expr::Add1(Box::new(e))) == value(e) + 1,
        value(Expr::Sub1(Box::new(e))) == value(e) - 1,
        value(Expr::Negate(Box::new(e))) == -value(e),
{
}

/// An integer literal in the 32-bit signed range builds a number that
/// evaluates to the literal itself.
pub proof fn lemma_number_round_trip(n: i64)
    requires
        i32::MIN <= n <= i32::MAX,
    ensures
        parsed(SExp::Int(n)) == Ok::<Expr, ParseError>(Expr::Num(n as i32)),
        evaluated(Expr::Num(n as i32)) as int == n as int,
        value(Expr::Num(n as i32)) == n as int,
{
}

} // verus!
