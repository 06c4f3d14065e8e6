use vstd::prelude::*;

use crate::reader::SExp;

verus! {

/// The abstract syntax of the language.
#[derive(Debug, PartialEq, Eq)]
pub enum Expr {
    Num(i32),
    Add1(Box<Expr>),
    Sub1(Box<Expr>),
    Negate(Box<Expr>),
}

/// Why an s-expression is not a program.
#[derive(PartialEq, Eq, Structural, Debug, Clone, Copy)]
pub enum ParseError {
    /// The s-expression has none of the accepted shapes.
    Malformed,
    /// An integer literal lies outside the 32-bit signed range.
    NumberOutOfRange,
}

/// Whether `name` is one of the operator symbols.
pub open spec fn is_operator(name: Seq<char>) -> bool {
    name == "add1"@ || name == "sub1"@ || name == "negate"@
}

/// The node that the operator `name` builds over `x`.
pub open spec fn apply_operator(name: Seq<char>, x: Expr) -> Expr {
    if name == "add1"@ {
        Expr::Add1(Box::new(x))
    } else if name == "sub1"@ {
        Expr::Sub1(Box::new(x))
    } else {
        Expr::Negate(Box::new(x))
    }
}

/// What the builder makes of an s-expression.
pub open spec fn parsed(s: SExp) -> Result<Expr, ParseError>
    decreases s,
{
    match s {
        SExp::Int(n) => if i32::MIN <= n <= i32::MAX {
            Ok(Expr::Num(n as i32))
        } else {
            Err(ParseError::NumberOutOfRange)
        },
        SExp::List(items) => if items@.len() == 2 && items@[0] is Sym && is_operator(
            items@[0]->Sym_0@,
        ) {
            match parsed(items@[1]) {
                Ok(x) => Ok(apply_operator(items@[0]->Sym_0@, x)),
                Err(e) => Err(e),
            }
        } else {
            Err(ParseError::Malformed)
        },
        _ => Err(ParseError::Malformed),
    }
}

/// Whether the symbol `name` spells `word`.
fn spells(name: &String, word: &str) -> (r: bool)
    ensures
        r == (name@ == word@),
{
    let w = String::from_str(word);
    name.eq(&w)
}

/// Builds the syntax tree that an s-expression denotes.
///
/// An integer atom in the 32-bit signed range is a number; a two-element list
/// whose head is the symbol `add1`, `sub1` or `negate` applies that operator to
/// its second element. Any other shape is malformed.
pub fn parse_expr(s: &SExp) -> (r: Result<Expr, ParseError>)
    ensures
        r == parsed(*s),
    decreases s,
{
    match s {
        SExp::Int(n) => {
            if i32::MIN as i64 <= *n && *n <= i32::MAX as i64 {
                Ok(Expr::Num(*n as i32))
            } else {
                Err(ParseError::NumberOutOfRange)
            }
        },
        SExp::List(items) => {
            if items.len() != 2 {
                return Err(ParseError::Malformed);
            }
            let name = match &items[0] {
                SExp::Sym(name) => name,
                _ => {
                    return Err(ParseError::Malformed);
                },
            };
            let is_add1 = spells(name, "add1");
            let is_sub1 = spells(name, "sub1");
            let is_negate = spells(name, "negate");
            if !(is_add1 || is_sub1 || is_negate) {
                return Err(ParseError::Malformed);
            }
            let x = match parse_expr(&items[1]) {
                Ok(x) => x,
                Err(e) => {
                    return Err(e);
                },
            };
            if is_add1 {
                Ok(Expr::Add1(Box::new(x)))
            } else if is_sub1 {
                Ok(Expr::Sub1(Box::new(x)))
            } else {
                Ok(Expr::Negate(Box::new(x)))
            }
        },
        _ => Err(ParseError::Malformed),
    }
}

/// Only the grammar's shapes are accepted: a float, a symbol, a list whose
/// length is not two, and a two-element list whose head is not an operator
/// symbol are all malformed, whatever they hold.
pub proof fn lemma_rejects_malformed(s: SExp)
    ensures
        s is Float ==> parsed(s) == Err::<Expr, ParseError>(ParseError::Malformed),
        s is Sym ==> parsed(s) == Err::<Expr, ParseError>(ParseError::Malformed),
        s matches SExp::List(items) && items@.len() != 2 ==> parsed(s) == Err::<
            Expr,
            ParseError,
        >(ParseError::Malformed),
        s matches SExp::List(items) && items@.len() == 2 && !(items@[0] is Sym && is_operator(
            items@[0]->Sym_0@,
        )) ==> parsed(s) == Err::<Expr, ParseError>(ParseError::Malformed),
{
}

} // verus!
