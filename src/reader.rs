use vstd::prelude::*;

verus! {

/// A symbolic expression as read from source text: an atom or a list.
#[derive(Debug, PartialEq, Eq)]
pub enum SExp {
    /// An integer atom.
    Int(i64),
    /// A floating-point atom; its value is of no use to this language.
    Float,
    /// A symbol or quoted string atom.
    Sym(String),
    /// A parenthesised list.
    List(Vec<SExp>),
}

/// Where and why source text is not an s-expression.
#[derive(Debug, Clone, PartialEq, Eq)]
pub struct ReadError {
    pub message: String,
    pub line: usize,
    pub column: usize,
}

/// `sexp::Sexp`, the tree that `sexp::parse` returns; opaque here, it only
/// passes from that call to `lift`.
#[verifier::external_type_specification]
#[verifier::external_body]
pub struct ExSexp(sexp::Sexp);

/// The s-expression that `sexp::parse` reads from a text, if it reads one.
pub uninterp spec fn sexp_reading(text: Seq<char>) -> Option<SExp>;

/// Relies on the shape of `sexp::Sexp` and `sexp::Atom`: rebuilds such a tree
/// as an `SExp`, variant for variant, keeping integers and symbols and
/// dropping the value of a float. It is part of `read_sexp`, whose contract
/// speaks of the converted tree.
#[verifier::external_body]
fn lift(v: &sexp::Sexp) -> SExp {
    match v {
        sexp::Sexp::Atom(sexp::Atom::I(n)) => SExp::Int(*n),
        sexp::Sexp::Atom(sexp::Atom::F(_)) => SExp::Float,
        sexp::Sexp::Atom(sexp::Atom::S(s)) => SExp::Sym(s.clone()),
        sexp::Sexp::List(items) => SExp::List(items.iter().map(lift).collect()),
    }
}

/// Relies on `sexp::parse`: reads one s-expression, with surrounding
/// whitespace and `;` comments, from the whole text. Its result depends on the
/// text alone.
#[verifier::external_body]
pub(crate) fn read_sexp(text: &str) -> (r: Result<SExp, ReadError>)
    ensures
        r is Ok <==> sexp_reading(text@) is Some,
        r matches Ok(s) ==> sexp_reading(text@) == Some(s),
{
    match sexp::parse(text) {
        Ok(v) => Ok(lift(&v)),
        Err(e) => Err(ReadError { message: e.message.to_string(), line: e.line, column: e.column }),
    }
}

} // verus!
