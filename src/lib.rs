//! A compiler for a tiny arithmetic language: integer literals and the unary
//! operators `add1`, `sub1` and `negate`, written as s-expressions and
//! translated into x86-64 assembly that leaves the result in `rax`.
pub mod ast;
pub mod reader;
pub mod interp;
pub mod codegen;

use vstd::prelude::*;

use crate::ast::{parse_expr, parsed, Expr, ParseError};
use crate::codegen::{assembly_text, compile_program, program_text};
use crate::reader::{read_sexp, sexp_reading, ReadError};

verus! {

/// Why a source text could not be compiled.
#[derive(Debug, PartialEq, Eq)]
pub enum CompileError {
    /// The text is not an s-expression.
    Read(ReadError),
    /// The s-expression is not a program.
    Parse(ParseError),
}

/// Reads source text as an s-expression and builds its syntax tree.
pub fn parse_source(text: &str) -> (r: Result<Expr, CompileError>)
    ensures
        sexp_reading(text@) is None ==> r matches Err(CompileError::Read(_)),
        sexp_reading(text@) matches Some(s) ==> match parsed(s) {
            Ok(e) => r matches Ok(x) && x == e,
            Err(pe) => r matches Err(CompileError::Parse(qe)) && qe == pe,
        },
{
    let s = match read_sexp(text) {
        Ok(s) => s,
        Err(e) => {
            return Err(CompileError::Read(e));
        },
    };
    match parse_expr(&s) {
        Ok(e) => Ok(e),
        Err(pe) => Err(CompileError::Parse(pe)),
    }
}

/// Compiles source text into a complete assembly program: reads the text as
/// an s-expression, builds the syntax tree and generates the program.
pub fn compile_source(text: &str) -> (r: Result<String, CompileError>)
    ensures
        sexp_reading(text@) is None ==> r matches Err(CompileError::Read(_)),
        sexp_reading(text@) matches Some(s) ==> match parsed(s) {
            Ok(e) => r matches Ok(out) && out@ == program_text(assembly_text(e)),
            Err(pe) => r matches Err(CompileError::Parse(qe)) && qe == pe,
        },
{
    match parse_source(text) {
        Ok(e) => Ok(compile_program(&e)),
        Err(err) => Err(err),
    }
}

} // verus!
