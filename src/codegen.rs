use vstd::prelude::*;

use vstd::wrapping::i64_specs;

use crate::ast::Expr;
use crate::interp::{evaluated, fits_i32, lemma_evaluated_is_value, value};

verus! {

/// One line of generated assembly; each acts on the accumulator `rax`.
#[derive(PartialEq, Eq, Structural, Debug, Clone, Copy)]
pub enum Instr {
    /// `mov rax, n`: load an immediate value.
    Load(i32),
    /// `add rax, 1`.
    Inc,
    /// `sub rax, 1`.
    Dec,
    /// `neg rax`.
    Neg,
}

/// The character of a decimal digit.
pub open spec fn digit_char(d: nat) -> char {
    seq!['0', '1', '2', '3', '4', '5', '6', '7', '8', '9'][d as int]
}

/// The decimal digits of a natural number, most significant first.
pub open spec fn digits(n: nat) -> Seq<char>
    decreases n,
{
    if n < 10 {
        seq![digit_char(n)]
    } else {
        digits(n / 10).push(digit_char(n % 10))
    }
}

/// The decimal text of an integer, with a leading `-` when it is negative.
pub open spec fn int_text(n: int) -> Seq<char> {
    if n < 0 {
        seq!['-'] + digits((-n) as nat)
    } else {
        digits(n as nat)
    }
}

/// The text of one instruction.
pub open spec fn instr_text(i: Instr) -> Seq<char> {
    match i {
        Instr::Load(n) => "mov rax, "@ + int_text(n as int),
        Instr::Inc => "add rax, 1"@,
        Instr::Dec => "sub rax, 1"@,
        Instr::Neg => "neg rax"@,
    }
}

/// The text of an instruction sequence: one instruction per line, lines
/// separated by a newline.
pub open spec fn lines(code: Seq<Instr>) -> Seq<char>
    decreases code.len(),
{
    if code.len() == 0 {
        Seq::empty()
    } else if code.len() == 1 {
        instr_text(code[0])
    } else {
        lines(code.drop_last()) + "\n"@ + instr_text(code.last())
    }
}

/// The instructions generated for an expression: the code of the operand,
/// then the operator's own instruction.
pub open spec fn code_of(e: Expr) -> Seq<Instr>
    decreases e,
{
    match e {
        Expr::Num(n) => seq![Instr::Load(n)],
        Expr::Add1(x) => code_of(*x).push(Instr::Inc),
        Expr::Sub1(x) => code_of(*x).push(Instr::Dec),
        Expr::Negate(x) => code_of(*x).push(Instr::Neg),
    }
}

/// The assembly text generated for an expression.
pub open spec fn assembly_text(e: Expr) -> Seq<char> {
    lines(code_of(e))
}

/// The text of the decimal digit `d`.
fn digit_str(d: u32) -> (r: &'static str)
    requires
        d < 10,
    ensures
        r@ == seq![digit_char(d as nat)],
{
    proof {
        reveal_strlit("0");
        reveal_strlit("1");
        reveal_strlit("2");
        reveal_strlit("3");
        reveal_strlit("4");
        reveal_strlit("5");
        reveal_strlit("6");
        reveal_strlit("7");
        reveal_strlit("8");
        reveal_strlit("9");
    }
    let r = match d {
        0 => "0",
        1 => "1",
        2 => "2",
        3 => "3",
        4 => "4",
        5 => "5",
        6 => "6",
        7 => "7",
        8 => "8",
        _ => "9",
    };
    assert(r@ =~= seq![digit_char(d as nat)]);
    r
}

/// Appends the decimal digits of `m` to `out`.
fn push_digits(out: &mut String, m: u32)
    ensures
        final(out)@ == old(out)@ + digits(m as nat),
    decreases m,
{
    if m >= 10 {
        push_digits(out, m / 10);
    }
    out.append(digit_str(m % 10));
    assert(final(out)@ =~= old(out)@ + digits(m as nat));
}

/// Appends the decimal text of `n` to `out`.
fn push_int(out: &mut String, n: i32)
    ensures
        final(out)@ == old(out)@ + int_text(n as int),
{
    if n < 0 {
        out.append("-");
        proof {
            reveal_strlit("-");
        }
        let m: u32 = (-(n as i64)) as u32;
        push_digits(out, m);
        assert(final(out)@ =~= old(out)@ + int_text(n as int));
    } else {
        push_digits(out, n as u32);
    }
}

/// Appends the text of one instruction to `out`.
fn push_instr(out: &mut String, i: Instr)
    ensures
        final(out)@ == old(out)@ + instr_text(i),
{
    match i {
        Instr::Load(n) => {
            out.append("mov rax, ");
            push_int(out, n);
            assert(final(out)@ =~= old(out)@ + instr_text(i));
        },
        Instr::Inc => out.append("add rax, 1"),
        Instr::Dec => out.append("sub rax, 1"),
        Instr::Neg => out.append("neg rax"),
    }
}

/// Generates the instruction sequence of an expression by a post-order walk.
pub fn instructions(e: &Expr) -> (r: Vec<Instr>)
    ensures
        r@ == code_of(*e),
    decreases e,
{
    match e {
        Expr::Num(n) => {
            let mut code = Vec::new();
            code.push(Instr::Load(*n));
            assert(code@ =~= code_of(*e));
            code
        },
        Expr::Add1(x) => {
            let mut code = instructions(x);
            code.push(Instr::Inc);
            code
        },
        Expr::Sub1(x) => {
            let mut code = instructions(x);
            code.push(Instr::Dec);
            code
        },
        Expr::Negate(x) => {
            let mut code = instructions(x);
            code.push(Instr::Neg);
            code
        },
    }
}

/// Renders an instruction sequence as text, one instruction per line.
pub fn render(code: &Vec<Instr>) -> (r: String)
    ensures
        r@ == lines(code@),
{
    let mut out = String::new();
    let mut i: usize = 0;
    while i < code.len()
        invariant
            i <= code@.len(),
            out@ == lines(code@.take(i as int)),
        decreases code@.len() - i,
    {
        let ghost before = out@;
        if i > 0 {
            out.append("\n");
        }
        push_instr(&mut out, code[i]);
        proof {
            let next = code@.take(i + 1);
            assert(next.drop_last() =~= code@.take(i as int));
            assert(next.last() == code@[i as int]);
            if i == 0 {
                assert(before =~= Seq::<char>::empty());
                assert(out@ =~= lines(next));
            }
        }
        i = i + 1;
    }
    assert(code@.take(code@.len() as int) =~= code@);
    out
}

/// Compiles an expression into the assembly text that computes its value in
/// `rax`, one instruction per line.
pub fn compile_expr(e: &Expr) -> (r: String)
    ensures
        r@ == assembly_text(*e),
{
    let code = instructions(e);
    render(&code)
}

/// A complete assembly program around a generated instruction body.
pub open spec fn program_text(body: Seq<char>) -> Seq<char> {
    "\nsection .text\nglobal our_code_starts_here\nour_code_starts_here:\n  "@ + body
        + "\n  ret\n"@
}

/// Compiles an expression into a complete assembly program whose entry point
/// `our_code_starts_here` returns the expression's value in `rax`.
pub fn compile_program(e: &Expr) -> (r: String)
    ensures
        r@ == program_text(assembly_text(*e)),
{
    let mut out = String::from_str(
        "\nsection .text\nglobal our_code_starts_here\nour_code_starts_here:\n  ",
    );
    let body = compile_expr(e);
    out.append(body.as_str());
    out.append("\n  ret\n");
    out
}

/// The effect of one instruction on the 64-bit accumulator.
pub open spec fn step(i: Instr, acc: i64) -> i64 {
    match i {
        Instr::Load(n) => n as i64,
        Instr::Inc => i64_specs::wrapping_add(acc, 1),
        Instr::Dec => i64_specs::wrapping_sub(acc, 1),
        Instr::Neg => i64_specs::wrapping_sub(0, acc),
    }
}

/// The accumulator after running `code` in order from the value `acc`.
pub open spec fn run(code: Seq<Instr>, acc: i64) -> i64
    decreases code.len(),
{
    if code.len() == 0 {
        acc
    } else {
        step(code.last(), run(code.drop_last(), acc))
    }
}

/// Running the generated code, from any initial accumulator, leaves in the
/// accumulator the value that the interpreter computes, for every expression
/// whose evaluation does not overflow.
pub proof fn lemma_code_computes_eval(e: Expr, acc: i64)
    requires
        fits_i32(e),
    ensures
        run(code_of(e), acc) as int == evaluated(e) as int,
        run(code_of(e), acc) as int == value(e),
    decreases e,
{
    lemma_evaluated_is_value(e);
    match e {
        Expr::Num(n) => {},
        Expr::Add1(x) => {
            lemma_code_computes_eval(*x, acc);
            assert(code_of(e).drop_last() =~= code_of(*x));
        },
        Expr::Sub1(x) => {
            lemma_code_computes_eval(*x, acc);
            assert(code_of(e).drop_last() =~= code_of(*x));
        },
        Expr::Negate(x) => {
            lemma_code_computes_eval(*x, acc);
            assert(code_of(e).drop_last() =~= code_of(*x));
        },
    }
}

/// Compiling the same expression twice gives the same text.
pub proof fn lemma_compile_deterministic(e1: Expr, e2: Expr)
    requires
        e1 == e2,
    ensures
        assembly_text(e1) == assembly_text(e2),
        program_text(assembly_text(e1)) == program_text(assembly_text(e2)),
{
}

} // verus!
