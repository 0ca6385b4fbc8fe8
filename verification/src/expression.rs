//! Compiling expression text.
//!
//! The grammar and its evaluation belong to the `meval` crate: infix
//! arithmetic with `+ - * / % ^`, parentheses, the constants `pi` and `e`,
//! and named functions such as `sin`, `sqrt` or `max`. This module decides
//! which texts are handed to it and turns its answers into the errors of
//! this crate. The one free variable of an expression is `x`.

use vstd::prelude::*;
use vstd::string::*;
use crate::error::PipelineError;

verus! {

/// A parsed expression of `meval`. Nothing is known of its contents.
#[verifier::external_type_specification]
#[verifier::external_body]
pub struct ExExpr(meval::Expr);

/// A token of a parsed expression; `meval::Expr` dereferences to a slice of
/// them. Nothing is known of its contents.
#[verifier::external_type_specification]
#[verifier::external_body]
pub struct ExToken(meval::tokenizer::Token);

/// An error of `meval`. Nothing is known of its contents.
#[verifier::external_type_specification]
#[verifier::external_body]
pub struct ExError(meval::Error);

/// An expression that parsed and that names no variable but `x`.
pub struct CompiledExpression {
    /// The parsed form, for whoever evaluates it.
    pub expr: meval::Expr,
}

/// The four characters that the expression grammar skips as whitespace.
pub open spec fn is_space(c: char) -> bool {
    c == ' ' || c == '\t' || c == '\r' || c == '\n'
}

/// Whether `s` holds whitespace only. The empty text is blank.
pub open spec fn is_blank(s: Seq<char>) -> bool {
    forall|i: int| 0 <= i < s.len() ==> is_space(#[trigger] s[i])
}

/// Whether `text` holds whitespace only.
pub fn is_blank_text(text: &str) -> (r: bool)
    ensures
        r == is_blank(text@),
{
    let len: usize = text.unicode_len();
    let mut i: usize = 0;
    while i < len
        invariant
            len == text@.len(),
            i <= len,
            forall|j: int| 0 <= j < i ==> is_space(#[trigger] text@[j]),
        decreases len - i,
    {
        let c: char = text.get_char(i);
        if !(c == ' ' || c == '\t' || c == '\r' || c == '\n') {
            return false;
        }
        i = i + 1;
    }
    true
}

/// The name of the one variable of an expression.
pub open spec fn variable() -> Seq<char> {
    "x"@
}

/// What the parser of `meval` makes of `text`: the parsed expression, or
/// `None` where it refuses the text. Which texts it accepts, and what it
/// reads in them, is for that crate to say; it depends on the text alone.
/// It is asked about texts that are not blank only.
pub uninterp spec fn parsed(text: Seq<char>) -> Option<meval::Expr>;

/// Whether `meval` binds `expr` to a function of the variable `name`: it
/// does unless `expr` holds a name that is neither `name` nor one of the
/// crate's constants and functions, or applies a function to the wrong
/// number of arguments. It depends on the expression and the name alone.
pub uninterp spec fn binds(expr: meval::Expr, name: Seq<char>) -> bool;

/// Calls `<meval::Expr as FromStr>::from_str` through `str::parse`.
///
/// Claims that the call returns and that its result is `parsed` of the
/// text: the same text always parses to the same expression, or always
/// fails. The tokenizer of `meval` panics on a text that is not empty and
/// holds nothing but spaces, tabs, carriage returns and line feeds;
/// `requires` keeps every blank text away from it.
#[verifier::external_body]
fn parse_text(text: &str) -> (r: Result<meval::Expr, meval::Error>)
    requires
        !is_blank(text@),
    ensures
        match r {
            Ok(expr) => parsed(text@) == Some(expr),
            Err(_) => parsed(text@) is None,
        },
{
    text.parse::<meval::Expr>()
}

/// Calls `meval::Expr::bind` on a copy of `expr` with the variable `name`
/// and drops the closure. Claims that the call returns, and that it
/// succeeds exactly when `binds` says so.
#[verifier::external_body]
fn bind_variable(expr: &meval::Expr, name: &str) -> (r: Result<(), meval::Error>)
    ensures
        r is Ok <==> binds(*expr, name@),
{
    match expr.clone().bind(name) {
        Ok(_) => Ok(()),
        Err(e) => Err(e),
    }
}

/// What a parse attempt means for the pipeline: a parsed expression goes
/// on, and any error of the parser is an `ExpressionParseError`.
pub fn parse_stage(parsed: Result<meval::Expr, meval::Error>) -> (r: Result<
    meval::Expr,
    PipelineError,
>)
    ensures
        match parsed {
            Ok(expr) => r == Ok::<meval::Expr, PipelineError>(expr),
            Err(_) => r == Err::<meval::Expr, PipelineError>(PipelineError::ExpressionParseError),
        },
{
    match parsed {
        Ok(expr) => Ok(expr),
        Err(_) => Err(PipelineError::ExpressionParseError),
    }
}

/// What a binding attempt on `expr` means for the pipeline: a bound
/// expression is compiled, and any error is an `ExpressionBindError`.
pub fn bind_stage(expr: meval::Expr, bound: Result<(), meval::Error>) -> (r: Result<
    CompiledExpression,
    PipelineError,
>)
    ensures
        match bound {
            Ok(_) => r == Ok::<CompiledExpression, PipelineError>(CompiledExpression { expr }),
            Err(_) => r == Err::<CompiledExpression, PipelineError>(
                PipelineError::ExpressionBindError,
            ),
        },
{
    match bound {
        Ok(_) => Ok(CompiledExpression { expr }),
        Err(_) => Err(PipelineError::ExpressionBindError),
    }
}

/// What compiling `text` gives.
///
/// A text that is blank, or that the parser refuses, is an
/// `ExpressionParseError`. A text that parses but does not bind to a
/// function of `x` is an `ExpressionBindError`. Any other text compiles
/// to its parsed form.
pub open spec fn compiled(text: Seq<char>) -> Result<CompiledExpression, PipelineError> {
    if is_blank(text) {
        Err(PipelineError::ExpressionParseError)
    } else {
        match parsed(text) {
            None => Err(PipelineError::ExpressionParseError),
            Some(expr) => if binds(expr, variable()) {
                Ok(CompiledExpression { expr })
            } else {
                Err(PipelineError::ExpressionBindError)
            },
        }
    }
}

/// Compiles expression text.
///
/// A blank text is never handed to the parser. Any other text is parsed,
/// and what the parser made of it is bound to the variable `x`.
pub fn compile(text: &str) -> (r: Result<CompiledExpression, PipelineError>)
    ensures
        r == compiled(text@),
{
    if is_blank_text(text) {
        return Err(PipelineError::ExpressionParseError);
    }
    match parse_stage(parse_text(text)) {
        Err(e) => Err(e),
        Ok(expr) => {
            let bound = bind_variable(&expr, "x");
            bind_stage(expr, bound)
        },
    }
}

} // verus!
