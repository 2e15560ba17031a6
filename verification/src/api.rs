//! The five forms of the macro: from the macro input to its expansion.

use vstd::prelude::*;

use crate::expand::{generate, Expansion};
use crate::parse::{
    crement_spec, operand_spec, parse_crement_inner, parse_operand, Crement, CrementError, Op,
};
use crate::tokens::{stream_kinds, stream_trees};

verus! {

/// `r` is the expansion of the use of the macro `c`, or the same refusal.
pub open spec fn expands(c: Result<Crement, CrementError>, r: Result<Expansion, CrementError>) -> bool {
    match c {
        Ok(c) => r matches Ok(x) && x.spec_op() == c.op && x.spec_expr() == c.expr,
        Err(e) => r == Err::<Expansion, CrementError>(e),
    }
}

/// `crement!(++x)`, `crement!(x++)`, `crement!(--x)`, `crement!(x--)`:
/// finds the operator as `locate` says over the kinds of the input tokens,
/// parses the stream of the other tokens as the operand and builds the block
/// of that form; refuses as `locate` does, or with syn's error.
pub fn crement(input: proc_macro2::TokenStream) -> (r: Result<Expansion, CrementError>)
    ensures
        expands(crement_spec(input), r),
        stream_kinds(input).len() <= usize::MAX,
        stream_trees(input).len() == stream_kinds(input).len(),
{
    match parse_crement_inner(input) {
        Ok(c) => Ok(generate(c)),
        Err(e) => Err(e),
    }
}

/// Expands a form whose operator is given beforehand, the whole input being
/// its operand.
fn expand_form(op: Op, input: proc_macro2::TokenStream) -> (r: Result<Expansion, CrementError>)
    ensures
        expands(operand_spec(op, input), r),
{
    match parse_operand(op, input) {
        Ok(c) => Ok(generate(c)),
        Err(e) => Err(e),
    }
}

/// `pre_inc!(x)`, the same as `crement!(++x)`.
pub fn pre_inc(input: proc_macro2::TokenStream) -> (r: Result<Expansion, CrementError>)
    ensures
        expands(operand_spec(Op::PreInc, input), r),
{
    expand_form(Op::PreInc, input)
}

/// `post_inc!(x)`, the same as `crement!(x++)`.
pub fn post_inc(input: proc_macro2::TokenStream) -> (r: Result<Expansion, CrementError>)
    ensures
        expands(operand_spec(Op::PostInc, input), r),
{
    expand_form(Op::PostInc, input)
}

/// `pre_dec!(x)`, the same as `crement!(--x)`.
pub fn pre_dec(input: proc_macro2::TokenStream) -> (r: Result<Expansion, CrementError>)
    ensures
        expands(operand_spec(Op::PreDec, input), r),
{
    expand_form(Op::PreDec, input)
}

/// `post_dec!(x)`, the same as `crement!(x--)`.
pub fn post_dec(input: proc_macro2::TokenStream) -> (r: Result<Expansion, CrementError>)
    ensures
        expands(operand_spec(Op::PostDec, input), r),
{
    expand_form(Op::PostDec, input)
}

} // verus!
