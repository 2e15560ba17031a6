//! Finding the `++` / `--` operator in the macro input and parsing the operand.

use vstd::prelude::*;

use proc_macro2::TokenTree;
use crate::tokens::{
    group_stream, groups_below, kinds_of, stream_depth, stream_from, stream_kinds, stream_of,
    stream_trees, tokens_of, trees_of, Token, TokenKind,
};

verus! {

/// The declaration that lets `syn::Expr` stand in signatures.
#[verifier::external_type_specification]
#[verifier::external_body]
pub struct ExExpr(syn::Expr);

/// The declaration that lets `syn::Error` stand in signatures.
#[verifier::external_type_specification]
#[verifier::external_body]
pub struct ExSynError(syn::Error);

/// The four C-style forms.
#[derive(Clone, Copy, Debug, PartialEq, Eq, Structural)]
pub enum Op {
    /// `++x`: add one, give the new value.
    PreInc,
    /// `x++`: add one, give the old value.
    PostInc,
    /// `--x`: subtract one, give the new value.
    PreDec,
    /// `x--`: subtract one, give the old value.
    PostDec,
}

impl Op {
    pub open spec fn spec_is_increment(self) -> bool {
        self is PreInc || self is PostInc
    }

    pub open spec fn spec_is_prefix(self) -> bool {
        self is PreInc || self is PreDec
    }

    /// `true` for `++x` and `x++`.
    pub fn is_increment(&self) -> (r: bool)
        ensures
            r == self.spec_is_increment(),
    {
        match self {
            Op::PreInc | Op::PostInc => true,
            Op::PreDec | Op::PostDec => false,
        }
    }

    /// `true` for `++x` and `--x`, the forms that give the new value.
    pub fn is_prefix(&self) -> (r: bool)
        ensures
            r == self.spec_is_prefix(),
    {
        match self {
            Op::PreInc | Op::PreDec => true,
            Op::PostInc | Op::PostDec => false,
        }
    }
}

/// Why the macro input was refused.
#[derive(Debug)]
pub enum CrementError {
    /// The input holds no token at all.
    Empty,
    /// Neither the input's first two tokens nor its last two are a joint
    /// `++` or `--` (with at least one token besides them).
    MissingOperator,
    /// The operand holds, inside a group (brackets, parentheses or braces,
    /// at any depth), a joint `++` or `--`, as a nested use of the macro does.
    NestedOperator,
    /// The operand is not an expression.
    Syntax(syn::Error),
}

impl CrementError {
    pub open spec fn spec_message(self) -> Option<Seq<char>> {
        match self {
            CrementError::Empty => Some(
                "expected one of: `++expr`, `expr++`, `--expr`, `expr--`\nhint: the macro requires an expression with a `++` or `--` operator"@,
            ),
            CrementError::MissingOperator => Some(
                "expected one of: `++expr`, `expr++`, `--expr`, `expr--`\nhint: `++` and `--` must be written without spaces between the two characters"@,
            ),
            CrementError::NestedOperator => Some(
                "`++` and `--` must appear at the outermost level of the expression, not nested inside another `crement!` call\nhint: use two separate statements"@,
            ),
            CrementError::Syntax(_) => None,
        }
    }

    /// The diagnostic of one of the library's own refusals (a syntax error
    /// of the operand carries the parser's own).
    pub fn message(&self) -> (m: &'static str)
        requires
            !(self is Syntax),
        ensures
            self.spec_message() == Some(m@),
    {
        match self {
            CrementError::Empty => {
                "expected one of: `++expr`, `expr++`, `--expr`, `expr--`\nhint: the macro requires an expression with a `++` or `--` operator"
            },
            CrementError::MissingOperator => {
                "expected one of: `++expr`, `expr++`, `--expr`, `expr--`\nhint: `++` and `--` must be written without spaces between the two characters"
            },
            CrementError::NestedOperator => {
                "`++` and `--` must appear at the outermost level of the expression, not nested inside another `crement!` call\nhint: use two separate statements"
            },
            CrementError::Syntax(_) => {
                proof {
                    assert(false);
                }
                ""
            },
        }
    }
}

/// Where the operator stands: `op`, and the operand, which is the tokens
/// `start..end` of the input.
#[derive(Clone, Copy, Debug, PartialEq, Eq, Structural)]
pub struct OperatorSite {
    pub op: Op,
    pub start: usize,
    pub end: usize,
}

/// A prefix `++` or `--`: the input has at least three tokens, the first is
/// joint, and the first two are both `+` or both `-`.
pub open spec fn prefix_op(k: Seq<TokenKind>) -> Option<Op> {
    if k.len() >= 3 && k[0].spec_is_joint() {
        if k[0].spec_is_plus() && k[1].spec_is_plus() {
            Some(Op::PreInc)
        } else if k[0].spec_is_minus() && k[1].spec_is_minus() {
            Some(Op::PreDec)
        } else {
            None
        }
    } else {
        None
    }
}

/// A postfix `++` or `--`: the input has at least three tokens, the one
/// before the last is joint, and the last two are both `+` or both `-`.
pub open spec fn postfix_op(k: Seq<TokenKind>) -> Option<Op> {
    let n = k.len();
    if n >= 3 && k[n - 2].spec_is_joint() {
        if k[n - 2].spec_is_plus() && k[n - 1].spec_is_plus() {
            Some(Op::PostInc)
        } else if k[n - 2].spec_is_minus() && k[n - 1].spec_is_minus() {
            Some(Op::PostDec)
        } else {
            None
        }
    } else {
        None
    }
}

/// The operator of an input, a prefix one taking precedence, with the
/// operand that is left when its two tokens are taken away.
pub open spec fn locate(k: Seq<TokenKind>) -> Result<OperatorSite, CrementError> {
    if k.len() == 0 {
        Err(CrementError::Empty)
    } else if let Some(op) = prefix_op(k) {
        Ok(OperatorSite { op, start: 2, end: k.len() as usize })
    } else if let Some(op) = postfix_op(k) {
        Ok(OperatorSite { op, start: 0, end: (k.len() - 2) as usize })
    } else {
        Err(CrementError::MissingOperator)
    }
}

/// Finds the `++` / `--` operator among the kinds of the input tokens.
pub fn locate_operator(kinds: &Vec<TokenKind>) -> (r: Result<OperatorSite, CrementError>)
    ensures
        r == locate(kinds@),
{
    let n = kinds.len();
    if n == 0 {
        return Err(CrementError::Empty);
    }
    if n >= 3 && kinds[0].is_joint() {
        if kinds[0].is_plus() && kinds[1].is_plus() {
            return Ok(OperatorSite { op: Op::PreInc, start: 2, end: n });
        }
        if kinds[0].is_minus() && kinds[1].is_minus() {
            return Ok(OperatorSite { op: Op::PreDec, start: 2, end: n });
        }
    }
    if n >= 3 && kinds[n - 2].is_joint() {
        if kinds[n - 2].is_plus() && kinds[n - 1].is_plus() {
            return Ok(OperatorSite { op: Op::PostInc, start: 0, end: n - 2 });
        }
        if kinds[n - 2].is_minus() && kinds[n - 1].is_minus() {
            return Ok(OperatorSite { op: Op::PostDec, start: 0, end: n - 2 });
        }
    }
    Err(CrementError::MissingOperator)
}

/// A joint `++` or `--` starts at `i`: the token is joint, and it and the
/// next are both `+` or both `-`.
pub open spec fn operator_pair_at(k: Seq<TokenKind>, i: int) -> bool {
    &&& k[i].spec_is_joint()
    &&& (k[i].spec_is_plus() && k[i + 1].spec_is_plus()) || (k[i].spec_is_minus() && k[i + 1].spec_is_minus())
}

/// A joint `++` or `--` stands somewhere among the tokens.
pub open spec fn has_operator_pair(k: Seq<TokenKind>) -> bool {
    exists|i: int| 0 <= i < k.len() - 1 && #[trigger] operator_pair_at(k, i)
}

/// Some group among `trees`, or nested in one of them at most `depth`
/// levels down, holds a joint `++` or `--` among its own tokens.
pub open spec fn nests_operator(trees: Seq<TokenTree>, depth: nat) -> bool
    decreases depth, trees.len(),
{
    if trees.len() == 0 {
        false
    } else if nests_operator(trees.drop_last(), depth) {
        true
    } else if depth == 0 {
        false
    } else {
        match group_stream(trees.last()) {
            Some(g) => has_operator_pair(stream_kinds(g)) || nests_operator(
                stream_trees(g),
                (depth - 1) as nat,
            ),
            None => false,
        }
    }
}

/// Whether a joint `++` or `--` stands among the kinds.
fn holds_operator_pair(kinds: &Vec<TokenKind>) -> (r: bool)
    ensures
        r == has_operator_pair(kinds@),
{
    let n = kinds.len();
    if n < 2 {
        return false;
    }
    let mut i: usize = 0;
    while i < n - 1
        invariant
            n == kinds@.len(),
            n >= 2,
            i <= n - 1,
            forall|j: int| 0 <= j < i ==> !#[trigger] operator_pair_at(kinds@, j),
        decreases n - i,
    {
        let a = &kinds[i];
        let b = &kinds[i + 1];
        if a.is_joint() && ((a.is_plus() && b.is_plus()) || (a.is_minus() && b.is_minus())) {
            assert(operator_pair_at(kinds@, i as int));
            return true;
        }
        i = i + 1;
    }
    false
}

/// Whether a group among the tokens, at most `depth` levels down, holds a
/// joint `++` or `--`: `nests_operator` of their trees, searched to the end
/// since every group is nested less deeply than `depth`.
fn nested_operator(tokens: &Vec<Token>, Ghost(depth): Ghost<nat>) -> (r: bool)
    requires
        groups_below(trees_of(tokens@), depth),
    ensures
        r == nests_operator(trees_of(tokens@), depth),
    decreases depth,
{
    let n = tokens.len();
    let mut found = false;
    let mut i: usize = 0;
    while i < n
        invariant
            n == tokens@.len(),
            i <= n,
            groups_below(trees_of(tokens@), depth),
            found == nests_operator(trees_of(tokens@).take(i as int), depth),
        decreases n - i,
    {
        let ghost trees = trees_of(tokens@);
        assert(trees.take(i + 1).drop_last() =~= trees.take(i as int));
        assert(trees.take(i + 1).last() == tokens@[i as int].spec_tree());
        if !found {
            match tokens[i].inner_stream() {
                Some(g) => {
                    proof {
                        assert(group_stream(trees[i as int]) == Some(g));
                    }
                    let inner = tokens_of(g);
                    let kinds = kinds_of_tokens(&inner);
                    if holds_operator_pair(&kinds) {
                        found = true;
                    } else {
                        proof {
                            assert forall|j: int|
                                0 <= j < trees_of(inner@).len() implies (#[trigger] group_stream(
                                    trees_of(inner@)[j],
                                ) matches Some(h) ==> stream_depth(h) < (depth - 1) as nat) by {
                                assert(groups_below(trees_of(inner@), stream_depth(g)));
                            }
                        }
                        found = nested_operator(&inner, Ghost((depth - 1) as nat));
                    }
                },
                None => {},
            }
        }
        i = i + 1;
    }
    proof {
        assert(trees_of(tokens@).take(n as int) =~= trees_of(tokens@));
    }
    found
}

/// A recognised use of the macro: the operator and the operand expression.
pub struct Crement {
    pub op: Op,
    pub expr: syn::Expr,
}

/// What syn's parser gives for a stream read as one Rust expression.
pub uninterp spec fn parsed_expr(s: proc_macro2::TokenStream) -> Result<syn::Expr, syn::Error>;

/// Parses tokens as a Rust expression (`syn::parse2::<syn::Expr>`).
/// Claimed: the outcome is a function of the stream alone.  Which streams
/// form an expression is syn's grammar of Rust, which is not restated here.
#[verifier::external_body]
pub(crate) fn parse_expr(input: proc_macro2::TokenStream) -> (r: Result<syn::Expr, syn::Error>)
    ensures
        r == parsed_expr(input),
{
    syn::parse2::<syn::Expr>(input)
}

/// The use of the macro that form `op` with operand parse `parsed` makes:
/// the operand expression when it parses, else the parser's error.
pub open spec fn crement_of(op: Op, parsed: Result<syn::Expr, syn::Error>) -> Result<Crement, CrementError> {
    match parsed {
        Ok(e) => Ok(Crement { op, expr: e }),
        Err(err) => Err(CrementError::Syntax(err)),
    }
}

/// The operand of an input whose operator stands at `site`: the stream of
/// the input's trees `site.start..site.end`.
pub open spec fn operand_stream(input: proc_macro2::TokenStream, site: OperatorSite) -> proc_macro2::TokenStream {
    stream_from(stream_trees(input).subrange(site.start as int, site.end as int))
}

/// A group within the operand at `site` holds a joint `++` or `--`.
pub open spec fn nested_in_operand(input: proc_macro2::TokenStream, site: OperatorSite) -> bool {
    nests_operator(stream_trees(input).subrange(site.start as int, site.end as int), stream_depth(input))
}

/// What the macro makes of its input: the refusal of `locate`; else, when a
/// group within the operand holds a joint `++` or `--`, that refusal; else
/// the form it finds with its operand parsed.
pub open spec fn crement_spec(input: proc_macro2::TokenStream) -> Result<Crement, CrementError> {
    match locate(stream_kinds(input)) {
        Err(e) => Err(e),
        Ok(site) => if nested_in_operand(input, site) {
            Err(CrementError::NestedOperator)
        } else {
            crement_of(site.op, parsed_expr(operand_stream(input, site)))
        },
    }
}

/// What a form whose operator is given makes of its input, all of which is
/// the operand: refused when a group in it holds a joint `++` or `--`, else
/// the parse of the stream of its trees.
pub open spec fn operand_spec(op: Op, input: proc_macro2::TokenStream) -> Result<Crement, CrementError> {
    if nests_operator(stream_trees(input), stream_depth(input)) {
        Err(CrementError::NestedOperator)
    } else {
        crement_of(op, parsed_expr(stream_from(stream_trees(input))))
    }
}

/// Pairs the operator with the outcome of parsing its operand.
pub fn finish(op: Op, parsed: Result<syn::Expr, syn::Error>) -> (r: Result<Crement, CrementError>)
    ensures
        r == crement_of(op, parsed),
{
    match parsed {
        Ok(expr) => Ok(Crement { op, expr }),
        Err(err) => Err(CrementError::Syntax(err)),
    }
}

/// Keeps the operand of `site`, the tokens `site.start..site.end`.
fn take_operand(tokens: Vec<Token>, site: OperatorSite) -> (operand: Vec<Token>)
    requires
        site.start <= site.end <= tokens@.len(),
        site.start == 0 || site.end == tokens@.len(),
    ensures
        operand@ == tokens@.subrange(site.start as int, site.end as int),
        trees_of(operand@) == trees_of(tokens@).subrange(site.start as int, site.end as int),
{
    let ghost all = tokens@;
    let mut tokens = tokens;
    let operand = if site.start == 0 {
        tokens.truncate(site.end);
        tokens
    } else {
        tokens.split_off(site.start)
    };
    assert(trees_of(operand@) =~= trees_of(all).subrange(site.start as int, site.end as int));
    operand
}

/// The kinds of the tokens, in order.
fn kinds_of_tokens(tokens: &Vec<Token>) -> (kinds: Vec<TokenKind>)
    ensures
        kinds@ == kinds_of(tokens@),
        kinds@.len() == tokens@.len(),
{
    let mut kinds: Vec<TokenKind> = Vec::new();
    let n = tokens.len();
    for i in 0..n
        invariant
            n == tokens@.len(),
            kinds@ == kinds_of(tokens@).take(i as int),
    {
        kinds.push(tokens[i].kind());
        assert(kinds_of(tokens@).take(i + 1) == kinds_of(tokens@).take(i as int).push(
            tokens@[i as int].spec_kind(),
        ));
    }
    assert(kinds_of(tokens@).take(n as int) == kinds_of(tokens@));
    kinds
}

/// Recognises `++expr`, `expr++`, `--expr` or `expr--` in the macro input and
/// parses the operand.  The operator is found as `locate` says over the kinds
/// of the input's tokens; an operand with a joint `++` or `--` nested in one
/// of its groups is refused; the operand's parse is syn's.
pub fn parse_crement_inner(input: proc_macro2::TokenStream) -> (r: Result<Crement, CrementError>)
    ensures
        r == crement_spec(input),
        stream_kinds(input).len() <= usize::MAX,
        stream_trees(input).len() == stream_kinds(input).len(),
{
    let tokens = tokens_of(input);
    let kinds = kinds_of_tokens(&tokens);
    match locate_operator(&kinds) {
        Err(e) => Err(e),
        Ok(site) => {
            proof {
                assert(kinds@.len() == tokens@.len());
                assert(site.start <= site.end <= kinds@.len());
                assert(trees_of(tokens@).len() == tokens@.len());
            }
            let operand = take_operand(tokens, site);
            proof {
                assert(trees_of(operand@) =~= stream_trees(input).subrange(site.start as int, site.end as int));
            }
            if nested_operator(&operand, Ghost(stream_depth(input))) {
                Err(CrementError::NestedOperator)
            } else {
                finish(site.op, parse_expr(stream_of(operand)))
            }
        },
    }
}

/// Parses the whole input as the operand of a form that is given beforehand,
/// refusing it, as `crement` does, when a group in it holds a joint `++` or
/// `--`.
pub fn parse_operand(op: Op, input: proc_macro2::TokenStream) -> (r: Result<Crement, CrementError>)
    ensures
        r == operand_spec(op, input),
{
    let tokens = tokens_of(input);
    if nested_operator(&tokens, Ghost(stream_depth(input))) {
        Err(CrementError::NestedOperator)
    } else {
        finish(op, parse_expr(stream_of(tokens)))
    }
}

} // verus!
