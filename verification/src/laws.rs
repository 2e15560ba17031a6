//! What holds of the library as a whole.

use vstd::prelude::*;

use crate::api::expands;
use crate::expand::{applicable, outcome, plan, runs, step_effect, Binding, Expansion, Stmt};
use crate::parse::{
    crement_spec, has_operator_pair, locate, nests_operator, operand_spec, postfix_op, prefix_op,
    Crement, CrementError, Op, OperatorSite,
};
use crate::steppable::Steppable;
use crate::tokens::{group_stream, groups_below, stream_depth, stream_kinds, stream_trees, TokenKind};
use proc_macro2::{TokenStream, TokenTree};

verus! {

/// The two tokens `++` (for `ch == '+'`) or `--` (for `ch == '-'`) as they
/// stand in the input when written without a space: the first is joint; the
/// second is joint exactly when another punctuation character follows it.
pub open spec fn operator_pair(ch: char, second_joint: bool) -> Seq<TokenKind> {
    seq![TokenKind::Punct { ch, joint: true }, TokenKind::Punct { ch, joint: second_joint }]
}

/// The form that an operator written before the operand denotes.
pub open spec fn prefix_form(ch: char) -> Op {
    if ch == '+' {
        Op::PreInc
    } else {
        Op::PreDec
    }
}

/// The form that an operator written after the operand denotes.
pub open spec fn postfix_form(ch: char) -> Op {
    if ch == '+' {
        Op::PostInc
    } else {
        Op::PostDec
    }
}

/// `++expr` and `--expr` are recognised, whatever follows the operator:
/// the operand is everything after it.
pub proof fn prefix_form_is_recognised(ch: char, second_joint: bool, operand: Seq<TokenKind>)
    requires
        ch == '+' || ch == '-',
        operand.len() >= 1,
        operand.len() + 2 <= usize::MAX,
    ensures
        locate(operator_pair(ch, second_joint) + operand) == Ok::<OperatorSite, CrementError>(
            OperatorSite { op: prefix_form(ch), start: 2, end: (operand.len() + 2) as usize },
        ),
{
    let k = operator_pair(ch, second_joint) + operand;
    assert(k[0] == TokenKind::Punct { ch, joint: true });
    assert(k[1] == TokenKind::Punct { ch, joint: second_joint });
}

/// `expr++` and `expr--` are recognised when the input does not also begin
/// with an operator: the operand is everything before it.
pub proof fn postfix_form_is_recognised(ch: char, last_joint: bool, operand: Seq<TokenKind>)
    requires
        ch == '+' || ch == '-',
        operand.len() >= 1,
        operand.len() + 2 <= usize::MAX,
        prefix_op(operand + operator_pair(ch, last_joint)) is None,
    ensures
        locate(operand + operator_pair(ch, last_joint)) == Ok::<OperatorSite, CrementError>(
            OperatorSite { op: postfix_form(ch), start: 0, end: operand.len() as usize },
        ),
{
    let k = operand + operator_pair(ch, last_joint);
    let n = k.len();
    assert(k[n - 2] == TokenKind::Punct { ch, joint: true });
    assert(k[n - 1] == TokenKind::Punct { ch, joint: last_joint });
}

/// `crement!(++e)` and `crement!(--e)` are `pre_inc!(e)` and `pre_dec!(e)`:
/// for an input made of the operator's two trees followed by the trees of a
/// stream `e` (so nested no more deeply than `e`), the macro's result is what
/// the alias makes of `e`.
pub proof fn prefix_input_is_the_alias(
    input: TokenStream,
    operand: TokenStream,
    ch: char,
    second_joint: bool,
    operator_trees: Seq<TokenTree>,
)
    requires
        ch == '+' || ch == '-',
        operator_trees.len() == 2,
        stream_kinds(operand).len() >= 1,
        stream_kinds(operand).len() == stream_trees(operand).len(),
        stream_kinds(operand).len() + 2 <= usize::MAX,
        stream_kinds(input) == operator_pair(ch, second_joint) + stream_kinds(operand),
        stream_trees(input) == operator_trees + stream_trees(operand),
        stream_depth(input) == stream_depth(operand),
    ensures
        crement_spec(input) == operand_spec(prefix_form(ch), operand),
{
    let n = stream_trees(operand).len();
    prefix_form_is_recognised(ch, second_joint, stream_kinds(operand));
    assert(stream_trees(input).subrange(2, n + 2int) =~= stream_trees(operand));
}

/// `crement!(e++)` and `crement!(e--)` are `post_inc!(e)` and `post_dec!(e)`
/// when the input does not also begin with an operator: for an input made of
/// the trees of a stream `e` followed by the operator's two trees, the
/// macro's result is what the alias makes of `e`.
pub proof fn postfix_input_is_the_alias(
    input: TokenStream,
    operand: TokenStream,
    ch: char,
    last_joint: bool,
    operator_trees: Seq<TokenTree>,
)
    requires
        ch == '+' || ch == '-',
        operator_trees.len() == 2,
        stream_kinds(operand).len() >= 1,
        stream_kinds(operand).len() == stream_trees(operand).len(),
        stream_kinds(operand).len() + 2 <= usize::MAX,
        stream_kinds(input) == stream_kinds(operand) + operator_pair(ch, last_joint),
        stream_trees(input) == stream_trees(operand) + operator_trees,
        stream_depth(input) == stream_depth(operand),
        prefix_op(stream_kinds(operand) + operator_pair(ch, last_joint)) is None,
    ensures
        crement_spec(input) == operand_spec(postfix_form(ch), operand),
{
    let n = stream_trees(operand).len();
    postfix_form_is_recognised(ch, last_joint, stream_kinds(operand));
    assert(stream_trees(input).subrange(0, n as int) =~= stream_trees(operand));
}

/// A group among the trees that holds a joint `++` or `--` is found.
proof fn lemma_group_with_operator_is_found(trees: Seq<TokenTree>, depth: nat, j: int)
    requires
        0 <= j < trees.len(),
        depth > 0,
        group_stream(trees[j]) matches Some(g) && has_operator_pair(stream_kinds(g)),
    ensures
        nests_operator(trees, depth),
    decreases trees.len(),
{
    if j < trees.len() - 1 {
        lemma_group_with_operator_is_found(trees.drop_last(), depth, j);
    }
}

/// A nested use of the macro is refused: when a group within the operand
/// (here the `j`-th tree of the input) holds a joint `++` or `--`, as
/// `arr[crement!(i++)]` does in `crement!(arr[crement!(i++)]++)`, the input
/// is refused with `NestedOperator`, whether or not the operand parses.
pub proof fn nested_operator_is_refused(input: TokenStream, j: int)
    requires
        stream_trees(input).len() == stream_kinds(input).len(),
        stream_kinds(input).len() <= usize::MAX,
        groups_below(stream_trees(input), stream_depth(input)),
        0 <= j < stream_trees(input).len(),
        locate(stream_kinds(input)) matches Ok(site) && site.start <= j < site.end,
        group_stream(stream_trees(input)[j]) matches Some(g) && has_operator_pair(stream_kinds(g)),
    ensures
        crement_spec(input) matches Err(CrementError::NestedOperator),
{
    let site = locate(stream_kinds(input))->Ok_0;
    let trees = stream_trees(input);
    let sub = trees.subrange(site.start as int, site.end as int);
    assert(sub[j - site.start] == trees[j]);
    assert(group_stream(trees[j]) is Some);
    assert(stream_depth(input) > 0);
    lemma_group_with_operator_is_found(sub, stream_depth(input), j - site.start);
}

/// When the input both begins and ends with an operator, the one in front
/// is taken.
pub proof fn prefix_operator_takes_precedence(k: Seq<TokenKind>)
    requires
        prefix_op(k) is Some,
        postfix_op(k) is Some,
    ensures
        locate(k) matches Ok(site) && site.op == prefix_op(k)->0 && site.start == 2,
{
}

/// The character that the operator of a form is written with.
pub open spec fn operator_char(op: Op) -> char {
    if op.spec_is_increment() {
        '+'
    } else {
        '-'
    }
}

/// The token is the punctuation character `c`, whatever its spacing.
pub open spec fn is_char(t: TokenKind, c: char) -> bool {
    t matches TokenKind::Punct { ch, .. } && ch == c
}

/// Whatever is accepted has its operator written as two equal characters
/// `+` or `-` with no space between them, at the front or at the back, and
/// an operand of at least one token, which is all the rest of the input.
pub proof fn accepted_operator_is_unspaced(k: Seq<TokenKind>)
    requires
        k.len() <= usize::MAX,
    ensures
        locate(k) matches Ok(site) ==> {
            let n = k.len() as int;
            let c = operator_char(site.op);
            &&& 3 <= n
            &&& site.op.spec_is_prefix() ==> {
                &&& site.start == 2 && site.end == n
                &&& k[0] == TokenKind::Punct { ch: c, joint: true }
                &&& is_char(k[1], c)
            }
            &&& !site.op.spec_is_prefix() ==> {
                &&& site.start == 0 && site.end == n - 2
                &&& k[n - 2] == TokenKind::Punct { ch: c, joint: true }
                &&& is_char(k[n - 1], c)
            }
        },
{
}

/// An input with no token is refused as empty; a nonempty input whose
/// first and next-to-last tokens are not joint (`+ +`, or no operator at
/// all) is refused for want of an operator.
pub proof fn spaced_or_missing_operator_is_refused(k: Seq<TokenKind>)
    ensures
        k.len() == 0 ==> locate(k) matches Err(CrementError::Empty),
        k.len() > 0 && !k[0].spec_is_joint() && (k.len() < 2 || !k[k.len() - 2].spec_is_joint())
            ==> locate(k) matches Err(CrementError::MissingOperator),
{
}

/// The number of clones that a block takes.
pub open spec fn clone_count(steps: Seq<Stmt>) -> nat
    decreases steps.len(),
{
    if steps.len() == 0 {
        0
    } else {
        clone_count(steps.drop_last()) + if steps.last() is Bind {
            1nat
        } else {
            0nat
        }
    }
}

/// The number of updates (`+= 1` or `-= 1`) that a block makes.
pub open spec fn update_count(steps: Seq<Stmt>) -> nat
    decreases steps.len(),
{
    if steps.len() == 0 {
        0
    } else {
        update_count(steps.drop_last()) + if steps.last() is AddOne || steps.last() is SubOne {
            1nat
        } else {
            0nat
        }
    }
}

/// Every form's block updates the operand once, takes one clone, after the
/// update for a prefix form and before it for a postfix form, into a local of
/// its own (`__crement_new` or `__crement_old`), and gives that local back.
pub proof fn expansion_shape(op: Op)
    ensures
        update_count(plan(op)) == 1,
        clone_count(plan(op)) == 1,
        plan(op).len() == 3,
        ({
            let b = if op.spec_is_prefix() {
                Binding::New
            } else {
                Binding::Old
            };
            let u = if op.spec_is_increment() {
                Stmt::AddOne
            } else {
                Stmt::SubOne
            };
            &&& op.spec_is_prefix() ==> plan(op)[0] == u && plan(op)[1] == Stmt::Bind(b)
            &&& !op.spec_is_prefix() ==> plan(op)[0] == Stmt::Bind(b) && plan(op)[1] == u
            &&& plan(op)[2] == Stmt::Yield(b)
        }),
{
    let p = plan(op);
    assert(p.drop_last().drop_last().drop_last() =~= Seq::<Stmt>::empty());
    reveal_with_fuel(clone_count, 4);
    reveal_with_fuel(update_count, 4);
}

/// Running the block of a form does what the documentation says of it: the
/// operand is stepped once, up for `++` and down for `--`, and the block's
/// value is a clone of the new value for `++x` / `--x` and of the old value
/// for `x++` / `x--`.
pub proof fn expansion_meets_documentation<T: Steppable + Clone>(
    op: Op,
    before: T,
    after: T,
    value: T,
)
    requires
        runs(plan(op), before, None, after, Some(value)),
    ensures
        applicable(op, before),
        outcome(op, before, after, value),
{
    let p = plan(op);
    let (p1, s1) = choose|p1: T, s1: Option<T>|
        step_effect(p[0], before, None, p1, s1) && runs(p.drop_first(), p1, s1, after, Some(value));
    let q = p.drop_first();
    let (p2, s2) = choose|p2: T, s2: Option<T>|
        step_effect(q[0], p1, s1, p2, s2) && runs(q.drop_first(), p2, s2, after, Some(value));
    let t = q.drop_first();
    let (p3, s3) = choose|p3: T, s3: Option<T>|
        step_effect(t[0], p2, s2, p3, s3) && runs(t.drop_first(), p3, s3, after, Some(value));
    assert(t.drop_first().len() == 0);
}

/// The amount by which a form moves the operand.
pub open spec fn step_of(op: Op) -> int {
    if op.spec_is_increment() {
        1
    } else {
        -1
    }
}

/// What C says of `++` and `--` on an integer: the operand moves by exactly
/// one, and the value is the new one for a prefix form and the old one for a
/// postfix form.
pub open spec fn c_semantics(op: Op, before: int, after: int, value: int) -> bool {
    &&& after == before + step_of(op)
    &&& value == if op.spec_is_prefix() {
        after
    } else {
        before
    }
}

/// On every primitive integer type a form applies exactly when its result is
/// in the type's range (where `+= 1` / `-= 1` does not overflow), and then it
/// behaves as in C.
pub proof fn integer_forms_follow_c()
    ensures
        forall|op: Op, v: i8| #[trigger] applicable(op, v) <==> i8::MIN <= v + step_of(op) <= i8::MAX,
        forall|op: Op, v: i8, w: i8, r: i8| applicable(op, v) && #[trigger] outcome(op, v, w, r)
            ==> c_semantics(op, v as int, w as int, r as int),
        forall|op: Op, v: i16| #[trigger] applicable(op, v) <==> i16::MIN <= v + step_of(op) <= i16::MAX,
        forall|op: Op, v: i16, w: i16, r: i16| applicable(op, v) && #[trigger] outcome(op, v, w, r)
            ==> c_semantics(op, v as int, w as int, r as int),
        forall|op: Op, v: i32| #[trigger] applicable(op, v) <==> i32::MIN <= v + step_of(op) <= i32::MAX,
        forall|op: Op, v: i32, w: i32, r: i32| applicable(op, v) && #[trigger] outcome(op, v, w, r)
            ==> c_semantics(op, v as int, w as int, r as int),
        forall|op: Op, v: i64| #[trigger] applicable(op, v) <==> i64::MIN <= v + step_of(op) <= i64::MAX,
        forall|op: Op, v: i64, w: i64, r: i64| applicable(op, v) && #[trigger] outcome(op, v, w, r)
            ==> c_semantics(op, v as int, w as int, r as int),
        forall|op: Op, v: i128| #[trigger] applicable(op, v) <==> i128::MIN <= v + step_of(op) <= i128::MAX,
        forall|op: Op, v: i128, w: i128, r: i128| applicable(op, v) && #[trigger] outcome(op, v, w, r)
            ==> c_semantics(op, v as int, w as int, r as int),
        forall|op: Op, v: isize| #[trigger] applicable(op, v) <==> isize::MIN <= v + step_of(op) <= isize::MAX,
        forall|op: Op, v: isize, w: isize, r: isize| applicable(op, v) && #[trigger] outcome(op, v, w, r)
            ==> c_semantics(op, v as int, w as int, r as int),
        forall|op: Op, v: u8| #[trigger] applicable(op, v) <==> u8::MIN <= v + step_of(op) <= u8::MAX,
        forall|op: Op, v: u8, w: u8, r: u8| applicable(op, v) && #[trigger] outcome(op, v, w, r)
            ==> c_semantics(op, v as int, w as int, r as int),
        forall|op: Op, v: u16| #[trigger] applicable(op, v) <==> u16::MIN <= v + step_of(op) <= u16::MAX,
        forall|op: Op, v: u16, w: u16, r: u16| applicable(op, v) && #[trigger] outcome(op, v, w, r)
            ==> c_semantics(op, v as int, w as int, r as int),
        forall|op: Op, v: u32| #[trigger] applicable(op, v) <==> u32::MIN <= v + step_of(op) <= u32::MAX,
        forall|op: Op, v: u32, w: u32, r: u32| applicable(op, v) && #[trigger] outcome(op, v, w, r)
            ==> c_semantics(op, v as int, w as int, r as int),
        forall|op: Op, v: u64| #[trigger] applicable(op, v) <==> u64::MIN <= v + step_of(op) <= u64::MAX,
        forall|op: Op, v: u64, w: u64, r: u64| applicable(op, v) && #[trigger] outcome(op, v, w, r)
            ==> c_semantics(op, v as int, w as int, r as int),
        forall|op: Op, v: u128| #[trigger] applicable(op, v) <==> u128::MIN <= v + step_of(op) <= u128::MAX,
        forall|op: Op, v: u128, w: u128, r: u128| applicable(op, v) && #[trigger] outcome(op, v, w, r)
            ==> c_semantics(op, v as int, w as int, r as int),
        forall|op: Op, v: usize| #[trigger] applicable(op, v) <==> usize::MIN <= v + step_of(op) <= usize::MAX,
        forall|op: Op, v: usize, w: usize, r: usize| applicable(op, v) && #[trigger] outcome(op, v, w, r)
            ==> c_semantics(op, v as int, w as int, r as int),
{
    // A clone of a primitive integer is the integer itself.
    assert(forall|a: i8, b: i8| #[trigger] cloned(a, b) ==> a == b);
    assert(forall|a: i16, b: i16| #[trigger] cloned(a, b) ==> a == b);
    assert(forall|a: i32, b: i32| #[trigger] cloned(a, b) ==> a == b);
    assert(forall|a: i64, b: i64| #[trigger] cloned(a, b) ==> a == b);
    assert(forall|a: i128, b: i128| #[trigger] cloned(a, b) ==> a == b);
    assert(forall|a: isize, b: isize| #[trigger] cloned(a, b) ==> a == b);
    assert(forall|a: u8, b: u8| #[trigger] cloned(a, b) ==> a == b);
    assert(forall|a: u16, b: u16| #[trigger] cloned(a, b) ==> a == b);
    assert(forall|a: u32, b: u32| #[trigger] cloned(a, b) ==> a == b);
    assert(forall|a: u64, b: u64| #[trigger] cloned(a, b) ==> a == b);
    assert(forall|a: u128, b: u128| #[trigger] cloned(a, b) ==> a == b);
    assert(forall|a: usize, b: usize| #[trigger] cloned(a, b) ==> a == b);
}

/// On every primitive integer type, an increment followed by a decrement
/// gives the operand back its first value.
pub proof fn increment_then_decrement_restores()
    ensures
        forall|up: Op, down: Op, v: i8, w: i8, u: i8, r1: i8, r2: i8|
            up.spec_is_increment() && !down.spec_is_increment() && applicable(up, v)
                && #[trigger] outcome(up, v, w, r1) && #[trigger] outcome(down, w, u, r2) ==> u == v,
        forall|up: Op, down: Op, v: i16, w: i16, u: i16, r1: i16, r2: i16|
            up.spec_is_increment() && !down.spec_is_increment() && applicable(up, v)
                && #[trigger] outcome(up, v, w, r1) && #[trigger] outcome(down, w, u, r2) ==> u == v,
        forall|up: Op, down: Op, v: i32, w: i32, u: i32, r1: i32, r2: i32|
            up.spec_is_increment() && !down.spec_is_increment() && applicable(up, v)
                && #[trigger] outcome(up, v, w, r1) && #[trigger] outcome(down, w, u, r2) ==> u == v,
        forall|up: Op, down: Op, v: i64, w: i64, u: i64, r1: i64, r2: i64|
            up.spec_is_increment() && !down.spec_is_increment() && applicable(up, v)
                && #[trigger] outcome(up, v, w, r1) && #[trigger] outcome(down, w, u, r2) ==> u == v,
        forall|up: Op, down: Op, v: i128, w: i128, u: i128, r1: i128, r2: i128|
            up.spec_is_increment() && !down.spec_is_increment() && applicable(up, v)
                && #[trigger] outcome(up, v, w, r1) && #[trigger] outcome(down, w, u, r2) ==> u == v,
        forall|up: Op, down: Op, v: isize, w: isize, u: isize, r1: isize, r2: isize|
            up.spec_is_increment() && !down.spec_is_increment() && applicable(up, v)
                && #[trigger] outcome(up, v, w, r1) && #[trigger] outcome(down, w, u, r2) ==> u == v,
        forall|up: Op, down: Op, v: u8, w: u8, u: u8, r1: u8, r2: u8|
            up.spec_is_increment() && !down.spec_is_increment() && applicable(up, v)
                && #[trigger] outcome(up, v, w, r1) && #[trigger] outcome(down, w, u, r2) ==> u == v,
        forall|up: Op, down: Op, v: u16, w: u16, u: u16, r1: u16, r2: u16|
            up.spec_is_increment() && !down.spec_is_increment() && applicable(up, v)
                && #[trigger] outcome(up, v, w, r1) && #[trigger] outcome(down, w, u, r2) ==> u == v,
        forall|up: Op, down: Op, v: u32, w: u32, u: u32, r1: u32, r2: u32|
            up.spec_is_increment() && !down.spec_is_increment() && applicable(up, v)
                && #[trigger] outcome(up, v, w, r1) && #[trigger] outcome(down, w, u, r2) ==> u == v,
        forall|up: Op, down: Op, v: u64, w: u64, u: u64, r1: u64, r2: u64|
            up.spec_is_increment() && !down.spec_is_increment() && applicable(up, v)
                && #[trigger] outcome(up, v, w, r1) && #[trigger] outcome(down, w, u, r2) ==> u == v,
        forall|up: Op, down: Op, v: u128, w: u128, u: u128, r1: u128, r2: u128|
            up.spec_is_increment() && !down.spec_is_increment() && applicable(up, v)
                && #[trigger] outcome(up, v, w, r1) && #[trigger] outcome(down, w, u, r2) ==> u == v,
        forall|up: Op, down: Op, v: usize, w: usize, u: usize, r1: usize, r2: usize|
            up.spec_is_increment() && !down.spec_is_increment() && applicable(up, v)
                && #[trigger] outcome(up, v, w, r1) && #[trigger] outcome(down, w, u, r2) ==> u == v,
{
    integer_forms_follow_c();
}

/// The value after `n` steps up from `v`.
pub open spec fn steps_up<T: Steppable>(v: T, n: nat) -> T
    decreases n,
{
    if n == 0 {
        v
    } else {
        steps_up(v, (n - 1) as nat).stepped_up()
    }
}

/// The `i`-th of a row of runs of `x++` takes the operand from `states[i]` to
/// `states[i + 1]` and gives `values[i]`.
pub open spec fn postfix_run_at<T: Steppable + Clone>(states: Seq<T>, values: Seq<T>, i: int) -> bool {
    outcome(Op::PostInc, states[i], states[i + 1], values[i])
}

/// `x++` evaluated again and again gives successive values: the `i`-th use
/// gives a clone of the value `i` steps up from the first, and the operand
/// ends as many steps up as there were uses.
pub proof fn successive_postfix_increments<T: Steppable + Clone>(states: Seq<T>, values: Seq<T>)
    requires
        states.len() == values.len() + 1,
        forall|i: int| 0 <= i < values.len() ==> #[trigger] postfix_run_at(states, values, i),
    ensures
        forall|i: int| 0 <= i <= values.len() ==> #[trigger] states[i] == steps_up(states[0], i as nat),
        forall|i: int| 0 <= i < values.len() ==> cloned(steps_up(states[0], i as nat), #[trigger] values[i]),
    decreases values.len(),
{
    if values.len() > 0 {
        let k = values.len() - 1;
        assert forall|i: int| 0 <= i < k implies #[trigger] postfix_run_at(states.drop_last(), values.drop_last(), i) by {
            assert(postfix_run_at(states, values, i));
        }
        successive_postfix_increments(states.drop_last(), values.drop_last());
        assert(postfix_run_at(states, values, k));
        assert forall|i: int| 0 <= i <= values.len() implies #[trigger] states[i] == steps_up(states[0], i as nat) by {
            if i < values.len() {
                assert(states.drop_last()[i] == states[i]);
            } else {
                assert(states.drop_last()[k] == states[k]);
                assert(steps_up(states[0], i as nat) == steps_up(states[0], k as nat).stepped_up());
            }
        }
        assert forall|i: int| 0 <= i < values.len() implies cloned(steps_up(states[0], i as nat), #[trigger] values[i]) by {
            if i < k {
                assert(values.drop_last()[i] == values[i]);
            }
        }
    }
}

/// `c_semantics` of `x++` at the `i`-th of a row of uses, over the integer
/// values of the operand and of what each use gives.
pub open spec fn integer_postfix_run_at(states: Seq<int>, values: Seq<int>, i: int) -> bool {
    c_semantics(Op::PostInc, states[i], states[i + 1], values[i])
}

/// On an integer (whose forms follow C, `integer_forms_follow_c`), `x++`
/// evaluated `k` times from `v` gives `v, v + 1, ..., v + k - 1` and leaves
/// `v + k`.
pub proof fn successive_integer_postfix_increments(states: Seq<int>, values: Seq<int>)
    requires
        states.len() == values.len() + 1,
        forall|i: int| 0 <= i < values.len() ==> #[trigger] integer_postfix_run_at(states, values, i),
    ensures
        forall|i: int| 0 <= i < values.len() ==> #[trigger] values[i] == states[0] + i,
        states[values.len() as int] == states[0] + values.len(),
    decreases values.len(),
{
    if values.len() > 0 {
        let k = values.len() - 1;
        assert forall|i: int| 0 <= i < k implies #[trigger] integer_postfix_run_at(states.drop_last(), values.drop_last(), i) by {
            assert(integer_postfix_run_at(states, values, i));
        }
        successive_integer_postfix_increments(states.drop_last(), values.drop_last());
        assert(integer_postfix_run_at(states, values, k));
        assert forall|i: int| 0 <= i < values.len() implies #[trigger] values[i] == states[0] + i by {
            if i < k {
                assert(values.drop_last()[i] == values[i]);
            }
        }
    }
}

/// `++` or `--` written without a space starts at `i`: the token is `+`
/// (or `-`) with joint spacing, and the next one is the same character.
pub open spec fn doubled_operator_at(k: Seq<TokenKind>, i: int) -> bool {
    ||| k[i] == TokenKind::Punct { ch: '+', joint: true } && is_char(k[i + 1], '+')
    ||| k[i] == TokenKind::Punct { ch: '-', joint: true } && is_char(k[i + 1], '-')
}

/// What counts as an operator inside a group is exactly a `++` or `--`
/// written without a space: a lone `-` (as in `n - 1`), a lone `+`, a spaced
/// `+ +` or a mixed `+-` is none.
pub proof fn nested_operator_is_a_doubled_character(k: Seq<TokenKind>)
    ensures
        has_operator_pair(k) <==> exists|i: int| 0 <= i < k.len() - 1 && #[trigger] doubled_operator_at(k, i),
{
    if has_operator_pair(k) {
        let i = choose|i: int| 0 <= i < k.len() - 1 && #[trigger] crate::parse::operator_pair_at(k, i);
        assert(doubled_operator_at(k, i));
    }
    if exists|i: int| 0 <= i < k.len() - 1 && #[trigger] doubled_operator_at(k, i) {
        let i = choose|i: int| 0 <= i < k.len() - 1 && #[trigger] doubled_operator_at(k, i);
        assert(crate::parse::operator_pair_at(k, i));
    }
}

/// The tree is a group whose own tokens hold a `++` / `--`, or in which
/// such a group is nested at most `depth - 1` levels further down.
pub open spec fn group_holds_operator(t: TokenTree, depth: nat) -> bool {
    match group_stream(t) {
        Some(g) => depth > 0 && (has_operator_pair(stream_kinds(g)) || nests_operator(
            stream_trees(g),
            (depth - 1) as nat,
        )),
        None => false,
    }
}

/// A nested-use refusal comes only from a group of the operand: one of the
/// operand's trees is a group whose own tokens hold a `++` / `--`, or in
/// which such a group is nested further down.
pub proof fn nested_refusal_comes_from_a_group(trees: Seq<TokenTree>, depth: nat)
    ensures
        nests_operator(trees, depth) ==> exists|j: int|
            0 <= j < trees.len() && #[trigger] group_holds_operator(trees[j], depth),
    decreases trees.len(),
{
    if trees.len() > 0 && nests_operator(trees, depth) {
        let rest = trees.drop_last();
        if nests_operator(rest, depth) {
            nested_refusal_comes_from_a_group(rest, depth);
            let j = choose|j: int| 0 <= j < rest.len() && #[trigger] group_holds_operator(rest[j], depth);
            assert(trees[j] == rest[j]);
        } else {
            assert(group_holds_operator(trees[trees.len() - 1], depth));
        }
    }
}

/// The macro refuses a nested use only where its operand nests an operator,
/// and an alias only where its input does.
pub proof fn nested_refusal_needs_a_nested_operator(input: TokenStream, op: Op)
    ensures
        crement_spec(input) matches Err(CrementError::NestedOperator) ==> locate(stream_kinds(input)) matches Ok(
            site,
        ) && nests_operator(
            stream_trees(input).subrange(site.start as int, site.end as int),
            stream_depth(input),
        ),
        operand_spec(op, input) matches Err(CrementError::NestedOperator) ==> nests_operator(
            stream_trees(input),
            stream_depth(input),
        ),
{
}

/// The form is the operator's alone, whatever the operand: an input that
/// begins with `++` (`--`) that is accepted is `++x` (`--x`), which gives the
/// new value; one that ends with `++` (`--`), and does not begin with one, is
/// `x++` (`x--`), which gives the old value.
pub proof fn form_is_the_operators(input: TokenStream)
    ensures
        ({
            let k = stream_kinds(input);
            let n = k.len() as int;
            let r = crement_spec(input);
            &&& n >= 3 && k[0] == TokenKind::Punct { ch: '+', joint: true } && is_char(k[1], '+')
                ==> (r matches Ok(c) ==> c.op == Op::PreInc)
            &&& n >= 3 && k[0] == TokenKind::Punct { ch: '-', joint: true } && is_char(k[1], '-')
                ==> (r matches Ok(c) ==> c.op == Op::PreDec)
            &&& n >= 3 && !doubled_operator_at(k, 0) && k[n - 2] == TokenKind::Punct { ch: '+', joint: true }
                && is_char(k[n - 1], '+') ==> (r matches Ok(c) ==> c.op == Op::PostInc)
            &&& n >= 3 && !doubled_operator_at(k, 0) && k[n - 2] == TokenKind::Punct { ch: '-', joint: true }
                && is_char(k[n - 1], '-') ==> (r matches Ok(c) ==> c.op == Op::PostDec)
        }),
{
}

/// The same of what `crement` returns: the expansion it gives for an input
/// has the form of the input's operator.
pub proof fn expansion_form_is_the_operators(input: TokenStream, r: Result<Expansion, CrementError>)
    requires
        expands(crement_spec(input), r),
    ensures
        ({
            let k = stream_kinds(input);
            let n = k.len() as int;
            &&& n >= 3 && k[0] == TokenKind::Punct { ch: '+', joint: true } && is_char(k[1], '+')
                ==> (r matches Ok(x) ==> x.spec_op() == Op::PreInc)
            &&& n >= 3 && k[0] == TokenKind::Punct { ch: '-', joint: true } && is_char(k[1], '-')
                ==> (r matches Ok(x) ==> x.spec_op() == Op::PreDec)
            &&& n >= 3 && !doubled_operator_at(k, 0) && k[n - 2] == TokenKind::Punct { ch: '+', joint: true }
                && is_char(k[n - 1], '+') ==> (r matches Ok(x) ==> x.spec_op() == Op::PostInc)
            &&& n >= 3 && !doubled_operator_at(k, 0) && k[n - 2] == TokenKind::Punct { ch: '-', joint: true }
                && is_char(k[n - 1], '-') ==> (r matches Ok(x) ==> x.spec_op() == Op::PostDec)
        }),
{
    form_is_the_operators(input);
}

/// An alias's form is the one it is named for, whatever its input:
/// `pre_inc!(e)` is `++e`, `post_inc!(e)` is `e++`, and so on.
pub proof fn alias_form_is_its_own(op: Op, input: TokenStream, r: Result<Expansion, CrementError>)
    requires
        expands(operand_spec(op, input), r),
    ensures
        operand_spec(op, input) matches Ok(c) ==> c.op == op,
        r matches Ok(x) ==> x.spec_op() == op,
{
}

} // verus!
