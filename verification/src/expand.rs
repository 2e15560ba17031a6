//! The code that the macro expands to, as a list of statements, and what
//! running those statements does to the operand.

use vstd::prelude::*;

use crate::parse::{Crement, Op};
use crate::steppable::Steppable;

verus! {

/// The local that holds the value the block gives back.  Each has its own
/// name, which the expansion creates with definition-site hygiene so that it
/// cannot shadow a variable of the user.
#[derive(Clone, Copy, Debug, PartialEq, Eq, Structural)]
pub enum Binding {
    /// Holds the operand's value before the update (postfix forms).
    Old,
    /// Holds the operand's value after the update (prefix forms).
    New,
}

impl Binding {
    pub open spec fn spec_name(self) -> Seq<char> {
        match self {
            Binding::Old => "__crement_old"@,
            Binding::New => "__crement_new"@,
        }
    }

    /// The identifier of the local.
    pub fn name(&self) -> (s: &'static str)
        ensures
            s@ == self.spec_name(),
    {
        match self {
            Binding::Old => "__crement_old",
            Binding::New => "__crement_new",
        }
    }
}

/// One statement of the expanded block, whose operand is the macro's
/// expression `e`.
#[derive(Clone, Copy, Debug, PartialEq, Eq, Structural)]
pub enum Stmt {
    /// `e += 1;`
    AddOne,
    /// `e -= 1;`
    SubOne,
    /// `let b = ::core::clone::Clone::clone(&e);`
    Bind(Binding),
    /// `b`, the value of the block.
    Yield(Binding),
}

/// The block that each form expands to.
pub open spec fn plan(op: Op) -> Seq<Stmt> {
    match op {
        Op::PreInc => seq![Stmt::AddOne, Stmt::Bind(Binding::New), Stmt::Yield(Binding::New)],
        Op::PostInc => seq![Stmt::Bind(Binding::Old), Stmt::AddOne, Stmt::Yield(Binding::Old)],
        Op::PreDec => seq![Stmt::SubOne, Stmt::Bind(Binding::New), Stmt::Yield(Binding::New)],
        Op::PostDec => seq![Stmt::Bind(Binding::Old), Stmt::SubOne, Stmt::Yield(Binding::Old)],
    }
}

/// What one statement does: it takes the operand `place` and the bound local
/// `slot` to `place2` and `slot2`.
pub open spec fn step_effect<T: Steppable + Clone>(
    s: Stmt,
    place: T,
    slot: Option<T>,
    place2: T,
    slot2: Option<T>,
) -> bool {
    match s {
        Stmt::AddOne => place.can_step_up() && place2 == place.stepped_up() && slot2 == slot,
        Stmt::SubOne => place.can_step_down() && place2 == place.stepped_down() && slot2 == slot,
        Stmt::Bind(_) => place2 == place && (slot2 matches Some(c) && cloned(place, c)),
        Stmt::Yield(_) => place2 == place && slot2 == slot,
    }
}

/// Running `steps` from `(place, slot)` can end in `(place2, slot2)`.
pub open spec fn runs<T: Steppable + Clone>(
    steps: Seq<Stmt>,
    place: T,
    slot: Option<T>,
    place2: T,
    slot2: Option<T>,
) -> bool
    decreases steps.len(),
{
    if steps.len() == 0 {
        place2 == place && slot2 == slot
    } else {
        exists|p: T, s: Option<T>|
            #![trigger step_effect(steps[0], place, slot, p, s)]
            step_effect(steps[0], place, slot, p, s) && runs(steps.drop_first(), p, s, place2, slot2)
    }
}

/// The form can be applied to an operand holding `before`: the update it
/// makes is defined there.
pub open spec fn applicable<T: Steppable>(op: Op, before: T) -> bool {
    if op.spec_is_increment() {
        before.can_step_up()
    } else {
        before.can_step_down()
    }
}

/// What the documentation promises of each form: the operand goes from
/// `before` to `after`, and the block gives `value`, a clone of the new value
/// for a prefix form and of the old value for a postfix form.
pub open spec fn outcome<T: Steppable + Clone>(op: Op, before: T, after: T, value: T) -> bool {
    match op {
        Op::PreInc => after == before.stepped_up() && cloned(after, value),
        Op::PostInc => after == before.stepped_up() && cloned(before, value),
        Op::PreDec => after == before.stepped_down() && cloned(after, value),
        Op::PostDec => after == before.stepped_down() && cloned(before, value),
    }
}

/// The expansion of one use of the macro: the operand expression and the
/// statements of the block around it.
pub struct Expansion {
    op: Op,
    expr: syn::Expr,
    steps: Vec<Stmt>,
}

impl Expansion {
    #[verifier::type_invariant]
    spec fn wf(self) -> bool {
        self.steps@ == plan(self.op)
    }

    pub closed spec fn spec_op(self) -> Op {
        self.op
    }

    pub closed spec fn spec_expr(self) -> syn::Expr {
        self.expr
    }

    /// The form.
    pub fn op(&self) -> (o: Op)
        ensures
            o == self.spec_op(),
    {
        self.op
    }

    /// The operand expression.
    pub fn expr(&self) -> (e: &syn::Expr)
        ensures
            *e == self.spec_expr(),
    {
        &self.expr
    }

    /// The statements of the block, in order.
    pub fn steps(&self) -> (s: &Vec<Stmt>)
        ensures
            s@ == plan(self.spec_op()),
    {
        proof {
            use_type_invariant(self);
        }
        &self.steps
    }
}

/// The `j`-th statement takes the `j`-th state of a trace to the next one.
pub open spec fn step_at<T: Steppable + Clone>(
    steps: Seq<Stmt>,
    places: Seq<T>,
    slots: Seq<Option<T>>,
    j: int,
) -> bool {
    step_effect(steps[j], places[j], slots[j], places[j + 1], slots[j + 1])
}

/// A trace of states, each reached from the one before by its statement,
/// is a run of the statements from its first state to its last.
proof fn lemma_trace_runs<T: Steppable + Clone>(
    steps: Seq<Stmt>,
    places: Seq<T>,
    slots: Seq<Option<T>>,
    k: int,
)
    requires
        0 <= k <= steps.len(),
        places.len() == steps.len() + 1,
        slots.len() == steps.len() + 1,
        forall|j: int| 0 <= j < steps.len() ==> #[trigger] step_at(steps, places, slots, j),
    ensures
        runs(
            steps.subrange(k, steps.len() as int),
            places[k],
            slots[k],
            places[steps.len() as int],
            slots[steps.len() as int],
        ),
    decreases steps.len() - k,
{
    let n = steps.len() as int;
    if k < n {
        lemma_trace_runs(steps, places, slots, k + 1);
        let rest = steps.subrange(k, n);
        assert(rest.drop_first() == steps.subrange(k + 1, n));
        assert(step_at(steps, places, slots, k));
        assert(step_effect(rest[0], places[k], slots[k], places[k + 1], slots[k + 1]));
    }
}

impl Expansion {
    /// Runs the block on the operand `place`: performs each statement in
    /// order and gives back the value of the block.
    pub fn run<T: Steppable + Clone>(&self, place: &mut T) -> (r: T)
        requires
            applicable(self.spec_op(), *old(place)),
        ensures
            runs(plan(self.spec_op()), *old(place), None, *final(place), Some(r)),
            outcome(self.spec_op(), *old(place), *final(place), r),
    {
        proof {
            use_type_invariant(self);
        }
        let ghost start = *place;
        let ghost op = self.op;
        let mut slot: Option<T> = None;
        let ghost mut places: Seq<T> = seq![*place];
        let ghost mut slots: Seq<Option<T>> = seq![None];
        let n = self.steps.len();
        let mut i: usize = 0;
        while i < n
            invariant
                i <= n,
                n == self.steps@.len(),
                self.steps@ == plan(op),
                op == self.spec_op(),
                applicable(op, start),
                places.len() == i + 1,
                slots.len() == i + 1,
                places[0] == start,
                slots[0] == None::<T>,
                places[i as int] == *place,
                slots[i as int] == slot,
                (i == 0 || (i == 1 && !op.spec_is_prefix())) ==> *place == start,
                forall|j: int| 0 <= j < i ==> #[trigger] step_at(self.steps@, places, slots, j),
            decreases n - i,
        {
            let ghost before_place = *place;
            let ghost before_slot = slot;
            match &self.steps[i] {
                Stmt::AddOne => place.step_up(),
                Stmt::SubOne => place.step_down(),
                Stmt::Bind(_) => {
                    slot = Some(place.clone());
                },
                Stmt::Yield(_) => {},
            }
            proof {
                let ghost old_places = places;
                let ghost old_slots = slots;
                places = places.push(*place);
                slots = slots.push(slot);
                assert forall|j: int| 0 <= j <= i implies #[trigger] step_at(
                    self.steps@,
                    places,
                    slots,
                    j,
                ) by {
                    if j < i {
                        assert(step_at(self.steps@, old_places, old_slots, j));
                    }
                }
            }
            i = i + 1;
        }
        proof {
            let steps = self.steps@;
            assert(step_at(steps, places, slots, 0));
            assert(step_at(steps, places, slots, 1));
            assert(step_at(steps, places, slots, 2));
            lemma_trace_runs(self.steps@, places, slots, 0);
            assert(self.steps@.subrange(0, n as int) == self.steps@);
        }
        slot.unwrap()
    }
}

/// Builds the block for a recognised use of the macro.
pub fn generate(c: Crement) -> (e: Expansion)
    ensures
        e.spec_op() == c.op,
        e.spec_expr() == c.expr,
{
    let steps = match c.op {
        Op::PreInc => vec![Stmt::AddOne, Stmt::Bind(Binding::New), Stmt::Yield(Binding::New)],
        Op::PostInc => vec![Stmt::Bind(Binding::Old), Stmt::AddOne, Stmt::Yield(Binding::Old)],
        Op::PreDec => vec![Stmt::SubOne, Stmt::Bind(Binding::New), Stmt::Yield(Binding::New)],
        Op::PostDec => vec![Stmt::Bind(Binding::Old), Stmt::SubOne, Stmt::Yield(Binding::Old)],
    };
    proof {
        assert(steps@ == plan(c.op));
    }
    Expansion { op: c.op, expr: c.expr, steps }
}

} // verus!
