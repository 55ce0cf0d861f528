//! What holds of the calculus as a whole, stated over the model and proved.
use crate::lambda::{Eval, Lambda};
use crate::term::{
    apply, apply2, apply3, apply4, apply_opt, eval, lemma_apply_unfold, rule, value, Term,
};
use vstd::prelude::*;

verus! {

/// The ten constants of the calculus.
pub enum Combinator {
    Id,
    True,
    False,
    Lor,
    Land,
    Not,
    Zero,
    Succ,
    Add,
    Add2,
}

/// The number of arguments after which a combinator reduces.
pub open spec fn arity(c: Combinator) -> nat {
    match c {
        Combinator::Id | Combinator::Not => 1,
        Combinator::True | Combinator::False | Combinator::Zero | Combinator::Add2 => 2,
        Combinator::Lor | Combinator::Land | Combinator::Succ => 3,
        Combinator::Add => 4,
    }
}

/// The combinator that `t` is, or is a closure of.
pub open spec fn head(t: Term) -> Combinator {
    match t {
        Term::Id => Combinator::Id,
        Term::True | Term::True_(_) => Combinator::True,
        Term::False | Term::False_(_) => Combinator::False,
        Term::Lor | Term::Lor_(_) | Term::Lor__(_, _) => Combinator::Lor,
        Term::Land | Term::Land_(_) | Term::Land__(_, _) => Combinator::Land,
        Term::Not => Combinator::Not,
        Term::Zero | Term::Zero_(_) => Combinator::Zero,
        Term::Succ | Term::Succ_(_) | Term::Succ__(_, _) => Combinator::Succ,
        Term::Add | Term::Add_(_) | Term::Add__(_, _) | Term::Add___(_, _, _) => Combinator::Add,
        Term::Add2 | Term::Add2_(_) => Combinator::Add2,
    }
}

/// The arguments that `t` has received so far, in the order in which they came.
pub open spec fn held(t: Term) -> Seq<Term> {
    match t {
        Term::Id
        | Term::True
        | Term::False
        | Term::Lor
        | Term::Land
        | Term::Not
        | Term::Zero
        | Term::Succ
        | Term::Add
        | Term::Add2 => seq![],
        Term::True_(x)
        | Term::False_(x)
        | Term::Lor_(x)
        | Term::Land_(x)
        | Term::Zero_(x)
        | Term::Succ_(x)
        | Term::Add_(x)
        | Term::Add2_(x) => seq![*x],
        Term::Lor__(x, y) | Term::Land__(x, y) | Term::Succ__(x, y) | Term::Add__(x, y) => seq![
            *x,
            *y,
        ],
        Term::Add___(x, y, z) => seq![*x, *y, *z],
    }
}

/// The model of a boolean.
pub open spec fn boolean(b: bool) -> Term {
    if b {
        Term::True
    } else {
        Term::False
    }
}

/// The first of two terms where `b` holds, else the second.
pub open spec fn choice(b: bool, x: Term, y: Term) -> Term {
    if b {
        x
    } else {
        y
    }
}

/// `t` chooses between two arguments as the boolean `b` does.
pub open spec fn behaves_as(t: Term, b: bool) -> bool {
    forall|x: Term, y: Term| #[trigger] apply2(t, x, y) == Some(choice(b, x, y))
}

/// The model of the numeral `n`: `Succ` applied `n` times to `Zero`.
pub open spec fn numeral(n: nat) -> Term
    decreases n,
{
    if n == 0 {
        Term::Zero
    } else {
        Term::Succ_(Box::new(numeral((n - 1) as nat)))
    }
}

/// `f (f (.. (f z)))`, with `n` applications of `f`.
pub open spec fn iterate(f: Term, n: nat, z: Term) -> Option<Term>
    decreases n,
{
    if n == 0 {
        Some(z)
    } else {
        apply_opt(Some(f), iterate(f, (n - 1) as nat, z))
    }
}

/// The number of terms that `t` holds, directly or inside a term that it holds.
pub open spec fn captured(t: Term) -> nat
    decreases t,
{
    match t {
        Term::Id
        | Term::True
        | Term::False
        | Term::Lor
        | Term::Land
        | Term::Not
        | Term::Zero
        | Term::Succ
        | Term::Add
        | Term::Add2 => 0,
        Term::True_(x)
        | Term::False_(x)
        | Term::Lor_(x)
        | Term::Land_(x)
        | Term::Zero_(x)
        | Term::Succ_(x)
        | Term::Add_(x)
        | Term::Add2_(x) => 1 + captured(*x),
        Term::Lor__(x, y) | Term::Land__(x, y) | Term::Succ__(x, y) | Term::Add__(x, y) => 2
            + captured(*x) + captured(*y),
        Term::Add___(x, y, z) => 3 + captured(*x) + captured(*y) + captured(*z),
    }
}

/// Every term still waits for an argument: it holds fewer than its combinator
/// takes.
pub proof fn law_held_below_arity(t: Term)
    ensures
        held(t).len() < arity(head(t)),
{
}

/// A term that will not have all its arguments after one more stores that one
/// behind those it holds, and stays a closure of the same combinator.
pub proof fn law_early_argument_is_stored(t: Term, a: Term)
    requires
        held(t).len() + 1 < arity(head(t)),
    ensures
        apply(t, a) matches Some(c) && head(c) == head(t) && held(c) == held(t).push(a),
{
    lemma_apply_unfold(t, a);
}

/// The number of terms held grows with every term stored, by one and by what
/// that term holds itself.
pub proof fn law_stored_argument_counts(t: Term, a: Term)
    requires
        held(t).len() + 1 < arity(head(t)),
    ensures
        apply(t, a) matches Some(c) && captured(c) == captured(t) + 1 + captured(a),
{
    lemma_apply_unfold(t, a);
}

/// Reduction need not end: `Lor` holding `Lor` and any term unfolds, on any
/// argument, into itself.
pub proof fn law_lor_on_lor_has_no_result(y: Term, z: Term)
    ensures
        apply(Term::Lor__(Box::new(Term::Lor), Box::new(y)), z) is None,
{
    let e = rule(Term::Lor__(Box::new(Term::Lor), Box::new(y)), z);
    assert forall|fuel: nat| eval(e, fuel) is None by {
        lemma_lor_on_lor_runs_out(y, z, fuel);
    }
}

proof fn lemma_lor_on_lor_runs_out(y: Term, z: Term, fuel: nat)
    ensures
        eval(rule(Term::Lor__(Box::new(Term::Lor), Box::new(y)), z), fuel) is None,
    decreases fuel,
{
    reveal_with_fuel(eval, 5);
    if fuel > 0 {
        lemma_lor_on_lor_runs_out(y, z, (fuel - 1) as nat);
    }
}

/// A boolean applied to two terms is the first of them for `True` and the
/// second for `False`.
pub proof fn law_boolean_selects(b: bool, x: Term, y: Term)
    ensures
        apply2(boolean(b), x, y) == Some(choice(b, x, y)),
{
    lemma_apply_unfold(boolean(b), x);
    lemma_apply_unfold(Term::True_(Box::new(x)), y);
    lemma_apply_unfold(Term::False_(Box::new(x)), y);
}

/// A boolean behaves as itself and not as the other one.
pub proof fn law_boolean_behaves(b: bool, c: bool)
    ensures
        behaves_as(boolean(b), c) <==> b == c,
{
    assert forall|x: Term, y: Term| #[trigger]
        apply2(boolean(b), x, y) == Some(choice(b, x, y)) by {
        law_boolean_selects(b, x, y);
    }
    if behaves_as(boolean(b), c) {
        assert(apply2(boolean(b), Term::True, Term::False) == Some(boolean(c)));
    }
}

/// `Not` turns each boolean into the other.
pub proof fn law_not_negates(b: bool)
    ensures
        apply(Term::Not, boolean(b)) == Some(boolean(!b)),
{
    reveal_with_fuel(value, 3);
    lemma_apply_unfold(Term::Not, boolean(b));
    law_boolean_selects(b, Term::False, Term::True);
}

/// `Lor` on two booleans holds both, and then chooses between two further
/// arguments as their disjunction does.
pub proof fn law_lor_is_disjunction(a: bool, b: bool)
    ensures
        apply2(Term::Lor, boolean(a), boolean(b)) == Some(
            Term::Lor__(Box::new(boolean(a)), Box::new(boolean(b))),
        ),
        behaves_as(Term::Lor__(Box::new(boolean(a)), Box::new(boolean(b))), a || b),
        behaves_as(Term::Lor__(Box::new(boolean(a)), Box::new(boolean(b))), true) <==> a || b,
{
    let held = Term::Lor__(Box::new(boolean(a)), Box::new(boolean(b)));
    lemma_apply_unfold(Term::Lor, boolean(a));
    lemma_apply_unfold(Term::Lor_(Box::new(boolean(a))), boolean(b));
    assert forall|x: Term, y: Term| #[trigger]
        apply2(held, x, y) == Some(choice(a || b, x, y)) by {
        reveal_with_fuel(value, 4);
        lemma_apply_unfold(held, x);
        law_boolean_selects(a, boolean(a), boolean(b));
        law_boolean_selects(a || b, x, y);
    }
    if behaves_as(held, true) {
        assert(apply2(held, Term::True, Term::False) == Some(Term::True));
    }
}

/// `Land` on two booleans holds both, and reduces to their conjunction on any
/// third argument.
pub proof fn law_land_is_conjunction(a: bool, b: bool, z: Term)
    ensures
        apply2(Term::Land, boolean(a), boolean(b)) == Some(
            Term::Land__(Box::new(boolean(a)), Box::new(boolean(b))),
        ),
        apply3(Term::Land, boolean(a), boolean(b), z) == Some(boolean(a && b)),
        apply3(Term::Land, boolean(a), boolean(b), z) == Some(Term::True) <==> a && b,
{
    reveal_with_fuel(value, 3);
    lemma_apply_unfold(Term::Land, boolean(a));
    lemma_apply_unfold(Term::Land_(Box::new(boolean(a))), boolean(b));
    lemma_apply_unfold(Term::Land__(Box::new(boolean(a)), Box::new(boolean(b))), z);
    law_boolean_selects(a, boolean(b), boolean(a));
}

/// The successor of a numeral is the next numeral.
pub proof fn law_succ_is_next(n: nat)
    ensures
        apply(Term::Succ, numeral(n)) == Some(numeral(n + 1)),
{
    lemma_apply_unfold(Term::Succ, numeral(n));
}

/// The numeral `n`, given a function and a base, applies the function to the
/// base `n` times.
pub proof fn law_numeral_iterates(n: nat, f: Term, z: Term)
    ensures
        apply2(numeral(n), f, z) == iterate(f, n, z),
    decreases n,
{
    reveal_with_fuel(value, 4);
    lemma_apply_unfold(numeral(n), f);
    if n == 0 {
        lemma_apply_unfold(Term::Zero_(Box::new(f)), z);
    } else {
        let p = numeral((n - 1) as nat);
        lemma_apply_unfold(Term::Succ__(Box::new(p), Box::new(f)), z);
        law_numeral_iterates((n - 1) as nat, f, z);
    }
}

/// `m + n` applications are `n` applications followed by `m` more.
pub proof fn lemma_iterate_sum(f: Term, m: nat, n: nat, z: Term)
    ensures
        iterate(f, m + n, z) == match iterate(f, n, z) {
            Some(v) => iterate(f, m, v),
            None => None,
        },
    decreases m,
{
    if m > 0 {
        lemma_iterate_sum(f, (m - 1) as nat, n, z);
        assert((m + n - 1) as nat == (m - 1) as nat + n);
    }
}

/// `Succ`, applied `m` times to the numeral `n`, gives the numeral `m + n`.
pub proof fn lemma_iterate_succ(m: nat, n: nat)
    ensures
        iterate(Term::Succ, m, numeral(n)) == Some(numeral(m + n)),
    decreases m,
{
    if m > 0 {
        lemma_iterate_succ((m - 1) as nat, n);
        law_succ_is_next((m - 1 + n) as nat);
    }
}

/// A numeral applied to `Succ` and `Zero` reduces to itself.
pub proof fn law_numeral_round_trip(n: nat)
    ensures
        apply2(numeral(n), Term::Succ, Term::Zero) == Some(numeral(n)),
{
    law_numeral_iterates(n, Term::Succ, Term::Zero);
    lemma_iterate_succ(n, 0);
}

/// `Add` on the numerals `m` and `n`, a function and a base applies the
/// function to the base `m + n` times.
pub proof fn law_add_iterates(m: nat, n: nat, f: Term, z: Term)
    ensures
        apply3(Term::Add, numeral(m), numeral(n), f) == Some(
            Term::Add___(Box::new(numeral(m)), Box::new(numeral(n)), Box::new(f)),
        ),
        apply4(Term::Add, numeral(m), numeral(n), f, z) == iterate(f, m + n, z),
{
    reveal_with_fuel(value, 4);
    let x = numeral(m);
    let y = numeral(n);
    lemma_apply_unfold(Term::Add, x);
    lemma_apply_unfold(Term::Add_(Box::new(x)), y);
    lemma_apply_unfold(Term::Add__(Box::new(x), Box::new(y)), f);
    lemma_apply_unfold(Term::Add___(Box::new(x), Box::new(y), Box::new(f)), z);
    law_numeral_iterates(n, f, z);
    if let Some(v) = iterate(f, n, z) {
        law_numeral_iterates(m, f, v);
    }
    lemma_iterate_sum(f, m, n, z);
}

/// `Add` on the numerals `m` and `n`, then on `Succ` and `Zero`, reduces to
/// the numeral `m + n`.
pub proof fn law_add_is_sum(m: nat, n: nat)
    ensures
        apply4(Term::Add, numeral(m), numeral(n), Term::Succ, Term::Zero) == Some(
            numeral(m + n),
        ),
{
    law_add_iterates(m, n, Term::Succ, Term::Zero);
    lemma_iterate_succ(m + n, 0);
}

/// `Add2` on the numerals `m` and `n` reduces to the numeral `m + n`, and that
/// numeral, applied to `Succ` and `Zero`, to itself.
pub proof fn law_add2_is_sum(m: nat, n: nat)
    ensures
        apply2(Term::Add2, numeral(m), numeral(n)) == Some(numeral(m + n)),
        apply4(Term::Add2, numeral(m), numeral(n), Term::Succ, Term::Zero) == Some(
            numeral(m + n),
        ),
{
    reveal_with_fuel(value, 3);
    lemma_apply_unfold(Term::Add2, numeral(m));
    lemma_apply_unfold(Term::Add2_(Box::new(numeral(m))), numeral(n));
    law_numeral_iterates(m, Term::Succ, numeral(n));
    lemma_iterate_succ(m, n);
    law_numeral_round_trip(m + n);
}

/// The numeral `n` holds `n` terms.
pub proof fn law_numeral_captures(n: nat)
    ensures
        captured(numeral(n)) == n,
    decreases n,
{
    if n > 0 {
        law_numeral_captures((n - 1) as nat);
    }
}

/// Of two numerals, each of which `Succ` and `Zero` reduce to itself, the
/// larger holds at least as many terms as the smaller: one more for each step
/// from the one to the other.
pub proof fn law_footprint_monotone(m: nat, n: nat)
    requires
        m <= n,
    ensures
        apply2(numeral(m), Term::Succ, Term::Zero) == Some(numeral(m)),
        apply2(numeral(n), Term::Succ, Term::Zero) == Some(numeral(n)),
        captured(numeral(m)) <= captured(numeral(n)),
        captured(numeral(n)) - captured(numeral(m)) == n - m,
{
    law_numeral_round_trip(m);
    law_numeral_round_trip(n);
    law_numeral_captures(m);
    law_numeral_captures(n);
}

/// The contract of [`Eval::eval`] leaves room for one result only: two values
/// that both meet it for the same receiver and argument are the same value.
pub proof fn law_eval_deterministic<F: Eval<A>, A: Lambda>(
    f: F,
    a: A,
    r1: F::Output,
    r2: F::Output,
)
    requires
        apply(f@, a@) == Some(r1@),
        apply(f@, a@) == Some(r2@),
    ensures
        r1 == r2,
{
    r1.lemma_view_injective(r2);
}

} // verus!
