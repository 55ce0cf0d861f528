//! The mathematical model of terms and of their reduction.
//!
//! A [`Term`] is a closed value of the calculus: a combinator, or a combinator
//! together with the arguments it has received so far. What a term does with its
//! next argument is given by [`rule`], as an [`Expr`]: a tree of applications
//! that are still to be carried out. Reduction need not end (`Lor Lor x y` unfolds
//! into itself), so [`eval`] carries the applications out under a step budget,
//! and [`apply`] is the result of one application when some budget suffices.
//! [`value`] then reads an expression application by application, and
//! [`lemma_apply_unfold`] closes the circle: applying a term is taking the value
//! of what its rule unfolds into.
use vstd::prelude::*;

verus! {

/// A closed term. A variant whose name ends in underscores is a closure: one
/// underscore for each argument it holds, in the order in which they were
/// supplied.
pub enum Term {
    /// `\x. x`
    Id,
    /// `\x. \y. x`
    True,
    True_(Box<Term>),
    /// `\x. \y. y`
    False,
    False_(Box<Term>),
    /// `\x. \y. \z. x x y z`
    Lor,
    Lor_(Box<Term>),
    Lor__(Box<Term>, Box<Term>),
    /// `\x. \y. \z. x y x`
    Land,
    Land_(Box<Term>),
    Land__(Box<Term>, Box<Term>),
    /// `\x. x False True`
    Not,
    /// `\f. \z. z`
    Zero,
    Zero_(Box<Term>),
    /// `\n. \f. \z. f (n f z)`
    Succ,
    Succ_(Box<Term>),
    Succ__(Box<Term>, Box<Term>),
    /// `\x. \y. \f. \z. x f (y f z)`
    Add,
    Add_(Box<Term>),
    Add__(Box<Term>, Box<Term>),
    Add___(Box<Term>, Box<Term>, Box<Term>),
    /// `\x. \y. x Succ y`
    Add2,
    Add2_(Box<Term>),
}

/// Applications that are still to be carried out.
pub enum Expr {
    /// A term, with nothing left to do.
    Val(Term),
    /// The value of the left side, applied to the value of the right side.
    App(Box<Expr>, Box<Expr>),
}

/// The expression that is the term `t`.
pub open spec fn val(t: Term) -> Expr {
    Expr::Val(t)
}

/// The expression that applies `f` to `a`.
pub open spec fn app(f: Expr, a: Expr) -> Expr {
    Expr::App(Box::new(f), Box::new(a))
}

/// What the term `f` does with the argument `a`: a closure that has not yet
/// received all its arguments stores `a`; one that has, unfolds into the
/// applications that define its combinator.
pub open spec fn rule(f: Term, a: Term) -> Expr {
    match f {
        Term::Id => val(a),
        Term::True => val(Term::True_(Box::new(a))),
        Term::True_(x) => val(*x),
        Term::False => val(Term::False_(Box::new(a))),
        Term::False_(_) => val(a),
        Term::Lor => val(Term::Lor_(Box::new(a))),
        Term::Lor_(x) => val(Term::Lor__(x, Box::new(a))),
        Term::Lor__(x, y) => app(app(app(val(*x), val(*x)), val(*y)), val(a)),
        Term::Land => val(Term::Land_(Box::new(a))),
        Term::Land_(x) => val(Term::Land__(x, Box::new(a))),
        Term::Land__(x, y) => app(app(val(*x), val(*y)), val(*x)),
        Term::Not => app(app(val(a), val(Term::False)), val(Term::True)),
        Term::Zero => val(Term::Zero_(Box::new(a))),
        Term::Zero_(_) => val(a),
        Term::Succ => val(Term::Succ_(Box::new(a))),
        Term::Succ_(n) => val(Term::Succ__(n, Box::new(a))),
        Term::Succ__(n, f) => app(val(*f), app(app(val(*n), val(*f)), val(a))),
        Term::Add => val(Term::Add_(Box::new(a))),
        Term::Add_(x) => val(Term::Add__(x, Box::new(a))),
        Term::Add__(x, y) => val(Term::Add___(x, y, Box::new(a))),
        Term::Add___(x, y, f) => app(
            app(val(*x), val(*f)),
            app(app(val(*y), val(*f)), val(a)),
        ),
        Term::Add2 => val(Term::Add2_(Box::new(a))),
        Term::Add2_(x) => app(app(val(*x), val(Term::Succ)), val(a)),
    }
}

/// The value of `e`, if it can be had with at most `fuel` nested uses of [`rule`].
pub open spec fn eval(e: Expr, fuel: nat) -> Option<Term>
    decreases fuel, e,
{
    match e {
        Expr::Val(t) => Some(t),
        Expr::App(l, r) => match (eval(*l, fuel), eval(*r, fuel)) {
            (Some(f), Some(a)) => if fuel == 0 {
                None
            } else {
                eval(rule(f, a), (fuel - 1) as nat)
            },
            _ => None,
        },
    }
}

/// The term that `f` reduces to when it is given the argument `a`, or `None`
/// where the reduction does not end.
pub open spec fn apply(f: Term, a: Term) -> Option<Term> {
    if exists|fuel: nat| eval(rule(f, a), fuel) is Some {
        eval(rule(f, a), choose|fuel: nat| eval(rule(f, a), fuel) is Some)
    } else {
        None
    }
}

/// [`apply`], where either side may already have failed to produce a term.
pub open spec fn apply_opt(f: Option<Term>, a: Option<Term>) -> Option<Term> {
    match (f, a) {
        (Some(f), Some(a)) => apply(f, a),
        _ => None,
    }
}

/// `f a b`
pub open spec fn apply2(f: Term, a: Term, b: Term) -> Option<Term> {
    apply_opt(apply(f, a), Some(b))
}

/// `f a b c`
pub open spec fn apply3(f: Term, a: Term, b: Term, c: Term) -> Option<Term> {
    apply_opt(apply2(f, a, b), Some(c))
}

/// `f a b c d`
pub open spec fn apply4(f: Term, a: Term, b: Term, c: Term, d: Term) -> Option<Term> {
    apply_opt(apply3(f, a, b, c), Some(d))
}

/// The value of `e`: that of its two sides, applied.
pub open spec fn value(e: Expr) -> Option<Term>
    decreases e,
{
    match e {
        Expr::Val(t) => Some(t),
        Expr::App(l, r) => apply_opt(value(*l), value(*r)),
    }
}

/// A larger budget does not change a value that a smaller one has found.
pub proof fn lemma_eval_monotone(e: Expr, small: nat, large: nat)
    requires
        small <= large,
        eval(e, small) is Some,
    ensures
        eval(e, large) == eval(e, small),
    decreases small, e,
{
    match e {
        Expr::Val(_) => {},
        Expr::App(l, r) => {
            lemma_eval_monotone(*l, small, large);
            lemma_eval_monotone(*r, small, large);
            let f = eval(*l, small).unwrap();
            let a = eval(*r, small).unwrap();
            lemma_eval_monotone(rule(f, a), (small - 1) as nat, (large - 1) as nat);
        },
    }
}

/// Reduction is a function: two budgets that both find a result find the same.
pub proof fn lemma_eval_deterministic(e: Expr, fuel1: nat, fuel2: nat)
    requires
        eval(e, fuel1) is Some,
        eval(e, fuel2) is Some,
    ensures
        eval(e, fuel1) == eval(e, fuel2),
{
    if fuel1 <= fuel2 {
        lemma_eval_monotone(e, fuel1, fuel2);
    } else {
        lemma_eval_monotone(e, fuel2, fuel1);
    }
}

/// Whatever budget finds a result of an application finds [`apply`]'s.
pub proof fn lemma_apply_is(f: Term, a: Term, fuel: nat)
    requires
        eval(rule(f, a), fuel) is Some,
    ensures
        apply(f, a) == eval(rule(f, a), fuel),
{
    let chosen = choose|k: nat| eval(rule(f, a), k) is Some;
    lemma_eval_deterministic(rule(f, a), chosen, fuel);
}

/// What a budget finds for `e` is the value of `e`.
pub proof fn lemma_eval_sound(e: Expr, fuel: nat)
    requires
        eval(e, fuel) is Some,
    ensures
        value(e) == eval(e, fuel),
    decreases e,
{
    match e {
        Expr::Val(_) => {},
        Expr::App(l, r) => {
            lemma_eval_sound(*l, fuel);
            lemma_eval_sound(*r, fuel);
            let f = eval(*l, fuel).unwrap();
            let a = eval(*r, fuel).unwrap();
            lemma_apply_is(f, a, (fuel - 1) as nat);
        },
    }
}

/// Where `e` has a value, some budget finds it.
pub proof fn lemma_eval_complete(e: Expr) -> (fuel: nat)
    requires
        value(e) is Some,
    ensures
        eval(e, fuel) == value(e),
    decreases e,
{
    match e {
        Expr::Val(_) => 0,
        Expr::App(l, r) => {
            let f = value(*l).unwrap();
            let a = value(*r).unwrap();
            let kl = lemma_eval_complete(*l);
            let kr = lemma_eval_complete(*r);
            let kb = choose|k: nat| eval(rule(f, a), k) is Some;
            let fuel = if kl >= kr && kl > kb {
                kl
            } else if kr > kb {
                kr
            } else {
                kb + 1
            };
            lemma_eval_monotone(*l, kl, fuel);
            lemma_eval_monotone(*r, kr, fuel);
            lemma_eval_monotone(rule(f, a), kb, (fuel - 1) as nat);
            fuel
        },
    }
}

/// Applying a term is taking the value of what its rule unfolds into.
pub proof fn lemma_apply_unfold(f: Term, a: Term)
    ensures
        apply(f, a) == value(rule(f, a)),
{
    if apply(f, a) is Some {
        let k = choose|k: nat| eval(rule(f, a), k) is Some;
        lemma_eval_sound(rule(f, a), k);
    } else if value(rule(f, a)) is Some {
        let k = lemma_eval_complete(rule(f, a));
        lemma_apply_is(f, a, k);
    }
}

} // verus!
