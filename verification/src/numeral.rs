//! Church numerals: zero, successor and two ways to add.
use crate::lambda::{Eval, Lambda};
use crate::term::{apply, apply2, apply_opt, lemma_apply_unfold, value, Term};
use vstd::prelude::*;

verus! {

/// Zero, `\f. \z. z`
#[derive(Clone, Copy, Debug, PartialEq, Eq)]
pub struct Zero;

/// [`Zero`] holding `f`.
#[derive(Clone, Copy, Debug, PartialEq, Eq)]
pub struct Zero_<T: Lambda>(pub T);

impl View for Zero {
    type V = Term;

    open spec fn view(&self) -> Term {
        Term::Zero
    }
}

impl<T: Lambda> View for Zero_<T> {
    type V = Term;

    open spec fn view(&self) -> Term {
        Term::Zero_(Box::new(self.0@))
    }
}

impl Lambda for Zero {
    proof fn lemma_view_injective(self, other: Self) {
    }
}

impl<T: Lambda> Lambda for Zero_<T> {
    proof fn lemma_view_injective(self, other: Self) {
        self.0.lemma_view_injective(other.0);
    }
}

impl<T: Lambda> Eval<T> for Zero {
    type Output = Zero_<T>;

    fn eval(self, lambda: T) -> (r: Zero_<T>)
        ensures
            r == Zero_(lambda),
    {
        proof {
            lemma_apply_unfold(self@, lambda@);
        }
        Zero_(lambda)
    }
}

impl<T: Lambda, U: Lambda> Eval<U> for Zero_<T> {
    type Output = U;

    fn eval(self, lambda: U) -> (r: U)
        ensures
            r == lambda,
    {
        proof {
            lemma_apply_unfold(self@, lambda@);
        }
        lambda
    }
}

/// Succ, `\n. \f. \z. f (n f z)`
#[derive(Clone, Copy, Debug, PartialEq, Eq)]
pub struct Succ;

/// [`Succ`] holding `n`: the numeral that follows `n`.
#[derive(Clone, Copy, Debug, PartialEq, Eq)]
pub struct Succ_<T: Lambda>(pub T);

/// [`Succ`] holding `n` and `f`.
#[derive(Clone, Copy, Debug, PartialEq, Eq)]
pub struct Succ__<T: Lambda, U: Lambda>(pub T, pub U);

impl View for Succ {
    type V = Term;

    open spec fn view(&self) -> Term {
        Term::Succ
    }
}

impl<T: Lambda> View for Succ_<T> {
    type V = Term;

    open spec fn view(&self) -> Term {
        Term::Succ_(Box::new(self.0@))
    }
}

impl<T: Lambda, U: Lambda> View for Succ__<T, U> {
    type V = Term;

    open spec fn view(&self) -> Term {
        Term::Succ__(Box::new(self.0@), Box::new(self.1@))
    }
}

impl Lambda for Succ {
    proof fn lemma_view_injective(self, other: Self) {
    }
}

impl<T: Lambda> Lambda for Succ_<T> {
    proof fn lemma_view_injective(self, other: Self) {
        self.0.lemma_view_injective(other.0);
    }
}

impl<T: Lambda, U: Lambda> Lambda for Succ__<T, U> {
    proof fn lemma_view_injective(self, other: Self) {
        self.0.lemma_view_injective(other.0);
        self.1.lemma_view_injective(other.1);
    }
}

impl<T: Lambda> Eval<T> for Succ {
    type Output = Succ_<T>;

    fn eval(self, lambda: T) -> (r: Succ_<T>)
        ensures
            r == Succ_(lambda),
    {
        proof {
            lemma_apply_unfold(self@, lambda@);
        }
        Succ_(lambda)
    }
}

impl<T: Lambda, U: Lambda> Eval<U> for Succ_<T> {
    type Output = Succ__<T, U>;

    fn eval(self, lambda: U) -> (r: Succ__<T, U>)
        ensures
            r == Succ__(self.0, lambda),
    {
        proof {
            lemma_apply_unfold(self@, lambda@);
        }
        Succ__(self.0, lambda)
    }
}

impl<T, U, V> Eval<V> for Succ__<T, U> where
    T: Eval<U>,
    V: Lambda,
    <T as Eval<U>>::Output: Eval<V>,
    U: Eval<<<T as Eval<U>>::Output as Eval<V>>::Output>,
 {
    type Output = <U as Eval<<<T as Eval<U>>::Output as Eval<V>>::Output>>::Output;

    fn eval(self, lambda: V) -> (r: Self::Output)
        ensures
            apply_opt(Some(self.1@), apply2(self.0@, self.1@, lambda@)) == Some(r@),
    {
        let r = self.1.eval(self.0.eval(self.1).eval(lambda));
        proof {
            lemma_apply_unfold(self@, lambda@);
            reveal_with_fuel(value, 4);
        }
        r
    }
}

/// Add, `\x. \y. \f. \z. x f (y f z)`
#[derive(Clone, Copy, Debug, PartialEq, Eq)]
pub struct Add;

/// [`Add`] holding `x`.
#[derive(Clone, Copy, Debug, PartialEq, Eq)]
pub struct Add_<T: Lambda>(pub T);

/// [`Add`] holding `x` and `y`.
#[derive(Clone, Copy, Debug, PartialEq, Eq)]
pub struct Add__<T: Lambda, U: Lambda>(pub T, pub U);

/// [`Add`] holding `x`, `y` and `f`.
#[derive(Clone, Copy, Debug, PartialEq, Eq)]
pub struct Add___<T: Lambda, U: Lambda, V: Lambda>(pub T, pub U, pub V);

impl View for Add {
    type V = Term;

    open spec fn view(&self) -> Term {
        Term::Add
    }
}

impl<T: Lambda> View for Add_<T> {
    type V = Term;

    open spec fn view(&self) -> Term {
        Term::Add_(Box::new(self.0@))
    }
}

impl<T: Lambda, U: Lambda> View for Add__<T, U> {
    type V = Term;

    open spec fn view(&self) -> Term {
        Term::Add__(Box::new(self.0@), Box::new(self.1@))
    }
}

impl<T: Lambda, U: Lambda, V: Lambda> View for Add___<T, U, V> {
    type V = Term;

    open spec fn view(&self) -> Term {
        Term::Add___(Box::new(self.0@), Box::new(self.1@), Box::new(self.2@))
    }
}

impl Lambda for Add {
    proof fn lemma_view_injective(self, other: Self) {
    }
}

impl<T: Lambda> Lambda for Add_<T> {
    proof fn lemma_view_injective(self, other: Self) {
        self.0.lemma_view_injective(other.0);
    }
}

impl<T: Lambda, U: Lambda> Lambda for Add__<T, U> {
    proof fn lemma_view_injective(self, other: Self) {
        self.0.lemma_view_injective(other.0);
        self.1.lemma_view_injective(other.1);
    }
}

impl<T: Lambda, U: Lambda, V: Lambda> Lambda for Add___<T, U, V> {
    proof fn lemma_view_injective(self, other: Self) {
        self.0.lemma_view_injective(other.0);
        self.1.lemma_view_injective(other.1);
        self.2.lemma_view_injective(other.2);
    }
}

impl<T: Lambda> Eval<T> for Add {
    type Output = Add_<T>;

    fn eval(self, lambda: T) -> (r: Add_<T>)
        ensures
            r == Add_(lambda),
    {
        proof {
            lemma_apply_unfold(self@, lambda@);
        }
        Add_(lambda)
    }
}

impl<T: Lambda, U: Lambda> Eval<U> for Add_<T> {
    type Output = Add__<T, U>;

    fn eval(self, lambda: U) -> (r: Add__<T, U>)
        ensures
            r == Add__(self.0, lambda),
    {
        proof {
            lemma_apply_unfold(self@, lambda@);
        }
        Add__(self.0, lambda)
    }
}

impl<T: Lambda, U: Lambda, V: Lambda> Eval<V> for Add__<T, U> {
    type Output = Add___<T, U, V>;

    fn eval(self, lambda: V) -> (r: Add___<T, U, V>)
        ensures
            r == Add___(self.0, self.1, lambda),
    {
        proof {
            lemma_apply_unfold(self@, lambda@);
        }
        Add___(self.0, self.1, lambda)
    }
}

impl<T, U, V, W> Eval<W> for Add___<T, U, V> where
    T: Eval<V>,
    U: Eval<V>,
    V: Lambda,
    W: Lambda,
    <U as Eval<V>>::Output: Eval<W>,
    <T as Eval<V>>::Output: Eval<<<U as Eval<V>>::Output as Eval<W>>::Output>,
 {
    type Output = <<T as Eval<V>>::Output as Eval<
        <<U as Eval<V>>::Output as Eval<W>>::Output,
    >>::Output;

    fn eval(self, lambda: W) -> (r: Self::Output)
        ensures
            apply_opt(apply(self.0@, self.2@), apply2(self.1@, self.2@, lambda@)) == Some(r@),
    {
        let r = self.0.eval(self.2).eval(self.1.eval(self.2).eval(lambda));
        proof {
            lemma_apply_unfold(self@, lambda@);
            reveal_with_fuel(value, 4);
        }
        r
    }
}

/// Add2, `\x. \y. x Succ y`
#[derive(Clone, Copy, Debug, PartialEq, Eq)]
pub struct Add2;

/// [`Add2`] holding `x`.
#[derive(Clone, Copy, Debug, PartialEq, Eq)]
pub struct Add2_<T: Lambda>(pub T);

impl View for Add2 {
    type V = Term;

    open spec fn view(&self) -> Term {
        Term::Add2
    }
}

impl<T: Lambda> View for Add2_<T> {
    type V = Term;

    open spec fn view(&self) -> Term {
        Term::Add2_(Box::new(self.0@))
    }
}

impl Lambda for Add2 {
    proof fn lemma_view_injective(self, other: Self) {
    }
}

impl<T: Lambda> Lambda for Add2_<T> {
    proof fn lemma_view_injective(self, other: Self) {
        self.0.lemma_view_injective(other.0);
    }
}

impl<T: Lambda> Eval<T> for Add2 {
    type Output = Add2_<T>;

    fn eval(self, lambda: T) -> (r: Add2_<T>)
        ensures
            r == Add2_(lambda),
    {
        proof {
            lemma_apply_unfold(self@, lambda@);
        }
        Add2_(lambda)
    }
}

impl<T, U> Eval<U> for Add2_<T> where
    T: Eval<Succ>,
    U: Lambda,
    <T as Eval<Succ>>::Output: Eval<U>,
 {
    type Output = <<T as Eval<Succ>>::Output as Eval<U>>::Output;

    fn eval(self, lambda: U) -> (r: Self::Output)
        ensures
            apply2(self.0@, Term::Succ, lambda@) == Some(r@),
    {
        let r = self.0.eval(Succ).eval(lambda);
        proof {
            lemma_apply_unfold(self@, lambda@);
            reveal_with_fuel(value, 3);
        }
        r
    }
}

} // verus!
