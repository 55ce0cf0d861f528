//! The identity, the two booleans and the operators on them.
use crate::lambda::{Eval, Lambda};
use crate::term::{apply2, apply3, lemma_apply_unfold, value, Term};
use vstd::prelude::*;

verus! {

/// Id, `\x. x`
#[derive(Clone, Copy, Debug, PartialEq, Eq)]
pub struct Id;

impl View for Id {
    type V = Term;

    open spec fn view(&self) -> Term {
        Term::Id
    }
}

impl Lambda for Id {
    proof fn lemma_view_injective(self, other: Self) {
    }
}

impl<T: Lambda> Eval<T> for Id {
    type Output = T;

    fn eval(self, lambda: T) -> (r: T)
        ensures
            r == lambda,
    {
        proof {
            lemma_apply_unfold(self@, lambda@);
        }
        lambda
    }
}

/// True, `\x. \y. x`
#[derive(Clone, Copy, Debug, PartialEq, Eq)]
pub struct True;

/// [`True`] holding `x`.
#[derive(Clone, Copy, Debug, PartialEq, Eq)]
pub struct True_<T: Lambda>(pub T);

impl View for True {
    type V = Term;

    open spec fn view(&self) -> Term {
        Term::True
    }
}

impl<T: Lambda> View for True_<T> {
    type V = Term;

    open spec fn view(&self) -> Term {
        Term::True_(Box::new(self.0@))
    }
}

impl Lambda for True {
    proof fn lemma_view_injective(self, other: Self) {
    }
}

impl<T: Lambda> Lambda for True_<T> {
    proof fn lemma_view_injective(self, other: Self) {
        self.0.lemma_view_injective(other.0);
    }
}

impl<T: Lambda> Eval<T> for True {
    type Output = True_<T>;

    fn eval(self, lambda: T) -> (r: True_<T>)
        ensures
            r == True_(lambda),
    {
        proof {
            lemma_apply_unfold(self@, lambda@);
        }
        True_(lambda)
    }
}

impl<T: Lambda, U: Lambda> Eval<U> for True_<T> {
    type Output = T;

    fn eval(self, lambda: U) -> (r: T)
        ensures
            r == self.0,
    {
        proof {
            lemma_apply_unfold(self@, lambda@);
        }
        self.0
    }
}

/// False, `\x. \y. y`
#[derive(Clone, Copy, Debug, PartialEq, Eq)]
pub struct False;

/// [`False`] holding `x`.
#[derive(Clone, Copy, Debug, PartialEq, Eq)]
pub struct False_<T: Lambda>(pub T);

impl View for False {
    type V = Term;

    open spec fn view(&self) -> Term {
        Term::False
    }
}

impl<T: Lambda> View for False_<T> {
    type V = Term;

    open spec fn view(&self) -> Term {
        Term::False_(Box::new(self.0@))
    }
}

impl Lambda for False {
    proof fn lemma_view_injective(self, other: Self) {
    }
}

impl<T: Lambda> Lambda for False_<T> {
    proof fn lemma_view_injective(self, other: Self) {
        self.0.lemma_view_injective(other.0);
    }
}

impl<T: Lambda> Eval<T> for False {
    type Output = False_<T>;

    fn eval(self, lambda: T) -> (r: False_<T>)
        ensures
            r == False_(lambda),
    {
        proof {
            lemma_apply_unfold(self@, lambda@);
        }
        False_(lambda)
    }
}

impl<T: Lambda, U: Lambda> Eval<U> for False_<T> {
    type Output = U;

    fn eval(self, lambda: U) -> (r: U)
        ensures
            r == lambda,
    {
        proof {
            lemma_apply_unfold(self@, lambda@);
        }
        lambda
    }
}

/// Lor, `\x. \y. \z. x x y z`
#[derive(Clone, Copy, Debug, PartialEq, Eq)]
pub struct Lor;

/// [`Lor`] holding `x`.
#[derive(Clone, Copy, Debug, PartialEq, Eq)]
pub struct Lor_<T: Lambda>(pub T);

/// [`Lor`] holding `x` and `y`.
#[derive(Clone, Copy, Debug, PartialEq, Eq)]
pub struct Lor__<T: Lambda, U: Lambda>(pub T, pub U);

impl View for Lor {
    type V = Term;

    open spec fn view(&self) -> Term {
        Term::Lor
    }
}

impl<T: Lambda> View for Lor_<T> {
    type V = Term;

    open spec fn view(&self) -> Term {
        Term::Lor_(Box::new(self.0@))
    }
}

impl<T: Lambda, U: Lambda> View for Lor__<T, U> {
    type V = Term;

    open spec fn view(&self) -> Term {
        Term::Lor__(Box::new(self.0@), Box::new(self.1@))
    }
}

impl Lambda for Lor {
    proof fn lemma_view_injective(self, other: Self) {
    }
}

impl<T: Lambda> Lambda for Lor_<T> {
    proof fn lemma_view_injective(self, other: Self) {
        self.0.lemma_view_injective(other.0);
    }
}

impl<T: Lambda, U: Lambda> Lambda for Lor__<T, U> {
    proof fn lemma_view_injective(self, other: Self) {
        self.0.lemma_view_injective(other.0);
        self.1.lemma_view_injective(other.1);
    }
}

impl<T: Lambda> Eval<T> for Lor {
    type Output = Lor_<T>;

    fn eval(self, lambda: T) -> (r: Lor_<T>)
        ensures
            r == Lor_(lambda),
    {
        proof {
            lemma_apply_unfold(self@, lambda@);
        }
        Lor_(lambda)
    }
}

impl<T: Lambda, U: Lambda> Eval<U> for Lor_<T> {
    type Output = Lor__<T, U>;

    fn eval(self, lambda: U) -> (r: Lor__<T, U>)
        ensures
            r == Lor__(self.0, lambda),
    {
        proof {
            lemma_apply_unfold(self@, lambda@);
        }
        Lor__(self.0, lambda)
    }
}

impl<T, U, V> Eval<V> for Lor__<T, U> where
    T: Eval<T>,
    U: Lambda,
    V: Lambda,
    <T as Eval<T>>::Output: Eval<U>,
    <<T as Eval<T>>::Output as Eval<U>>::Output: Eval<V>,
 {
    type Output = <<<T as Eval<T>>::Output as Eval<U>>::Output as Eval<V>>::Output;

    fn eval(self, lambda: V) -> (r: Self::Output)
        ensures
            apply3(self.0@, self.0@, self.1@, lambda@) == Some(r@),
    {
        let first = self.0;
        let r = first.eval(first).eval(self.1).eval(lambda);
        proof {
            lemma_apply_unfold(self@, lambda@);
            reveal_with_fuel(value, 4);
        }
        r
    }
}

/// Land, `\x. \y. \z. x y x`
#[derive(Clone, Copy, Debug, PartialEq, Eq)]
pub struct Land;

/// [`Land`] holding `x`.
#[derive(Clone, Copy, Debug, PartialEq, Eq)]
pub struct Land_<T: Lambda>(pub T);

/// [`Land`] holding `x` and `y`.
#[derive(Clone, Copy, Debug, PartialEq, Eq)]
pub struct Land__<T: Lambda, U: Lambda>(pub T, pub U);

impl View for Land {
    type V = Term;

    open spec fn view(&self) -> Term {
        Term::Land
    }
}

impl<T: Lambda> View for Land_<T> {
    type V = Term;

    open spec fn view(&self) -> Term {
        Term::Land_(Box::new(self.0@))
    }
}

impl<T: Lambda, U: Lambda> View for Land__<T, U> {
    type V = Term;

    open spec fn view(&self) -> Term {
        Term::Land__(Box::new(self.0@), Box::new(self.1@))
    }
}

impl Lambda for Land {
    proof fn lemma_view_injective(self, other: Self) {
    }
}

impl<T: Lambda> Lambda for Land_<T> {
    proof fn lemma_view_injective(self, other: Self) {
        self.0.lemma_view_injective(other.0);
    }
}

impl<T: Lambda, U: Lambda> Lambda for Land__<T, U> {
    proof fn lemma_view_injective(self, other: Self) {
        self.0.lemma_view_injective(other.0);
        self.1.lemma_view_injective(other.1);
    }
}

impl<T: Lambda> Eval<T> for Land {
    type Output = Land_<T>;

    fn eval(self, lambda: T) -> (r: Land_<T>)
        ensures
            r == Land_(lambda),
    {
        proof {
            lemma_apply_unfold(self@, lambda@);
        }
        Land_(lambda)
    }
}

impl<T: Lambda, U: Lambda> Eval<U> for Land_<T> {
    type Output = Land__<T, U>;

    fn eval(self, lambda: U) -> (r: Land__<T, U>)
        ensures
            r == Land__(self.0, lambda),
    {
        proof {
            lemma_apply_unfold(self@, lambda@);
        }
        Land__(self.0, lambda)
    }
}

impl<T, U, V> Eval<V> for Land__<T, U> where
    T: Eval<U>,
    U: Lambda,
    V: Lambda,
    <T as Eval<U>>::Output: Eval<T>,
 {
    type Output = <<T as Eval<U>>::Output as Eval<T>>::Output;

    fn eval(self, lambda: V) -> (r: Self::Output)
        ensures
            apply2(self.0@, self.1@, self.0@) == Some(r@),
    {
        let first = self.0;
        let r = first.eval(self.1).eval(first);
        proof {
            lemma_apply_unfold(self@, lambda@);
            reveal_with_fuel(value, 3);
        }
        r
    }
}

/// Not, `\x. x False True`
#[derive(Clone, Copy, Debug, PartialEq, Eq)]
pub struct Not;

impl View for Not {
    type V = Term;

    open spec fn view(&self) -> Term {
        Term::Not
    }
}

impl Lambda for Not {
    proof fn lemma_view_injective(self, other: Self) {
    }
}

impl<T> Eval<T> for Not where T: Eval<False>, <T as Eval<False>>::Output: Eval<True> {
    type Output = <<T as Eval<False>>::Output as Eval<True>>::Output;

    fn eval(self, lambda: T) -> (r: Self::Output)
        ensures
            apply2(lambda@, Term::False, Term::True) == Some(r@),
    {
        let r = lambda.eval(False).eval(True);
        proof {
            lemma_apply_unfold(self@, lambda@);
            reveal_with_fuel(value, 3);
        }
        r
    }
}

} // verus!
