//! Closed lambda terms as types of their own, reduced by static dispatch, with
//! a mathematical model against which every reduction is proved.
pub mod boolean;
pub mod inspect;
pub mod lambda;
pub mod laws;
pub mod numeral;
pub mod term;
