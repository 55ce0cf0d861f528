use typed_lambda::boolean::{
    False, False_, Id, Land, Land_, Land__, Lor, Lor_, Lor__, Not, True, True_,
};
use typed_lambda::lambda::Eval;
use typed_lambda::numeral::{Succ, Succ_, Zero};

fn shape<T: std::fmt::Debug>(term: T) -> String {
    format!("{:?}", term)
}

#[test]
fn identity_returns_its_argument() {
    assert_eq!(Id.eval(True), True);
    assert_eq!(Id.eval(Id), Id);
    assert_eq!(Id.eval(Succ_(Zero)), Succ_(Zero));
    assert_eq!(shape(Id.eval(Succ_(Zero))), "Succ_(Zero)");
}

#[test]
fn true_holds_then_selects_first() {
    assert_eq!(True.eval(Zero), True_(Zero));
    assert_eq!(shape(True.eval(Zero)), "True_(Zero)");
    assert_eq!(True.eval(Zero).eval(Succ), Zero);
    assert_eq!(shape(True.eval(Zero).eval(Succ)), "Zero");
}

#[test]
fn false_holds_then_selects_second() {
    assert_eq!(False.eval(Zero), False_(Zero));
    assert_eq!(shape(False.eval(Zero)), "False_(Zero)");
    assert_eq!(False.eval(Zero).eval(Succ), Succ);
    assert_eq!(shape(False.eval(Zero).eval(Succ)), "Succ");
}

#[test]
fn booleans_select_among_booleans() {
    assert_eq!(shape(True.eval(True).eval(False)), "True");
    assert_eq!(shape(False.eval(True).eval(False)), "False");
}

#[test]
fn booleans_select_closures_whole() {
    let x = Succ_(Succ_(Zero));
    let y = Lor_(Id);
    assert_eq!(True.eval(x).eval(y), x);
    assert_eq!(False.eval(x).eval(y), y);
    assert_eq!(shape(True.eval(x).eval(y)), "Succ_(Succ_(Zero))");
    assert_eq!(shape(False.eval(x).eval(y)), "Lor_(Id)");
}

#[test]
fn not_true_is_false() {
    assert_eq!(Not.eval(True), False);
    assert_eq!(shape(Not.eval(True)), "False");
    assert_eq!(shape(Not.eval(True).eval(Id).eval(Zero)), "Zero");
}

#[test]
fn not_false_is_true() {
    assert_eq!(Not.eval(False), True);
    assert_eq!(shape(Not.eval(False)), "True");
    assert_eq!(shape(Not.eval(False).eval(Id).eval(Zero)), "Id");
}

#[test]
fn not_not_is_the_boolean_again() {
    assert_eq!(Not.eval(Not.eval(True)), True);
    assert_eq!(Not.eval(Not.eval(False)), False);
}

#[test]
fn lor_holds_two_arguments() {
    assert_eq!(Lor.eval(True), Lor_(True));
    assert_eq!(Lor.eval(True).eval(False), Lor__(True, False));
    assert_eq!(shape(Lor.eval(False).eval(True)), "Lor__(False, True)");
}

#[test]
fn lor_true_true_behaves_as_true() {
    assert_eq!(shape(Lor.eval(True).eval(True).eval(Id).eval(Zero)), "Id");
}

#[test]
fn lor_true_false_behaves_as_true() {
    assert_eq!(shape(Lor.eval(True).eval(False).eval(Id).eval(Zero)), "Id");
}

#[test]
fn lor_false_true_behaves_as_true() {
    assert_eq!(shape(Lor.eval(False).eval(True).eval(Id).eval(Zero)), "Id");
}

#[test]
fn lor_false_false_behaves_as_false() {
    assert_eq!(shape(Lor.eval(False).eval(False).eval(Id).eval(Zero)), "Zero");
}

#[test]
fn lor_third_argument_gives_the_selector() {
    assert_eq!(Lor.eval(True).eval(False).eval(Id), True_(Id));
    assert_eq!(Lor.eval(False).eval(True).eval(Id), True_(Id));
    assert_eq!(Lor.eval(False).eval(False).eval(Id), False_(Id));
}

#[test]
fn lor_picks_between_boolean_branches() {
    assert_eq!(shape(Lor.eval(True).eval(True).eval(True).eval(False)), "True");
    assert_eq!(shape(Lor.eval(True).eval(False).eval(True).eval(False)), "True");
    assert_eq!(shape(Lor.eval(False).eval(True).eval(True).eval(False)), "True");
    assert_eq!(shape(Lor.eval(False).eval(False).eval(True).eval(False)), "False");
}

#[test]
fn land_holds_two_arguments() {
    assert_eq!(Land.eval(True), Land_(True));
    assert_eq!(Land.eval(True).eval(False), Land__(True, False));
    assert_eq!(shape(Land.eval(False).eval(True)), "Land__(False, True)");
}

#[test]
fn land_true_true_is_true() {
    assert_eq!(Land.eval(True).eval(True).eval(Id), True);
    assert_eq!(shape(Land.eval(True).eval(True).eval(Id)), "True");
}

#[test]
fn land_true_false_is_false() {
    assert_eq!(Land.eval(True).eval(False).eval(Id), False);
    assert_eq!(shape(Land.eval(True).eval(False).eval(Id)), "False");
}

#[test]
fn land_false_true_is_false() {
    assert_eq!(Land.eval(False).eval(True).eval(Id), False);
    assert_eq!(shape(Land.eval(False).eval(True).eval(Id)), "False");
}

#[test]
fn land_false_false_is_false() {
    assert_eq!(Land.eval(False).eval(False).eval(Id), False);
    assert_eq!(shape(Land.eval(False).eval(False).eval(Id)), "False");
}

#[test]
fn land_ignores_its_third_argument() {
    assert_eq!(Land.eval(True).eval(True).eval(Zero), Land.eval(True).eval(True).eval(Succ));
    assert_eq!(shape(Land.eval(True).eval(False).eval(Zero).eval(Id).eval(Succ)), "Succ");
    assert_eq!(shape(Land.eval(True).eval(True).eval(Zero).eval(Id).eval(Succ)), "Id");
}

#[test]
fn same_application_twice_gives_the_same_term() {
    let receiver = Lor.eval(False).eval(True);
    let argument = Succ_(Zero);
    let first = receiver.eval(argument);
    let second = receiver.eval(argument);
    assert_eq!(first, second);
    assert_eq!(shape(first), shape(second));
    assert_eq!(shape(first), "True_(Succ_(Zero))");
}

#[test]
fn application_leaves_the_receiver_as_it_was() {
    let receiver = True.eval(Id);
    let _ = receiver.eval(Zero);
    assert_eq!(receiver, True_(Id));
    assert_eq!(shape(receiver), "True_(Id)");
}
