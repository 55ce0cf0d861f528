use typed_lambda::boolean::{False, Id, Not, True};
use typed_lambda::inspect::size_of;
use typed_lambda::lambda::Eval;
use typed_lambda::numeral::{
    Add, Add2, Add2_, Add_, Add__, Add___, Succ, Succ_, Succ__, Zero, Zero_,
};

type One = Succ_<Zero>;
type Two = Succ_<One>;
type Three = Succ_<Two>;
type Four = Succ_<Three>;
type Five = Succ_<Four>;

const ONE: One = Succ_(Zero);
const TWO: Two = Succ_(ONE);
const THREE: Three = Succ_(TWO);
const FOUR: Four = Succ_(THREE);
const FIVE: Five = Succ_(FOUR);

fn form<T: std::fmt::Debug>(term: T) -> String {
    format!("{:?}", term)
}

#[test]
fn zero_holds_then_returns_the_base() {
    assert_eq!(Zero.eval(Succ), Zero_(Succ));
    assert_eq!(Zero.eval(Succ).eval(Id), Id);
    assert_eq!(form(Zero.eval(Not).eval(True)), "True");
}

#[test]
fn succ_of_a_numeral_is_the_next_numeral() {
    assert_eq!(Succ.eval(Zero), ONE);
    assert_eq!(Succ.eval(Succ.eval(Zero)), TWO);
    assert_eq!(form(Succ.eval(Succ.eval(Zero))), "Succ_(Succ_(Zero))");
}

#[test]
fn succ_holds_two_arguments() {
    assert_eq!(Succ.eval(Zero).eval(Id), Succ__(Zero, Id));
    assert_eq!(form(Succ.eval(ONE).eval(Not)), "Succ__(Succ_(Zero), Not)");
}

#[test]
fn succ_applies_the_function_once_more() {
    assert_eq!(form(Succ.eval(Zero).eval(Not).eval(True)), "False");
    assert_eq!(form(Succ.eval(ONE).eval(Not).eval(True)), "True");
    assert_eq!(form(Succ.eval(Zero).eval(Succ).eval(Id)), "Succ_(Id)");
}

#[test]
fn numeral_applies_the_function_that_many_times() {
    assert_eq!(form(Zero.eval(Not).eval(True)), "True");
    assert_eq!(form(ONE.eval(Not).eval(True)), "False");
    assert_eq!(form(TWO.eval(Not).eval(True)), "True");
    assert_eq!(form(THREE.eval(Not).eval(True)), "False");
    assert_eq!(form(THREE.eval(Succ).eval(Id)), "Succ_(Succ_(Succ_(Id)))");
}

#[test]
fn numeral_on_succ_and_zero_is_itself() {
    assert_eq!(Zero.eval(Succ).eval(Zero), Zero);
    assert_eq!(ONE.eval(Succ).eval(Zero), ONE);
    assert_eq!(THREE.eval(Succ).eval(Zero), THREE);
    assert_eq!(FIVE.eval(Succ).eval(Zero), FIVE);
}

#[test]
fn add_holds_three_arguments() {
    assert_eq!(Add.eval(TWO), Add_(TWO));
    assert_eq!(Add.eval(TWO).eval(THREE), Add__(TWO, THREE));
    assert_eq!(Add.eval(TWO).eval(THREE).eval(Succ), Add___(TWO, THREE, Succ));
    assert_eq!(form(Add.eval(ONE).eval(Zero).eval(Not)), "Add___(Succ_(Zero), Zero, Not)");
}

#[test]
fn add_two_three_is_five() {
    let two = Succ.eval(Succ.eval(Zero));
    let three = Succ.eval(Succ.eval(Succ.eval(Zero)));
    let five = Succ.eval(Succ.eval(Succ.eval(Succ.eval(Succ.eval(Zero)))));
    let result = Add.eval(two).eval(three).eval(Succ).eval(Zero);
    assert_eq!(result, five);
    assert_eq!(form(result), "Succ_(Succ_(Succ_(Succ_(Succ_(Zero)))))");
}

#[test]
fn add2_two_three_is_five() {
    let two = Succ.eval(Succ.eval(Zero));
    let three = Succ.eval(Succ.eval(Succ.eval(Zero)));
    let five = Succ.eval(Succ.eval(Succ.eval(Succ.eval(Succ.eval(Zero)))));
    let result = Add2.eval(two).eval(three);
    assert_eq!(result, five);
    assert_eq!(form(result), "Succ_(Succ_(Succ_(Succ_(Succ_(Zero)))))");
    assert_eq!(result.eval(Succ).eval(Zero), five);
    assert_eq!(form(result.eval(Succ).eval(Zero)), form(five));
}

#[test]
fn both_additions_agree() {
    let by_add = Add.eval(THREE).eval(ONE).eval(Succ).eval(Zero);
    let by_add2 = Add2.eval(THREE).eval(ONE).eval(Succ).eval(Zero);
    assert_eq!(by_add, by_add2);
    assert_eq!(by_add, FOUR);
    assert_eq!(form(by_add), form(by_add2));
}

#[test]
fn add_with_zero() {
    assert_eq!(Add.eval(Zero).eval(Zero).eval(Succ).eval(Zero), Zero);
    assert_eq!(Add.eval(Zero).eval(TWO).eval(Succ).eval(Zero), TWO);
    assert_eq!(Add.eval(TWO).eval(Zero).eval(Succ).eval(Zero), TWO);
    assert_eq!(Add2.eval(Zero).eval(Zero), Zero);
    assert_eq!(Add2.eval(Zero).eval(TWO), TWO);
    assert_eq!(Add2.eval(TWO).eval(Zero), TWO);
}

#[test]
fn add_applies_any_function_to_any_base() {
    assert_eq!(form(Add.eval(ONE).eval(TWO).eval(Not).eval(True)), "False");
    assert_eq!(form(Add.eval(TWO).eval(TWO).eval(Not).eval(False)), "False");
    assert_eq!(form(Add.eval(ONE).eval(ONE).eval(Succ).eval(Id)), "Succ_(Succ_(Id))");
}

#[test]
fn add2_holds_one_argument() {
    assert_eq!(Add2.eval(TWO), Add2_(TWO));
    assert_eq!(form(Add2.eval(ONE)), "Add2_(Succ_(Zero))");
}

#[test]
fn add2_puts_successors_around_any_term() {
    assert_eq!(form(Add2.eval(TWO).eval(Id)), "Succ_(Succ_(Id))");
    assert_eq!(form(Add2.eval(Zero).eval(Not)), "Not");
}

#[test]
fn same_addition_twice_gives_the_same_numeral() {
    let sum = Add.eval(TWO).eval(THREE).eval(Succ);
    let first = sum.eval(Zero);
    let second = sum.eval(Zero);
    assert_eq!(first, second);
    assert_eq!(form(first), form(second));
}

#[test]
fn larger_numerals_have_more_layers() {
    let forms = [
        form(Zero.eval(Succ).eval(Zero)),
        form(ONE.eval(Succ).eval(Zero)),
        form(TWO.eval(Succ).eval(Zero)),
        form(THREE.eval(Succ).eval(Zero)),
        form(FOUR.eval(Succ).eval(Zero)),
        form(FIVE.eval(Succ).eval(Zero)),
    ];
    for (n, text) in forms.iter().enumerate() {
        assert_eq!(text.matches("Succ_").count(), n);
    }
}

#[test]
fn larger_numerals_are_not_smaller_in_memory() {
    let sizes = [
        size_of(&Zero.eval(Succ).eval(Zero)),
        size_of(&ONE.eval(Succ).eval(Zero)),
        size_of(&TWO.eval(Succ).eval(Zero)),
        size_of(&THREE.eval(Succ).eval(Zero)),
        size_of(&FOUR.eval(Succ).eval(Zero)),
        size_of(&FIVE.eval(Succ).eval(Zero)),
    ];
    for pair in sizes.windows(2) {
        assert!(pair[0] <= pair[1]);
    }
}

#[test]
fn size_of_is_that_of_the_type() {
    assert_eq!(size_of(&7u32), 4);
    assert_eq!(size_of(&(1u8, 2u8)), 2);
    assert_eq!(size_of(&[0u64; 3]), 24);
    assert_eq!(size_of(&Zero), std::mem::size_of::<Zero>());
    assert_eq!(size_of(&FIVE), std::mem::size_of::<Five>());
}
