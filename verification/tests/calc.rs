use titanium_os::apps::calc::{Calculator, Expression};
use titanium_os::input::Key;

fn typed(text: &str) -> Calculator {
    let mut c = Calculator::new();
    for ch in text.chars() {
        assert!(c.handle_input(Key::Char(ch)).is_none());
    }
    c
}

fn binary(e: Expression) -> (char, String, String) {
    match e {
        Expression::Binary { op, left, right } => (op, left, right),
        Expression::Number(n) => panic!("expected an operator, got the number {:?}", n),
    }
}

fn number(e: Expression) -> String {
    match e {
        Expression::Number(n) => n,
        Expression::Binary { op, .. } => panic!("expected a number, got operator {}", op),
    }
}

#[test]
fn new_calculator_is_empty_with_result_zero() {
    let c = Calculator::new();
    assert_eq!(c.input, "");
    assert_eq!(c.result, "0");
}

#[test]
fn only_calculator_characters_are_typed() {
    let c = typed("5 * 15x=a(");
    assert_eq!(c.input, "5 * 15");
    let c = typed("0123456789+-*/. ");
    assert_eq!(c.input, "0123456789+-*/. ");
}

#[test]
fn backspace_removes_last_character() {
    let mut c = typed("12");
    assert!(c.handle_input(Key::Backspace).is_none());
    assert_eq!(c.input, "1");
    c.handle_input(Key::Backspace);
    c.handle_input(Key::Backspace);
    assert_eq!(c.input, "");
    assert_eq!(c.result, "0");
}

#[test]
fn esc_clears_input_and_result() {
    let mut c = typed("7+1");
    c.result = String::from("8");
    assert!(c.handle_input(Key::Esc).is_none());
    assert_eq!(c.input, "");
    assert_eq!(c.result, "0");
}

#[test]
fn other_keys_change_nothing() {
    let mut c = typed("4");
    assert!(c.handle_input(Key::Left).is_none());
    assert!(c.handle_input(Key::Other).is_none());
    assert_eq!(c.input, "4");
    assert_eq!(c.result, "0");
}

#[test]
fn enter_splits_at_the_operator() {
    let mut c = typed("5 * 15");
    let e = c.handle_input(Key::Enter).expect("enter evaluates");
    assert_eq!(binary(e), ('*', String::from("5"), String::from("15")));
    assert_eq!(c.input, "5 * 15");
}

#[test]
fn plus_is_chosen_before_the_other_operators() {
    let c = typed("2*3+4");
    assert_eq!(binary(c.calculate()), ('+', String::from("2*3"), String::from("4")));
    let c = typed("8/2-1");
    assert_eq!(binary(c.calculate()), ('-', String::from("8/2"), String::from("1")));
    let c = typed("9/3*2");
    assert_eq!(binary(c.calculate()), ('*', String::from("9/3"), String::from("2")));
    let c = typed("10/2");
    assert_eq!(binary(c.calculate()), ('/', String::from("10"), String::from("2")));
}

#[test]
fn leading_minus_is_a_sign() {
    let c = typed("-5+3");
    assert_eq!(binary(c.calculate()), ('+', String::from("-5"), String::from("3")));
    let c = typed("-5*2");
    assert_eq!(binary(c.calculate()), ('*', String::from("-5"), String::from("2")));
    let c = typed("-5-3");
    assert_eq!(number(c.calculate()), "-5-3");
    let c = typed(" -4");
    assert_eq!(number(c.calculate()), "-4");
}

#[test]
fn first_occurrence_splits() {
    let c = typed("1+2+3");
    assert_eq!(binary(c.calculate()), ('+', String::from("1"), String::from("2+3")));
    let c = typed("6-2-1");
    assert_eq!(binary(c.calculate()), ('-', String::from("6"), String::from("2-1")));
}

#[test]
fn lone_numbers_and_empty_input() {
    let c = typed(" 4 2 . 5 ");
    assert_eq!(number(c.calculate()), "42.5");
    let c = typed("");
    assert_eq!(number(c.calculate()), "");
    let c = typed("3+");
    assert_eq!(binary(c.calculate()), ('+', String::from("3"), String::new()));
}

#[test]
fn screen_text_shows_input_and_result() {
    let mut c = typed("1+1");
    c.result = String::from("2");
    assert_eq!(
        c.screen_text(),
        "\n   📊 Expressive TUI Calculator\n\n   Input:  1+1\n   Result: 2\n\n   Controls: Type math (e.g., 5 * 15), press Enter to evaluate.\n   Press Esc inside this tab to clear."
    );
}
