use calculator::accumulator::{Accumulator, Operator};
use calculator::decimal::decimal_string;

fn state(a: &Accumulator) -> (i32, i32, Option<Operator>) {
    (a.operand1, a.operand2, a.pending_operator)
}

#[test]
fn add_then_equals() {
    let mut a = Accumulator::new();
    assert_eq!(a.on_digit(5), "5");
    assert_eq!(a.on_operator(Operator::Add), "+");
    assert_eq!(a.on_digit(3), "3");
    assert_eq!(a.on_equals(), "8");
    assert_eq!(state(&a), (8, 0, None));
}

#[test]
fn divide_by_zero_resets() {
    let mut a = Accumulator::new();
    assert_eq!(a.on_digit(1), "1");
    assert_eq!(a.on_digit(0), "10");
    assert_eq!(a.on_operator(Operator::Div), "/");
    assert_eq!(a.on_digit(0), "0");
    assert_eq!(a.on_equals(), "0");
    assert_eq!(state(&a), (0, 0, None));
}

#[test]
fn percent_of_operand() {
    let mut a = Accumulator::new();
    a.on_digit(2);
    a.on_digit(0);
    assert_eq!(a.on_operator(Operator::Percent), "%");
    a.on_digit(5);
    assert_eq!(a.on_digit(0), "50");
    assert_eq!(a.on_equals(), "10");
    assert_eq!(state(&a), (10, 0, None));
}

#[test]
fn clear_on_fresh_state() {
    let mut a = Accumulator::new();
    assert_eq!(a.on_clear(), "0");
    assert_eq!(state(&a), (0, 0, None));
}

#[test]
fn clear_after_input() {
    let mut a = Accumulator::new();
    a.on_digit(4);
    a.on_operator(Operator::Mul);
    a.on_digit(7);
    assert_eq!(a.on_clear(), "0");
    assert_eq!(state(&a), (0, 0, None));
}

#[test]
fn digits_read_in_base_ten() {
    let mut a = Accumulator::new();
    assert_eq!(a.on_digit(1), "1");
    assert_eq!(a.on_digit(2), "12");
    assert_eq!(a.on_digit(0), "120");
    assert_eq!(a.on_digit(9), "1209");
    assert_eq!(state(&a), (1209, 0, None));
}

#[test]
fn leading_zeros_are_not_shown() {
    let mut a = Accumulator::new();
    assert_eq!(a.on_digit(0), "0");
    assert_eq!(a.on_digit(0), "0");
    assert_eq!(a.on_digit(7), "7");
    assert_eq!(a.operand1, 7);
}

#[test]
fn digits_after_operator_go_to_second_operand() {
    let mut a = Accumulator::new();
    a.on_digit(6);
    a.on_operator(Operator::Sub);
    assert_eq!(a.on_digit(4), "4");
    assert_eq!(a.on_digit(2), "42");
    assert_eq!(state(&a), (6, 42, Some(Operator::Sub)));
}

#[test]
fn operator_keeps_operands() {
    let mut a = Accumulator::new();
    a.on_digit(9);
    a.on_operator(Operator::Add);
    a.on_digit(3);
    assert_eq!(a.on_operator(Operator::Mul), "x");
    assert_eq!(state(&a), (9, 3, Some(Operator::Mul)));
    assert_eq!(a.on_operator(Operator::Sub), "-");
    assert_eq!(state(&a), (9, 3, Some(Operator::Sub)));
}

#[test]
fn divide_by_zero_matches_clear() {
    let mut a = Accumulator::new();
    a.on_digit(7);
    a.on_operator(Operator::Div);
    let shown = a.on_equals();
    let mut b = Accumulator::new();
    b.on_digit(7);
    let cleared = b.on_clear();
    assert_eq!(shown, cleared);
    assert_eq!(a, b);
}

#[test]
fn equals_twice_keeps_result() {
    let mut a = Accumulator::new();
    a.on_digit(6);
    a.on_operator(Operator::Mul);
    a.on_digit(7);
    assert_eq!(a.on_equals(), "42");
    assert_eq!(a.on_equals(), "42");
    assert_eq!(state(&a), (42, 0, None));
}

#[test]
fn equals_without_operator_keeps_first_operand() {
    let mut a = Accumulator::new();
    a.on_digit(3);
    a.on_digit(1);
    assert_eq!(a.on_equals(), "31");
    assert_eq!(state(&a), (31, 0, None));
}

#[test]
fn subtraction_goes_negative() {
    let mut a = Accumulator::new();
    a.on_digit(5);
    a.on_operator(Operator::Sub);
    a.on_digit(7);
    assert_eq!(a.on_equals(), "-2");
    assert_eq!(state(&a), (-2, 0, None));
}

#[test]
fn digit_after_negative_result() {
    let mut a = Accumulator::new();
    a.on_digit(5);
    a.on_operator(Operator::Sub);
    a.on_digit(7);
    a.on_equals();
    assert_eq!(a.on_digit(3), "-17");
}

#[test]
fn division_rounds_toward_zero() {
    let mut a = Accumulator::new();
    a.on_digit(7);
    a.on_operator(Operator::Div);
    a.on_digit(2);
    assert_eq!(a.on_equals(), "3");
    a.on_operator(Operator::Sub);
    a.on_digit(1);
    a.on_digit(0);
    assert_eq!(a.on_equals(), "-7");
    a.on_operator(Operator::Div);
    a.on_digit(2);
    assert_eq!(a.on_equals(), "-3");
}

#[test]
fn percent_rounds_toward_zero() {
    let mut a = Accumulator::new();
    a.on_digit(3);
    a.on_operator(Operator::Percent);
    a.on_digit(5);
    a.on_digit(0);
    assert_eq!(a.on_equals(), "1");
    a.on_operator(Operator::Sub);
    a.on_digit(4);
    assert_eq!(a.on_equals(), "-3");
    a.on_operator(Operator::Percent);
    a.on_digit(5);
    a.on_digit(0);
    assert_eq!(a.on_equals(), "-1");
}

#[test]
fn division_clamps_to_range() {
    let mut a = Accumulator { operand1: i32::MIN, operand2: -1, pending_operator: Some(Operator::Div) };
    assert!(a.accepts_equals());
    assert_eq!(a.on_equals(), "2147483647");
    assert_eq!(state(&a), (i32::MAX, 0, None));
}

#[test]
fn percent_clamps_to_range() {
    let mut a = Accumulator { operand1: i32::MAX, operand2: i32::MAX, pending_operator: Some(Operator::Percent) };
    assert!(a.accepts_equals());
    assert_eq!(a.on_equals(), "2147483647");
    let mut b = Accumulator { operand1: i32::MIN, operand2: i32::MAX, pending_operator: Some(Operator::Percent) };
    assert_eq!(b.on_equals(), "-2147483648");
}

#[test]
fn largest_operand_is_accepted() {
    let mut a = Accumulator::new();
    for d in [2u8, 1, 4, 7, 4, 8, 3, 6, 4] {
        assert!(a.accepts_digit(d));
        a.on_digit(d);
    }
    assert!(a.accepts_digit(7));
    assert!(!a.accepts_digit(8));
    assert_eq!(a.on_digit(7), "2147483647");
    assert!(!a.accepts_digit(0));
}

#[test]
fn non_digit_is_refused() {
    let a = Accumulator::new();
    assert!(a.accepts_digit(9));
    assert!(!a.accepts_digit(10));
}

#[test]
fn overflowing_results_are_refused() {
    let a = Accumulator { operand1: i32::MAX, operand2: 1, pending_operator: Some(Operator::Add) };
    assert!(!a.accepts_equals());
    let b = Accumulator { operand1: i32::MIN, operand2: 1, pending_operator: Some(Operator::Sub) };
    assert!(!b.accepts_equals());
    let c = Accumulator { operand1: 65536, operand2: 32768, pending_operator: Some(Operator::Mul) };
    assert!(!c.accepts_equals());
    let d = Accumulator { operand1: 65536, operand2: 32767, pending_operator: Some(Operator::Mul) };
    assert!(d.accepts_equals());
    let e = Accumulator { operand1: 5, operand2: 0, pending_operator: Some(Operator::Div) };
    assert!(e.accepts_equals());
}

#[test]
fn operator_symbols() {
    assert_eq!(Operator::Add.symbol(), "+");
    assert_eq!(Operator::Sub.symbol(), "-");
    assert_eq!(Operator::Mul.symbol(), "x");
    assert_eq!(Operator::Div.symbol(), "/");
    assert_eq!(Operator::Percent.symbol(), "%");
}

#[test]
fn decimal_text() {
    assert_eq!(decimal_string(0), "0");
    assert_eq!(decimal_string(7), "7");
    assert_eq!(decimal_string(10), "10");
    assert_eq!(decimal_string(-305), "-305");
    assert_eq!(decimal_string(i32::MAX), "2147483647");
    assert_eq!(decimal_string(i32::MIN), "-2147483648");
}
