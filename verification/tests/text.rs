use capture_demo::text::{labelled_line, to_decimal};

#[test]
fn zero_is_one_digit() {
    assert_eq!(to_decimal(0), "0");
}

#[test]
fn single_digits() {
    let expected = ["0", "1", "2", "3", "4", "5", "6", "7", "8", "9"];
    for n in 0..10 {
        assert_eq!(to_decimal(n), expected[n as usize]);
    }
}

#[test]
fn several_digits_most_significant_first() {
    assert_eq!(to_decimal(10), "10");
    assert_eq!(to_decimal(42), "42");
    assert_eq!(to_decimal(100), "100");
    assert_eq!(to_decimal(1203), "1203");
    assert_eq!(to_decimal(907050), "907050");
}

#[test]
fn negative_numbers_carry_a_minus_sign() {
    assert_eq!(to_decimal(-1), "-1");
    assert_eq!(to_decimal(-10), "-10");
    assert_eq!(to_decimal(-305), "-305");
}

#[test]
fn the_ends_of_the_range() {
    assert_eq!(to_decimal(i32::MAX), "2147483647");
    assert_eq!(to_decimal(i32::MIN), "-2147483648");
}

#[test]
fn decimal_agrees_with_the_standard_formatting() {
    let mut n: i32 = -100_000;
    while n <= 100_000 {
        assert_eq!(to_decimal(n), format!("{}", n));
        n += 37;
    }
}

#[test]
fn decimal_text_reads_back_as_the_number() {
    for n in [0, 5, -5, 19, 1000, -99999, i32::MAX, i32::MIN] {
        assert_eq!(to_decimal(n).parse::<i32>(), Ok(n));
    }
}

#[test]
fn a_value_under_a_name() {
    assert_eq!(labelled_line("color", "green"), "`color`: green");
    assert_eq!(labelled_line("count", "12"), "`count`: 12");
}

#[test]
fn empty_name_and_empty_value() {
    assert_eq!(labelled_line("", ""), "``: ");
    assert_eq!(labelled_line("x", ""), "`x`: ");
    assert_eq!(labelled_line("", "y"), "``: y");
}
