use rusty_robot::text::push_decimal;

fn written(n: usize) -> String {
    let mut out = String::new();
    push_decimal(&mut out, n);
    out
}

#[test]
fn numerals_of_small_numbers() {
    assert_eq!(written(0), "0");
    assert_eq!(written(1), "1");
    assert_eq!(written(7), "7");
    assert_eq!(written(9), "9");
    assert_eq!(written(10), "10");
    assert_eq!(written(11), "11");
    assert_eq!(written(99), "99");
    assert_eq!(written(100), "100");
    assert_eq!(written(101), "101");
    assert_eq!(written(1234567890), "1234567890");
}

#[test]
fn numeral_of_the_largest_number() {
    assert_eq!(written(usize::MAX), format!("{}", usize::MAX));
}

#[test]
fn numerals_agree_with_the_standard_library() {
    let mut n: usize = 1;
    for _ in 0..19 {
        assert_eq!(written(n), format!("{}", n));
        assert_eq!(written(n - 1), format!("{}", n - 1));
        assert_eq!(written(n + 1), format!("{}", n + 1));
        n = n.saturating_mul(10);
    }
    for k in 0..2000 {
        assert_eq!(written(k), format!("{}", k));
    }
}

#[test]
fn a_numeral_is_appended_to_what_is_there() {
    let mut out = String::from("x = ");
    push_decimal(&mut out, 42);
    assert_eq!(out, "x = 42");
    push_decimal(&mut out, 0);
    assert_eq!(out, "x = 420");
}
