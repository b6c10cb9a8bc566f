use fibrust::{fib, input_or_default, DEFAULT_INPUT, MAX_FIB_INPUT};

#[test]
fn smoke() {
    assert_eq!(fib(0), 0);
    assert_eq!(fib(1), 1);
    assert_eq!(fib(5), 5);
    assert_eq!(fib(10), 55);
}

#[test]
fn recurrence_holds_on_concrete_indices() {
    assert_eq!(fib(2), fib(1) + fib(0));
    assert_eq!(fib(10), fib(9) + fib(8));
    assert_eq!(fib(20), fib(19) + fib(18));
}

#[test]
fn negative_inputs_pass_through() {
    assert_eq!(fib(-1), -1);
    assert_eq!(fib(-7), -7);
    assert_eq!(fib(i32::MIN), i32::MIN);
}

#[test]
fn repeated_calls_agree() {
    let first = fib(15);
    let second = fib(15);
    assert_eq!(first, second);
    assert_eq!(first, 610);
}

#[test]
fn known_values() {
    assert_eq!(fib(12), 144);
    assert_eq!(fib(30), 832040);
}

#[test]
fn default_input_is_ten() {
    assert_eq!(DEFAULT_INPUT, 10);
    assert_eq!(MAX_FIB_INPUT, 46);
}

#[test]
fn argument_ten_yields_fifty_five() {
    let parsed = "10".parse::<i32>().ok();
    let n = input_or_default(parsed);
    assert_eq!(n, 10);
    assert_eq!(format!("{}", fib(n)), "55");
}

#[test]
fn missing_argument_falls_back_to_default() {
    let n = input_or_default(None);
    assert_eq!(n, 10);
    assert_eq!(format!("{}", fib(n)), "55");
}

#[test]
fn unparsable_argument_falls_back_to_default() {
    let parsed = "abc".parse::<i32>().ok();
    assert_eq!(parsed, None);
    let n = input_or_default(parsed);
    assert_eq!(n, 10);
    assert_eq!(format!("{}", fib(n)), "55");
}

#[test]
fn parsed_argument_is_kept() {
    assert_eq!(input_or_default(Some(0)), 0);
    assert_eq!(input_or_default(Some(-3)), -3);
    assert_eq!(input_or_default(Some(46)), 46);
}
