use sudoku_lib::fibonacci;

#[test]
fn starts_at_zero_and_one() {
    assert_eq!(fibonacci(0), (0, 1));
    assert_eq!(fibonacci(1), (1, 1));
    assert_eq!(fibonacci(2), (1, 2));
}

#[test]
fn tenth_and_twentieth() {
    assert_eq!(fibonacci(10), (55, 89));
    assert_eq!(fibonacci(20), (6765, 10946));
}

#[test]
fn last_pair_that_fits() {
    assert_eq!(fibonacci(46), (1836311903, 2971215073));
}

#[test]
fn wraps_around_past_32_bits() {
    // fib(48) is 4807526976, which is 512559680 more than 2^32.
    assert_eq!(fibonacci(47), (2971215073, 512559680));
    assert_eq!(fibonacci(48).0, 512559680);
}

#[test]
fn pairs_chain() {
    for n in 0..200u32 {
        let (a, b) = fibonacci(n);
        let (c, d) = fibonacci(n + 1);
        assert_eq!(b, c);
        assert_eq!(d, a.wrapping_add(b));
    }
}
