use detcore::functions::{check_positive, fibonacci, NegativeError};

#[test]
fn test_fibonacci_zero() {
    assert_eq!(fibonacci(0), 0);
}

#[test]
fn test_fibonacci_one() {
    assert_eq!(fibonacci(1), 1);
}

#[test]
fn test_fibonacci_two() {
    assert_eq!(fibonacci(2), 1);
}

#[test]
fn test_fibonacci_small_numbers() {
    assert_eq!(fibonacci(3), 2);
    assert_eq!(fibonacci(4), 3);
    assert_eq!(fibonacci(5), 5);
    assert_eq!(fibonacci(6), 8);
    assert_eq!(fibonacci(7), 13);
}

#[test]
fn test_fibonacci_larger_numbers() {
    assert_eq!(fibonacci(10), 55);
    assert_eq!(fibonacci(15), 610);
    assert_eq!(fibonacci(20), 6765);
}

#[test]
fn test_fibonacci_sequence_property() {
    let mut prev = fibonacci(0);
    let mut curr = fibonacci(1);

    for n in 2..20 {
        let next = fibonacci(n);
        assert_eq!(
            prev + curr,
            next,
            "Failed sequence property at position {}",
            n
        );
        prev = curr;
        curr = next;
    }
}

#[test]
fn benchmark_fibonacci() {
    for i in 0..30 {
        fibonacci(i);
    }
}

#[test]
fn fibonacci_largest_in_u64() {
    assert_eq!(fibonacci(93), 12200160415121876738);
}

#[test]
fn check_positive_accepts_zero_and_positive() {
    assert_eq!(check_positive(0), Ok(()));
    assert_eq!(check_positive(7), Ok(()));
    assert_eq!(check_positive(i32::MAX), Ok(()));
}

#[test]
fn check_positive_rejects_negative() {
    assert_eq!(check_positive(-1), Err(NegativeError));
    assert_eq!(check_positive(i32::MIN), Err(NegativeError));
    assert_eq!(NegativeError.message(), "x is negative");
}
