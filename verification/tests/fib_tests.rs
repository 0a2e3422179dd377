#[test]
fn fibonacci_of_zero_is_empty() {
    assert_eq!(rust_python_demo::fibonacci(0), Vec::<u64>::new());
}

#[test]
fn fibonacci_of_one() {
    assert_eq!(rust_python_demo::fibonacci(1), vec![0u64]);
}

#[test]
fn fibonacci_of_two() {
    assert_eq!(rust_python_demo::fibonacci(2), vec![0u64, 1]);
}

#[test]
fn fibonacci_of_ten() {
    assert_eq!(
        rust_python_demo::fibonacci(10),
        vec![0u64, 1, 1, 2, 3, 5, 8, 13, 21, 34]
    );
}

#[test]
fn fibonacci_length_and_recurrence() {
    let s: Vec<u64> = rust_python_demo::fibonacci(40);
    assert_eq!(s.len(), 40);
    let mut i: usize = 2;
    while i < 40 {
        assert_eq!(s[i], s[i - 1] + s[i - 2]);
        i += 1;
    }
}

#[test]
fn fibonacci_prefix_of_next() {
    let mut n: usize = 0;
    while n <= 20 {
        let shorter: Vec<u64> = rust_python_demo::fibonacci(n);
        let longer: Vec<u64> = rust_python_demo::fibonacci(n + 1);
        assert_eq!(&longer[..n], &shorter[..]);
        n += 1;
    }
}

#[test]
fn fibonacci_largest_supported_count() {
    let s: Vec<u64> = rust_python_demo::fibonacci(94);
    assert_eq!(s.len(), 94);
    assert_eq!(s[92], 7540113804746346429u64);
    assert_eq!(s[93], 12200160415121876738u64);
}
