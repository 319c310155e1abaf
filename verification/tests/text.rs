use task_api::text::{decimal_string, deleted_message, healthy_message, not_found_message};

#[test]
fn decimal_of_single_digits() {
    let expected = ["0", "1", "2", "3", "4", "5", "6", "7", "8", "9"];
    for (n, text) in expected.iter().enumerate() {
        assert_eq!(decimal_string(n as u64), *text);
    }
}

#[test]
fn decimal_of_longer_numbers() {
    assert_eq!(decimal_string(10), "10");
    assert_eq!(decimal_string(99), "99");
    assert_eq!(decimal_string(100), "100");
    assert_eq!(decimal_string(109), "109");
    assert_eq!(decimal_string(999), "999");
    assert_eq!(decimal_string(1234567890), "1234567890");
    assert_eq!(decimal_string(u64::MAX), "18446744073709551615");
}

#[test]
fn decimal_agrees_with_the_standard_formatting() {
    let mut n: u64 = 1;
    for _ in 0..64 {
        assert_eq!(decimal_string(n), format!("{}", n));
        assert_eq!(decimal_string(n - 1), format!("{}", n - 1));
        assert_eq!(decimal_string(n + 1), format!("{}", n + 1));
        n = n.wrapping_mul(7).wrapping_add(3) | 1;
    }
    for n in 0..2000u64 {
        assert_eq!(decimal_string(n), format!("{}", n));
    }
}

#[test]
fn message_texts() {
    assert_eq!(healthy_message(), "API is healthy!");
    assert_eq!(not_found_message(999), "Task with ID 999 not found");
    assert_eq!(not_found_message(0), "Task with ID 0 not found");
    assert_eq!(deleted_message(2), "Task with ID 2 has been deleted");
    assert_eq!(
        deleted_message(u64::MAX),
        format!("Task with ID {} has been deleted", u64::MAX)
    );
    assert_eq!(
        not_found_message(u64::MAX),
        format!("Task with ID {} not found", u64::MAX)
    );
}
