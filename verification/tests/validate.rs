use battery_watcher::error::Error;
use battery_watcher::validate::greater_than_zero;
use battery_watcher::validate::max;
use battery_watcher::validate::order;
use battery_watcher::validate::required;
use battery_watcher::validate::ValidationError;
use battery_watcher::Interval;

/// The accepting side of every validation helper.
#[test]
fn validate_is_ok() {
    let intervals = [
        Interval::from_nanos(1),
        Interval::from_secs(1),
        Interval::from_nanos(u128::MAX),
    ];
    for val in intervals {
        assert!(greater_than_zero(val).is_ok());
    }

    let max_entries = [
        (0, 0),
        (1, 0),
        (10, 9),
        (10, 10),
        (100, 99),
        (100, 100),
        (u8::MAX, 0),
        (u8::MAX, u8::MAX - 1),
        (u8::MAX, u8::MAX),
    ];
    for (a, b) in max_entries {
        assert!(max(a, b).is_ok());
    }

    let order_entries = [
        (0, 1),
        (1, 2),
        (10, 20),
        (100, 200),
        (0, u8::MAX),
        (u8::MAX - 1, u8::MAX),
    ];
    for (a, b) in order_entries {
        assert!(order(a, b).is_ok());
    }

    let required_vals = ["foo", "foo ", "\tfoo", "foo\n"];
    let expected = Ok(String::from("foo"));
    for val in required_vals {
        let result = required("test_field", val.to_string());
        assert_eq!(result, expected);
    }
}

/// The rejecting side of every validation helper.
#[test]
fn validate_is_err() {
    let intervals = [Interval::from_nanos(0), Interval::from_secs(0)];
    for val in intervals {
        assert!(greater_than_zero(val).is_err());
    }

    let max_entries = [
        (0, 1),
        (1, 2),
        (10, 20),
        (100, 200),
        (0, u8::MAX),
        (u8::MAX - 1, u8::MAX),
    ];
    for (a, b) in max_entries {
        assert!(max(a, b).is_err());
    }

    let order_entries = [
        (0, 0),
        (1, 0),
        (10, 9),
        (10, 10),
        (100, 99),
        (100, 100),
        (u8::MAX, 0),
        (u8::MAX, u8::MAX - 1),
        (u8::MAX, u8::MAX),
    ];
    for (a, b) in order_entries {
        assert!(order(a, b).is_err());
    }

    let required_vals = ["", " ", "\t", "\n"];
    for val in required_vals {
        assert!(required("test_field", val.to_string()).is_err());
    }
}

/// The exact error values of each helper.
#[test]
fn validate_error_values() {
    assert_eq!(
        greater_than_zero(Interval::from_nanos(0)),
        Err(ValidationError::GreaterThanZero)
    );
    assert_eq!(max(100, 101), Err(ValidationError::Max(100)));
    assert_eq!(order(10, 10), Err(ValidationError::Order(10, 10)));
    assert_eq!(
        required("test_field", "  ".to_string()),
        Err(ValidationError::Required("test_field".to_string()))
    );
}

/// Errors render their messages with the offending values in decimal.
#[test]
fn error_messages() {
    assert_eq!(
        Error::Io("read failed".to_string()).message(),
        "I/O Error: read failed"
    );
    assert_eq!(Error::Parse("foo".to_string()).message(), "Parsing Error: foo");
    assert_eq!(
        Error::Validation(ValidationError::Max(100)).message(),
        "Validation Error: cannot be greater than 100"
    );
    assert_eq!(
        Error::Validation(ValidationError::Order(5, 3)).message(),
        "Validation Error: left value (5) must be less than right value (3)"
    );
    assert_eq!(
        Error::Validation(ValidationError::Order(210, 67)).message(),
        "Validation Error: left value (210) must be less than right value (67)"
    );
    assert_eq!(
        Error::Validation(ValidationError::GreaterThanZero).message(),
        "Validation Error: must be greater than zero"
    );
    assert_eq!(
        Error::Validation(ValidationError::Required("battery_file".to_string())).message(),
        "Validation Error: property 'battery_file' is required"
    );
}

/// An interval keeps the length it was built from.
#[test]
fn interval_lengths() {
    assert_eq!(Interval::from_nanos(7).nanos(), 7);
    assert_eq!(Interval::from_secs(45).nanos(), 45_000_000_000);
    assert_eq!(Interval::from_secs(0).nanos(), 0);
}
