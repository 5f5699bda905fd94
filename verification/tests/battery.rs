use battery_watcher::validate::ValidationError;
use battery_watcher::Alert;
use battery_watcher::BatteryStatus;
use battery_watcher::Breakpoints;
use battery_watcher::Config;
use battery_watcher::Error;
use battery_watcher::Interval;
use battery_watcher::Percentage;
use battery_watcher::Watcher;

use battery_watcher::BatteryLevel::{Critical, Full, High, Low, Regular, Unknown};

/// Should always give `None`.
#[test]
fn self_transition() {
    let levels = [Unknown, Critical, Low, Regular, High, Full];
    for level in levels {
        assert_eq!(level.transition(&level), None);
    }
}

/// Should give `None` when charging to `Low` or `Regular`.
#[test]
fn charging_transition() {
    let entries = [
        (Unknown, Critical, Some(BatteryStatus::Critical)),
        (Critical, Low, None),
        (Low, Regular, None),
        (Regular, High, Some(BatteryStatus::High)),
        (High, Full, Some(BatteryStatus::Full)),
    ];

    for (from, to, expected) in entries {
        assert_eq!(from.transition(&to), expected);
    }
}

/// Should give `None` when discharging to `High` or `Regular`.
#[test]
fn discharging_transition() {
    let entries = [
        (Unknown, Full, Some(BatteryStatus::Full)),
        (Full, High, None),
        (High, Regular, None),
        (Regular, Low, Some(BatteryStatus::Low)),
        (Low, Critical, Some(BatteryStatus::Critical)),
    ];

    for (from, to, expected) in entries {
        assert_eq!(from.transition(&to), expected);
    }
}

/// Every ordered pair of levels, checked against the policy: self-moves and
/// moves into `Regular` are silent, the two recovery edges are silent, and
/// everything else reports the entered level.
#[test]
fn transition_all_pairs() {
    let levels = [Unknown, Critical, Low, Regular, High, Full];
    for from in levels {
        for to in levels {
            let expected = if from == to {
                None
            } else {
                match to {
                    Unknown => Some(BatteryStatus::Unknown(None)),
                    Critical => Some(BatteryStatus::Critical),
                    Low if from == Critical => None,
                    Low => Some(BatteryStatus::Low),
                    Regular => None,
                    High if from == Full => None,
                    High => Some(BatteryStatus::High),
                    Full => Some(BatteryStatus::Full),
                }
            };
            assert_eq!(from.transition(&to), expected);
        }
    }
}

/// Should create new instances from valid marks.
#[test]
fn percentage_new_ok() {
    let vals = [0, 1, 50, 99, 100];
    for val in vals {
        assert!(Percentage::new(val).is_ok());
    }

    let entries = [(0, 1, 2, 3), (0, 1, 99, 100), (97, 98, 99, 100), (10, 15, 90, 95)];
    for p in entries {
        assert!(Breakpoints::new(p.0, p.1, p.2, p.3).is_ok());
    }
}

/// Should fail to create new instances from invalid marks.
#[test]
fn percentage_new_err() {
    let vals = [101, 127, 128, 255];
    for val in vals {
        assert!(Percentage::new(val).is_err());
    }

    let entries = [
        (0, 0, 0, 0),
        (1, 1, 3, 4),
        (2, 1, 3, 4),
        (1, 3, 2, 4),
        (1, 2, 4, 3),
        (100, 100, 100, 100),
        (101, 102, 103, 104),
    ];
    for p in entries {
        assert!(Breakpoints::new(p.0, p.1, p.2, p.3).is_err());
    }
}

/// Should parse `String` into new instance.
#[test]
fn try_from_string_ok() {
    let vals = ["0", " 1", "50 ", " 99 ", "\t100\n"];
    for val in vals {
        assert!(Percentage::try_from(val.to_string()).is_ok());
    }
}

/// Should fail to parse `String` into new instance.
#[test]
fn try_from_string_err() {
    let vals = ["foo", "-0", "-1", "0xFF", "1.23"];
    for val in vals {
        assert!(Percentage::try_from(val.to_string()).is_err());
    }
}

/// Parsing keeps the numeric value, takes an optional plus sign, and tells
/// a malformed numeral apart from one that is merely out of range.
#[test]
fn try_from_string_values() {
    assert_eq!(Percentage::try_from(" 99 ".to_string()).unwrap().value(), 99);
    assert_eq!(Percentage::try_from("\t100\n".to_string()).unwrap().value(), 100);
    assert_eq!(Percentage::try_from("007".to_string()).unwrap().value(), 7);
    assert_eq!(Percentage::try_from("+42".to_string()).unwrap().value(), 42);
    assert_eq!(
        Percentage::try_from("101".to_string()),
        Err(Error::Validation(ValidationError::Max(100)))
    );
    assert_eq!(
        Percentage::try_from("255".to_string()),
        Err(Error::Validation(ValidationError::Max(100)))
    );
    assert_eq!(
        Percentage::try_from("256".to_string()),
        Err(Error::Parse("256".to_string()))
    );
    assert_eq!(
        Percentage::try_from("".to_string()),
        Err(Error::Parse("".to_string()))
    );
    assert_eq!(
        Percentage::try_from("+".to_string()),
        Err(Error::Parse("+".to_string()))
    );
}

/// Should select the correct `BatteryLevel`.
#[test]
fn get_level() {
    // The gap between `low` and `high` is expected, and
    // it is useful for aligning with the index in `levels`
    let breakpoints = Breakpoints::new(0, 1, 3, 4).unwrap();

    let levels = [Critical, Low, Regular, High, Full];

    for (val, expected) in levels.iter().enumerate() {
        let percentage = Percentage::new(val as u8).unwrap();
        let actual = breakpoints.get_level(&percentage);
        assert_eq!(&actual, expected);
    }
}

/// Construction names the first violated pair, in the order critical/low,
/// low/high, high/full, and only then the percentage bound.
#[test]
fn breakpoints_first_violation() {
    assert_eq!(
        Breakpoints::new(2, 1, 3, 4),
        Err(Error::Validation(ValidationError::Order(2, 1)))
    );
    assert_eq!(
        Breakpoints::new(1, 3, 2, 4),
        Err(Error::Validation(ValidationError::Order(3, 2)))
    );
    assert_eq!(
        Breakpoints::new(1, 2, 4, 3),
        Err(Error::Validation(ValidationError::Order(4, 3)))
    );
    assert_eq!(
        Breakpoints::new(0, 0, 0, 0),
        Err(Error::Validation(ValidationError::Order(0, 0)))
    );
    assert_eq!(
        Breakpoints::new(101, 102, 103, 104),
        Err(Error::Validation(ValidationError::Max(100)))
    );
}

/// Each status maps to its summary text.
#[test]
fn status_summaries() {
    assert_eq!(BatteryStatus::Unknown(None).summary(), "Battery is Unknown");
    assert_eq!(BatteryStatus::Critical.summary(), "Battery is Critical");
    assert_eq!(BatteryStatus::Low.summary(), "Battery is almost Empty");
    assert_eq!(BatteryStatus::High.summary(), "Battery is almost Full");
    assert_eq!(BatteryStatus::Full.summary(), "Battery is Full");
}

/// `Unknown` and `Critical` shape into sticky alerts, the rest into timed
/// ones; only `Unknown` carries its detail as the body.
#[test]
fn alert_shaping() {
    let a = Alert::from_status(BatteryStatus::Unknown(Some("detail".to_string())));
    assert_eq!(a.summary, "Battery is Unknown");
    assert_eq!(a.body, Some("detail".to_string()));
    assert!(a.sticky);
    assert_eq!(a.timeout_ms, 0);

    let a = Alert::from_status(BatteryStatus::Critical);
    assert_eq!(a.summary, "Battery is Critical");
    assert_eq!(a.body, None);
    assert!(a.sticky);
    assert_eq!(a.timeout_ms, 0);

    for status in [BatteryStatus::Low, BatteryStatus::High, BatteryStatus::Full] {
        let a = Alert::from_status(status);
        assert_eq!(a.body, None);
        assert!(!a.sticky);
        assert_eq!(a.timeout_ms, 5000);
    }
}

/// Configuration is validated up front: the source identifier must not be
/// blank and the interval must be strictly positive.
#[test]
fn config_validation() {
    let breakpoints = Breakpoints::new(10, 13, 94, 97).unwrap();
    let interval = Interval::from_secs(45);

    let config = Config::new("  bat0  ".to_string(), breakpoints, interval).unwrap();
    assert_eq!(config.battery_file(), "bat0");
    assert_eq!(config.interval(), interval);

    match Config::new(" \t\n".to_string(), breakpoints, interval) {
        Err(Error::Validation(ValidationError::Required(name))) => {
            assert_eq!(name, "battery_file");
        }
        other => panic!("expected a missing-property error, got {:?}", other),
    }

    assert_eq!(
        Config::new("bat0".to_string(), breakpoints, Interval::from_nanos(0)),
        Err(Error::Validation(ValidationError::GreaterThanZero))
    );
}

/// A full run: the first reading classifies to `Critical` and is reported;
/// recovering into `Low` and crossing `Regular` are silent; entering `High`
/// is reported; a failed reading forces `Unknown` and is reported with the
/// failure detail, on every consecutive failure.
#[test]
fn watcher_scenario() {
    let breakpoints = Breakpoints::new(0, 1, 3, 4).unwrap();
    let config = Config::new(
        "bat0".to_string(),
        breakpoints,
        Interval::from_secs(45),
    )
    .unwrap();
    let mut watcher = Watcher::new(config);

    let read = |v: u8| Ok(Percentage::new(v).unwrap());

    assert_eq!(watcher.update(read(0)), Some(BatteryStatus::Critical));
    assert_eq!(watcher.update(read(1)), None);
    assert_eq!(watcher.update(read(2)), None);
    assert_eq!(watcher.update(read(3)), Some(BatteryStatus::High));

    let failure = || Err(Error::Io("read failed".to_string()));
    assert_eq!(
        watcher.update(failure()),
        Some(BatteryStatus::Unknown(Some(
            "I/O Error: read failed".to_string()
        )))
    );
    // A repeated failure is reported again, unlike a merely unchanged level.
    assert_eq!(
        watcher.update(failure()),
        Some(BatteryStatus::Unknown(Some(
            "I/O Error: read failed".to_string()
        )))
    );

    // After the failures the state really is `Unknown`: a fresh `Critical`
    // reading is reported as a transition out of `Unknown`.
    assert_eq!(watcher.update(read(0)), Some(BatteryStatus::Critical));
}
