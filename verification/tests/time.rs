use upl_microservice::service::read_best_before;
use upl_microservice::time::Timestamp;

fn at(secs: i64) -> Timestamp {
    Timestamp { secs, nanos: 0 }
}

#[test]
fn day_number_counts_days_since_1970() {
    assert_eq!(at(0).day_number(), 0);
    assert_eq!(at(86_399).day_number(), 0);
    assert_eq!(at(86_400).day_number(), 1);
    assert_eq!(at(1_600_000_000).day_number(), 18_518);
    assert_eq!(at(-1).day_number(), -1);
    assert_eq!(at(-86_400).day_number(), -1);
    assert_eq!(at(-86_401).day_number(), -2);
    assert_eq!(at(i64::MAX).day_number(), 106_751_991_167_300);
    assert_eq!(at(i64::MIN).day_number(), -106_751_991_167_301);
}

#[test]
fn day_comparison_ignores_the_time_of_day() {
    assert!(at(86_400).on_or_after_day_of(&at(86_400 + 7)));
    assert!(at(86_400).on_or_after_day_of(&at(2 * 86_400 - 1)));
    assert!(!at(86_399).on_or_after_day_of(&at(86_400)));
    assert!(at(3 * 86_400).on_or_after_day_of(&at(86_400)));
    assert!(at(-1).on_or_after_day_of(&at(-86_400)));
    assert!(!at(-86_401).on_or_after_day_of(&at(-1)));
}

#[test]
fn best_before_is_read_from_rfc3339() {
    assert_eq!(read_best_before("").unwrap(), None);
    assert_eq!(
        read_best_before("2021-03-04T05:06:07Z").unwrap(),
        Some(Timestamp {
            secs: 1_614_834_367,
            nanos: 0
        })
    );
    assert_eq!(
        read_best_before("2021-03-04T05:06:07.25+02:00").unwrap(),
        Some(Timestamp {
            secs: 1_614_827_167,
            nanos: 250_000_000
        })
    );
    assert_eq!(
        read_best_before("1969-12-31T23:59:59Z").unwrap(),
        Some(Timestamp { secs: -1, nanos: 0 })
    );
}

#[test]
fn best_before_that_is_no_date_is_a_bad_request() {
    for text in [
        "tomorrow",
        "2021-03-04",
        " ",
        "2021-13-04T05:06:07Z",
        "1614834367",
    ] {
        match read_best_before(text) {
            Err(upl_microservice::prelude::ServiceError::BadRequest(_)) => {}
            other => panic!("{:?} for {:?}", other, text),
        }
    }
}
