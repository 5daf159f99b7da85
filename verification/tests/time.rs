use eventheader::internal::{time_from_duration_after_1970, time_from_duration_before_1970};
use std::time::Duration;

fn after(duration: Duration) -> i64 {
    time_from_duration_after_1970(duration.as_secs())
}

fn before(duration: Duration) -> i64 {
    time_from_duration_before_1970(duration.as_secs(), duration.subsec_nanos())
}

#[test]
fn time_from_duration() {
    // Values should round down.
    assert_eq!(0, after(Duration::from_millis(0)));
    assert_eq!(0, after(Duration::from_millis(1)));
    assert_eq!(0, after(Duration::from_millis(999)));
    assert_eq!(1, after(Duration::from_millis(1000)));
    assert_eq!(1, after(Duration::from_millis(1001)));
    assert_eq!(1, after(Duration::from_millis(1999)));

    // Overflow should saturate.
    assert_eq!(i64::MAX, after(Duration::from_secs(i64::MAX as u64)));
    assert_eq!(i64::MAX, after(Duration::from_secs(1 + i64::MAX as u64)));
    assert_eq!(i64::MAX, after(Duration::from_secs(2 + i64::MAX as u64)));

    // Values should round down.
    assert_eq!(0, before(Duration::from_millis(0)));
    assert_eq!(-1, before(Duration::from_millis(1)));
    assert_eq!(-1, before(Duration::from_millis(999)));
    assert_eq!(-1, before(Duration::from_millis(1000)));
    assert_eq!(-2, before(Duration::from_millis(1001)));
    assert_eq!(-2, before(Duration::from_millis(1999)));

    // Overflow should saturate.
    assert_eq!(i64::MIN + 1, before(Duration::from_secs(i64::MAX as u64)));
    assert_eq!(i64::MIN, before(Duration::from_secs(1 + i64::MAX as u64)));
    assert_eq!(i64::MIN, before(Duration::from_secs(2 + i64::MAX as u64)));
}

#[test]
fn time_from_systemtime() {
    let epoch = std::time::SystemTime::UNIX_EPOCH;
    let d100 = Duration::from_secs(100);
    let later = match (epoch + d100).duration_since(epoch) {
        Ok(dur) => after(dur),
        Err(err) => before(err.duration()),
    };
    assert_eq!(later, after(d100));
    assert_eq!(later, 100);
    let earlier = match (epoch - d100).duration_since(epoch) {
        Ok(dur) => after(dur),
        Err(err) => before(err.duration()),
    };
    assert_eq!(earlier, before(d100));
    assert_eq!(earlier, -100);
}
