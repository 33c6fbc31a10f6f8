use bgpstream::timestamp::{Timestamp, MAX_UNIX_SECONDS, MIN_UNIX_SECONDS};
use bgpstream::BgpStreamError;

#[test]
fn seconds_and_microseconds_resolve_to_an_instant() {
    let t = Timestamp::from_unix_timestamp(1_699_437_300, 250_000).unwrap();
    assert_eq!(t, Timestamp { seconds: 1_699_437_300, microseconds: 250_000 });
    assert_eq!(t.unix_timestamp(), 1_699_437_300);
    assert_eq!(t.microsecond(), 250_000);
}

#[test]
fn microseconds_beyond_a_second_carry_over() {
    let t = Timestamp::from_unix_timestamp(1_700_000_000, 1_500_000).unwrap();
    assert_eq!(t, Timestamp { seconds: 1_700_000_001, microseconds: 500_000 });
    let t = Timestamp::from_unix_timestamp(10, u32::MAX).unwrap();
    assert_eq!(t, Timestamp { seconds: 10 + 4294, microseconds: 967_295 });
}

#[test]
fn the_epoch_and_negative_seconds_are_accepted() {
    assert_eq!(
        Timestamp::from_unix_timestamp(0, 0),
        Ok(Timestamp { seconds: 0, microseconds: 0 })
    );
    assert_eq!(
        Timestamp::from_unix_timestamp(-1, 999_999),
        Ok(Timestamp { seconds: -1, microseconds: 999_999 })
    );
}

#[test]
fn the_range_of_dates_bounds_the_seconds() {
    assert_eq!(MIN_UNIX_SECONDS, -377_705_116_800);
    assert_eq!(MAX_UNIX_SECONDS, 253_402_300_799);
    assert_eq!(
        Timestamp::from_unix_timestamp(MAX_UNIX_SECONDS, 0),
        Ok(Timestamp { seconds: MAX_UNIX_SECONDS, microseconds: 0 })
    );
    assert_eq!(
        Timestamp::from_unix_timestamp(MAX_UNIX_SECONDS + 1, 0),
        Err(BgpStreamError::Timestamp)
    );
    assert_eq!(
        Timestamp::from_unix_timestamp(MIN_UNIX_SECONDS, 0),
        Ok(Timestamp { seconds: MIN_UNIX_SECONDS, microseconds: 0 })
    );
    assert_eq!(
        Timestamp::from_unix_timestamp(MIN_UNIX_SECONDS - 1, 0),
        Err(BgpStreamError::Timestamp)
    );
    assert_eq!(Timestamp::from_unix_timestamp(i64::MAX, 0), Err(BgpStreamError::Timestamp));
    assert_eq!(Timestamp::from_unix_timestamp(i64::MIN, 7), Err(BgpStreamError::Timestamp));
}
