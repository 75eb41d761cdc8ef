use ntp_responder::calendar::{
    offset_from_observation, true_seconds, CalendarTime, CALENDAR_LIMIT, NTP_EPOCH_OFFSET,
};

fn at(unix: i64) -> CalendarTime {
    CalendarTime::from_unix_seconds(unix).unwrap()
}

#[test]
fn epoch_offset_is_seventy_years() {
    assert_eq!(NTP_EPOCH_OFFSET, 2_208_988_800);
    assert_eq!(at(0).ntp_seconds(), 2_208_988_800);
    assert_eq!(at(1_704_067_200).ntp_seconds(), 3_913_056_000);
    assert_eq!(at(1_704_067_200).unix_seconds(), 1_704_067_200);
}

#[test]
fn calendar_ends_at_its_limit() {
    assert!(CalendarTime::from_unix_seconds(CALENDAR_LIMIT - 1).is_some());
    assert!(CalendarTime::from_unix_seconds(1 - CALENDAR_LIMIT).is_some());
    assert_eq!(CalendarTime::from_unix_seconds(CALENDAR_LIMIT), None);
    assert_eq!(CalendarTime::from_unix_seconds(-CALENDAR_LIMIT), None);
    assert_eq!(CalendarTime::from_unix_seconds(i64::MAX), None);
    assert_eq!(CalendarTime::from_unix_seconds(i64::MIN), None);
}

#[test]
fn offset_is_true_time_minus_local_clock() {
    assert_eq!(offset_from_observation(at(1_704_067_200), at(1_704_067_200)), 2_208_988_800);
    assert_eq!(offset_from_observation(at(1_704_067_200), at(1_704_067_250)), 2_208_988_750);
    assert_eq!(offset_from_observation(at(0), at(2_208_988_800)), 0);
    assert_eq!(offset_from_observation(at(-2_208_988_800), at(7)), -7);
}

#[test]
fn offset_at_the_ends_of_the_calendar() {
    let first = at(1 - CALENDAR_LIMIT);
    let last = at(CALENDAR_LIMIT - 1);
    assert_eq!(
        offset_from_observation(last, first),
        2 * (CALENDAR_LIMIT - 1) + NTP_EPOCH_OFFSET
    );
    assert_eq!(
        offset_from_observation(first, last),
        NTP_EPOCH_OFFSET - 2 * (CALENDAR_LIMIT - 1)
    );
}

#[test]
fn read_right_after_an_observation_is_within_a_second() {
    let local = at(1_650_000_000);
    let observed = at(1_704_067_200);
    let offset = offset_from_observation(observed, local);
    assert_eq!(true_seconds(local, offset), 3_913_056_000);
    assert_eq!(true_seconds(at(1_650_000_001), offset), 3_913_056_001);
}

#[test]
fn reads_follow_the_local_clock() {
    let offset = 2_208_988_750;
    let first = true_seconds(at(1_700_000_000), offset);
    let second = true_seconds(at(1_700_000_000), offset);
    let later = true_seconds(at(1_700_000_090), offset);
    assert_eq!(first, 3_908_988_750);
    assert_eq!(first, second);
    assert_eq!(later, first + 90);
}

#[test]
fn seconds_wrap_modulo_two_to_the_thirty_two() {
    assert_eq!(true_seconds(at(0), 0), 0);
    assert_eq!(true_seconds(at(0), 4_294_967_296), 0);
    assert_eq!(true_seconds(at(5), 4_294_967_295), 4);
    assert_eq!(true_seconds(at(0), -1), u32::MAX);
    assert_eq!(true_seconds(at(-10), 3), 4_294_967_289);
    assert_eq!(true_seconds(at(1), i64::MAX), 0);
    assert_eq!(true_seconds(at(0), i64::MAX), u32::MAX);
    assert_eq!(true_seconds(at(0), i64::MIN), 0);
    assert_eq!(true_seconds(at(-1), i64::MIN), u32::MAX);
    assert_eq!(true_seconds(at(2_085_978_496), 2_208_988_800), 0);
}
