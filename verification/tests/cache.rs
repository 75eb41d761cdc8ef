use ntp_responder::cache::{local_now, SharedTimeCache, TimeCache};
use ntp_responder::calendar::CalendarTime;
use ntp_responder::packet::handle_client;
use ntp_responder::source::parse_date_header;

fn at(unix: i64) -> CalendarTime {
    CalendarTime::from_unix_seconds(unix).unwrap()
}

#[test]
fn local_clock_reads_a_time_after_the_epoch() {
    let first = local_now().unix_seconds();
    let second = local_now().unix_seconds();
    assert!(first > 0);
    assert!(second >= first);
    assert!(second - first <= 1);
}

#[test]
fn read_after_an_observation_is_the_observed_time() {
    let observed = at(1_704_067_200);
    let mut cache = TimeCache::new(observed);
    let seconds = cache.get_ntp_timestamp();
    assert!(seconds >= 3_913_056_000);
    assert!(seconds - 3_913_056_000 <= 1);
    cache.update(at(1_000_000_000));
    let seconds = cache.get_ntp_timestamp();
    assert!(seconds >= 3_208_988_800);
    assert!(seconds - 3_208_988_800 <= 1);
}

#[test]
fn repeated_reads_do_not_go_back() {
    let cache = TimeCache::new(at(1_704_067_200));
    let mut last = cache.get_ntp_timestamp();
    for _ in 0..1000 {
        let next = cache.get_ntp_timestamp();
        assert!(next >= last);
        last = next;
    }
    let offset = cache.offset();
    assert_eq!(cache.offset(), offset);
    assert_eq!(
        cache.ntp_timestamp_at(at(1_800_000_060)),
        cache.ntp_timestamp_at(at(1_800_000_000)) + 60
    );
}

#[test]
fn cache_holds_the_offset_of_its_last_observation() {
    let mut cache = TimeCache::new_at(at(10), at(2_208_988_800));
    assert_eq!(cache.offset(), 10);
    assert_eq!(cache.ntp_timestamp_at(at(5)), 15);
    cache.update_at(at(-2_208_988_800), at(3));
    assert_eq!(cache.offset(), -3);
    cache.update_at(at(100), at(40));
    assert_eq!(cache.offset(), 2_208_988_860);
    assert_eq!(cache.ntp_timestamp_at(at(41)), 2_208_988_901);
}

#[test]
fn new_cache_is_offset_by_the_local_clock() {
    let before = local_now().unix_seconds();
    let cache = TimeCache::new(at(1_704_067_200));
    let after = local_now().unix_seconds();
    assert!(cache.offset() <= 3_913_056_000 - before);
    assert!(cache.offset() >= 3_913_056_000 - after);
}

#[test]
fn clones_share_one_offset() {
    let shared = SharedTimeCache::new(TimeCache::new_at(at(10), at(2_208_988_800)));
    let other = shared.clone();
    assert_eq!(other.load().offset(), 10);
    let mut cache = shared.load();
    cache.update_at(at(100), at(40));
    assert_eq!(other.load().offset(), 10);
    shared.store(cache);
    assert_eq!(other.load().offset(), 2_208_988_860);
    assert_eq!(other.load().ntp_timestamp_at(at(41)), 2_208_988_901);
    assert_eq!(shared.load().offset(), 2_208_988_860);
}

#[test]
fn startup_date_then_request_one_second_later() {
    let startup = parse_date_header("Mon, 01 Jan 2024 00:00:00 GMT").unwrap();
    let local_at_startup = at(1_699_999_000);
    let cache = TimeCache::new_at(startup, local_at_startup);
    assert_eq!(cache.offset(), 3_913_056_000 - 1_699_999_000);
    let one_second_later = at(1_699_999_001);
    let seconds = cache.ntp_timestamp_at(one_second_later);
    assert_eq!(seconds, 3_913_056_001);
    let request = [0u8; 48];
    let reply = ntp_responder::packet::handle_datagram(&request, seconds).unwrap();
    assert_eq!(&reply[40..44], &3_913_056_001u32.to_be_bytes());
    assert_eq!(&reply[44..48], &[0u8; 4]);
    assert_eq!(&reply[24..32], &[0u8; 8]);
}

#[test]
fn client_is_served_from_the_cache() {
    let cache = TimeCache::new(at(1_704_067_200));
    let mut request = [0u8; 48];
    request[40..48].copy_from_slice(&[9, 8, 7, 6, 5, 4, 3, 2]);
    let reply = handle_client(&request, &cache).unwrap();
    assert_eq!(reply[0], 0x24);
    assert_eq!(&reply[24..32], &[9, 8, 7, 6, 5, 4, 3, 2]);
    let seconds = u32::from_be_bytes([reply[40], reply[41], reply[42], reply[43]]);
    assert!(seconds == 3_913_056_000 || seconds == 3_913_056_001);
    assert_eq!(&reply[16..20], &reply[40..44]);
    assert_eq!(&reply[32..36], &reply[40..44]);
    assert_eq!(handle_client(&request[..47], &cache), None);
}

#[test]
fn many_clients_share_the_cache() {
    let shared = SharedTimeCache::new(TimeCache::new(at(1_704_067_200)));
    for i in 0..100u8 {
        let handle = shared.clone();
        let mut request = [i; 48];
        request[47] = 255 - i;
        let reply = handle_client(&request, &handle.load()).unwrap();
        assert_eq!(reply.len(), 48);
        assert_eq!(&reply[24..31], &[i; 7]);
        assert_eq!(reply[31], 255 - i);
    }
}
