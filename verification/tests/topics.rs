use vda5050_sim::topics::{subscription_topics, topic_kind, vda_base_topic, TopicKind};
use vda5050_sim::utils::{
    clock_since_unix_epoch, get_timestamp, get_topic_type, str_equal, timestamp_at, timestamp_in_hundredths,
    unix_seconds_now,
};

#[test]
fn topic_type_is_last_segment() {
    assert_eq!(get_topic_type("uagv/v2/KIT/0001/order"), "order");
    assert_eq!(get_topic_type("uagv/v2/KIT/0001/instantActions"), "instantActions");
}

#[test]
fn topic_type_without_slash_is_whole_topic() {
    assert_eq!(get_topic_type("order"), "order");
    assert_eq!(get_topic_type(""), "");
}

#[test]
fn topic_type_after_trailing_slash_is_empty() {
    assert_eq!(get_topic_type("uagv/v2/"), "");
    assert_eq!(get_topic_type("/state"), "state");
}

#[test]
fn topic_kinds() {
    assert_eq!(topic_kind("uagv/v2/KIT/0001/order"), TopicKind::Order);
    assert_eq!(topic_kind("uagv/v2/KIT/0001/instantActions"), TopicKind::InstantActions);
    assert_eq!(topic_kind("uagv/v2/KIT/0001/state"), TopicKind::Other);
    assert_eq!(topic_kind("uagv/v2/KIT/0001/orders"), TopicKind::Other);
    assert_eq!(topic_kind("order"), TopicKind::Order);
}

#[test]
fn base_topic_joins_with_slashes() {
    assert_eq!(vda_base_topic("uagv", "v2", "KIT", "0001"), "uagv/v2/KIT/0001");
}

#[test]
fn subscriptions_are_order_and_instant_actions() {
    let topics = subscription_topics("uagv/v2/KIT/0001");
    assert_eq!(topics, vec!["uagv/v2/KIT/0001/order".to_string(), "uagv/v2/KIT/0001/instantActions".to_string()]);
    assert_eq!(topic_kind(&topics[0]), TopicKind::Order);
    assert_eq!(topic_kind(&topics[1]), TopicKind::InstantActions);
}

#[test]
fn string_equality() {
    assert!(str_equal("abc", "abc"));
    assert!(!str_equal("abc", "abd"));
    assert!(!str_equal("abc", "ab"));
    assert!(str_equal("", ""));
}

#[test]
fn timestamps_carry_hundredths() {
    assert_eq!(timestamp_in_hundredths("2017-04-15T11:40:03.123Z"), "2017-04-15T11:40:03.12Z");
    assert_eq!(timestamp_in_hundredths("Z"), "Z");
    assert_eq!(timestamp_in_hundredths(""), "");
    let now = get_timestamp().unwrap();
    assert_eq!(now.len(), 23);
    assert_eq!(&now[10..11], "T");
    assert_eq!(&now[19..20], ".");
    assert!(now.ends_with('Z'));
}

#[test]
fn timestamps_at_given_times() {
    assert_eq!(timestamp_at(1431648000, 0).unwrap(), "2015-05-15T00:00:00.00Z");
    assert_eq!(timestamp_at(1492256403, 129_000_000).unwrap(), "2017-04-15T11:40:03.12Z");
    assert_eq!(timestamp_at(0, 999_999_999).unwrap(), "1970-01-01T00:00:00.99Z");
    assert_eq!(timestamp_at(253402300799, 0).unwrap(), "9999-12-31T23:59:59.00Z");
    assert!(timestamp_at(u64::MAX, 0).is_none());
    assert!(timestamp_at(9_000_000_000_000_000_000, 0).is_none());
}

#[test]
fn timestamps_follow_clock_order() {
    let a = timestamp_at(1492256403, 120_000_000).unwrap();
    let b = timestamp_at(1492256403, 129_000_000).unwrap();
    let c = timestamp_at(1492256404, 0).unwrap();
    assert!(a <= b && b < c);
}

#[test]
fn clock_reads_after_the_epoch() {
    let (secs, nanos) = clock_since_unix_epoch().unwrap();
    assert!(secs > 1_600_000_000);
    assert!(nanos < 1_000_000_000);
    assert!(unix_seconds_now().unwrap() >= secs as i64);
}
