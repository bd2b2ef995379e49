use podping::private_channel::{all_topics, private_topic, CHANNELS};
use std::collections::HashSet;

#[test]
fn same_secret_same_topic() {
    let a = private_topic("monster:gyroscope", "git-updates");
    let b = private_topic("monster:gyroscope", "git-updates");
    assert_eq!(a, b);
}

#[test]
fn different_secret_different_topic() {
    let a = private_topic("monster:gyroscope", "git-updates");
    let b = private_topic("wrong-secret", "git-updates");
    assert_ne!(a, b);
}

#[test]
fn different_channel_different_topic() {
    let a = private_topic("monster:gyroscope", "git-updates");
    let b = private_topic("monster:gyroscope", "witnesses");
    assert_ne!(a, b);
}

#[test]
fn all_channels_unique() {
    let topics = all_topics("monster:gyroscope");
    assert_eq!(topics.len(), CHANNELS.len());
    let ids: HashSet<[u8; 32]> = topics.iter().map(|(_, id)| *id).collect();
    assert_eq!(ids.len(), CHANNELS.len());
}

#[test]
fn private_topic_known_value() {
    let id = private_topic("monster:gyroscope", "git-updates");
    let hex: String = id.iter().map(|b| format!("{:02x}", b)).collect();
    assert_eq!(hex, "6da0de9acf12bf49dc8577aa06341313b00f6305e5fb8bbe6e1875ee523a65c5");
}

#[test]
fn all_topics_in_channel_order() {
    let topics = all_topics("s");
    for (i, (name, id)) in topics.iter().enumerate() {
        assert_eq!(*name, CHANNELS[i]);
        assert_eq!(*id, private_topic("s", CHANNELS[i]));
    }
    assert_eq!(topics[0].0, "git-updates");
    assert_eq!(topics[5].0, "dao-votes");
}
