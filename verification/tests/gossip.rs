use podping::gossip::{topic_id, PodpingMessage, TOPIC_GIT};

#[test]
fn topic_id_is_sha256_of_name() {
    let id = topic_id("abc");
    let hex: String = id.iter().map(|b| format!("{:02x}", b)).collect();
    assert_eq!(hex, "ba7816bf8f01cfea414140de5dae2223b00361a396177a9cb410ff61f20015ad");
}

#[test]
fn message_at_time_signature() {
    let m = PodpingMessage::at_time(TOPIC_GIT, "https://example.org/feed", "update", 1700000000);
    assert_eq!(m.topic, "solfunmeme/git-updates/v1");
    assert_eq!(m.url, "https://example.org/feed");
    assert_eq!(m.reason, "update");
    assert_eq!(m.timestamp, 1700000000);
    assert_eq!(m.signature, "0a826cd4879a81c99901d40b402d8cbaec68f8cc7875ae0f31b3e3f4050ec9e7");
    assert_eq!(m.node_id, "");
}

#[test]
fn message_at_time_zero() {
    let m = PodpingMessage::at_time("a", "b", "c", 0);
    assert_eq!(m.signature, "6e4685b95a61d2e8b39af0ab37ac2c93cfb3e154f439023743007ae0917bad8a");
}

#[test]
fn message_new_is_signed_at_its_timestamp() {
    let m = PodpingMessage::new(TOPIC_GIT, "https://example.org/feed", "update")
        .expect("the system clock reads after the Unix epoch");
    assert!(m.timestamp > 1_600_000_000);
    let again = PodpingMessage::at_time(TOPIC_GIT, "https://example.org/feed", "update", m.timestamp);
    assert_eq!(m.signature, again.signature);
    assert_eq!(m.signature.len(), 64);
    assert!(m.node_id.is_empty());
}

#[test]
fn message_from_clock() {
    let m = PodpingMessage::from_clock("a", "b", "c", Some(0)).expect("a reading gives a message");
    assert_eq!(m.timestamp, 0);
    assert_eq!(m.signature, "6e4685b95a61d2e8b39af0ab37ac2c93cfb3e154f439023743007ae0917bad8a");
    assert!(PodpingMessage::from_clock("a", "b", "c", None).is_none());
}
