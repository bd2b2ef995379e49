use podping::da51_channels::{registry, ChannelKind, DA51Channel, DASL_TAG, PRIMES_71};
use podping::private_channel::private_topic;
use std::collections::HashSet;

#[test]
fn registry_has_all_entities() {
    let r = registry("monster:gyroscope");
    assert!(r.len() > 60, "got {}", r.len());
}

#[test]
fn all_dasl_unique() {
    let r = registry("monster:gyroscope");
    let dasls: HashSet<String> = r.iter().map(|c| c.dasl.clone()).collect();
    assert_eq!(dasls.len(), r.len());
}

#[test]
fn all_topics_unique() {
    let r = registry("monster:gyroscope");
    let topics: HashSet<[u8; 32]> = r.iter().map(|c| c.topic_id).collect();
    assert_eq!(topics.len(), r.len());
}

#[test]
fn dasl_format() {
    let ch = DA51Channel::new("test", ChannelKind::App, "secret");
    assert!(ch.dasl.starts_with("0xda51"));
    assert!(ch.orbifold.0 < 71);
    assert!(ch.orbifold.1 < 59);
    assert!(ch.orbifold.2 < 47);
    assert!(ch.bott < 8);
}

#[test]
fn channel_fields_of_test() {
    let ch = DA51Channel::new("test", ChannelKind::Agent, "secret");
    assert_eq!(ch.name, "test");
    assert_eq!(ch.kind, ChannelKind::Agent);
    assert_eq!(ch.dasl, "0xda519f86d081884c7d65");
    assert_eq!(ch.orbifold, (11, 17, 14));
    assert_eq!(ch.bott, 0);
    assert_eq!(ch.hecke_prime, 37);
    assert_eq!(ch.hecke_prime, PRIMES_71[ch.orbifold.0 as usize]);
    assert_eq!(
        ch.topic_id,
        [
            30, 11, 61, 101, 11, 77, 114, 64, 47, 55, 211, 57, 77, 47, 103, 130, 208, 124, 28,
            111, 226, 32, 51, 169, 115, 201, 121, 12, 36, 43, 103, 43
        ]
    );
    assert_eq!(ch.topic_id, private_topic("secret", "test"));
}

#[test]
fn dasl_is_22_lowercase_hex_chars() {
    for ch in registry("s") {
        assert_eq!(ch.dasl.len(), 22);
        assert!(ch.dasl[6..].chars().all(|c| c.is_ascii_digit() || ('a'..='f').contains(&c)));
    }
}

#[test]
fn registry_groups_in_order() {
    let r = registry("monster:gyroscope");
    assert_eq!(r.len(), 69);
    let kinds: Vec<ChannelKind> = r.iter().map(|c| c.kind).collect();
    assert!(kinds[..4].iter().all(|k| *k == ChannelKind::App));
    assert!(kinds[4..10].iter().all(|k| *k == ChannelKind::Agent));
    assert!(kinds[10..21].iter().all(|k| *k == ChannelKind::Service));
    assert!(kinds[21..62].iter().all(|k| *k == ChannelKind::Plugin));
    assert!(kinds[62..].iter().all(|k| *k == ChannelKind::Timer));
    assert_eq!(r[0].name, "solfunmeme-dioxus");
    assert_eq!(r[21].name, "zos-plugin-monster");
    assert_eq!(r[61].name, "zos-plugin-zip-export");
    assert_eq!(r[62].name, "kagenti-solfunmeme-test.timer");
    assert_eq!(r[68].name, "solfunmeme-prove.timer");
}

#[test]
fn registry_names_distinct() {
    let r = registry("x");
    let names: HashSet<String> = r.iter().map(|c| c.name.clone()).collect();
    assert_eq!(names.len(), r.len());
}

#[test]
fn registry_channels_match_new() {
    let r = registry("k");
    for c in &r {
        let d = DA51Channel::new(&c.name, c.kind, "k");
        assert_eq!(c.dasl, d.dasl);
        assert_eq!(c.topic_id, d.topic_id);
        assert_eq!(c.topic_id, private_topic("k", &c.name));
        assert_eq!(c.hecke_prime, d.hecke_prime);
    }
}

#[test]
fn registry_topics_depend_on_secret() {
    let a = registry("one");
    let b = registry("two");
    for (x, y) in a.iter().zip(b.iter()) {
        assert_eq!(x.dasl, y.dasl);
        assert_ne!(x.topic_id, y.topic_id);
    }
}

#[test]
fn dasl_tag_is_da51() {
    assert_eq!(DASL_TAG, 0xDA51);
}

#[test]
fn registry_channel_shapes() {
    for c in registry("monster:gyroscope") {
        assert!(c.orbifold.0 < 71 && c.orbifold.1 < 59 && c.orbifold.2 < 47);
        assert!(c.bott < 8);
        assert_eq!(c.hecke_prime, PRIMES_71[c.orbifold.0 as usize]);
        assert_eq!(c.dasl.len(), 22);
        assert!(c.dasl.starts_with("0xda51"));
    }
}
