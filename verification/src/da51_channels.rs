//! The DA51 channel registry: every app, agent, service, plugin and timer
//! gets a channel of its own.
//!
//! Each channel has a name, a DA51 address (`0xda51` and the hex of the
//! first eight bytes of the SHA-256 of the name), orbifold coordinates (the
//! first eight digest bytes read as a little-endian integer, taken mod 71,
//! mod 59 and mod 47), a Bott periodicity index in `0..8`, a Hecke prime from
//! the first 71 primes, and a private topic derived from a shared secret.

use crate::bytes::utf8;
use crate::digest::{
    hex_digit_value, hex_encode, hex_lower, lemma_hex_lower_spells_bytes, sha256, sha256_digest,
};
use crate::private_channel::{private_topic, private_topic_spec};
use vstd::prelude::*;

verus! {

/// The DA51 tag, `0xDA51`.
pub const DASL_TAG: u64 = 55889;

/// The kind of entity a channel belongs to.
#[derive(Debug, Clone, Copy, PartialEq, Eq, Structural)]
pub enum ChannelKind {
    App,
    Agent,
    Service,
    Plugin,
    Timer,
}

/// A channel of the registry.
#[derive(Debug)]
pub struct DA51Channel {
    pub name: String,
    pub kind: ChannelKind,
    pub dasl: String,
    pub orbifold: (u8, u8, u8),
    pub bott: u8,
    pub hecke_prime: u64,
    pub topic_id: [u8; 32],
}

/// The first 71 primes, from which each channel takes its Hecke prime.
pub const PRIMES_71: [u64; 71] = [
    2, 3, 5, 7, 11, 13, 17, 19, 23, 29, 31, 37, 41, 43, 47, 53, 59, 61, 67, 71,
    73, 79, 83, 89, 97, 101, 103, 107, 109, 113, 127, 131, 137, 139, 149, 151,
    157, 163, 167, 173, 179, 181, 191, 193, 197, 199, 211, 223, 227, 229, 233,
    239, 241, 251, 257, 263, 269, 271, 277, 281, 283, 293, 307, 311, 313, 317,
    331, 337, 347, 349, 353,
];

/// The prefix of every DA51 address.
pub const DASL_PREFIX: &'static str = "0xda51";

/// The first eight bytes of `b` read as a little-endian unsigned integer.
pub open spec fn le_u64(b: Seq<u8>) -> nat {
    (b[0] + 0x100 * b[1] + 0x1_0000 * b[2] + 0x100_0000 * b[3] + 0x1_0000_0000 * b[4]
        + 0x100_0000_0000 * b[5] + 0x1_0000_0000_0000 * b[6] + 0x100_0000_0000_0000 * b[7]) as nat
}

/// The channel that `DA51Channel::new` makes for `name`, `kind` and `secret`:
/// every field as a function of the SHA-256 of the name (and, for the topic,
/// of the secret).
pub open spec fn is_channel_of(
    c: DA51Channel,
    name: Seq<char>,
    kind: ChannelKind,
    secret: Seq<char>,
) -> bool {
    let hash = sha256_digest(utf8(name));
    let v = le_u64(hash);
    &&& c.name@ == name
    &&& c.kind == kind
    &&& c.dasl@ == DASL_PREFIX@ + hex_lower(hash.subrange(0, 8))
    &&& c.orbifold.0 == v % 71
    &&& c.orbifold.1 == v % 59
    &&& c.orbifold.2 == v % 47
    &&& c.bott == hash[2] % 8
    &&& c.hecke_prime == PRIMES_71@[(v % 71) as int]
    &&& c.topic_id@ == private_topic_spec(secret, name)
}

/// The shape every channel has: coordinates below 71, 59 and 47, a Bott
/// index below 8, the Hecke prime at the first coordinate of the prime table,
/// and a 22-character address starting with `0xda51`.
pub open spec fn has_channel_shape(c: DA51Channel) -> bool {
    &&& c.orbifold.0 < 71
    &&& c.orbifold.1 < 59
    &&& c.orbifold.2 < 47
    &&& c.bott < 8
    &&& c.hecke_prime == PRIMES_71@[c.orbifold.0 as int]
    &&& PRIMES_71@.contains(c.hecke_prime)
    &&& c.dasl@.len() == 22
    &&& c.dasl@.subrange(0, 6) == DASL_PREFIX@
}

impl Clone for DA51Channel {
    fn clone(&self) -> (c: Self)
        ensures
            c == *self,
    {
        DA51Channel {
            name: self.name.clone(),
            kind: self.kind,
            dasl: self.dasl.clone(),
            orbifold: self.orbifold,
            bott: self.bott,
            hecke_prime: self.hecke_prime,
            topic_id: self.topic_id,
        }
    }
}

impl DA51Channel {
    /// Makes the channel of entity `name`, with its private topic derived
    /// from `secret`.
    pub fn new(name: &str, kind: ChannelKind, secret: &str) -> (c: Self)
        ensures
            is_channel_of(c, name@, kind, secret@),
            has_channel_shape(c),
    {
        let hash = sha256(name.as_bytes());
        let v: u64 = hash[0] as u64 + 0x100 * (hash[1] as u64) + 0x1_0000 * (hash[2] as u64)
            + 0x100_0000 * (hash[3] as u64) + 0x1_0000_0000 * (hash[4] as u64) + 0x100_0000_0000
            * (hash[5] as u64) + 0x1_0000_0000_0000 * (hash[6] as u64) + 0x100_0000_0000_0000
            * (hash[7] as u64);
        let orbifold: (u8, u8, u8) = ((v % 71) as u8, (v % 59) as u8, (v % 47) as u8);
        let bott: u8 = hash[2] % 8;
        let idx: usize = (v % 71) as usize;
        let hecke_prime: u64 = PRIMES_71[idx];
        let encoded = hex_encode(&hash[0..8]);
        let dasl = DASL_PREFIX.to_owned().concat(encoded.as_str());
        let topic_id = private_topic(secret, name);
        proof {
            reveal_strlit("0xda51");
            assert(PRIMES_71@[idx as int] == hecke_prime);
            assert(dasl@.subrange(0, 6) =~= DASL_PREFIX@);
        }
        DA51Channel { name: name.to_owned(), kind, dasl, orbifold, bott, hecke_prime, topic_id }
    }
}

/// The apps of the registry.
pub const APP_NAMES: [&'static str; 4] = [
    "solfunmeme-dioxus", "solfunmeme-service", "kant-pastebin", "erdfa-publish",
];

/// The agents of the registry.
pub const AGENT_NAMES: [&'static str; 6] = [
    "kagenti-daemon", "kagenti-portal", "jocko-training", "moltis", "fractran-generator",
    "git-events-consumer",
];

/// The services of the registry.
pub const SERVICE_NAMES: [&'static str; 11] = [
    "prometheus", "jaeger", "rabbitmq", "forgejo", "zos-noc-manager", "zos-minimal-server",
    "leech-lattice-24", "otp-bbs-bridge", "solfunmeme-mesh-sync", "rust-compiler-zkp", "zkperf",
];

/// The plugins of the registry; each channel is named with [`PLUGIN_PREFIX`]
/// in front.
pub const PLUGIN_NAMES: [&'static str; 41] = [
    "monster", "mcp", "rust-parser", "orbits", "charts", "bert", "ooda-noc", "podping",
    "monster-manifold", "snm-atlas", "system-discovery", "harbor", "omnisearch", "a11y-gui",
    "github-manager", "noc-manager", "plugin-registry", "bm25", "eliza-rs", "emoji-lang",
    "extractous", "git", "gline-rs", "json-ld", "keyword-extraction", "layered-nlp",
    "llms-from-scratch", "model2vec", "nlprule", "quickwit", "rhai", "rust-sbert",
    "rust-sentence-transformers", "s3", "solana-airdrop", "steel", "tongrams", "vaporetto",
    "vibrato", "vtext", "zip-export",
];

/// The timers of the registry; each channel is named with [`TIMER_SUFFIX`]
/// behind.
pub const TIMER_NAMES: [&'static str; 7] = [
    "kagenti-solfunmeme-test", "kagenti-solfunmeme-zkperf", "kagenti-solfunmeme-roundrobin",
    "jocko-training", "solfunmeme-mesh-sync", "solfunmeme-crawl", "solfunmeme-prove",
];

/// What stands before a plugin's name in its channel name.
pub const PLUGIN_PREFIX: &'static str = "zos-plugin-";

/// What stands after a timer's name in its channel name.
pub const TIMER_SUFFIX: &'static str = ".timer";

/// The channel names and kinds of a group of entities: each name with
/// `prefix` before it and `suffix` after it.
pub open spec fn group_entries(
    names: Seq<&str>,
    prefix: Seq<char>,
    suffix: Seq<char>,
    kind: ChannelKind,
) -> Seq<(Seq<char>, ChannelKind)> {
    Seq::new(names.len(), |i: int| (prefix + names[i]@ + suffix, kind))
}

/// The channel names and kinds of the whole registry, in order: apps,
/// agents, services, plugins, timers.
pub open spec fn registry_entries() -> Seq<(Seq<char>, ChannelKind)> {
    group_entries(APP_NAMES@, seq![], seq![], ChannelKind::App)
        + group_entries(AGENT_NAMES@, seq![], seq![], ChannelKind::Agent)
        + group_entries(SERVICE_NAMES@, seq![], seq![], ChannelKind::Service)
        + group_entries(PLUGIN_NAMES@, PLUGIN_PREFIX@, seq![], ChannelKind::Plugin)
        + group_entries(TIMER_NAMES@, seq![], TIMER_SUFFIX@, ChannelKind::Timer)
}

/// Appends to `channels` the channel of each of `names`, named with
/// `prefix` before and `suffix` after.
fn push_group(
    channels: &mut Vec<DA51Channel>,
    names: &[&str],
    prefix: &str,
    suffix: &str,
    kind: ChannelKind,
    secret: &str,
)
    ensures
        final(channels)@ == old(channels)@ + Seq::new(
            names@.len(),
            |i: int| final(channels)@[old(channels)@.len() + i],
        ),
        final(channels)@.len() == old(channels)@.len() + names@.len(),
        forall|i: int|
            0 <= i < names@.len() ==> is_channel_of(
                #[trigger] final(channels)@[old(channels)@.len() + i],
                prefix@ + names@[i]@ + suffix@,
                kind,
                secret@,
            ),
        forall|i: int|
            0 <= i < names@.len() ==> has_channel_shape(
                #[trigger] final(channels)@[old(channels)@.len() + i],
            ),
{
    let ghost start = channels@;
    let n = names.len();
    let mut i: usize = 0;
    while i < n
        invariant
            n == names@.len(),
            i <= n,
            channels@.len() == start.len() + i,
            forall|j: int| 0 <= j < start.len() ==> channels@[j] == start[j],
            forall|j: int|
                0 <= j < i ==> is_channel_of(
                    #[trigger] channels@[start.len() + j],
                    prefix@ + names@[j]@ + suffix@,
                    kind,
                    secret@,
                ),
            forall|j: int| 0 <= j < i ==> has_channel_shape(#[trigger] channels@[start.len() + j]),
        decreases n - i,
    {
        let full = prefix.to_owned().concat(names[i]).concat(suffix);
        channels.push(DA51Channel::new(full.as_str(), kind, secret));
        i = i + 1;
    }
    assert(channels@ =~= start + Seq::new(n as nat, |j: int| channels@[start.len() + j]));
}

/// The channels of all known entities, with their private topics derived
/// from `secret`: 4 apps, 6 agents, 11 services, 41 plugins and 7 timers.
pub fn registry(secret: &str) -> (channels: Vec<DA51Channel>)
    ensures
        channels@.len() == 69,
        channels@.len() == registry_entries().len(),
        forall|i: int|
            0 <= i < channels@.len() ==> is_channel_of(
                #[trigger] channels@[i],
                registry_entries()[i].0,
                registry_entries()[i].1,
                secret@,
            ),
        forall|i: int| 0 <= i < channels@.len() ==> has_channel_shape(#[trigger] channels@[i]),
{
    let mut channels: Vec<DA51Channel> = Vec::new();
    push_group(&mut channels, &APP_NAMES, "", "", ChannelKind::App, secret);
    push_group(&mut channels, &AGENT_NAMES, "", "", ChannelKind::Agent, secret);
    push_group(&mut channels, &SERVICE_NAMES, "", "", ChannelKind::Service, secret);
    push_group(&mut channels, &PLUGIN_NAMES, PLUGIN_PREFIX, "", ChannelKind::Plugin, secret);
    push_group(&mut channels, &TIMER_NAMES, "", TIMER_SUFFIX, ChannelKind::Timer, secret);
    proof {
        reveal_strlit("");
        let e = registry_entries();
        assert(e.len() == 69);
        assert forall|i: int| 0 <= i < channels@.len() implies has_channel_shape(
            #[trigger] channels@[i],
        ) by {
            if i < 4 {
            } else if i < 10 {
            } else if i < 21 {
            } else if i < 62 {
            } else {
            }
        }
        assert forall|i: int| 0 <= i < channels@.len() implies is_channel_of(
            #[trigger] channels@[i],
            e[i].0,
            e[i].1,
            secret@,
        ) by {
            if i < 4 {
                assert(seq![] + APP_NAMES@[i]@ + seq![] =~= ""@ + APP_NAMES@[i]@ + ""@);
            } else if i < 10 {
                assert(seq![] + AGENT_NAMES@[i - 4]@ + seq![] =~= ""@ + AGENT_NAMES@[i - 4]@ + ""@);
            } else if i < 21 {
                assert(seq![] + SERVICE_NAMES@[i - 10]@ + seq![] =~= ""@ + SERVICE_NAMES@[i - 10]@ + ""@);
            } else if i < 62 {
                assert(PLUGIN_PREFIX@ + PLUGIN_NAMES@[i - 21]@ + seq![] =~= PLUGIN_PREFIX@ + PLUGIN_NAMES@[i - 21]@ + ""@);
            } else {
                assert(seq![] + TIMER_NAMES@[i - 62]@ + TIMER_SUFFIX@ =~= ""@ + TIMER_NAMES@[i - 62]@ + TIMER_SUFFIX@);
            }
        }
    }
    channels
}

/// A channel's address, orbifold coordinates, Bott index and Hecke prime
/// depend on its name alone: neither its kind nor the secret changes them.
pub proof fn lemma_address_depends_on_name_only(
    c1: DA51Channel,
    c2: DA51Channel,
    name: Seq<char>,
    kind1: ChannelKind,
    kind2: ChannelKind,
    secret1: Seq<char>,
    secret2: Seq<char>,
)
    requires
        is_channel_of(c1, name, kind1, secret1),
        is_channel_of(c2, name, kind2, secret2),
    ensures
        c1.dasl@ == c2.dasl@,
        c1.orbifold == c2.orbifold,
        c1.bott == c2.bott,
        c1.hecke_prime == c2.hecke_prime,
{
}

/// How a channel comes from its name and the secret, with `h` the SHA-256
/// digest of the name's bytes and `v` its first eight bytes read
/// little-endian: the name and kind are kept; the Bott index is `h[2] mod
/// 8`; the orbifold coordinates are `v` mod 71, 59 and 47; the Hecke prime
/// is the prime at the first coordinate; the address is `0xda51` followed by
/// two hex digits for each of `h[0..8]`, spelling those bytes; and the topic
/// is the SHA-256 of the versioned prefix, the secret, a colon and the name.
pub proof fn lemma_channel_derivation(
    c: DA51Channel,
    name: Seq<char>,
    kind: ChannelKind,
    secret: Seq<char>,
)
    requires
        is_channel_of(c, name, kind, secret),
        sha256_digest(utf8(name)).len() == 32,
    ensures
        ({
            let h = sha256_digest(utf8(name));
            let v = h[0] as int + 256 * h[1] + 65536 * h[2] + 16777216 * h[3] + 4294967296 * h[4]
                + 1099511627776 * h[5] + 281474976710656 * h[6] + 72057594037927936 * h[7];
            &&& c.name@ == name
            &&& c.kind == kind
            &&& c.bott as int == h[2] as int % 8
            &&& c.orbifold.0 as int == v % 71
            &&& c.orbifold.1 as int == v % 59
            &&& c.orbifold.2 as int == v % 47
            &&& c.hecke_prime == PRIMES_71@[c.orbifold.0 as int]
            &&& c.dasl@.len() == 22
            &&& c.dasl@.subrange(0, 6) == "0xda51"@
            &&& forall|k: int|
                0 <= k < 8 ==> hex_digit_value(#[trigger] c.dasl@[6 + 2 * k]) * 16
                    + hex_digit_value(c.dasl@[7 + 2 * k]) == h[k]
            &&& c.topic_id@ == sha256_digest(
                utf8("solfunmeme-private-v1:"@) + utf8(secret) + utf8(":"@) + utf8(name),
            )
        }),
{
    let h = sha256_digest(utf8(name));
    let head = h.subrange(0, 8);
    lemma_hex_lower_spells_bytes(head);
    reveal_strlit("0xda51");
    assert(c.dasl@ =~= DASL_PREFIX@ + hex_lower(head));
    assert(c.dasl@.subrange(0, 6) =~= "0xda51"@);
    assert forall|k: int| 0 <= k < 8 implies hex_digit_value(#[trigger] c.dasl@[6 + 2 * k]) * 16
        + hex_digit_value(c.dasl@[7 + 2 * k]) == h[k] by {
        assert(c.dasl@[6 + 2 * k] == hex_lower(head)[2 * k]);
        assert(c.dasl@[7 + 2 * k] == hex_lower(head)[2 * k + 1]);
        assert(head[k] == h[k]);
    }
}

} // verus!
