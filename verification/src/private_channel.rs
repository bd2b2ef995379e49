//! Private gossip channels: a topic is the SHA-256 of a fixed prefix, the
//! shared secret, a colon and the channel name, so only nodes that know the
//! secret can compute it.

use crate::bytes::{append_bytes, lemma_utf8_injective, utf8};
use crate::digest::{sha256, sha256_digest};
use vstd::prelude::*;

verus! {

/// The domain-separation prefix of every private topic preimage.
pub const PRIVATE_TOPIC_PREFIX: &'static str = "solfunmeme-private-v1:";

/// The pre-defined private channels (the secret is needed to join them).
pub const CHANNELS: [&'static str; 6] = ["git-updates", "witnesses", "ooda", "jocko", "mesh-sync", "dao-votes"];

/// The bytes hashed into the private topic of `channel` under `secret`.
pub open spec fn private_preimage(secret: Seq<char>, channel: Seq<char>) -> Seq<u8> {
    utf8(PRIVATE_TOPIC_PREFIX@) + utf8(secret) + utf8(":"@) + utf8(channel)
}

/// The private topic ID of `channel` under `secret`.
pub open spec fn private_topic_spec(secret: Seq<char>, channel: Seq<char>) -> Seq<u8> {
    sha256_digest(private_preimage(secret, channel))
}

/// Derives the private topic ID of `channel` from the shared `secret`.
pub fn private_topic(secret: &str, channel: &str) -> (id: [u8; 32])
    ensures
        id@ == private_topic_spec(secret@, channel@),
{
    let mut preimage: Vec<u8> = Vec::new();
    append_bytes(&mut preimage, PRIVATE_TOPIC_PREFIX.as_bytes());
    append_bytes(&mut preimage, secret.as_bytes());
    append_bytes(&mut preimage, ":".as_bytes());
    append_bytes(&mut preimage, channel.as_bytes());
    sha256(preimage.as_slice())
}

/// The topic IDs of all pre-defined channels under `secret`, in the order of
/// [`CHANNELS`].
pub fn all_topics(secret: &str) -> (topics: Vec<(&'static str, [u8; 32])>)
    ensures
        topics@.len() == CHANNELS@.len(),
        forall|i: int|
            0 <= i < CHANNELS@.len() ==> {
                &&& #[trigger] topics@[i].0 == CHANNELS@[i]
                &&& topics@[i].1@ == private_topic_spec(secret@, CHANNELS@[i]@)
            },
{
    let mut topics: Vec<(&'static str, [u8; 32])> = Vec::new();
    let n: usize = CHANNELS.len();
    let mut i: usize = 0;
    while i < n
        invariant
            n == CHANNELS@.len(),
            i <= n,
            topics@.len() == i,
            forall|j: int|
                0 <= j < i ==> {
                    &&& #[trigger] topics@[j].0 == CHANNELS@[j]
                    &&& topics@[j].1@ == private_topic_spec(secret@, CHANNELS@[j]@)
                },
        decreases CHANNELS@.len() - i,
    {
        let channel: &'static str = CHANNELS[i];
        topics.push((channel, private_topic(secret, channel)));
        i = i + 1;
    }
    topics
}

/// Under one channel name, two different secrets give two different
/// preimages: the topic of a channel is bound to the exact secret.
pub proof fn lemma_distinct_secrets_distinct_preimages(
    secret1: Seq<char>,
    secret2: Seq<char>,
    channel: Seq<char>,
)
    requires
        secret1 != secret2,
    ensures
        private_preimage(secret1, channel) != private_preimage(secret2, channel),
{
    let p = utf8(PRIVATE_TOPIC_PREFIX@);
    let s1 = utf8(secret1);
    let s2 = utf8(secret2);
    let tail = utf8(":"@) + utf8(channel);
    lemma_utf8_injective(secret1, secret2);
    if private_preimage(secret1, channel) == private_preimage(secret2, channel) {
        let x = private_preimage(secret1, channel);
        assert(x =~= p + s1 + tail);
        assert(x =~= p + s2 + tail);
        assert(s1.len() == s2.len());
        assert(s1 =~= x.subrange(p.len() as int, (p.len() + s1.len()) as int));
        assert(s2 =~= x.subrange(p.len() as int, (p.len() + s2.len()) as int));
    }
}

/// Under one secret, two different channel names give two different
/// preimages: every channel has a topic of its own.
pub proof fn lemma_distinct_channels_distinct_preimages(
    secret: Seq<char>,
    channel1: Seq<char>,
    channel2: Seq<char>,
)
    requires
        channel1 != channel2,
    ensures
        private_preimage(secret, channel1) != private_preimage(secret, channel2),
{
    let head = utf8(PRIVATE_TOPIC_PREFIX@) + utf8(secret) + utf8(":"@);
    let c1 = utf8(channel1);
    let c2 = utf8(channel2);
    lemma_utf8_injective(channel1, channel2);
    if private_preimage(secret, channel1) == private_preimage(secret, channel2) {
        let x = private_preimage(secret, channel1);
        assert(x =~= head + c1);
        assert(x =~= head + c2);
        assert(c1 =~= x.subrange(head.len() as int, x.len() as int));
        assert(c2 =~= x.subrange(head.len() as int, x.len() as int));
    }
}

} // verus!
