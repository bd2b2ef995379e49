//! Podping messages: git update notifications carried over gossip.
//!
//! Public topics:
//!   `solfunmeme/git-updates/v1`: forge push events,
//!   `solfunmeme/witnesses/v1`: zkperf witnesses,
//!   `solfunmeme/ooda/v1`: OODA loop state,
//!   `solfunmeme/jocko/v1`: fuzz results.

use crate::bytes::{
    append_bytes, append_decimal, decimal, digits_value, lemma_decimal_spells_value, utf8,
};
use crate::digest::{
    hex_digit_value, hex_encode, hex_lower, lemma_hex_lower_spells_bytes, sha256, sha256_digest,
};
use vstd::prelude::*;

verus! {

pub const TOPIC_GIT: &'static str = "solfunmeme/git-updates/v1";

pub const TOPIC_WITNESS: &'static str = "solfunmeme/witnesses/v1";

pub const TOPIC_OODA: &'static str = "solfunmeme/ooda/v1";

pub const TOPIC_JOCKO: &'static str = "solfunmeme/jocko/v1";

/// A notification that something at `url` changed, published on `topic`.
#[derive(Debug, Clone)]
pub struct PodpingMessage {
    pub topic: String,
    pub url: String,
    pub reason: String,
    pub timestamp: u64,
    pub signature: String,
    pub node_id: String,
}

/// The bytes that a message's signature hashes: the topic, the URL and the
/// decimal timestamp, joined by colons.
pub open spec fn signature_preimage(topic: Seq<char>, url: Seq<char>, timestamp: u64) -> Seq<u8> {
    utf8(topic) + utf8(":"@) + utf8(url) + utf8(":"@) + decimal(timestamp as nat)
}

/// The message that [`PodpingMessage::at_time`] makes: the given fields, a
/// signature that is the lower-case hex of the SHA-256 of
/// [`signature_preimage`], and no node ID yet.
pub open spec fn is_message_of(
    m: PodpingMessage,
    topic: Seq<char>,
    url: Seq<char>,
    reason: Seq<char>,
    timestamp: u64,
) -> bool {
    &&& m.topic@ == topic
    &&& m.url@ == url
    &&& m.reason@ == reason
    &&& m.timestamp == timestamp
    &&& m.signature@ == hex_lower(sha256_digest(signature_preimage(topic, url, timestamp)))
    &&& m.node_id@ == Seq::<char>::empty()
}

/// The wall-clock time type of std, carried through opaquely.
#[verifier::external_type_specification]
#[verifier::external_body]
pub struct ExSystemTime(std::time::SystemTime);

/// Calls `std::time::SystemTime::now`, which reads the system clock. Nothing
/// is claimed of the value: it depends on the time of the call.
#[verifier::external_body]
fn system_time_now() -> (now: std::time::SystemTime) {
    std::time::SystemTime::now()
}

/// Calls `SystemTime::duration_since` with `UNIX_EPOCH`: the time elapsed
/// from the epoch to `t`, or `None` where `t` is before the epoch (std's
/// error, dropped). Nothing is claimed of which of the two comes back: it
/// depends on the clock reading carried by `t`.
#[verifier::external_body]
fn elapsed_since_epoch(t: &std::time::SystemTime) -> (elapsed: Option<core::time::Duration>) {
    t.duration_since(std::time::UNIX_EPOCH).ok()
}

/// Calls `Duration::as_secs`, the whole seconds of a duration. Nothing is
/// claimed of the value: the duration is opaque here.
#[verifier::external_body]
fn duration_secs(d: &core::time::Duration) -> (secs: u64) {
    d.as_secs()
}

impl PodpingMessage {
    /// A message stamped with the current time, in seconds since the Unix
    /// epoch; `None` where the system clock reads before the epoch, so that
    /// there is no such time to stamp.
    pub fn new(topic: &str, url: &str, reason: &str) -> (m: Option<Self>)
        ensures
            m matches Some(msg) ==> is_message_of(msg, topic@, url@, reason@, msg.timestamp)
                && msg.signature@.len() == 64,
    {
        let now = system_time_now();
        let secs = match elapsed_since_epoch(&now) {
            Some(elapsed) => Some(duration_secs(&elapsed)),
            None => None,
        };
        Self::from_clock(topic, url, reason, secs)
    }

    /// A message stamped with the clock reading `secs` (whole seconds since
    /// the Unix epoch), or `None` where there is no reading (a clock before
    /// the epoch).
    pub fn from_clock(topic: &str, url: &str, reason: &str, secs: Option<u64>) -> (m: Option<
        Self,
    >)
        ensures
            m is Some <==> secs is Some,
            m matches Some(msg) ==> is_message_of(msg, topic@, url@, reason@, secs.unwrap())
                && msg.signature@.len() == 64,
    {
        match secs {
            Some(timestamp) => Some(Self::at_time(topic, url, reason, timestamp)),
            None => None,
        }
    }

    /// A message stamped with `timestamp`, signed with the hex SHA-256 of
    /// `topic:url:timestamp`.
    pub fn at_time(topic: &str, url: &str, reason: &str, timestamp: u64) -> (m: Self)
        ensures
            is_message_of(m, topic@, url@, reason@, timestamp),
            m.signature@.len() == 64,
    {
        let mut preimage: Vec<u8> = Vec::new();
        append_bytes(&mut preimage, topic.as_bytes());
        append_bytes(&mut preimage, ":".as_bytes());
        append_bytes(&mut preimage, url.as_bytes());
        append_bytes(&mut preimage, ":".as_bytes());
        append_decimal(&mut preimage, timestamp);
        let digest = sha256(preimage.as_slice());
        PodpingMessage {
            topic: topic.to_owned(),
            url: url.to_owned(),
            reason: reason.to_owned(),
            timestamp,
            signature: hex_encode(&digest),
            node_id: String::new(),
        }
    }
}

/// The public topic ID of `name`: the SHA-256 of its bytes.
pub fn topic_id(name: &str) -> (id: [u8; 32])
    ensures
        id@ == sha256_digest(utf8(name@)),
{
    sha256(name.as_bytes())
}

/// A message keeps its topic, URL, reason and timestamp, has no node ID,
/// and is signed over exactly its topic, a colon, its URL, a colon and the
/// decimal digits of its own timestamp (digits that spell that timestamp):
/// its signature is the lower-case hex of the SHA-256 of those bytes, each
/// pair of hex digits spelling one digest byte.
pub proof fn lemma_signature_covers_exact_timestamp(
    m: PodpingMessage,
    topic: Seq<char>,
    url: Seq<char>,
    reason: Seq<char>,
    timestamp: u64,
)
    requires
        is_message_of(m, topic, url, reason, timestamp),
    ensures
        m.topic@ == topic,
        m.url@ == url,
        m.reason@ == reason,
        m.timestamp == timestamp,
        m.node_id@.len() == 0,
        ({
            let digits = decimal(m.timestamp as nat);
            let signed = utf8(topic) + utf8(":"@) + utf8(url) + utf8(":"@) + digits;
            let digest = sha256_digest(signed);
            &&& digits_value(digits) == m.timestamp
            &&& signed.subrange(signed.len() - digits.len(), signed.len() as int) == digits
            &&& m.signature@ == hex_lower(digest)
            &&& m.signature@.len() == 2 * digest.len()
            &&& forall|k: int|
                0 <= k < digest.len() ==> hex_digit_value(#[trigger] m.signature@[2 * k]) * 16
                    + hex_digit_value(m.signature@[2 * k + 1]) == digest[k]
        }),
{
    let digits = decimal(timestamp as nat);
    let signed = utf8(topic) + utf8(":"@) + utf8(url) + utf8(":"@) + digits;
    lemma_decimal_spells_value(timestamp as nat);
    lemma_hex_lower_spells_bytes(sha256_digest(signed));
    assert(signed.subrange(signed.len() - digits.len(), signed.len() as int) =~= digits);
}

} // verus!
