//! Channel naming and topic derivation for the podping gossip plugin.
//!
//! Every app, agent, service, plugin and timer gets a DA51 channel: a
//! human-readable name, a `0xda51`-prefixed address derived from the
//! SHA-256 of the name, coordinates on three small cyclic groups, a Bott
//! index, a Hecke prime and a private gossip topic derived from a shared
//! secret.

pub mod bytes;
pub mod da51_channels;
pub mod digest;
pub mod gossip;
pub mod plugin;
pub mod private_channel;
pub mod registry_names;

