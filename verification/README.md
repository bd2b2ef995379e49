# podping

Channel naming and topic derivation for the podping gossip plugin, verified
with Verus.

- `src/digest.rs`: SHA-256 (`sha2`) and lower-case hex (`hex`), the only
  calls into outside crates, with their trusted contracts.
- `src/bytes.rs`: byte comparison, appending and decimal text.
- `src/private_channel.rs`: private topics (SHA-256 of prefix, secret, `:`,
  channel) and the pre-defined private channels.
- `src/da51_channels.rs`: DA51 channels and the registry of 69 entities.
- `src/registry_names.rs`: proof that registry channel names are distinct.
- `src/gossip.rs`: podping messages and public topic IDs.
- `src/plugin.rs`: the plugin's command replies.
- `app/`: serde forms of the records, the JSON wire encoding of messages and
  the JSON replies of plugin commands.
