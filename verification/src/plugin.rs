//! The podping plugin's command handling.
//!
//! Podping maps onto SOLFUNMEME as follows: a podcast feed URL ping becomes
//! a git push or witness ping, its gossip topic is
//! `solfunmeme/git-updates/v1`, trusted publishers are wallet-signed
//! witnesses, and the archive is the mesh logs and RabbitMQ.

use crate::bytes::str_eq;
use crate::gossip::{TOPIC_GIT, TOPIC_JOCKO, TOPIC_OODA, TOPIC_WITNESS};
use vstd::prelude::*;

verus! {

/// The plugin's name.
pub const PLUGIN_NAME: &'static str = "podping";

/// The plugin's version.
pub const PLUGIN_VERSION: &'static str = "0.1.0";

/// The commands the plugin answers, comma-separated.
pub const PLUGIN_COMMANDS: &'static str = "ping,subscribe,publishers,topics,history,forge-hook";

/// The commands the plugin answers, one by one.
pub const COMMANDS: [&'static str; 6] = [
    "ping", "subscribe", "publishers", "topics", "history", "forge-hook",
];

/// How many past messages a history query asks for.
pub const HISTORY_LIMIT: u64 = 10;

/// A publisher whose pings are trusted.
#[derive(Debug)]
pub struct Publisher {
    pub name: String,
    pub url: String,
    pub key: String,
}

/// What the plugin answers to a command.
#[derive(Debug)]
pub enum PluginReply {
    /// `ping`: broadcast that `url` changed.
    Broadcast { url: String, topic: String, reason: String, ts: i64 },
    /// `subscribe`: join a gossip topic.
    Subscribe { topic: String, protocol: String, transport: String },
    /// `publishers`: the trusted publishers.
    Publishers { trusted: Vec<Publisher> },
    /// `topics`: the public topics.
    Topics { topics: Vec<String> },
    /// `history`: query the archive of a topic.
    History { topic: String, limit: u64, source: String },
    /// `forge-hook`: forward a forge's push events to gossip.
    ForgeHook { forge: String, event: String, broadcast: String, rmq_key: String },
    /// Any other command: an error naming it.
    Unknown { cmd: String },
}

/// Whether `p` is the publisher named `name` at `url` with a `key` key.
pub open spec fn is_publisher(p: Publisher, name: Seq<char>, url: Seq<char>, key: Seq<char>) -> bool {
    p.name@ == name && p.url@ == url && p.key@ == key
}

/// The reply that [`execute`] gives to command `cmd` with argument `arg` at
/// time `ts`.
pub open spec fn is_reply_for(r: PluginReply, cmd: Seq<char>, arg: Seq<char>, ts: i64) -> bool {
    if cmd == "ping"@ {
        r matches PluginReply::Broadcast { url, topic, reason, ts: t } && url@ == arg
            && topic@ == TOPIC_GIT@ && reason@ == "update"@ && t == ts
    } else if cmd == "subscribe"@ {
        r matches PluginReply::Subscribe { topic, protocol, transport } && topic@ == (if arg.len()
            == 0 {
            TOPIC_GIT@
        } else {
            arg
        }) && protocol@ == "iroh-gossip"@ && transport@ == "QUIC"@
    } else if cmd == "publishers"@ {
        r matches PluginReply::Publishers { trusted } && trusted@.len() == 2 && is_publisher(
            trusted@[0],
            "local-forgejo"@,
            "http://localhost:3000"@,
            "ed25519"@,
        ) && is_publisher(
            trusted@[1],
            "github"@,
            "https://github.com/meta-introspector"@,
            "ed25519"@,
        )
    } else if cmd == "topics"@ {
        r matches PluginReply::Topics { topics } && topics@.len() == 4 && topics@[0]@ == TOPIC_GIT@
            && topics@[1]@ == TOPIC_WITNESS@ && topics@[2]@ == TOPIC_OODA@ && topics@[3]@
            == TOPIC_JOCKO@
    } else if cmd == "history"@ {
        r matches PluginReply::History { topic, limit, source } && topic@ == TOPIC_GIT@ && limit
            == HISTORY_LIMIT && source@ == "mesh-logs + rabbitmq"@
    } else if cmd == "forge-hook"@ {
        r matches PluginReply::ForgeHook { forge, event, broadcast, rmq_key } && forge@ == arg
            && event@ == "push"@ && broadcast@ == TOPIC_GIT@ && rmq_key@ == "paste.tag.podping"@
    } else {
        r matches PluginReply::Unknown { cmd: c } && c@ == cmd
    }
}

/// Answers command `cmd` with argument `arg`; `ts` is the current time in
/// seconds since the Unix epoch.
pub fn execute(cmd: &str, arg: &str, ts: i64) -> (r: PluginReply)
    ensures
        is_reply_for(r, cmd@, arg@, ts),
{
    if str_eq(cmd, "ping") {
        PluginReply::Broadcast {
            url: arg.to_owned(),
            topic: TOPIC_GIT.to_owned(),
            reason: "update".to_owned(),
            ts,
        }
    } else if str_eq(cmd, "subscribe") {
        let topic = if arg.is_empty() {
            TOPIC_GIT.to_owned()
        } else {
            arg.to_owned()
        };
        PluginReply::Subscribe {
            topic,
            protocol: "iroh-gossip".to_owned(),
            transport: "QUIC".to_owned(),
        }
    } else if str_eq(cmd, "publishers") {
        let mut trusted: Vec<Publisher> = Vec::new();
        trusted.push(
            Publisher {
                name: "local-forgejo".to_owned(),
                url: "http://localhost:3000".to_owned(),
                key: "ed25519".to_owned(),
            },
        );
        trusted.push(
            Publisher {
                name: "github".to_owned(),
                url: "https://github.com/meta-introspector".to_owned(),
                key: "ed25519".to_owned(),
            },
        );
        PluginReply::Publishers { trusted }
    } else if str_eq(cmd, "topics") {
        let mut topics: Vec<String> = Vec::new();
        topics.push(TOPIC_GIT.to_owned());
        topics.push(TOPIC_WITNESS.to_owned());
        topics.push(TOPIC_OODA.to_owned());
        topics.push(TOPIC_JOCKO.to_owned());
        PluginReply::Topics { topics }
    } else if str_eq(cmd, "history") {
        PluginReply::History {
            topic: TOPIC_GIT.to_owned(),
            limit: HISTORY_LIMIT,
            source: "mesh-logs + rabbitmq".to_owned(),
        }
    } else if str_eq(cmd, "forge-hook") {
        PluginReply::ForgeHook {
            forge: arg.to_owned(),
            event: "push".to_owned(),
            broadcast: TOPIC_GIT.to_owned(),
            rmq_key: "paste.tag.podping".to_owned(),
        }
    } else {
        PluginReply::Unknown { cmd: cmd.to_owned() }
    }
}

/// `parts` joined by commas.
pub open spec fn comma_join(parts: Seq<Seq<char>>) -> Seq<char>
    decreases parts.len(),
{
    if parts.len() <= 1 {
        if parts.len() == 0 {
            seq![]
        } else {
            parts[0]
        }
    } else {
        comma_join(parts.drop_last()) + seq![','] + parts.last()
    }
}

/// The advertised command line names exactly the commands of [`COMMANDS`],
/// in order.
pub proof fn lemma_command_line_lists_commands()
    ensures
        PLUGIN_COMMANDS@ == comma_join(COMMANDS@.map_values(|c: &str| c@)),
{
    reveal_strlit("ping,subscribe,publishers,topics,history,forge-hook");
    reveal_strlit("ping");
    reveal_strlit("subscribe");
    reveal_strlit("publishers");
    reveal_strlit("topics");
    reveal_strlit("history");
    reveal_strlit("forge-hook");
    let parts = COMMANDS@.map_values(|c: &str| c@);
    reveal_with_fuel(comma_join, 6);
    assert(parts.drop_last().drop_last().drop_last().drop_last().drop_last() =~= seq!["ping"@]);
    assert(parts.drop_last().drop_last().drop_last().drop_last() =~= seq!["ping"@, "subscribe"@]);
    assert(parts.drop_last().drop_last().drop_last() =~= seq!["ping"@, "subscribe"@, "publishers"@]);
    assert(parts.drop_last().drop_last() =~= seq!["ping"@, "subscribe"@, "publishers"@, "topics"@]);
    assert(parts.drop_last() =~= seq!["ping"@, "subscribe"@, "publishers"@, "topics"@, "history"@]);
    assert(PLUGIN_COMMANDS@ =~= comma_join(parts));
}

/// Every listed command gets its own answer, never the error for an
/// unknown command.
pub proof fn lemma_listed_commands_answered(i: int, r: PluginReply, arg: Seq<char>, ts: i64)
    requires
        0 <= i < COMMANDS@.len(),
        is_reply_for(r, COMMANDS@[i]@, arg, ts),
    ensures
        !(r is Unknown),
{
    reveal_strlit("ping");
    reveal_strlit("subscribe");
    reveal_strlit("publishers");
    reveal_strlit("topics");
    reveal_strlit("history");
    reveal_strlit("forge-hook");
}

/// A component of the plugin's user interface.
#[derive(Debug)]
pub enum GuiComponent {
    Heading { level: u8, text: String },
    Table { headers: Vec<String>, rows: Vec<Vec<String>> },
    KeyValue { pairs: Vec<(String, String)> },
    Group { role: String, children: Vec<GuiComponent> },
    Button { label: String, command: String },
}

/// The texts held by `v`.
pub open spec fn texts(v: Seq<String>) -> Seq<Seq<char>> {
    v.map_values(|x: String| x@)
}

/// Whether `c` is the button labelled `label` that runs `command`.
pub open spec fn is_button(c: GuiComponent, label: Seq<char>, command: Seq<char>) -> bool {
    c matches GuiComponent::Button { label: l, command: m } && l@ == label && m@ == command
}

/// Whether `p` is the key-value pair `key`, `value`.
pub open spec fn is_pair(p: (String, String), key: Seq<char>, value: Seq<char>) -> bool {
    p.0@ == key && p.1@ == value
}

/// The user interface that [`render`] describes: a heading, a table of the
/// gossip topics and their protocol, the transport, signing and archive, and
/// a toolbar with a button for each of ping, subscribe, history and
/// forge-hook.
pub open spec fn is_plugin_gui(gui: Seq<GuiComponent>) -> bool {
    &&& gui.len() == 4
    &&& gui[0] matches GuiComponent::Heading { level, text } && level == 2 && text@
        == "📡 Podping — Git Update Notifications"@
    &&& gui[1] matches GuiComponent::Table { headers, rows } && texts(headers@) == seq![
        "Topic"@,
        "Protocol"@,
    ] && rows@.len() == 3 && texts(rows@[0]@) == seq![TOPIC_GIT@, "iroh-gossip"@]
        && texts(rows@[1]@) == seq![TOPIC_WITNESS@, "iroh-gossip"@] && texts(rows@[2]@)
        == seq![TOPIC_OODA@, "iroh-gossip"@]
    &&& gui[2] matches GuiComponent::KeyValue { pairs } && pairs@.len() == 3 && is_pair(
        pairs@[0],
        "Transport"@,
        "QUIC (iroh)"@,
    ) && is_pair(pairs@[1], "Signing"@, "ed25519-dalek"@) && is_pair(
        pairs@[2],
        "Archive"@,
        "mesh-logs + RabbitMQ"@,
    )
    &&& gui[3] matches GuiComponent::Group { role, children } && role@ == "toolbar"@
        && children@.len() == 4 && is_button(children@[0], "Ping"@, "ping"@) && is_button(
        children@[1],
        "Subscribe"@,
        "subscribe"@,
    ) && is_button(children@[2], "History"@, "history"@) && is_button(
        children@[3],
        "Forge Hook"@,
        "forge-hook"@,
    )
}

/// A row of two cells.
fn row(first: &str, second: &str) -> (r: Vec<String>)
    ensures
        texts(r@) == seq![first@, second@],
{
    let mut r: Vec<String> = Vec::new();
    r.push(first.to_owned());
    r.push(second.to_owned());
    assert(texts(r@) =~= seq![first@, second@]);
    r
}

/// The plugin's user interface.
pub fn render() -> (gui: Vec<GuiComponent>)
    ensures
        is_plugin_gui(gui@),
{
    let mut rows: Vec<Vec<String>> = Vec::new();
    rows.push(row(TOPIC_GIT, "iroh-gossip"));
    rows.push(row(TOPIC_WITNESS, "iroh-gossip"));
    rows.push(row(TOPIC_OODA, "iroh-gossip"));
    let mut pairs: Vec<(String, String)> = Vec::new();
    pairs.push(("Transport".to_owned(), "QUIC (iroh)".to_owned()));
    pairs.push(("Signing".to_owned(), "ed25519-dalek".to_owned()));
    pairs.push(("Archive".to_owned(), "mesh-logs + RabbitMQ".to_owned()));
    let mut buttons: Vec<GuiComponent> = Vec::new();
    buttons.push(GuiComponent::Button { label: "Ping".to_owned(), command: "ping".to_owned() });
    buttons.push(
        GuiComponent::Button { label: "Subscribe".to_owned(), command: "subscribe".to_owned() },
    );
    buttons.push(
        GuiComponent::Button { label: "History".to_owned(), command: "history".to_owned() },
    );
    buttons.push(
        GuiComponent::Button { label: "Forge Hook".to_owned(), command: "forge-hook".to_owned() },
    );
    let mut gui: Vec<GuiComponent> = Vec::new();
    gui.push(
        GuiComponent::Heading {
            level: 2,
            text: "📡 Podping — Git Update Notifications".to_owned(),
        },
    );
    gui.push(GuiComponent::Table { headers: row("Topic", "Protocol"), rows });
    gui.push(GuiComponent::KeyValue { pairs });
    gui.push(GuiComponent::Group { role: "toolbar".to_owned(), children: buttons });
    gui
}

/// What an answer takes from its argument and time: `ping` broadcasts the
/// argument as the changed URL at the given time on the git-updates topic;
/// `forge-hook` names the argument as the forge, whatever it is; `subscribe`
/// joins the topic named by the argument, or git-updates where the argument
/// is empty; and a command that is not listed is answered with an error
/// naming that very command.
pub proof fn lemma_reply_carries_argument(r: PluginReply, cmd: Seq<char>, arg: Seq<char>, ts: i64)
    requires
        is_reply_for(r, cmd, arg, ts),
    ensures
        cmd == "ping"@ ==> (r matches PluginReply::Broadcast { url, topic, ts: t, .. } && url@
            == arg && t == ts && topic@ == "solfunmeme/git-updates/v1"@),
        cmd == "forge-hook"@ ==> (r matches PluginReply::ForgeHook { forge, broadcast, .. }
            && forge@ == arg && broadcast@ == "solfunmeme/git-updates/v1"@),
        cmd == "subscribe"@ && arg.len() > 0 ==> (r matches PluginReply::Subscribe { topic, .. }
            && topic@ == arg),
        cmd == "subscribe"@ && arg.len() == 0 ==> (r matches PluginReply::Subscribe { topic, .. }
            && topic@ == "solfunmeme/git-updates/v1"@),
        !COMMANDS@.map_values(|c: &str| c@).contains(cmd) ==> (r matches PluginReply::Unknown {
            cmd: c,
        } && c@ == cmd),
{
    reveal_strlit("ping");
    reveal_strlit("subscribe");
    reveal_strlit("publishers");
    reveal_strlit("topics");
    reveal_strlit("history");
    reveal_strlit("forge-hook");
    assert("forge-hook"@[0] != "publishers"@[0]);
    let listed = COMMANDS@.map_values(|c: &str| c@);
    assert(listed[0] == "ping"@);
    assert(listed[1] == "subscribe"@);
    assert(listed[2] == "publishers"@);
    assert(listed[3] == "topics"@);
    assert(listed[4] == "history"@);
    assert(listed[5] == "forge-hook"@);
}

/// The interface's topic table lists, row by row, the first three topics
/// that the `topics` command answers (git-updates, witnesses and ooda), each
/// with protocol iroh-gossip; and every toolbar button runs a listed command.
pub proof fn lemma_gui_matches_commands(
    gui: Seq<GuiComponent>,
    r: PluginReply,
    arg: Seq<char>,
    ts: i64,
)
    requires
        is_plugin_gui(gui),
        is_reply_for(r, "topics"@, arg, ts),
    ensures
        ({
            &&& gui[1] matches GuiComponent::Table { rows, .. }
            &&& rows@.len() == 3
            &&& r matches PluginReply::Topics { topics }
            &&& forall|i: int|
                0 <= i < 3 ==> {
                    &&& (#[trigger] rows@[i])@.len() == 2
                    &&& rows@[i]@[0]@ == topics@[i]@
                    &&& rows@[i]@[1]@ == "iroh-gossip"@
                }
        }),
        ({
            &&& gui[1] matches GuiComponent::Table { rows, .. }
            &&& rows@[0]@[0]@ == "solfunmeme/git-updates/v1"@
            &&& rows@[1]@[0]@ == "solfunmeme/witnesses/v1"@
            &&& rows@[2]@[0]@ == "solfunmeme/ooda/v1"@
        }),
        ({
            &&& gui[3] matches GuiComponent::Group { children, .. }
            &&& forall|i: int|
                0 <= i < children@.len() ==> {
                    &&& #[trigger] children@[i] matches GuiComponent::Button { command, .. }
                    &&& COMMANDS@.map_values(|c: &str| c@).contains(command@)
                }
        }),
{
    reveal_strlit("ping");
    reveal_strlit("subscribe");
    reveal_strlit("publishers");
    reveal_strlit("topics");
    reveal_strlit("history");
    reveal_strlit("forge-hook");
    let listed = COMMANDS@.map_values(|c: &str| c@);
    assert(listed[0] == "ping"@);
    assert(listed[1] == "subscribe"@);
    assert(listed[4] == "history"@);
    assert(listed[5] == "forge-hook"@);
    if let GuiComponent::Table { rows, .. } = gui[1] {
        assert(texts(rows@[0]@).len() == rows@[0]@.len());
        assert(texts(rows@[1]@).len() == rows@[1]@.len());
        assert(texts(rows@[2]@).len() == rows@[2]@.len());
        assert(texts(rows@[0]@)[0] == rows@[0]@[0]@);
        assert(texts(rows@[0]@)[1] == rows@[0]@[1]@);
        assert(texts(rows@[1]@)[0] == rows@[1]@[0]@);
        assert(texts(rows@[1]@)[1] == rows@[1]@[1]@);
        assert(texts(rows@[2]@)[0] == rows@[2]@[0]@);
        assert(texts(rows@[2]@)[1] == rows@[2]@[1]@);
        assert("topics"@[0] != "ping"@[0]);
        assert("topics"@[0] != "subscribe"@[0]);
        assert("topics"@[0] != "publishers"@[0]);
        if let PluginReply::Topics { topics } = r {
            assert(topics@.len() == 4);
            assert forall|i: int| 0 <= i < 3 implies {
                &&& (#[trigger] rows@[i])@.len() == 2
                &&& rows@[i]@[0]@ == topics@[i]@
                &&& rows@[i]@[1]@ == "iroh-gossip"@
            } by {
                if i == 0 {
                } else if i == 1 {
                } else {
                }
            }
        }
    }
    if let GuiComponent::Group { children, .. } = gui[3] {
        assert forall|i: int| 0 <= i < children@.len() implies {
            &&& #[trigger] children@[i] matches GuiComponent::Button { command, .. }
            &&& listed.contains(command@)
        } by {
            if i == 0 {
                assert(listed[0] == "ping"@);
            } else if i == 1 {
                assert(listed[1] == "subscribe"@);
            } else if i == 2 {
                assert(listed[4] == "history"@);
            } else {
                assert(listed[5] == "forge-hook"@);
            }
        }
    }
}

} // verus!
