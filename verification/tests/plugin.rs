use podping::plugin::{
    execute, render, GuiComponent, PluginReply, COMMANDS, PLUGIN_COMMANDS, PLUGIN_NAME, PLUGIN_VERSION,
};

#[test]
fn every_listed_command_is_answered() {
    for cmd in PLUGIN_COMMANDS.split(',') {
        for arg in &["", "https://github.com/meta-introspector/solfunmeme-dioxus", "🧮"] {
            let r = execute(cmd, arg, 0);
            assert!(!matches!(r, PluginReply::Unknown { .. }), "{}", cmd);
        }
    }
    let listed: Vec<&str> = PLUGIN_COMMANDS.split(',').collect();
    assert_eq!(listed, COMMANDS.to_vec());
}

#[test]
fn ping_broadcasts_on_git_updates() {
    let r = execute("ping", "https://github.com/meta-introspector/solfunmeme-dioxus", 42);
    match r {
        PluginReply::Broadcast { url, topic, reason, ts } => {
            assert_eq!(url, "https://github.com/meta-introspector/solfunmeme-dioxus");
            assert!(topic.contains("git-updates"));
            assert_eq!(reason, "update");
            assert_eq!(ts, 42);
        }
        _ => panic!("not a broadcast"),
    }
}

#[test]
fn subscribe_defaults_to_git_updates() {
    match execute("subscribe", "", 0) {
        PluginReply::Subscribe { topic, protocol, transport } => {
            assert_eq!(topic, "solfunmeme/git-updates/v1");
            assert_eq!(protocol, "iroh-gossip");
            assert_eq!(transport, "QUIC");
        }
        _ => panic!("not a subscription"),
    }
    match execute("subscribe", "solfunmeme/ooda/v1", 0) {
        PluginReply::Subscribe { topic, .. } => assert_eq!(topic, "solfunmeme/ooda/v1"),
        _ => panic!("not a subscription"),
    }
}

#[test]
fn constant_replies() {
    match execute("publishers", "", 0) {
        PluginReply::Publishers { trusted } => {
            assert_eq!(trusted.len(), 2);
            assert_eq!(trusted[0].name, "local-forgejo");
            assert_eq!(trusted[1].url, "https://github.com/meta-introspector");
            assert_eq!(trusted[1].key, "ed25519");
        }
        _ => panic!("not publishers"),
    }
    match execute("topics", "x", 0) {
        PluginReply::Topics { topics } => assert_eq!(
            topics,
            vec![
                "solfunmeme/git-updates/v1",
                "solfunmeme/witnesses/v1",
                "solfunmeme/ooda/v1",
                "solfunmeme/jocko/v1"
            ]
        ),
        _ => panic!("not topics"),
    }
    match execute("history", "", 0) {
        PluginReply::History { topic, limit, source } => {
            assert_eq!(topic, "solfunmeme/git-updates/v1");
            assert_eq!(limit, 10);
            assert_eq!(source, "mesh-logs + rabbitmq");
        }
        _ => panic!("not history"),
    }
    match execute("forge-hook", "forgejo", 0) {
        PluginReply::ForgeHook { forge, event, broadcast, rmq_key } => {
            assert_eq!(forge, "forgejo");
            assert_eq!(event, "push");
            assert_eq!(broadcast, "solfunmeme/git-updates/v1");
            assert_eq!(rmq_key, "paste.tag.podping");
        }
        _ => panic!("not a forge hook"),
    }
}

#[test]
fn unknown_command_is_an_error() {
    match execute("pong", "", 0) {
        PluginReply::Unknown { cmd } => assert_eq!(cmd, "pong"),
        _ => panic!("answered an unknown command"),
    }
    assert!(matches!(execute("", "", 0), PluginReply::Unknown { .. }));
    assert!(matches!(execute("Ping", "", 0), PluginReply::Unknown { .. }));
}

#[test]
fn identity() {
    assert!(!PLUGIN_NAME.is_empty());
    assert_eq!(PLUGIN_VERSION, "0.1.0");
}

#[test]
fn render_describes_the_plugin() {
    let gui = render();
    assert_eq!(gui.len(), 4);
    match &gui[0] {
        GuiComponent::Heading { level, text } => {
            assert_eq!(*level, 2);
            assert_eq!(text, "📡 Podping — Git Update Notifications");
        }
        _ => panic!("not a heading"),
    }
    match &gui[1] {
        GuiComponent::Table { headers, rows } => {
            assert_eq!(headers, &vec!["Topic".to_string(), "Protocol".to_string()]);
            assert_eq!(rows.len(), 3);
            assert_eq!(rows[1], vec!["solfunmeme/witnesses/v1".to_string(), "iroh-gossip".to_string()]);
        }
        _ => panic!("not a table"),
    }
    match &gui[2] {
        GuiComponent::KeyValue { pairs } => {
            assert_eq!(pairs[1], ("Signing".to_string(), "ed25519-dalek".to_string()));
        }
        _ => panic!("not key-values"),
    }
    match &gui[3] {
        GuiComponent::Group { role, children } => {
            assert_eq!(role, "toolbar");
            let commands: Vec<&str> = children
                .iter()
                .map(|c| match c {
                    GuiComponent::Button { command, .. } => command.as_str(),
                    _ => panic!("not a button"),
                })
                .collect();
            assert_eq!(commands, vec!["ping", "subscribe", "history", "forge-hook"]);
        }
        _ => panic!("not a group"),
    }
}
