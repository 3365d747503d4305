use ironclaw::channels::relay::{
    RelayForwarder,
    ChannelError, MetadataFields, RelayChannel, RelayEvent, RelayProvider, DEFAULT_RELAY_NAME,
};

fn make_channel() -> RelayChannel {
    RelayChannel::new("T123".into(), "inst1".into())
}

fn event(event_type: &str, is_message: bool) -> RelayEvent {
    RelayEvent {
        event_type: event_type.into(),
        provider: "slack".into(),
        provider_scope: "T123".into(),
        channel_id: "C456".into(),
        sender_id: "U789".into(),
        thread_id: None,
        is_message,
        text: "hello".into(),
        display_name: "alice".into(),
        team_id: "T123".into(),
    }
}

#[test]
fn relay_channel_name() {
    let channel = make_channel();
    assert_eq!(channel.name(), DEFAULT_RELAY_NAME);
}

#[test]
fn relay_provider_strings() {
    assert_eq!(RelayProvider::Slack.as_str(), "slack");
    assert_eq!(RelayProvider::Slack.channel_name(), "slack-relay");
    let custom = RelayChannel::new_with_provider(RelayProvider::Slack, "T1".into(), "i".into());
    assert_eq!(custom.name(), "slack-relay");
}

#[test]
fn conversation_context_extracts_metadata() {
    let channel = make_channel();

    let metadata = MetadataFields {
        sender_name: Some("bob".into()),
        sender_id: Some("U123".into()),
        channel_id: Some("C456".into()),
        ..MetadataFields::default()
    };
    let ctx: std::collections::HashMap<String, String> =
        channel.conversation_context(&metadata).into_iter().collect();
    assert_eq!(ctx.get("sender"), Some(&"bob".to_string()));
    assert_eq!(ctx.get("sender_uuid"), Some(&"U123".to_string()));
    assert_eq!(ctx.get("platform"), Some(&"slack".to_string()));
}

#[test]
fn conversation_context_order_and_absent_entries() {
    let ctx = make_channel().conversation_context(&MetadataFields::default());
    assert_eq!(ctx, vec![("platform".to_string(), "slack".to_string())]);
    let metadata = MetadataFields { channel_id: Some("C1".into()), ..MetadataFields::default() };
    let ctx = make_channel().conversation_context(&metadata);
    assert_eq!(
        ctx,
        vec![
            ("group".to_string(), "C1".to_string()),
            ("platform".to_string(), "slack".to_string())
        ]
    );
}

#[test]
fn metadata_shape_includes_event_type_and_sender_name() {
    let msg = make_channel().incoming(&event("direct_message", true)).unwrap();
    assert_eq!(msg.metadata.event_type, "direct_message");
    assert_eq!(msg.metadata.sender_name, "alice");
    assert_eq!(msg.metadata.team_id, "T123");
    assert_eq!(msg.metadata.channel_id, "C456");
    assert_eq!(msg.metadata.sender_id, "U789");
    assert!(msg.metadata.thread_id.is_none());
    assert_eq!(msg.metadata.provider, "slack");
}

#[test]
fn build_send_body_slack() {
    let channel = make_channel();
    let (method, body) = channel.build_send_body("C456", "hello", Some("1234567.890"));
    assert_eq!(method, "chat.postMessage");
    assert_eq!(body.channel, "C456");
    assert_eq!(body.text, "hello");
    assert_eq!(body.thread_ts.as_deref(), Some("1234567.890"));
    let (_, body) = channel.build_send_body("C456", "hello", None);
    assert!(body.thread_ts.is_none());
}

#[test]
fn incoming_builds_message() {
    let msg = make_channel().incoming(&event("message", true)).unwrap();
    assert_eq!(msg.content, "hello");
    assert_eq!(msg.user_id, "U789");
    assert_eq!(msg.user_name, "alice");
    assert_eq!(msg.channel, "slack-relay");
    assert_eq!(msg.thread, "C456");
    let mut threaded = event("message", true);
    threaded.thread_id = Some("171.5".into());
    assert_eq!(make_channel().incoming(&threaded).unwrap().thread, "171.5");
}

#[test]
fn incoming_skips_non_message_and_incomplete_events() {
    let channel = make_channel();
    assert!(channel.incoming(&event("reaction", false)).is_none());
    let mut e = event("message", true);
    e.sender_id = String::new();
    assert!(channel.incoming(&e).is_none());
    let mut e = event("message", true);
    e.channel_id = String::new();
    assert!(channel.incoming(&e).is_none());
    let mut e = event("message", true);
    e.provider_scope = String::new();
    assert!(channel.incoming(&e).is_none());
}

#[test]
fn respond_uses_metadata() {
    let channel = make_channel();
    let metadata = MetadataFields {
        team_id: Some("T9".into()),
        channel_id: Some("C1".into()),
        thread_id: Some("111.1".into()),
        ..MetadataFields::default()
    };
    let send = channel.respond(&metadata, None, "hi").unwrap();
    assert_eq!(send.provider, "slack");
    assert_eq!(send.team_id, "T9");
    assert_eq!(send.instance_id, "inst1");
    assert_eq!(send.method, "chat.postMessage");
    assert_eq!(send.body.channel, "C1");
    assert_eq!(send.body.text, "hi");
    assert_eq!(send.body.thread_ts.as_deref(), Some("111.1"));
    // The response's own thread wins; the channel's team is the fallback.
    let metadata = MetadataFields { channel_id: Some("C1".into()), ..MetadataFields::default() };
    let send = channel.respond(&metadata, Some("222.2"), "hi").unwrap();
    assert_eq!(send.team_id, "T123");
    assert_eq!(send.body.thread_ts.as_deref(), Some("222.2"));
}

#[test]
fn respond_requires_channel_id() {
    match make_channel().respond(&MetadataFields::default(), None, "hi") {
        Err(ChannelError::SendFailed { name, reason }) => {
            assert_eq!(name, "slack-relay");
            assert_eq!(reason, "Missing channel_id in message metadata");
        }
        _ => panic!("expected SendFailed"),
    }
}

#[test]
fn channel_errors_name_the_channel() {
    let channel = make_channel();
    match channel.send_failed("timeout".into()) {
        ChannelError::SendFailed { name, reason } => {
            assert_eq!(name, "slack-relay");
            assert_eq!(reason, "timeout");
        }
        _ => panic!("expected SendFailed"),
    }
    match channel.already_started() {
        ChannelError::StartupFailed { name, reason } => {
            assert_eq!(name, "slack-relay");
            assert_eq!(reason, "RelayChannel already started");
        }
        _ => panic!("expected StartupFailed"),
    }
    assert!(matches!(
        channel.health_check_failed(),
        ChannelError::HealthCheckFailed { name } if name == "slack-relay"
    ));
}

#[test]
fn broadcast_targets_channel() {
    let channel = make_channel();
    let send = channel.broadcast("C7", None, Some("9.9"), "news");
    assert_eq!(send.team_id, "T123");
    assert_eq!(send.body.channel, "C7");
    assert_eq!(send.body.text, "news");
    assert_eq!(send.body.thread_ts.as_deref(), Some("9.9"));
    let send = channel.broadcast("C7", Some("1.1"), Some("9.9"), "news");
    assert_eq!(send.body.thread_ts.as_deref(), Some("1.1"));
    let send = channel.broadcast("C7", None, None, "news");
    assert!(send.body.thread_ts.is_none());
}

#[test]
fn forwarder_passes_on_relayed_events_in_order() {
    let channel = make_channel();
    let mut forwarder = RelayForwarder::new(&channel);
    let mut first = event("message", true);
    first.text = "first".to_string();
    let skipped = event("reaction_added", false);
    let mut no_sender = event("message", true);
    no_sender.sender_id = String::new();
    let mut second = event("message", true);
    second.text = "second".to_string();
    second.thread_id = Some("1700000000.000100".to_string());
    let mut out = Vec::new();
    for e in [&first, &skipped, &no_sender, &second] {
        if let Some(m) = forwarder.forward(e) {
            out.push(m);
        }
    }
    assert_eq!(out.len(), 2);
    assert_eq!(out[0].content, "first");
    assert_eq!(out[0].thread, first.channel_id);
    assert_eq!(out[1].content, "second");
    assert_eq!(out[1].thread, "1700000000.000100");
    assert_eq!(out[1].channel, "slack-relay");
    assert!(forwarder.forward(&skipped).is_none());
}

#[test]
fn begin_start_only_once() {
    let channel = make_channel();
    let mut receiver = Some(7u32);
    assert_eq!(channel.begin_start(receiver.take()).unwrap(), 7);
    match channel.begin_start(receiver.take()) {
        Err(ChannelError::StartupFailed { name, reason }) => {
            assert_eq!(name, "slack-relay");
            assert_eq!(reason, "RelayChannel already started");
        }
        other => panic!("expected StartupFailed, got {other:?}"),
    }
}
