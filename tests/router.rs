use chat_relay::archive::{Archive, ChatMessage};
use chat_relay::events::{Action, ChatCommand, HttpMethod, Inbound};
use chat_relay::live::{LiveChannel, NewMessage};
use chat_relay::router::Router;

fn s(x: &str) -> String {
    x.to_string()
}

fn send(target: &str, message: &str) -> Option<ChatCommand> {
    Some(ChatCommand::Send { target: s(target), message: s(message) })
}

fn texts(archive: &Archive, key: &str) -> Vec<(String, String)> {
    match archive.messages_with(&s(key)) {
        Some(v) => v.iter().map(|m| (m.author.clone(), m.content.clone())).collect(),
        None => Vec::new(),
    }
}

#[test]
fn remote_send_to_local_is_archived_under_sender_and_acknowledged() {
    let mut router = Router::new(s("alice"));
    let actions = router.handle_event(Inbound::Peer { source: s("bob"), command: send("alice", "hi") });
    assert_eq!(texts(router.archive(), "bob"), vec![(s("bob"), s("hi"))]);
    assert_eq!(actions.len(), 1);
    assert!(matches!(actions[0], Action::Acknowledge));
    assert_eq!(router.archive().len(), 1);
}

#[test]
fn local_post_is_forwarded_archived_and_created() {
    let mut router = Router::new(s("alice"));
    let actions = router.handle_event(Inbound::Http { method: HttpMethod::Post, body: send("bob", "hi") });
    assert_eq!(texts(router.archive(), "bob"), vec![(s("alice"), s("hi"))]);
    assert_eq!(actions.len(), 2);
    match &actions[0] {
        Action::Forward { target } => assert_eq!(target, "bob"),
        _ => panic!("expected a forward"),
    }
    assert!(matches!(actions[1], Action::HttpCreated));
    assert!(!actions.iter().any(|a| matches!(a, Action::Acknowledge)));
}

#[test]
fn sends_to_one_counterparty_keep_their_order() {
    let mut router = Router::new(s("alice"));
    router.handle_event(Inbound::Http { method: HttpMethod::Post, body: send("bob", "one") });
    router.handle_event(Inbound::Peer { source: s("bob"), command: send("alice", "two") });
    router.handle_event(Inbound::Peer { source: s("bob"), command: None });
    router.handle_event(Inbound::SocketFrame { command: send("bob", "three") });
    assert_eq!(
        texts(router.archive(), "bob"),
        vec![(s("alice"), s("one")), (s("bob"), s("two")), (s("alice"), s("three"))]
    );
}

#[test]
fn history_lists_exactly_the_counterparties_and_is_repeatable() {
    let mut router = Router::new(s("alice"));
    router.handle_send(&s("alice"), &s("bob"), &s("a"), true);
    router.handle_send(&s("carol"), &s("alice"), &s("b"), false);
    router.handle_send(&s("alice"), &s("bob"), &s("c"), true);
    let first = router.handle_history();
    let second = router.handle_history();
    let keys: Vec<String> = first.conversations().iter().map(|c| c.counterparty().clone()).collect();
    assert_eq!(keys, vec![s("bob"), s("carol")]);
    assert_eq!(texts(&first, "bob"), vec![(s("alice"), s("a")), (s("alice"), s("c"))]);
    assert_eq!(texts(&first, "carol"), vec![(s("carol"), s("b"))]);
    assert!(first.messages_with(&s("dave")).is_none());
    for key in ["bob", "carol"] {
        assert_eq!(texts(&first, key), texts(&second, key));
    }
    assert_eq!(first.len(), second.len());
}

#[test]
fn history_over_peer_and_http() {
    let mut router = Router::new(s("alice"));
    router.handle_send(&s("bob"), &s("alice"), &s("yo"), false);
    let peer = router.handle_event(Inbound::Peer { source: s("bob"), command: Some(ChatCommand::History) });
    match &peer[..] {
        [Action::ReplyHistory { archive }] => assert_eq!(texts(archive, "bob"), vec![(s("bob"), s("yo"))]),
        _ => panic!("expected one history reply"),
    }
    let get = router.handle_event(Inbound::Http { method: HttpMethod::Get, body: None });
    match &get[..] {
        [Action::HttpHistory { archive }] => assert_eq!(archive.len(), 1),
        _ => panic!("expected one http history"),
    }
}

#[test]
fn attached_viewer_sees_every_append() {
    let mut router = Router::new(s("alice"));
    router.handle_event(Inbound::SocketOpened { channel: 7 });
    assert_eq!(router.live_channel(), Some(7));
    let remote = router.handle_event(Inbound::Peer { source: s("bob"), command: send("alice", "hi") });
    let pushes: Vec<_> = remote.iter().filter_map(|a| match a { Action::Push { push } => Some(push), _ => None }).collect();
    assert_eq!(pushes.len(), 1);
    assert_eq!(pushes[0].channel, 7);
    assert_eq!((pushes[0].update.chat.as_str(), pushes[0].update.author.as_str(), pushes[0].update.content.as_str()), ("bob", "bob", "hi"));
    let local = router.handle_event(Inbound::Http { method: HttpMethod::Post, body: send("bob", "back") });
    let pushes: Vec<_> = local.iter().filter_map(|a| match a { Action::Push { push } => Some(push), _ => None }).collect();
    assert_eq!(pushes.len(), 1);
    assert_eq!((pushes[0].update.chat.as_str(), pushes[0].update.author.as_str(), pushes[0].update.content.as_str()), ("bob", "alice", "back"));
}

#[test]
fn no_viewer_no_push() {
    let mut router = Router::new(s("alice"));
    let outcome = router.handle_send(&s("bob"), &s("alice"), &s("hi"), false);
    assert!(outcome.push.is_none());
    assert!(outcome.acknowledge);
    assert!(outcome.forward_to.is_none());
}

#[test]
fn last_viewer_wins() {
    let mut router = Router::new(s("alice"));
    router.handle_event(Inbound::SocketOpened { channel: 1 });
    router.handle_event(Inbound::SocketOpened { channel: 2 });
    router.handle_event(Inbound::SocketClosed { channel: 2 });
    assert_eq!(router.live_channel(), Some(2));
    let outcome = router.handle_send(&s("alice"), &s("bob"), &s("x"), true);
    assert_eq!(outcome.push.map(|p| p.channel), Some(2));
}

#[test]
fn malformed_input_changes_nothing() {
    let mut router = Router::new(s("alice"));
    router.handle_send(&s("bob"), &s("alice"), &s("hi"), false);
    for event in [
        Inbound::Peer { source: s("bob"), command: None },
        Inbound::SocketFrame { command: None },
        Inbound::Http { method: HttpMethod::Post, body: None },
        Inbound::Unrecognised,
    ] {
        let actions = router.handle_event(event);
        assert!(actions.is_empty());
    }
    assert_eq!(router.archive().len(), 1);
    assert_eq!(texts(router.archive(), "bob"), vec![(s("bob"), s("hi"))]);
    let next = router.handle_event(Inbound::Peer { source: s("bob"), command: send("alice", "again") });
    assert_eq!(next.len(), 1);
    assert_eq!(texts(router.archive(), "bob").len(), 2);
}

#[test]
fn other_http_method_is_not_allowed() {
    let mut router = Router::new(s("alice"));
    let actions = router.handle_event(Inbound::Http { method: HttpMethod::Other, body: send("bob", "x") });
    assert_eq!(actions.len(), 1);
    assert!(matches!(actions[0], Action::HttpMethodNotAllowed));
    assert_eq!(router.archive().len(), 0);
}

#[test]
fn unreachable_peer_still_archived() {
    let mut router = Router::new(s("alice"));
    let outcome = router.handle_send(&s("alice"), &s("nobody"), &s("lost"), true);
    assert_eq!(outcome.forward_to.as_deref(), Some("nobody"));
    assert!(!outcome.acknowledge);
    assert_eq!(texts(router.archive(), "nobody"), vec![(s("alice"), s("lost"))]);
}

#[test]
fn third_party_relay_archived_under_target() {
    let mut router = Router::new(s("alice"));
    let actions = router.handle_event(Inbound::Peer { source: s("bob"), command: send("carol", "relay") });
    assert_eq!(texts(router.archive(), "carol"), vec![(s("alice"), s("relay"))]);
    assert!(texts(router.archive(), "bob").is_empty());
    assert_eq!(actions.len(), 2);
    assert!(matches!(&actions[0], Action::Forward { target } if target == "carol"));
    assert!(matches!(actions[1], Action::Acknowledge));
}

#[test]
fn self_addressed_local_send_archived_under_local() {
    let mut router = Router::new(s("alice"));
    let actions = router.handle_event(Inbound::SocketFrame { command: send("alice", "note") });
    assert!(actions.is_empty());
    assert_eq!(texts(router.archive(), "alice"), vec![(s("alice"), s("note"))]);
}

#[test]
fn archive_store_append_and_snapshot() {
    let mut archive = Archive::new();
    assert_eq!(archive.len(), 0);
    archive.append(&s("bob"), ChatMessage::new(s("bob"), s("1")));
    archive.append(&s("bob"), ChatMessage::new(s("alice"), s("2")));
    archive.append(&s("carol"), ChatMessage::new(s("carol"), s("3")));
    let copy = archive.snapshot();
    archive.append(&s("bob"), ChatMessage::new(s("bob"), s("4")));
    assert_eq!(copy.len(), 2);
    assert_eq!(texts(&copy, "bob"), vec![(s("bob"), s("1")), (s("alice"), s("2"))]);
    assert_eq!(texts(&archive, "bob").len(), 3);
    let m = ChatMessage::new(s("x"), s("y")).duplicate();
    assert_eq!((m.author.as_str(), m.content.as_str()), ("x", "y"));
}

#[test]
fn live_channel_registry() {
    let mut live = LiveChannel::new();
    assert_eq!(live.current(), None);
    let update = NewMessage { chat: s("bob"), author: s("bob"), content: s("hi") };
    assert!(live.notify(update).is_none());
    live.attach(3);
    let push = live.notify(NewMessage { chat: s("bob"), author: s("bob"), content: s("hi") }).unwrap();
    assert_eq!(push.channel, 3);
    assert_eq!(push.update.content, "hi");
}

#[test]
fn empty_message_and_empty_identity() {
    let mut router = Router::new(s(""));
    router.handle_send(&s("bob"), &s(""), &s(""), false);
    assert_eq!(texts(router.archive(), "bob"), vec![(s("bob"), s(""))]);
    assert_eq!(router.local(), "");
}
