use twitchchat::irc::{parse, IrcMessage, MessageError, FromIrcMessage};
use twitchchat::maybe_owned::MaybeOwned;
use twitchchat::messages::{
    Cap, Capability, Commands, HostTarget, HostTargetKind, Reconnect, UserState,
};

/// Every message of `input`, each parsed successfully.
fn all(input: &str) -> Vec<IrcMessage<'_>> {
    let mut it = parse(input);
    let mut out = Vec::new();
    while let Some(m) = it.next_message() {
        out.push(m.unwrap());
    }
    out
}

fn one(input: &str) -> IrcMessage<'_> {
    IrcMessage::parse(MaybeOwned::Borrowed(input)).unwrap()
}

/// The raw text of a message as JSON, and back.
fn json_round_trip(raw: &str) -> String {
    let mut map = serde_json::Map::new();
    map.insert("raw".to_string(), serde_json::Value::String(raw.to_string()));
    let json = serde_json::to_string(&serde_json::Value::Object(map)).unwrap();
    let v: serde_json::Value = serde_json::from_str(&json).unwrap();
    v.get("raw").unwrap().as_str().unwrap().to_string()
}

/// The raw text of a message through MessagePack, and back.
fn rmp_round_trip(raw: &str) -> String {
    let mut map = serde_json::Map::new();
    map.insert("raw".to_string(), serde_json::Value::String(raw.to_string()));
    let bytes = rmp_serde::to_vec(&serde_json::Value::Object(map)).unwrap();
    let v: serde_json::Value = rmp_serde::from_slice(&bytes).unwrap();
    v.get("raw").unwrap().as_str().unwrap().to_string()
}

#[test]
fn irc_message_serde() {
    let input = ":test!test@test PRIVMSG #museun :this is a test\r\n";
    let msg = one(input);
    for raw in [json_round_trip(msg.get_raw()), rmp_round_trip(msg.get_raw())] {
        let back = one(&raw);
        assert_eq!(back.get_raw(), msg.get_raw());
        assert_eq!(back.get_command(), msg.get_command());
        assert_eq!(back.get_prefix(), msg.get_prefix());
        assert_eq!(back.get_args(), msg.get_args());
        assert_eq!(back.get_data(), msg.get_data());
    }
}

#[test]
fn parse_empty_spaces() {
    for i in 0..10 {
        let s: MaybeOwned<'_> = format!("{}\r\n", " ".repeat(i)).into();
        let err = IrcMessage::parse(s).unwrap_err();
        assert!(matches!(err, MessageError::EmptyMessage))
    }
}

#[test]
fn cap_serde() {
    let input = ":tmi.twitch.tv CAP * ACK :twitch.tv/membership\r\n";
    let cap = Cap::from_irc(one(input)).unwrap();
    let raw = json_round_trip(cap.raw());
    let back = Cap::from_irc(one(&raw)).unwrap();
    assert_eq!(back.raw(), cap.raw());
    assert_eq!(back.capability(), cap.capability());
}

#[test]
fn cap_acknowledged() {
    let input = ":tmi.twitch.tv CAP * ACK :twitch.tv/membership\r\n\
                 :tmi.twitch.tv CAP * ACK :twitch.tv/tags\r\n\
                 :tmi.twitch.tv CAP * ACK :twitch.tv/commands\r\n";
    let expected = &["twitch.tv/membership", "twitch.tv/tags", "twitch.tv/commands"];
    let msgs = all(input);
    assert_eq!(msgs.len(), expected.len());
    for (msg, expected) in msgs.into_iter().zip(expected) {
        let msg = Cap::from_irc(msg).unwrap();
        assert_eq!(msg.capability(), Capability::Acknowledged(*expected));
    }
}

#[test]
fn cap_failed() {
    let input = ":tmi.twitch.tv CAP * NAK :foobar\r\n";
    for msg in all(input) {
        let cap = Cap::from_irc(msg).unwrap();
        assert_eq!(cap.capability(), Capability::NotAcknowledged("foobar"));
    }
}

#[test]
fn commands_serde() {
    let input = ":test!test@test PRIVMSG #museun :this is a test\r\n";
    let cmd = Commands::from_irc(one(input)).unwrap();
    for raw in [json_round_trip(cmd.raw()), rmp_round_trip(cmd.raw())] {
        let back = Commands::from_irc(one(&raw)).unwrap();
        assert_eq!(back.raw(), cmd.raw());
        assert!(matches!(back, Commands::Privmsg { .. }));
    }
}

#[test]
fn ensure_const_match() {
    let input = ":test!test@test PRIVMSG #museun :this is a test\r\n";
    let msg = IrcMessage::parse(MaybeOwned::Borrowed(input)).unwrap();
    let all = Commands::from_irc(msg).unwrap();
    assert!(matches!(all, Commands::Privmsg { .. }));
}

#[test]
fn host_target_serde() {
    let input = ":tmi.twitch.tv HOSTTARGET #shaken_bot :museun 1024\r\n";
    let ht = HostTarget::from_irc(one(input)).unwrap();
    for raw in [json_round_trip(ht.raw()), rmp_round_trip(ht.raw())] {
        let back = HostTarget::from_irc(one(&raw)).unwrap();
        assert_eq!(back.raw(), ht.raw());
        assert_eq!(back.source(), ht.source());
        assert_eq!(back.viewers(), ht.viewers());
        assert_eq!(back.host_target_kind(), ht.host_target_kind());
    }
}

#[test]
fn host_target_start() {
    let input = ":tmi.twitch.tv HOSTTARGET #shaken_bot :museun 1024\r\n";
    for msg in all(input) {
        let ht = HostTarget::from_irc(msg).unwrap();
        assert_eq!(ht.source(), "#shaken_bot");
        assert_eq!(ht.viewers().unwrap(), 1024);
        assert_eq!(ht.host_target_kind(), HostTargetKind::Start { target: "museun" });
    }
}

#[test]
fn host_target_start_none() {
    let input = ":tmi.twitch.tv HOSTTARGET #shaken_bot :museun -\r\n";
    for msg in all(input) {
        let ht = HostTarget::from_irc(msg).unwrap();
        assert_eq!(ht.source(), "#shaken_bot");
        assert!(ht.viewers().is_none());
        assert_eq!(ht.host_target_kind(), HostTargetKind::Start { target: "museun" });
    }
}

#[test]
fn host_target_end() {
    let input = ":tmi.twitch.tv HOSTTARGET #shaken_bot :- 1024\r\n";
    for msg in all(input) {
        let ht = HostTarget::from_irc(msg).unwrap();
        assert_eq!(ht.source(), "#shaken_bot");
        assert_eq!(ht.viewers().unwrap(), 1024);
        assert_eq!(ht.host_target_kind(), HostTargetKind::End);
    }
}

#[test]
fn reconnect_serde() {
    let input = ":tmi.twitch.tv RECONNECT\r\n";
    let msg = Reconnect::from_irc(one(input)).unwrap();
    for raw in [json_round_trip(msg.raw()), rmp_round_trip(msg.raw())] {
        let back = Reconnect::from_irc(one(&raw)).unwrap();
        assert_eq!(back.raw(), msg.raw());
    }
}

#[test]
fn reconnect() {
    let input = ":tmi.twitch.tv RECONNECT\r\n";
    for msg in all(input) {
        let _msg = Reconnect::from_irc(msg).unwrap();
    }
}

#[test]
fn user_state_serde() {
    let input = "@badges=bits/1000;badge-info=moderator :tmi.twitch.tv USERSTATE #museun\r\n";
    let msg = UserState::from_irc(one(input)).unwrap();
    let raw = json_round_trip(msg.raw());
    let back = UserState::from_irc(one(&raw)).unwrap();
    assert_eq!(back.raw(), msg.raw());
    assert_eq!(back.channel(), msg.channel());
    assert_eq!(back.tags().get("badges"), Some("bits/1000"));
    assert_eq!(back.tags().get("badge-info"), Some("moderator"));
}

#[test]
fn user_state() {
    let input = ":tmi.twitch.tv USERSTATE #museun\r\n";
    for msg in all(input) {
        let msg = UserState::from_irc(msg).unwrap();
        assert_eq!(msg.channel(), "#museun");
    }
}
