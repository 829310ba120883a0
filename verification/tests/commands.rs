use twitchchat::commands::{
    ban, command, emote_only, emote_only_off, join, mods, part, ping, pong, privmsg, raid,
    subscribers, subscribers_off, unhost, unraid, whisper, Encodable,
};
use twitchchat::commands::encode_to_vec;

fn test_encode<E: Encodable>(cmd: E, expected: &str) {
    let out = encode_to_vec(&cmd);
    assert_eq!(std::str::from_utf8(&out).unwrap(), expected);
}

/// The command as a JSON object: its fields, and `raw`, the text it encodes to.
fn to_json<E: Encodable>(cmd: &E, fields: Vec<(&str, serde_json::Value)>) -> String {
    let mut map = serde_json::Map::new();
    for (k, v) in fields {
        map.insert(k.to_string(), v);
    }
    let raw = String::from_utf8(encode_to_vec(cmd)).unwrap();
    map.insert("raw".to_string(), serde_json::Value::String(raw));
    serde_json::to_string(&serde_json::Value::Object(map)).unwrap()
}

fn field_str<'a>(v: &'a serde_json::Value, name: &str) -> &'a str {
    v.get(name).unwrap().as_str().unwrap()
}

fn field_opt<'a>(v: &'a serde_json::Value, name: &str) -> Option<&'a str> {
    v.get(name).and_then(|x| x.as_str())
}

/// Round-trips `json` and checks its `raw` text against `expected`.
fn check_raw(json: &str, expected: &str) -> serde_json::Value {
    let v: serde_json::Value = serde_json::from_str(json).unwrap();
    assert_eq!(v.get("raw").unwrap().as_str().unwrap(), expected);
    v
}

#[test]
fn ban_encode() {
    test_encode(ban("#museun", "museun", None), "PRIVMSG #museun :/ban museun\r\n");
}

#[test]
fn command_encode() {
    test_encode(command("#museun", "/testing"), "PRIVMSG #museun :/testing\r\n");
}

#[test]
fn emote_only_encode() {
    test_encode(emote_only("#museun"), "PRIVMSG #museun :/emoteonly\r\n");
}

#[test]
fn emote_only_ensure_channel_encode() {
    test_encode(emote_only("museun"), "PRIVMSG #museun :/emoteonly\r\n");
}

#[test]
fn emote_only_off_encode() {
    test_encode(emote_only_off("#museun"), "PRIVMSG #museun :/emoteonlyoff\r\n");
}

#[test]
fn emote_only_off_ensure_channel_encode() {
    test_encode(emote_only_off("museun"), "PRIVMSG #museun :/emoteonlyoff\r\n");
}

#[test]
fn mods_encode() {
    test_encode(mods("#museun"), "PRIVMSG #museun :/mods\r\n");
}

#[test]
fn mods_ensure_channel_encode() {
    test_encode(mods("museun"), "PRIVMSG #museun :/mods\r\n");
}

#[test]
fn ping_encode() {
    test_encode(ping("123456789"), "PING 123456789\r\n");
}

#[test]
fn raid_encode() {
    test_encode(raid("#museun", "#museun"), "PRIVMSG #museun :/raid #museun\r\n");
}

#[test]
fn raid_ensure_channel_encode() {
    test_encode(raid("museun", "#museun"), "PRIVMSG #museun :/raid #museun\r\n");
    test_encode(raid("#museun", "museun"), "PRIVMSG #museun :/raid #museun\r\n");
    test_encode(raid("museun", "museun"), "PRIVMSG #museun :/raid #museun\r\n");
}

#[test]
fn subscribers_encode() {
    test_encode(subscribers("#museun"), "PRIVMSG #museun :/subscribers\r\n");
}

#[test]
fn subscribers_ensure_channel_encode() {
    test_encode(subscribers("museun"), "PRIVMSG #museun :/subscribers\r\n");
}

#[test]
fn subscribers_off_encode() {
    test_encode(subscribers_off("#museun"), "PRIVMSG #museun :/subscribersoff\r\n");
}

#[test]
fn subscribers_off_ensure_channel_encode() {
    test_encode(subscribers_off("museun"), "PRIVMSG #museun :/subscribersoff\r\n");
}

#[test]
fn unhost_encode() {
    test_encode(unhost("#museun"), "PRIVMSG #museun :/unhost\r\n");
}

#[test]
fn unhost_ensure_channel_encode() {
    test_encode(unhost("museun"), "PRIVMSG #museun :/unhost\r\n");
}

#[test]
fn unraid_encode() {
    test_encode(unraid("#museun"), "PRIVMSG #museun :/unraid\r\n");
}

#[test]
fn unraid_ensure_channel_encode() {
    test_encode(unraid("museun"), "PRIVMSG #museun :/unraid\r\n");
}

#[test]
fn whisper_encode() {
    test_encode(whisper("museun", "hello world"), "PRIVMSG jtv :/w museun hello world\r\n");
}

#[test]
fn ban_serde() {
    {
        let data = ban("#museun", "museun", None);
        let json = to_json(&data, vec![("channel", serde_json::Value::String("#museun".to_string())), ("username", serde_json::Value::String("museun".to_string())), ("reason", serde_json::Value::Null)]);
        let v = check_raw(&json, "PRIVMSG #museun :/ban museun\r\n");
        let out = ban(field_str(&v, "channel"), field_str(&v, "username"), field_opt(&v, "reason"));
        assert_eq!(out, data);
        assert_eq!(encode_to_vec(&out), encode_to_vec(&data));
    }
}

#[test]
fn command_serde() {
    {
        let data = command("#museun", "/testing");
        let json = to_json(&data, vec![("channel", serde_json::Value::String("#museun".to_string())), ("data", serde_json::Value::String("/testing".to_string()))]);
        let v = check_raw(&json, "PRIVMSG #museun :/testing\r\n");
        let out = command(field_str(&v, "channel"), field_str(&v, "data"));
        assert_eq!(out, data);
        assert_eq!(encode_to_vec(&out), encode_to_vec(&data));
    }
}

#[test]
fn emote_only_serde() {
    {
        let data = emote_only("#museun");
        let json = to_json(&data, vec![("channel", serde_json::Value::String("#museun".to_string()))]);
        let v = check_raw(&json, "PRIVMSG #museun :/emoteonly\r\n");
        let out = emote_only(field_str(&v, "channel"));
        assert_eq!(out, data);
        assert_eq!(encode_to_vec(&out), encode_to_vec(&data));
    }
}

#[test]
fn emote_only_ensure_channel_serde() {
    {
        let data = emote_only("museun");
        let json = to_json(&data, vec![("channel", serde_json::Value::String("museun".to_string()))]);
        let v = check_raw(&json, "PRIVMSG #museun :/emoteonly\r\n");
        let out = emote_only(field_str(&v, "channel"));
        assert_eq!(out, data);
        assert_eq!(encode_to_vec(&out), encode_to_vec(&data));
    }
}

#[test]
fn emote_only_off_serde() {
    {
        let data = emote_only_off("#museun");
        let json = to_json(&data, vec![("channel", serde_json::Value::String("#museun".to_string()))]);
        let v = check_raw(&json, "PRIVMSG #museun :/emoteonlyoff\r\n");
        let out = emote_only_off(field_str(&v, "channel"));
        assert_eq!(out, data);
        assert_eq!(encode_to_vec(&out), encode_to_vec(&data));
    }
}

#[test]
fn emote_only_off_ensure_channel_serde() {
    {
        let data = emote_only_off("museun");
        let json = to_json(&data, vec![("channel", serde_json::Value::String("museun".to_string()))]);
        let v = check_raw(&json, "PRIVMSG #museun :/emoteonlyoff\r\n");
        let out = emote_only_off(field_str(&v, "channel"));
        assert_eq!(out, data);
        assert_eq!(encode_to_vec(&out), encode_to_vec(&data));
    }
}

#[test]
fn mods_serde() {
    {
        let data = mods("#museun");
        let json = to_json(&data, vec![("channel", serde_json::Value::String("#museun".to_string()))]);
        let v = check_raw(&json, "PRIVMSG #museun :/mods\r\n");
        let out = mods(field_str(&v, "channel"));
        assert_eq!(out, data);
        assert_eq!(encode_to_vec(&out), encode_to_vec(&data));
    }
}

#[test]
fn mods_ensure_channel_serde() {
    {
        let data = mods("museun");
        let json = to_json(&data, vec![("channel", serde_json::Value::String("museun".to_string()))]);
        let v = check_raw(&json, "PRIVMSG #museun :/mods\r\n");
        let out = mods(field_str(&v, "channel"));
        assert_eq!(out, data);
        assert_eq!(encode_to_vec(&out), encode_to_vec(&data));
    }
}

#[test]
fn ping_serde() {
    {
        let data = ping("123456789");
        let json = to_json(&data, vec![("token", serde_json::Value::String("123456789".to_string()))]);
        let v = check_raw(&json, "PING 123456789\r\n");
        let out = ping(field_str(&v, "token"));
        assert_eq!(out, data);
        assert_eq!(encode_to_vec(&out), encode_to_vec(&data));
    }
}

#[test]
fn raid_serde() {
    {
        let data = raid("#museun", "#museun");
        let json = to_json(&data, vec![("source", serde_json::Value::String("#museun".to_string())), ("target", serde_json::Value::String("#museun".to_string()))]);
        let v = check_raw(&json, "PRIVMSG #museun :/raid #museun\r\n");
        let out = raid(field_str(&v, "source"), field_str(&v, "target"));
        assert_eq!(out, data);
        assert_eq!(encode_to_vec(&out), encode_to_vec(&data));
    }
}

#[test]
fn raid_ensure_channel_serde() {
    {
        let data = raid("museun", "#museun");
        let json = to_json(&data, vec![("source", serde_json::Value::String("museun".to_string())), ("target", serde_json::Value::String("#museun".to_string()))]);
        let v = check_raw(&json, "PRIVMSG #museun :/raid #museun\r\n");
        let out = raid(field_str(&v, "source"), field_str(&v, "target"));
        assert_eq!(out, data);
        assert_eq!(encode_to_vec(&out), encode_to_vec(&data));
    }
    {
        let data = raid("#museun", "museun");
        let json = to_json(&data, vec![("source", serde_json::Value::String("#museun".to_string())), ("target", serde_json::Value::String("museun".to_string()))]);
        let v = check_raw(&json, "PRIVMSG #museun :/raid #museun\r\n");
        let out = raid(field_str(&v, "source"), field_str(&v, "target"));
        assert_eq!(out, data);
        assert_eq!(encode_to_vec(&out), encode_to_vec(&data));
    }
    {
        let data = raid("museun", "museun");
        let json = to_json(&data, vec![("source", serde_json::Value::String("museun".to_string())), ("target", serde_json::Value::String("museun".to_string()))]);
        let v = check_raw(&json, "PRIVMSG #museun :/raid #museun\r\n");
        let out = raid(field_str(&v, "source"), field_str(&v, "target"));
        assert_eq!(out, data);
        assert_eq!(encode_to_vec(&out), encode_to_vec(&data));
    }
}

#[test]
fn subscribers_serde() {
    {
        let data = subscribers("#museun");
        let json = to_json(&data, vec![("channel", serde_json::Value::String("#museun".to_string()))]);
        let v = check_raw(&json, "PRIVMSG #museun :/subscribers\r\n");
        let out = subscribers(field_str(&v, "channel"));
        assert_eq!(out, data);
        assert_eq!(encode_to_vec(&out), encode_to_vec(&data));
    }
}

#[test]
fn subscribers_ensure_channel_serde() {
    {
        let data = subscribers("museun");
        let json = to_json(&data, vec![("channel", serde_json::Value::String("museun".to_string()))]);
        let v = check_raw(&json, "PRIVMSG #museun :/subscribers\r\n");
        let out = subscribers(field_str(&v, "channel"));
        assert_eq!(out, data);
        assert_eq!(encode_to_vec(&out), encode_to_vec(&data));
    }
}

#[test]
fn subscribers_off_serde() {
    {
        let data = subscribers_off("#museun");
        let json = to_json(&data, vec![("channel", serde_json::Value::String("#museun".to_string()))]);
        let v = check_raw(&json, "PRIVMSG #museun :/subscribersoff\r\n");
        let out = subscribers_off(field_str(&v, "channel"));
        assert_eq!(out, data);
        assert_eq!(encode_to_vec(&out), encode_to_vec(&data));
    }
}

#[test]
fn subscribers_off_ensure_channel_serde() {
    {
        let data = subscribers_off("museun");
        let json = to_json(&data, vec![("channel", serde_json::Value::String("museun".to_string()))]);
        let v = check_raw(&json, "PRIVMSG #museun :/subscribersoff\r\n");
        let out = subscribers_off(field_str(&v, "channel"));
        assert_eq!(out, data);
        assert_eq!(encode_to_vec(&out), encode_to_vec(&data));
    }
}

#[test]
fn unhost_serde() {
    {
        let data = unhost("#museun");
        let json = to_json(&data, vec![("channel", serde_json::Value::String("#museun".to_string()))]);
        let v = check_raw(&json, "PRIVMSG #museun :/unhost\r\n");
        let out = unhost(field_str(&v, "channel"));
        assert_eq!(out, data);
        assert_eq!(encode_to_vec(&out), encode_to_vec(&data));
    }
}

#[test]
fn unhost_ensure_channel_serde() {
    {
        let data = unhost("museun");
        let json = to_json(&data, vec![("channel", serde_json::Value::String("museun".to_string()))]);
        let v = check_raw(&json, "PRIVMSG #museun :/unhost\r\n");
        let out = unhost(field_str(&v, "channel"));
        assert_eq!(out, data);
        assert_eq!(encode_to_vec(&out), encode_to_vec(&data));
    }
}

#[test]
fn unraid_serde() {
    {
        let data = unraid("#museun");
        let json = to_json(&data, vec![("channel", serde_json::Value::String("#museun".to_string()))]);
        let v = check_raw(&json, "PRIVMSG #museun :/unraid\r\n");
        let out = unraid(field_str(&v, "channel"));
        assert_eq!(out, data);
        assert_eq!(encode_to_vec(&out), encode_to_vec(&data));
    }
}

#[test]
fn unraid_ensure_channel_serde() {
    {
        let data = unraid("museun");
        let json = to_json(&data, vec![("channel", serde_json::Value::String("museun".to_string()))]);
        let v = check_raw(&json, "PRIVMSG #museun :/unraid\r\n");
        let out = unraid(field_str(&v, "channel"));
        assert_eq!(out, data);
        assert_eq!(encode_to_vec(&out), encode_to_vec(&data));
    }
}

#[test]
fn whisper_serde() {
    {
        let data = whisper("museun", "hello world");
        let json = to_json(&data, vec![("username", serde_json::Value::String("museun".to_string())), ("message", serde_json::Value::String("hello world".to_string()))]);
        let v = check_raw(&json, "PRIVMSG jtv :/w museun hello world\r\n");
        let out = whisper(field_str(&v, "username"), field_str(&v, "message"));
        assert_eq!(out, data);
        assert_eq!(encode_to_vec(&out), encode_to_vec(&data));
    }
}

#[test]
fn join_part_privmsg_pong_encode() {
    test_encode(join("museun"), "JOIN #museun\r\n");
    test_encode(join("#museun"), "JOIN #museun\r\n");
    test_encode(part("museun"), "PART #museun\r\n");
    test_encode(privmsg("museun", "hello world"), "PRIVMSG #museun :hello world\r\n");
    test_encode(pong("123"), "PONG :123\r\n");
}

#[test]
fn ban_with_reason_encode() {
    test_encode(
        ban("#museun", "museun", Some("spam")),
        "PRIVMSG #museun :/ban museun spam\r\n",
    );
}

#[test]
fn empty_channel_gets_a_hash() {
    test_encode(mods(""), "PRIVMSG # :/mods\r\n");
}

#[test]
fn every_command_ends_with_crlf() {
    for out in [
        encode_to_vec(&ban("a", "b", None)),
        encode_to_vec(&command("a", "")),
        encode_to_vec(&whisper("a", "")),
        encode_to_vec(&ping("")),
        encode_to_vec(&raid("", "")),
    ] {
        assert!(out.ends_with(b"\r\n"));
    }
}

#[test]
fn encode_appends_to_the_buffer() {
    let mut buf = b"X".to_vec();
    mods("museun").encode(&mut buf);
    assert_eq!(buf, b"XPRIVMSG #museun :/mods\r\n".to_vec());
}

#[test]
fn encoded_privmsg_parses_back() {
    let bytes = twitchchat::commands::encode_to_vec(&privmsg("museun", "hello world"));
    let text = String::from_utf8(bytes).unwrap();
    let msg = twitchchat::irc::IrcMessage::parse(twitchchat::maybe_owned::MaybeOwned::Borrowed(&text)).unwrap();
    assert_eq!(msg.get_command(), "PRIVMSG");
    assert_eq!(msg.get_args(), Some("#museun"));
    assert_eq!(msg.get_data(), Some("hello world"));
    assert_eq!(msg.get_tags(), None);
    assert_eq!(msg.get_prefix(), None);
}

#[test]
fn encoded_join_parses_back() {
    let bytes = twitchchat::commands::encode_to_vec(&join("museun"));
    let text = String::from_utf8(bytes).unwrap();
    let msg = twitchchat::irc::IrcMessage::parse(twitchchat::maybe_owned::MaybeOwned::Borrowed(&text)).unwrap();
    assert_eq!(msg.get_command(), "JOIN");
    assert_eq!(msg.get_args(), Some("#museun"));
    assert_eq!(msg.get_data(), None);
}
