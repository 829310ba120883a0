use twitchchat::irc::FromIrcMessage;
use twitchchat::messages::Commands;
use twitchchat::irc::{parse, parse_one, IrcMessage, MessageError, PrefixIndex};
use twitchchat::maybe_owned::{MaybeOwned, MaybeOwnedIndex};

fn one(input: &str) -> IrcMessage<'_> {
    IrcMessage::parse(MaybeOwned::Borrowed(input)).unwrap()
}

#[test]
fn parse_one_single_message_has_no_next() {
    let (next, msg) = parse_one("PING :123\r\n").unwrap();
    assert_eq!(next, 0);
    assert_eq!(msg.get_command(), "PING");
    assert_eq!(msg.get_data(), Some("123"));
}

#[test]
fn parse_one_points_at_the_next_message() {
    let input = "PING :1\r\nPING :2\r\n";
    let (next, msg) = parse_one(input).unwrap();
    assert_eq!(next, 9);
    assert_eq!(msg.get_raw(), "PING :1\r\n");
    let (next, msg) = parse_one(&input[next..]).unwrap();
    assert_eq!(next, 0);
    assert_eq!(msg.get_data(), Some("2"));
}

#[test]
fn parse_one_without_crlf_is_incomplete() {
    assert_eq!(parse_one("PING :1").unwrap_err(), MessageError::IncompleteMessage { pos: 0 });
    assert_eq!(parse_one("").unwrap_err(), MessageError::IncompleteMessage { pos: 0 });
}

#[test]
fn parse_iterates_lines_and_reports_a_dangling_tail() {
    let mut it = parse("PING :1\r\nPONG :2\r\nJOIN");
    assert_eq!(it.next_message().unwrap().unwrap().get_command(), "PING");
    assert_eq!(it.next_message().unwrap().unwrap().get_command(), "PONG");
    assert_eq!(
        it.next_message().unwrap().unwrap_err(),
        MessageError::IncompleteMessage { pos: 18 }
    );
    assert!(it.next_message().is_none());
}

#[test]
fn parse_empty_input_has_no_messages() {
    assert!(parse("").next_message().is_none());
}

#[test]
fn message_parts() {
    let msg = one("@a=b;c=d :nick!user@host PRIVMSG #chan :hello world\r\n");
    assert_eq!(msg.get_tags(), Some("a=b;c=d"));
    assert_eq!(msg.get_prefix(), Some("nick"));
    assert_eq!(msg.get_command(), "PRIVMSG");
    assert_eq!(msg.get_args(), Some("#chan"));
    assert_eq!(msg.get_data(), Some("hello world"));
    assert_eq!(msg.nth_arg(0), Some("#chan"));
    assert_eq!(msg.nth_arg(1), None);
    let prefix = msg.get_prefix_info().unwrap();
    assert!(prefix.is_user());
    assert_eq!(prefix.get_nick(), Some("nick"));
    assert!(matches!(msg.expect_nick(), Ok(_)));
}

#[test]
fn server_prefix_has_no_nick() {
    let msg = one(":tmi.twitch.tv RECONNECT\r\n");
    let prefix = msg.get_prefix_info().unwrap();
    assert!(prefix.is_server());
    assert_eq!(prefix.get_nick(), None);
    assert_eq!(msg.expect_nick().unwrap_err(), MessageError::ExpectedNick);
    assert_eq!(msg.expect_data().unwrap_err(), MessageError::ExpectedData);
    assert_eq!(msg.expect_arg(0).unwrap_err(), MessageError::ExpectedArg { pos: 0 });
}

#[test]
fn expect_command_reports_both_commands() {
    let msg = one("PING :1\r\n");
    assert_eq!(
        msg.expect_command("PONG").unwrap_err(),
        MessageError::InvalidCommand { expected: "PONG".to_string(), got: "PING".to_string() }
    );
    assert!(msg.expect_command("PING").is_ok());
}

#[test]
fn nth_arg_and_index() {
    let msg = one(":a!b@c CAP * ACK :twitch.tv/tags\r\n");
    assert_eq!(msg.nth_arg(0), Some("*"));
    assert_eq!(msg.nth_arg(1), Some("ACK"));
    let i = msg.nth_arg_index(1).unwrap();
    assert_eq!(&msg.get_raw()[i.as_range()], "ACK");
}

#[test]
fn tags_get_and_bool() {
    let msg = one("@mod=1;display-name=Museun;empty= :tmi.twitch.tv USERSTATE #museun\r\n");
    let tags_idx = msg.parse_tags();
    let tags = twitchchat::irc::Tags::from_data(msg.get_raw(), &tags_idx);
    assert_eq!(tags.get("display-name"), Some("Museun"));
    assert_eq!(tags.get("empty"), Some(""));
    assert_eq!(tags.get("missing"), None);
    assert!(tags.get_as_bool("mod"));
    assert!(!tags.get_as_bool("display-name"));
}

#[test]
fn owned_message_keeps_parts() {
    let s = String::from("PING :abc\r\n");
    let msg = one(&s).into_owned();
    drop(s);
    assert_eq!(msg.get_data(), Some("abc"));
    assert!(matches!(msg.get_prefix_info(), None));
}

#[test]
fn maybe_owned_index_ops() {
    let i = MaybeOwnedIndex::raw(2, 5);
    assert_eq!(i.as_range(), 2..5);
    assert_eq!(i.offset_by(3).as_range(), 5..8);
    assert_eq!(i.resize(1).as_range(), 2..3);
    assert_eq!(i.truncate(2).as_range(), 2..3);
    let mut j = MaybeOwnedIndex::new(4);
    assert!(j.is_empty());
    j.bump_tail();
    assert_eq!(j.as_range(), 4..5);
    let old = j.replace(7);
    assert_eq!(old.as_range(), 4..5);
    assert_eq!(j.as_range(), 7..7);
}

#[test]
fn prefix_index_kinds() {
    let p = PrefixIndex::User { nick: MaybeOwnedIndex::raw(1, 3) };
    assert!(p.is_nick());
    assert!(!p.is_server());
    assert_eq!(p.nick_index(), Some(MaybeOwnedIndex::raw(1, 3)));
    assert_eq!(p.host_index(), None);
    assert_eq!(p.as_index(), MaybeOwnedIndex::raw(1, 3));
}

#[test]
fn parsed_lines_borrow_the_input() {
    let input = "PING :1\r\nPONG :2\r\n";
    let mut it = parse(input);
    let m = it.next_message().unwrap().unwrap();
    assert!(matches!(m.into_inner(), MaybeOwned::Borrowed("PING :1\r\n")));
    let m = it.next_message().unwrap().unwrap();
    assert!(matches!(m.into_inner(), MaybeOwned::Borrowed("PONG :2\r\n")));
    assert!(it.next_message().is_none());
    let owned = IrcMessage::parse(MaybeOwned::Owned("PING :3\r\n".to_string())).unwrap();
    assert!(matches!(owned.into_inner(), MaybeOwned::Owned(s) if s == "PING :3\r\n"));
}

#[test]
fn nth_arg_index_matches_nth_arg_on_single_spaces() {
    let msg = one(":a!a@a FOO x yy zzz :data\r\n");
    for n in 0..5 {
        let by_index = msg.nth_arg_index(n).map(|i| msg.get_raw()[i.as_range()].to_string());
        assert_eq!(by_index.as_deref(), msg.nth_arg(n));
    }
    assert_eq!(msg.nth_arg(2), Some("zzz"));
    assert_eq!(msg.nth_arg(3), None);
}

#[test]
fn every_kind_keeps_its_line() {
    for line in ["PING :1\r\n", ":a!a@a PRIVMSG #b :hi\r\n", ":a!a@a FOOBAR #b\r\n", ":tmi.twitch.tv RECONNECT\r\n"] {
        let c = Commands::from_irc(one(line)).unwrap();
        assert_eq!(c.raw(), line);
    }
    assert!(matches!(Commands::from_irc(one(":a FOOBAR\r\n")).unwrap(), Commands::Raw(_)));
}
