use futures_lite::StreamExt as _;
use twitchchat::decoder::stream::ReadMessage;
use twitchchat::commands::reply;
use twitchchat::ext::{make_reply, PrivmsgExt};
use twitchchat::irc::FromIrcMessage;
use twitchchat::messages::RoomState;
use twitchchat::channel::{bounded, TrySendError};
use twitchchat::commands::{encode_to_vec, join, part, ping, privmsg};
use twitchchat::decoder::{decode_line, DecodeError, Pending, StreamDecoder};
use twitchchat::dispatcher::{converted_for, AsyncDispatcher, DispatchError, SyncDispatcher};
use twitchchat::encoder::{line_pieces, AsyncEncoder, SinkEncoder, SinkPlan};
use twitchchat::handshake::{CheckError, HandshakeError};
use twitchchat::irc::{IrcMessage, MessageError};
use twitchchat::maybe_owned::MaybeOwned;
use twitchchat::messages::{Commands, Ping, Privmsg};
use twitchchat::text::parse_usize;
use twitchchat::writer::{Flushed, MpscWriter};

fn msg(input: &'static str) -> IrcMessage<'static> {
    IrcMessage::parse(MaybeOwned::Borrowed(input)).unwrap()
}

#[test]
fn decode_line_reads_the_first_message() {
    let m = decode_line(b"PING :123\r\nPONG :1\r\n").unwrap();
    assert_eq!(m.get_raw(), "PING :123\r\n");
    assert_eq!(m.get_data(), Some("123"));
}

#[test]
fn decode_line_errors() {
    assert!(matches!(decode_line(b"PING :\xff\r\n"), Err(DecodeError::InvalidUtf8(_))));
    assert!(matches!(
        decode_line(b"PING :1\n"),
        Err(DecodeError::ParseError(MessageError::IncompleteMessage { pos: 0 }))
    ));
    assert!(matches!(decode_line(b"\r\n"), Err(DecodeError::ParseError(MessageError::EmptyMessage))));
    let mut long = vec![b'a'; 70_000];
    long.extend_from_slice(b"\r\n");
    assert!(matches!(decode_line(&long), Err(DecodeError::LineTooLong)));
}

#[test]
fn pending_reads_each_line_of_a_chunk() {
    let mut p = Pending::new();
    assert!(!p.has_text());
    let m = p.feed("PING :1\r\nPONG :2\r\n".to_string()).unwrap();
    assert_eq!(m.get_raw(), "PING :1\r\n");
    assert!(p.has_text());
    let m = p.parse_message().unwrap();
    assert_eq!(m.get_raw(), "PONG :2\r\n");
    assert!(!p.has_text());
}

#[test]
fn pending_terminates_a_chunk() {
    let mut p = Pending::new();
    let m = p.feed("PING :1".to_string()).unwrap();
    assert_eq!(m.get_raw(), "PING :1\r\n");
    assert!(!p.has_text());
    let m = p.feed("PING :2\n".to_string()).unwrap();
    assert_eq!(m.get_raw(), "PING :2\r\n");
    assert!(matches!(p.feed(String::new()), Err(DecodeError::ParseError(MessageError::EmptyMessage))));
    assert!(!p.has_text());
}

#[test]
fn stream_decoder_queue() {
    let mut d = StreamDecoder::new(());
    assert!(d.pop_queued().is_none());
    d.extend(vec![msg("PING :1\r\n"), msg("PING :2\r\n")]);
    assert_eq!(d.pop_queued().unwrap().get_data(), Some("1"));
    assert_eq!(d.pop_queued().unwrap().get_data(), Some("2"));
    assert!(d.pop_queued().is_none());
    assert!(!d.pending_mut().has_text());
    *d.stream_mut() = ();
}

#[test]
fn line_pieces_split_at_each_newline() {
    assert_eq!(line_pieces(b"A\r\nBB\r\n"), vec![(0, 3), (3, 7)]);
    assert_eq!(line_pieces(b"A\r\nrest"), vec![(0, 3)]);
    assert_eq!(line_pieces(b"\n"), Vec::<(usize, usize)>::new());
    assert_eq!(line_pieces(b""), Vec::<(usize, usize)>::new());
}

#[test]
fn sink_encoder_plans() {
    let mut e: SinkEncoder<Vec<String>, String> = SinkEncoder::new(Vec::new());
    match e.prepare(&join("a")) {
        SinkPlan::Lines(v) => assert_eq!(v, vec![(0, 9)]),
        SinkPlan::Whole => panic!("expected lines"),
    }
    assert_eq!(e.buffer(), b"JOIN #a\r\n");
    match e.prepare(&"PING :x") {
        SinkPlan::Whole => {}
        SinkPlan::Lines(_) => panic!("expected the whole text"),
    }
    assert_eq!(e.buffer(), b"PING :x");
    e.sink_mut().push("sent".to_string());
    assert_eq!(e.sink_mut().len(), 1);
}

#[test]
fn async_encoder_stages_messages() {
    let mut e = AsyncEncoder::new(Vec::<u8>::new());
    e.stage(&ping("1"));
    e.stage(&part("#b"));
    assert_eq!(e.staged(), b"PING 1\r\nPART #b\r\n");
    let staged = e.staged().to_vec();
    e.writer_mut().extend_from_slice(&staged);
    e.clear_staged();
    assert!(e.staged().is_empty());
    e.stage(&"QUIT\r\n");
    let (w, rest) = e.into_parts();
    assert_eq!(w, b"PING 1\r\nPART #b\r\n".to_vec());
    assert_eq!(rest, b"QUIT\r\n".to_vec());
}

#[test]
fn raw_text_encodes_as_itself() {
    assert_eq!(encode_to_vec(&"PING :1\r\n"), b"PING :1\r\n".to_vec());
    assert_eq!(encode_to_vec(&"PONG".to_string()), b"PONG".to_vec());
    assert_eq!(encode_to_vec(&b"x\r\n".to_vec()), b"x\r\n".to_vec());
}

#[test]
fn mpsc_writer_sends_each_flush() {
    let (tx, rx) = bounded::<Vec<u8>>(1);
    let mut w = MpscWriter::new(tx);
    assert_eq!(w.write(b"PING"), 4);
    w.encode(&privmsg("#a", "hi"));
    assert_eq!(w.flush(), Flushed::Sent);
    assert_eq!(rx.try_recv(), Some(b"PINGPRIVMSG #a :hi\r\n".to_vec()));
    w.write(b"one");
    assert_eq!(w.flush(), Flushed::Sent);
    w.write(b"two");
    // the channel holds one batch: the second waits in the writer
    assert_eq!(w.flush(), Flushed::Retry);
    assert_eq!(rx.try_recv(), Some(b"one".to_vec()));
    assert_eq!(w.flush(), Flushed::Sent);
    assert_eq!(rx.try_recv(), Some(b"two".to_vec()));
    drop(rx);
    w.write(b"lost");
    assert_eq!(w.flush(), Flushed::Closed);
}

#[test]
fn channel_try_send_hands_the_item_back() {
    let (tx, rx) = bounded::<u32>(1);
    assert!(tx.try_send(1).is_ok());
    assert!(matches!(tx.try_send(2), Err(TrySendError::Full(2))));
    let rx2 = rx.clone();
    assert_eq!(rx2.try_recv(), Some(1));
    assert_eq!(rx.try_recv(), None);
    drop(rx);
    drop(rx2);
    assert!(matches!(tx.clone().try_send(3), Err(TrySendError::Closed(3))));
}

#[test]
fn dispatcher_sends_to_subscribers() {
    let mut d = SyncDispatcher::new();
    let mut pings = d.subscribe::<Ping<'static>>();
    let mut all = d.subscribe_system::<Commands<'static>>();
    let mut privmsgs = d.subscribe::<Privmsg<'static>>();
    d.dispatch(msg("PING :abc\r\n")).unwrap();
    assert_eq!(pings.next().unwrap().token(), "abc");
    assert!(matches!(all.next().unwrap(), Commands::Ping(_)));
    d.dispatch(msg(":a!a@a PRIVMSG #b :hi\r\n")).unwrap();
    assert_eq!(privmsgs.next().unwrap().data(), "hi");
    assert!(matches!(all.next().unwrap(), Commands::Privmsg(_)));
    d.reset();
    d.dispatch(msg("PING :again\r\n")).unwrap();
    assert!(matches!(all.next().unwrap(), Commands::Ping(_)));
    assert!(pings.next().is_none());
}

#[test]
fn dispatcher_reports_unreadable_messages() {
    let mut d = SyncDispatcher::new();
    // nobody listens: nothing is converted
    assert!(d.dispatch(msg("PING\r\n")).is_ok());
    let _pings = d.subscribe::<Ping<'static>>();
    assert!(matches!(d.dispatch(msg("PING\r\n")), Err(DispatchError::InvalidMessage(_))));
    assert!(matches!(DispatchError::custom("x".to_string()), DispatchError::Custom(s) if s == "x"));
}

#[test]
fn handshake_errors_from_checks() {
    assert!(matches!(HandshakeError::from_check_err(CheckError::BadPass), HandshakeError::BadPass));
    assert!(matches!(
        HandshakeError::from_check_err(CheckError::ShouldReconnect),
        HandshakeError::ShouldReconnect
    ));
    assert!(matches!(
        HandshakeError::from_check_err(CheckError::InvalidCap("x".to_string())),
        HandshakeError::InvalidCapability(c) if c == "x"
    ));
    assert!(matches!(HandshakeError::from(DecodeError::Eof), HandshakeError::Decode(DecodeError::Eof)));
}

#[test]
fn handshakes_keep_their_connection() {
    let mut h = twitchchat::handshake::asynchronous::Handshake::new(vec![1u8]);
    h.inner_mut().push(2);
    assert_eq!(h.into_inner(), vec![1, 2]);
    let mut h: twitchchat::handshake::stream::Handshake<Vec<u8>, String> =
        twitchchat::handshake::stream::Handshake::new(vec![3u8]);
    h.inner_mut().push(4);
    assert_eq!(h.into_inner(), vec![3, 4]);
}

#[test]
fn parse_usize_like_from_str() {
    assert_eq!(parse_usize(b"42"), Some(42));
    assert_eq!(parse_usize(b"+7"), Some(7));
    assert_eq!(parse_usize(b""), None);
    assert_eq!(parse_usize(b"+"), None);
    assert_eq!(parse_usize(b"-1"), None);
    assert_eq!(parse_usize(b"1a"), None);
    assert_eq!(parse_usize(b"99999999999999999999999"), None);
}

#[test]
fn read_message_items() {
    assert_eq!("a".to_string().read_string().unwrap(), "a");
    assert_eq!(Some("b".to_string()).read_string().unwrap(), "b");
    assert!(matches!(None::<String>.read_string(), Err(DecodeError::Eof)));
    assert_eq!(Ok::<String, DecodeError>("c".to_string()).read_string().unwrap(), "c");
    assert!(matches!(
        Err::<String, DecodeError>(DecodeError::LineTooLong).read_string(),
        Err(DecodeError::LineTooLong)
    ));
}

#[test]
fn stream_decoder_reads_buffered_then_items() {
    let mut d = StreamDecoder::new(());
    assert!(d.read_buffered().is_none());
    let m = d.read_item(Some("PING :1\r\nPING :2\r\n".to_string())).unwrap();
    assert_eq!(m.get_data(), Some("1"));
    d.extend(vec![msg("PONG :q\r\n")]);
    assert_eq!(d.read_buffered().unwrap().unwrap().get_data(), Some("q"));
    assert_eq!(d.read_buffered().unwrap().unwrap().get_data(), Some("2"));
    assert!(d.read_buffered().is_none());
    assert!(matches!(d.read_item(None::<String>), Err(DecodeError::Eof)));
    assert!(matches!(d.read_item(Some(Err::<String, DecodeError>(DecodeError::LineTooLong))), Err(DecodeError::LineTooLong)));
}

#[test]
fn reply_encodes_with_the_parent_id() {
    assert_eq!(
        encode_to_vec(&reply("museun", "abc-123", "hello")),
        b"@reply-parent-msg-id=abc-123 PRIVMSG #museun :hello\r\n".to_vec()
    );
}

#[test]
fn privmsg_ext_reply_and_say() {
    let tagged = Privmsg::from_irc(msg("@id=42;color= :a!a@a PRIVMSG #chan :hi\r\n")).unwrap();
    let plain = Privmsg::from_irc(msg(":a!a@a PRIVMSG #chan :hi\r\n")).unwrap();
    assert_eq!(
        encode_to_vec(&make_reply(&tagged, "ok").unwrap()),
        b"@reply-parent-msg-id=42 PRIVMSG #chan :ok\r\n".to_vec()
    );
    let err = make_reply(&plain, "ok").unwrap_err();
    assert_eq!(err.kind(), std::io::ErrorKind::PermissionDenied);

    let (tx, rx) = bounded::<Vec<u8>>(4);
    let mut w = MpscWriter::new(tx);
    w.reply(&tagged, "yes").unwrap();
    w.say(&plain, "hey").unwrap();
    assert!(w.reply(&plain, "no").is_err());
    assert_eq!(rx.try_recv(), Some(b"@reply-parent-msg-id=42 PRIVMSG #chan :yes\r\n".to_vec()));
    assert_eq!(rx.try_recv(), Some(b"PRIVMSG #chan :hey\r\n".to_vec()));
    assert_eq!(rx.try_recv(), None);
}

#[test]
fn mpsc_writer_send_reports_the_channel() {
    let (tx, rx) = bounded::<Vec<u8>>(1);
    let mut w = MpscWriter::new(tx);
    w.send(&ping("1")).unwrap();
    let err = w.send(&ping("2")).unwrap_err();
    assert_eq!(err.kind(), std::io::ErrorKind::WouldBlock);
    assert_eq!(rx.try_recv(), Some(b"PING 1\r\n".to_vec()));
    w.send(&ping("3")).unwrap();
    assert_eq!(rx.try_recv(), Some(b"PING 2\r\nPING 3\r\n".to_vec()));
    drop(rx);
    let err = w.send(&ping("4")).unwrap_err();
    assert_eq!(err.kind(), std::io::ErrorKind::UnexpectedEof);
}

#[test]
fn room_state_slow_mode() {
    let rs = RoomState::from_irc(msg("@emote-only=0;slow=10 :tmi.twitch.tv ROOMSTATE #chan\r\n")).unwrap();
    assert_eq!(rs.is_slow_mode(), Some(10));
    assert_eq!(rs.channel(), "#chan");
    let rs = RoomState::from_irc(msg("@slow=0 :tmi.twitch.tv ROOMSTATE #chan\r\n")).unwrap();
    assert_eq!(rs.is_slow_mode(), None);
    let rs = RoomState::from_irc(msg(":tmi.twitch.tv ROOMSTATE #chan\r\n")).unwrap();
    assert_eq!(rs.is_slow_mode(), None);
}

#[test]
fn async_dispatcher_routes_by_command() {
    let mut d = AsyncDispatcher::new();
    let mut pings = d.subscribe::<Ping<'static>>();
    let mut system_pings = d.subscribe_system::<Ping<'static>>();
    let mut raw = d.subscribe::<IrcMessage<'static>>();
    let mut all = d.subscribe::<Commands<'static>>();
    futures_lite::future::block_on(async {
        d.dispatch(msg("PING :abc\r\n")).unwrap();
        assert_eq!(pings.next().await.unwrap().token(), "abc");
        assert_eq!(system_pings.next().await.unwrap().token(), "abc");
        // every message goes out as one of all messages
        assert!(matches!(all.next().await.unwrap(), Commands::Ping(_)));
        d.dispatch(msg(":a!a@a FOOBAR #b :hi\r\n")).unwrap();
        // a known command goes to its own type; another goes out raw
        assert_eq!(raw.next().await.unwrap().get_command(), "FOOBAR");
        assert!(matches!(all.next().await.unwrap(), Commands::Raw(_)));
        // reading a PING needs its token, whether or not anyone listens
        assert!(matches!(d.dispatch(msg("PING\r\n")), Err(DispatchError::InvalidMessage(_))));
        d.reset();
        assert!(pings.next().await.is_none());
        d.dispatch(msg("PING :x\r\n")).unwrap();
        assert_eq!(system_pings.next().await.unwrap().token(), "x");
    });
}

#[test]
fn error_texts() {
    assert_eq!(MessageError::EmptyMessage.to_string(), "no message could be parsed");
    assert_eq!(MessageError::ExpectedArg { pos: 12 }.to_string(), "expected arg at position: 12");
    assert_eq!(MessageError::IncompleteMessage { pos: 0 }.to_string(), "incomplete message starting at: 0");
    assert_eq!(
        MessageError::InvalidCommand { expected: "PING".to_string(), got: "PONG".to_string() }.to_string(),
        "invalid command. expected 'PING' got 'PONG'"
    );
    assert_eq!(MessageError::ExpectedTag { name: "id".to_string() }.to_string(), "expected tag 'id'");
    assert_eq!(DecodeError::Eof.to_string(), "end of file reached");
    assert_eq!(
        DecodeError::ParseError(MessageError::ExpectedNick).to_string(),
        "parse error: expected a nickname attached to the message"
    );
    let io = std::io::Error::new(std::io::ErrorKind::Other, "boom");
    assert_eq!(DecodeError::Io(io).to_string(), "io error: boom");
    assert_eq!(
        DispatchError::InvalidMessage(MessageError::ExpectedData).to_string(),
        "invalid message: expected a data segment in the message"
    );
    assert_eq!(DispatchError::Custom("x".to_string()).to_string(), "unknown error: x");
    assert_eq!(HandshakeError::BadPass.to_string(), "an invalid oauth token was provided");
    assert_eq!(
        HandshakeError::InvalidCapability("a\"b\n".to_string()).to_string(),
        "an invalid capability was provided 'a\\\"b\\n'"
    );
    assert_eq!(HandshakeError::Decode(DecodeError::Eof).to_string(), "end of file reached");
}

#[test]
fn converted_only_for_listeners() {
    let r: Result<Option<Ping<'static>>, DispatchError> = converted_for(msg("PING\r\n"), false, false);
    assert!(matches!(r, Ok(None)));
    let r: Result<Option<Ping<'static>>, DispatchError> = converted_for(msg("PING\r\n"), true, false);
    assert!(matches!(r, Err(DispatchError::InvalidMessage(_))));
    let r: Result<Option<Ping<'static>>, DispatchError> = converted_for(msg("PING :7\r\n"), false, true);
    assert_eq!(r.unwrap().unwrap().token(), "7");
}

#[test]
fn into_inner_gives_back_the_raw_text() {
    let p = Ping::from_irc(msg("PING :1\r\n")).unwrap();
    assert_eq!(p.into_inner().as_str(), "PING :1\r\n");
    let c = Commands::from_irc(msg(":a!a@a PRIVMSG #b :hi\r\n")).unwrap();
    assert_eq!(c.into_inner().as_str(), ":a!a@a PRIVMSG #b :hi\r\n");
    assert_eq!(FromIrcMessage::into_inner(msg("PONG :2\r\n")).as_str(), "PONG :2\r\n");
}

#[test]
fn sync_dispatch_reaches_each_topic_once() {
    let mut d = SyncDispatcher::new();
    let mut p = d.subscribe::<Privmsg<'static>>();
    let mut a = d.subscribe::<Commands<'static>>();
    let mut r = d.subscribe::<IrcMessage<'static>>();
    let mut other = d.subscribe::<Ping<'static>>();
    d.dispatch(msg(":test!test@test PRIVMSG #museun :this is a test\r\n")).unwrap();
    assert_eq!(p.next().unwrap().data(), "this is a test");
    assert!(p.next().is_none());
    assert!(matches!(a.next().unwrap(), Commands::Privmsg(_)));
    assert!(a.next().is_none());
    assert_eq!(r.next().unwrap().get_raw(), ":test!test@test PRIVMSG #museun :this is a test\r\n");
    assert!(r.next().is_none());
    assert!(other.next().is_none());
}

#[test]
fn sync_reset_ends_user_subscriptions_only() {
    let mut d = SyncDispatcher::new();
    let mut user = d.subscribe::<Ping<'static>>();
    let mut sys = d.subscribe_system::<Ping<'static>>();
    d.reset();
    d.dispatch(msg("PING :1\r\n")).unwrap();
    assert!(user.next().is_none());
    assert_eq!(sys.next().unwrap().token(), "1");
    let mut again = d.subscribe::<Ping<'static>>();
    d.dispatch(msg("PING :2\r\n")).unwrap();
    assert_eq!(again.next().unwrap().token(), "2");
    assert_eq!(sys.next().unwrap().token(), "2");
}

#[test]
fn async_dispatch_reaches_all_messages() {
    let mut d = AsyncDispatcher::new();
    let mut all = d.subscribe::<Commands<'static>>();
    futures_lite::future::block_on(async {
        d.dispatch(msg(":test!test@test PRIVMSG #museun :this is a test\r\n")).unwrap();
        assert!(matches!(all.next().await.unwrap(), Commands::Privmsg(_)));
    });
}

#[test]
fn into_owned_owns_the_text() {
    assert!(matches!(MaybeOwned::Borrowed("abc").into_owned(), MaybeOwned::Owned(s) if s == "abc"));
}
