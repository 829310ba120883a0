use twitchchat::irc::IrcMessage;
use twitchchat::maybe_owned::MaybeOwned;
use twitchchat::messages::Ping;
use twitchchat::decoder::error::DecodeError;
use twitchchat::runner::control::{after_retry, completion_status, ready_outcome, stopped_waiting, ResetConfig, RetryStep};
use twitchchat::runner::error::Error;
use twitchchat::runner::rate_limit::{Channel, RateClass, RateLimit, RateLimitQueue, RateLimitedChannels, RateStatus};
use twitchchat::runner::runner_error::RunnerError;
use twitchchat::runner::step::{ChannelError, RunnerState, StepAction, StepEvent, StepResult};
use twitchchat::runner::activity::{Activity, Received};
use twitchchat::runner::timeout::{classify_message, idle_event_of, idle_step, IdleAction, IdleEvent, TimeoutState};
use twitchchat::runner::wait_for::{Capability, CapsStatus, WaitFor};
use twitchchat::runner::{RetryStrategy, Status};

fn msg(input: &'static str) -> IrcMessage<'static> {
    IrcMessage::parse(MaybeOwned::Borrowed(input)).unwrap()
}

fn sent(actions: &[StepAction]) -> Vec<String> {
    let mut out = Vec::new();
    for a in actions {
        match a {
            StepAction::Send(b) => out.push(String::from_utf8(b.clone()).unwrap()),
            StepAction::SendPing => out.push("<ping>".to_string()),
            StepAction::Dispatch(m) => out.push(format!("<dispatch {}>", m.get_command())),
        }
    }
    out
}

#[test]
fn idle_tick_is_activity() {
    let (s, a) = idle_step(TimeoutState::Start, IdleEvent::Tick, 1000);
    assert_eq!(s, TimeoutState::Activity(1000));
    assert_eq!(a, IdleAction::Continue);
}

#[test]
fn idle_window_sends_a_heartbeat_once() {
    let (s, a) = idle_step(TimeoutState::Activity(0), IdleEvent::Idle, 5000);
    assert_eq!(s, TimeoutState::WaitingForPong(5000));
    assert_eq!(a, IdleAction::SendTimestamp);
    let (s, a) = idle_step(s, IdleEvent::Idle, 6000);
    assert_eq!(s, TimeoutState::WaitingForPong(5000));
    assert_eq!(a, IdleAction::Continue);
}

#[test]
fn idle_pong_too_late_times_out() {
    let (s, a) = idle_step(TimeoutState::WaitingForPong(0), IdleEvent::Other, 10_001);
    assert_eq!(s, TimeoutState::WaitingForPong(0));
    assert_eq!(a, IdleAction::TimedOut);
    let (_, a) = idle_step(TimeoutState::WaitingForPong(0), IdleEvent::Other, 10_000);
    assert_eq!(a, IdleAction::Continue);
}

#[test]
fn idle_pong_answers_the_heartbeat() {
    let (s, a) = idle_step(TimeoutState::WaitingForPong(100), IdleEvent::Pong, 200);
    assert_eq!(s, TimeoutState::Activity(200));
    assert_eq!(a, IdleAction::Continue);
    let (s, a) = idle_step(TimeoutState::Start, IdleEvent::Pong, 200);
    assert_eq!(s, TimeoutState::Start);
    assert_eq!(a, IdleAction::Continue);
}

#[test]
fn idle_ping_is_answered_with_its_token() {
    let (s, a) = idle_step(TimeoutState::WaitingForPong(0), IdleEvent::Ping("abc".to_string()), 50_000);
    assert_eq!(s, TimeoutState::Activity(50_000));
    assert_eq!(a, IdleAction::SendToken("abc".to_string()));
}

#[test]
fn idle_quit_and_disconnect_stop() {
    let (s, a) = idle_step(TimeoutState::Activity(3), IdleEvent::Quit, 4);
    assert_eq!(s, TimeoutState::Activity(3));
    assert_eq!(a, IdleAction::Stop);
    let (_, a) = idle_step(TimeoutState::WaitingForPong(0), IdleEvent::Disconnected, 999_999);
    assert_eq!(a, IdleAction::Stop);
}

#[test]
fn idle_stale_activity_sends_a_heartbeat() {
    let (s, a) = idle_step(TimeoutState::Activity(0), IdleEvent::Other, 10_001);
    assert_eq!(s, TimeoutState::WaitingForPong(10_001));
    assert_eq!(a, IdleAction::SendTimestamp);
}

#[test]
fn classify_ping_pong_and_others() {
    assert_eq!(classify_message(msg("PING :1234\r\n")), IdleEvent::Ping("1234".to_string()));
    assert_eq!(classify_message(msg("PONG :1234\r\n")), IdleEvent::Pong);
    assert_eq!(classify_message(msg(":a!a@a PRIVMSG #b :hi\r\n")), IdleEvent::Other);
}

#[test]
fn rate_limit_from_class() {
    let r = RateLimit::from_class(RateClass::Moderator);
    assert_eq!(r.cap, 100);
    assert_eq!(r.tokens, 100);
    assert_eq!(r.period_secs, 30);
    assert_eq!(r.get_current_rate_class(), Some(RateClass::Moderator));
    assert_eq!(RateLimit::default(), RateLimit::from_class(RateClass::Regular));
    assert_eq!(RateClass::Verified.tickets(), 7500);
    assert_eq!(RateClass::Known.tickets(), 50);
}

#[test]
fn rate_limit_consume_and_refill() {
    let mut r = RateLimit { cap: 2, tokens: 2, period_secs: 30, refilled_at: 0 };
    assert_eq!(r.consume(1, 1_000), Ok(1));
    assert_eq!(r.consume(1, 2_000), Ok(0));
    assert_eq!(r.consume(1, 12_000), Err(18_000));
    assert_eq!(r.consume(1, 30_000), Ok(1));
    assert_eq!(r.refilled_at, 30_000);
    assert_eq!(r.get_current_rate_class(), None);
}

#[test]
fn rate_limit_set_cap_and_period() {
    let mut r = RateLimit::from_class(RateClass::Regular);
    r.set_cap(1);
    assert_eq!((r.cap, r.tokens), (1, 1));
    r.set_period(5);
    assert_eq!(r.period_secs, 5);
    assert_eq!(r.get_current_rate_class(), None);
}

#[test]
fn queue_sends_at_once_then_waits() {
    let mut q = RateLimitQueue::new(RateLimit { cap: 1, tokens: 1, period_secs: 1, refilled_at: 0 });
    assert_eq!(q.enqueue("a", 0), vec!["a"]);
    assert!(q.enqueue("b", 10).is_empty());
    assert!(q.enqueue("c", 20).is_empty());
    // a refill gives one token, which the new message takes: none are left to drain the queue
    assert_eq!(q.enqueue("d", 1_000), Vec::<&str>::new());
    assert_eq!(q.enqueue("e", 2_000), Vec::<&str>::new());
}

#[test]
fn queue_drains_as_many_as_there_are_tokens() {
    let mut q = RateLimitQueue::new(RateLimit { cap: 3, tokens: 0, period_secs: 1, refilled_at: 0 });
    assert!(q.enqueue(1, 0).is_empty());
    assert!(q.enqueue(2, 0).is_empty());
    assert!(q.enqueue(3, 0).is_empty());
    // refilled to 3, one taken: 2 tokens left, so 2 of the 3 waiting go
    assert_eq!(q.enqueue(4, 1_000), vec![1, 2]);
}

#[test]
fn channel_status_changes() {
    let mut ch = Channel::new(RateLimit::from_class(RateClass::Moderator));
    assert_eq!(ch.set_status(RateStatus::Limited), RateStatus::Normal);
    assert_eq!(ch.set_status(RateStatus::SlowMode(3)), RateStatus::Limited);
    assert_eq!(ch.set_status(RateStatus::Normal), RateStatus::SlowMode(3));
}

#[test]
fn channel_limited_caps_at_one_then_restores() {
    let mut ch = Channel::new(RateLimit::from_class(RateClass::Moderator));
    ch.set_status(RateStatus::Limited);
    // the cap follows the status the channel had: going on from Limited caps the bucket at one
    ch.set_status(RateStatus::Normal);
    assert_eq!(ch.enqueue(b"a".to_vec(), 0).len(), 1);
    assert_eq!(ch.enqueue(b"b".to_vec(), 0).len(), 0);
    // from Normal the remembered class (Regular) comes back with a full bucket of 20: each
    // enqueue takes one token and drains one waiting message while tokens are left
    ch.set_status(RateStatus::Normal);
    let mut sent = 0;
    for _ in 0..100 {
        sent += ch.enqueue(b"c".to_vec(), 0).len();
    }
    assert_eq!(sent, 19);
}

#[test]
fn channel_change_rate_class_refills() {
    let mut ch = Channel::new(RateLimit { cap: 1, tokens: 0, period_secs: 30, refilled_at: 0 });
    assert!(ch.enqueue(b"a".to_vec(), 0).is_empty());
    ch.change_rate_class(RateClass::Regular);
    assert_eq!(ch.enqueue(b"b".to_vec(), 0), vec![b"a".to_vec()]);
}

#[test]
fn channels_add_find_remove() {
    let mut chs = RateLimitedChannels::new(RateLimit::default());
    assert!(!chs.has_channel("#a"));
    chs.add_channel("#a", RateLimit::default());
    chs.add_channel("#b", RateLimit::default());
    chs.add_channel("#a", RateLimit { cap: 1, tokens: 0, period_secs: 30, refilled_at: 0 });
    assert!(chs.has_channel("#a"));
    assert!(chs.has_channel("#b"));
    assert!(chs.get_channel("#a").is_some());
    assert!(chs.get_channel("#c").is_none());
    // adding again keeps the first bucket
    assert_eq!(chs.enqueue_for("#a", b"x".to_vec(), 0), Some(vec![b"x".to_vec()]));
    chs.remove_channel("#a");
    assert!(!chs.has_channel("#a"));
    assert!(chs.has_channel("#b"));
    assert_eq!(chs.enqueue_for("#a", b"x".to_vec(), 0), None);
}

#[test]
fn channels_global_queue_and_classes() {
    let mut chs = RateLimitedChannels::new(RateLimit { cap: 1, tokens: 1, period_secs: 30, refilled_at: 0 });
    assert_eq!(chs.global_enqueue(b"1".to_vec(), 0), vec![b"1".to_vec()]);
    assert!(chs.global_enqueue(b"2".to_vec(), 0).is_empty());
    chs.set_global_rate_limit(RateClass::Regular);
    assert_eq!(chs.global_enqueue(b"3".to_vec(), 0), vec![b"2".to_vec()]);
    assert!(!chs.change_rate_class_for("#none", RateClass::Verified));
    chs.add_channel("#a", RateLimit { cap: 1, tokens: 0, period_secs: 30, refilled_at: 0 });
    assert!(chs.change_rate_class_for("#a", RateClass::Verified));
    assert_eq!(chs.enqueue_for("#a", b"y".to_vec(), 0), Some(vec![b"y".to_vec()]));
}

#[test]
fn channels_slow_mode_and_limits() {
    let mut chs = RateLimitedChannels::new(RateLimit::default());
    chs.add_channel("#a", RateLimit::default());
    chs.enable_slow("#a");
    chs.disable_slow("#a");
    // leaving slow mode caps the bucket at one message per 30 seconds
    assert_eq!(chs.enqueue_for("#a", b"1".to_vec(), 0).map(|v| v.len()), Some(1));
    assert_eq!(chs.enqueue_for("#a", b"2".to_vec(), 0).map(|v| v.len()), Some(0));
    chs.rate_limited_on_channel("#a");
    chs.set_slow_duration("#a", 1);
    chs.disable_slow("#missing");
    assert!(chs.has_channel("#a"));
}

#[test]
fn wait_for_register_and_check() {
    let mut w = WaitFor::new(false);
    assert!(!w.is_anonymous());
    assert!(w.register("PRIVMSG", None, "Privmsg").is_ok());
    assert!(matches!(w.check_queue("PRIVMSG", None), CapsStatus::NotSeen));
    w.maybe_add(&msg(":a!a@a PRIVMSG #b :hi\r\n"));
    match w.check_queue("PRIVMSG", None) {
        CapsStatus::Seen(m) => assert_eq!(m.get_data(), Some("hi")),
        _ => panic!("expected the message"),
    }
    // the wait ended once the message was taken
    w.maybe_add(&msg(":a!a@a PRIVMSG #b :again\r\n"));
    assert!(matches!(w.check_queue("PRIVMSG", None), CapsStatus::NotSeen));
}

#[test]
fn wait_for_anonymous_cannot_need_a_capability() {
    let mut w = WaitFor::new(true);
    assert!(w.is_anonymous());
    match w.register("USERSTATE", Some(Capability::Commands), "UserState") {
        Err(RunnerError::RequiredCaps(c, n)) => {
            assert_eq!(c, Capability::Commands);
            assert_eq!(n, "UserState");
        }
        _ => panic!("expected a capability error"),
    }
}

#[test]
fn wait_for_missing_capability_after_ready() {
    let mut w = WaitFor::new(false);
    w.register("USERSTATE", Some(Capability::Tags), "UserState").unwrap();
    w.maybe_add(&msg(":tmi.twitch.tv CAP * ACK :twitch.tv/commands\r\n"));
    w.maybe_add(&msg(":tmi.twitch.tv 376 justinfan :>\r\n"));
    assert!(matches!(w.check_queue("USERSTATE", Some(Capability::Tags)), CapsStatus::RequiredCap(Capability::Tags)));
    w.maybe_add(&msg(":tmi.twitch.tv CAP * ACK :twitch.tv/tags\r\n"));
    assert!(matches!(w.check_queue("USERSTATE", Some(Capability::Tags)), CapsStatus::NotSeen));
}

#[test]
fn capability_names() {
    assert_eq!(Capability::maybe_from_str("twitch.tv/tags"), Some(Capability::Tags));
    assert_eq!(Capability::maybe_from_str("twitch.tv/membership"), Some(Capability::Membership));
    assert_eq!(Capability::maybe_from_str("twitch.tv/nope"), None);
    assert_eq!(Capability::Commands.encode_as_str(), "twitch.tv/commands");
}

#[test]
fn step_answers_ping() {
    let mut st = RunnerState::new(false, RateLimit::default());
    let (res, acts) = st.step(StepEvent::Ping("42".to_string()), 0).unwrap();
    assert_eq!(res, StepResult::Continue);
    assert_eq!(sent(&acts), vec!["PONG :42\r\n".to_string()]);
}

#[test]
fn step_end_of_input_and_closed() {
    let mut st = RunnerState::new(false, RateLimit::default());
    let (res, acts) = st.step(StepEvent::Read(Err(DecodeError::Eof)), 0).unwrap();
    assert_eq!(res, StepResult::Break(Status::Eof));
    assert!(acts.is_empty());
    let (res, _) = st.step(StepEvent::Closed, 0).unwrap();
    assert_eq!(res, StepResult::Break(Status::Eof));
    assert!(matches!(
        st.step(StepEvent::Read(Err(DecodeError::LineTooLong)), 0),
        Err(RunnerError::Decode(DecodeError::LineTooLong))
    ));
}

#[test]
fn step_dispatches_reads() {
    let mut st = RunnerState::new(false, RateLimit::default());
    let (res, acts) = st.step(StepEvent::Read(Ok(msg("PING :1\r\n"))), 5).unwrap();
    assert_eq!(res, StepResult::Continue);
    assert_eq!(sent(&acts), vec!["<dispatch PING>".to_string()]);
}

#[test]
fn step_heartbeat_and_timeout() {
    let mut st = RunnerState::new(false, RateLimit::default());
    st.step(StepEvent::Activity, 0).unwrap();
    let (res, acts) = st.step(StepEvent::Timeout, 1_000).unwrap();
    assert_eq!(res, StepResult::Continue);
    assert_eq!(sent(&acts), vec!["<ping>".to_string()]);
    let (res, _) = st.step(StepEvent::Activity, 12_000).unwrap();
    assert_eq!(res, StepResult::Continue);
    let (res, acts) = st.step(StepEvent::Timeout, 60_000).unwrap();
    assert_eq!(res, StepResult::Continue);
    assert_eq!(sent(&acts), vec!["<ping>".to_string()]);
    let (res, _) = st.step(StepEvent::Pong, 61_000).unwrap();
    assert_eq!(res, StepResult::Continue);
    st.step(StepEvent::Timeout, 70_000).unwrap();
    let (res, _) = st.step(StepEvent::Pong, 70_000 + 10_001).unwrap();
    assert_eq!(res, StepResult::Continue);
    st.step(StepEvent::Timeout, 100_000).unwrap();
    let (res, _) = st.step(StepEvent::Activity, 100_000 + 10_001).unwrap();
    assert_eq!(res, StepResult::Continue);
}

#[test]
fn step_waiting_too_long_times_out() {
    let mut st = RunnerState::new(false, RateLimit::default());
    st.step(StepEvent::Timeout, 0).unwrap();
    let (res, _) = st.step(StepEvent::Read(Ok(msg(":a!a@a PRIVMSG #b :hi\r\n"))), 10_001).unwrap();
    // reading is activity: the wait for a PONG ends
    assert_eq!(res, StepResult::Continue);
    st.step(StepEvent::Timeout, 20_000).unwrap();
    let (res, _) = st.step(StepEvent::Pong, 20_000 + 10_001).unwrap();
    assert_eq!(res, StepResult::Continue);
    st.step(StepEvent::Timeout, 40_000).unwrap();
    let (res, _) = st.step(StepEvent::Notice { channel: "#x".to_string(), msg_id: None }, 50_001).unwrap();
    assert_eq!(res, StepResult::Break(Status::TimedOut));
}

#[test]
fn step_stale_activity_sends_ping() {
    let mut st = RunnerState::new(false, RateLimit::default());
    st.step(StepEvent::Activity, 0).unwrap();
    let (res, acts) = st.step(StepEvent::Notice { channel: "#x".to_string(), msg_id: None }, 45_001).unwrap();
    assert_eq!(res, StepResult::Continue);
    assert_eq!(sent(&acts), vec!["<ping>".to_string()]);
}

#[test]
fn step_join_needs_a_name() {
    let mut st = RunnerState::new(false, RateLimit::default());
    assert!(matches!(
        st.step(StepEvent::Join { name: "me".to_string(), channel: "#a".to_string() }, 0),
        Err(RunnerError::InvalidConnection)
    ));
}

#[test]
fn step_own_join_and_part() {
    let mut st = RunnerState::new(false, RateLimit::default());
    st.step(StepEvent::Ready { username: "me".to_string() }, 0).unwrap();
    st.step(StepEvent::Join { name: "someone".to_string(), channel: "#a".to_string() }, 0).unwrap();
    assert!(!st.is_on_channel("#a"));
    st.step(StepEvent::Join { name: "me".to_string(), channel: "#a".to_string() }, 0).unwrap();
    assert!(st.is_on_channel("#a"));
    assert!(matches!(st.check_join("#a"), Err(ChannelError::AlreadyOnChannel(c)) if c == "#a"));
    assert!(st.check_part("#a").is_ok());
    st.step(StepEvent::Part { name: "me".to_string(), channel: "#a".to_string() }, 0).unwrap();
    assert!(!st.is_on_channel("#a"));
    assert!(st.check_join("#a").is_ok());
    assert!(matches!(st.check_part("#a"), Err(ChannelError::NotOnChannel(c)) if c == "#a"));
}

#[test]
fn step_writes_go_through_rate_limits() {
    let mut st = RunnerState::new(false, RateLimit::default());
    let (_, acts) = st.step(StepEvent::Write(b"JOIN #a\r\n".to_vec()), 0).unwrap();
    assert_eq!(sent(&acts), vec!["JOIN #a\r\n".to_string()]);
    match st.step(StepEvent::Write(b"PRIVMSG #a :hi\r\n".to_vec()), 0) {
        Err(RunnerError::Io(e)) => {
            assert_eq!(e.kind(), std::io::ErrorKind::InvalidInput);
            assert_eq!(e.to_string(), "you're not on '#a'");
        }
        _ => panic!("expected an I/O error"),
    }
    st.step(StepEvent::Ready { username: "me".to_string() }, 0).unwrap();
    st.step(StepEvent::Join { name: "me".to_string(), channel: "#a".to_string() }, 0).unwrap();
    let (_, acts) = st.step(StepEvent::Write(b"PRIVMSG #a :hi\r\n".to_vec()), 0).unwrap();
    assert_eq!(sent(&acts), vec!["PRIVMSG #a :hi\r\n".to_string()]);
}

#[test]
fn step_slow_mode_notices() {
    let mut st = RunnerState::new(false, RateLimit::default());
    st.step(StepEvent::Ready { username: "me".to_string() }, 0).unwrap();
    st.step(StepEvent::Join { name: "me".to_string(), channel: "#a".to_string() }, 0).unwrap();
    st.step(StepEvent::Notice { channel: "#a".to_string(), msg_id: Some("slow_on".to_string()) }, 0).unwrap();
    st.step(StepEvent::Notice { channel: "#a".to_string(), msg_id: Some("slow_off".to_string()) }, 0).unwrap();
    let (_, acts) = st.step(StepEvent::Write(b"PRIVMSG #a :1\r\n".to_vec()), 0).unwrap();
    assert_eq!(acts.len(), 1);
    let (_, acts) = st.step(StepEvent::Write(b"PRIVMSG #a :2\r\n".to_vec()), 0).unwrap();
    assert_eq!(acts.len(), 0);
    st.step(StepEvent::RoomState { channel: "#a".to_string(), slow: Some(2) }, 0).unwrap();
}

#[test]
fn runner_rate_class_for_channel() {
    let mut st = RunnerState::new(false, RateLimit::default());
    assert!(!st.set_rate_class_for_channel("#a", RateClass::Moderator));
    st.step(StepEvent::Ready { username: "me".to_string() }, 0).unwrap();
    st.step(StepEvent::Join { name: "me".to_string(), channel: "#a".to_string() }, 0).unwrap();
    assert!(st.set_rate_class_for_channel("#a", RateClass::Moderator));
    st.set_custom_rate_limit(RateClass::Verified);
    st.wait_for_mut().register("PRIVMSG", None, "Privmsg").unwrap();
    st.reset_wait_for();
}

#[test]
fn ready_outcome_cases() {
    let r: Option<Result<Ping<'static>, RunnerError>> = ready_outcome(CapsStatus::NotSeen, "Ping");
    assert!(r.is_none());
    let r: Option<Result<Ping<'static>, RunnerError>> =
        ready_outcome(CapsStatus::RequiredCap(Capability::Tags), "Ping");
    assert!(matches!(r, Some(Err(RunnerError::RequiredCaps(Capability::Tags, "Ping")))));
    let r: Option<Result<Ping<'static>, RunnerError>> = ready_outcome(CapsStatus::Seen(msg("PING :7\r\n")), "Ping");
    assert_eq!(r.unwrap().unwrap().token(), "7");
    let r: Option<Result<Ping<'static>, RunnerError>> = ready_outcome(CapsStatus::Seen(msg("PONG :7\r\n")), "Ping");
    assert!(matches!(r, Some(Err(RunnerError::Dispatch(_)))));
}

#[test]
fn stopped_waiting_cases() {
    assert!(stopped_waiting(StepResult::Continue, "Ping").is_none());
    assert!(matches!(stopped_waiting(StepResult::Break(Status::Eof), "Ping"), Some(RunnerError::WaitForMessage("Ping"))));
}

#[test]
fn completion_status_cases() {
    assert_eq!(completion_status(Status::Eof, true), Status::Cancelled);
    assert_eq!(completion_status(Status::TimedOut, false), Status::TimedOut);
}

#[test]
fn after_retry_cases() {
    assert!(matches!(after_retry(Ok(true), true), RetryStep::Reconnect { reset: true }));
    assert!(matches!(after_retry(Ok(true), false), RetryStep::Reconnect { reset: false }));
    assert!(matches!(after_retry(Ok(false), true), RetryStep::Finish(Ok(()))));
    assert!(matches!(after_retry(Err(Error::BadPass), false), RetryStep::Finish(Err(Error::BadPass))));
}

#[test]
fn reset_config_announces_on_its_channel() {
    let (cfg, rx) = ResetConfig::should_reset_handlers();
    assert!(cfg.reset_handlers().try_send(()).is_ok());
    assert!(cfg.clone().reset_handlers().try_send(()).is_err());
    assert_eq!(rx.try_recv(), Some(()));
    assert_eq!(rx.try_recv(), None);
}

#[test]
fn retry_strategies() {
    assert!(matches!(RetryStrategy::immediately(Ok(Status::Eof)), Ok(true)));
    assert!(matches!(RetryStrategy::immediately(Ok(Status::Cancelled)), Ok(false)));
    assert!(matches!(RetryStrategy::immediately(Err(Error::TimedOut)), Ok(true)));
    assert!(matches!(RetryStrategy::on_timeout(Ok(Status::TimedOut)), Ok(true)));
    assert!(matches!(RetryStrategy::on_timeout(Ok(Status::Eof)), Ok(false)));
    assert!(matches!(RetryStrategy::on_timeout(Err(Error::BadPass)), Err(Error::BadPass)));
    assert!(matches!(RetryStrategy::on_error(Err(Error::Eof)), Ok(true)));
    assert!(matches!(RetryStrategy::on_error(Ok(Status::Eof)), Ok(false)));
}

#[test]
fn runner_error_from_decode_error() {
    assert!(matches!(Error::from(DecodeError::Eof), Error::UnexpectedEof));
    assert!(matches!(Error::from(DecodeError::LineTooLong), Error::LineTooLong));
    assert!(matches!(RunnerError::from(DecodeError::Eof), RunnerError::Decode(DecodeError::Eof)));
}

#[test]
fn idle_events_of_what_was_received() {
    assert_eq!(idle_event_of(Received::TimedOut), IdleEvent::Idle);
    assert_eq!(idle_event_of(Received::Disconnected), IdleEvent::Disconnected);
    assert_eq!(idle_event_of(Received::Activity(Activity::Tick)), IdleEvent::Tick);
    assert_eq!(idle_event_of(Received::Activity(Activity::Quit)), IdleEvent::Quit);
    assert_eq!(
        idle_event_of(Received::Activity(Activity::Message(msg("PING :9\r\n")))),
        IdleEvent::Ping("9".to_string())
    );
}

#[test]
fn activity_pair_delivers_in_order() {
    let (tx, rx) = Activity::pair();
    tx.message(Activity::Tick);
    tx.message(Activity::Quit);
    assert!(matches!(rx.recv_within(10), Received::Activity(Activity::Tick)));
    assert!(matches!(rx.recv_within(10), Received::Activity(Activity::Quit)));
    assert!(matches!(rx.recv_within(10), Received::TimedOut));
    drop(tx);
    assert!(matches!(rx.recv_within(10), Received::Disconnected));
}

#[test]
fn runner_error_texts_and_conversions() {
    assert_eq!(Error::TimedOut.to_string(), "your connection timed out");
    assert_eq!(Error::Eof.to_string(), "reach an expected EOF");
    assert_eq!(
        Error::InvalidCap { cap: "twitch.tv/x".to_string() }.to_string(),
        "request capability 'twitch.tv/x' was not acknowledged"
    );
    assert_eq!(
        Error::ParsingFailure(twitchchat::irc::MessageError::EmptyMessage).to_string(),
        "could not parse message: no message could be parsed"
    );
    let io = std::io::Error::new(std::io::ErrorKind::Other, "gone");
    let e = Error::from(io);
    assert_eq!(e.to_string(), "io error: gone");
    let io = std::io::Error::new(std::io::ErrorKind::Other, "gone");
    assert!(matches!(RunnerError::from(io), RunnerError::Io(_)));
    assert_eq!(ChannelError::NotOnChannel("#a".to_string()).to_string(), "Not on channel: #a");
    assert_eq!(ChannelError::AlreadyOnChannel("#a".to_string()).to_string(), "Already on channel: #a");
}
