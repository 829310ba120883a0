//! All Twitch messages in one type.
use vstd::prelude::*;
use vstd::string::StringSliceAdditionalSpecFns;
use crate::irc::error::MessageError;
use crate::irc::message::{IrcMessage, parse_result};
use crate::irc::FromIrcMessage;
use crate::maybe_owned::MaybeOwned;
use crate::messages::shape::{shape_result, as_unit};
use crate::messages::cap::cap_result;
use crate::messages::host_target::host_target_result;
use crate::messages::user_state::user_state_result;
use crate::messages::{
    Cap, ClearChat, ClearMsg, GlobalUserState, HostTarget, IrcReady, Join, Notice, Part, Ping, Pong,
    Privmsg, Ready, Reconnect, RoomState, UserNotice, UserState, Whisper,
};

verus! {

/// Which kind of message a command names.
#[derive(Debug, Copy, Clone, PartialEq, Eq, Structural, Hash)]
pub enum CommandKind {
    /// A command without a type of its own
    Raw,
    /// `IRC_READY`
    IrcReady,
    /// `READY`
    Ready,
    /// `CAP`
    Cap,
    /// `CLEAR_CHAT`
    ClearChat,
    /// `CLEAR_MSG`
    ClearMsg,
    /// `GLOBAL_USER_STATE`
    GlobalUserState,
    /// `HOST_TARGET`
    HostTarget,
    /// `JOIN`
    Join,
    /// `NOTICE`
    Notice,
    /// `PART`
    Part,
    /// `PING`
    Ping,
    /// `PONG`
    Pong,
    /// `PRIVMSG`
    Privmsg,
    /// `RECONNECT`
    Reconnect,
    /// `ROOM_STATE`
    RoomState,
    /// `USER_NOTICE`
    UserNotice,
    /// `USER_STATE`
    UserState,
    /// `WHISPER`
    Whisper,
}

/// The kind of message that `msg`'s command names.
pub open spec fn command_kind(msg: IrcMessage) -> CommandKind {
    if msg.has_command(IrcMessage::IRC_READY) {
        CommandKind::IrcReady
    } else if msg.has_command(IrcMessage::READY) {
        CommandKind::Ready
    } else if msg.has_command(IrcMessage::CAP) {
        CommandKind::Cap
    } else if msg.has_command(IrcMessage::CLEAR_CHAT) {
        CommandKind::ClearChat
    } else if msg.has_command(IrcMessage::CLEAR_MSG) {
        CommandKind::ClearMsg
    } else if msg.has_command(IrcMessage::GLOBAL_USER_STATE) {
        CommandKind::GlobalUserState
    } else if msg.has_command(IrcMessage::HOST_TARGET) {
        CommandKind::HostTarget
    } else if msg.has_command(IrcMessage::JOIN) {
        CommandKind::Join
    } else if msg.has_command(IrcMessage::NOTICE) {
        CommandKind::Notice
    } else if msg.has_command(IrcMessage::PART) {
        CommandKind::Part
    } else if msg.has_command(IrcMessage::PING) {
        CommandKind::Ping
    } else if msg.has_command(IrcMessage::PONG) {
        CommandKind::Pong
    } else if msg.has_command(IrcMessage::PRIVMSG) {
        CommandKind::Privmsg
    } else if msg.has_command(IrcMessage::RECONNECT) {
        CommandKind::Reconnect
    } else if msg.has_command(IrcMessage::ROOM_STATE) {
        CommandKind::RoomState
    } else if msg.has_command(IrcMessage::USER_NOTICE) {
        CommandKind::UserNotice
    } else if msg.has_command(IrcMessage::USER_STATE) {
        CommandKind::UserState
    } else if msg.has_command(IrcMessage::WHISPER) {
        CommandKind::Whisper
    } else {
        CommandKind::Raw
    }
}

/// The kind of message that `msg`'s command names.
pub fn kind_of(msg: &IrcMessage) -> (r: CommandKind)
    ensures
        r == command_kind(*msg),
{
    if msg.is_command(IrcMessage::IRC_READY) {
        CommandKind::IrcReady
    } else if msg.is_command(IrcMessage::READY) {
        CommandKind::Ready
    } else if msg.is_command(IrcMessage::CAP) {
        CommandKind::Cap
    } else if msg.is_command(IrcMessage::CLEAR_CHAT) {
        CommandKind::ClearChat
    } else if msg.is_command(IrcMessage::CLEAR_MSG) {
        CommandKind::ClearMsg
    } else if msg.is_command(IrcMessage::GLOBAL_USER_STATE) {
        CommandKind::GlobalUserState
    } else if msg.is_command(IrcMessage::HOST_TARGET) {
        CommandKind::HostTarget
    } else if msg.is_command(IrcMessage::JOIN) {
        CommandKind::Join
    } else if msg.is_command(IrcMessage::NOTICE) {
        CommandKind::Notice
    } else if msg.is_command(IrcMessage::PART) {
        CommandKind::Part
    } else if msg.is_command(IrcMessage::PING) {
        CommandKind::Ping
    } else if msg.is_command(IrcMessage::PONG) {
        CommandKind::Pong
    } else if msg.is_command(IrcMessage::PRIVMSG) {
        CommandKind::Privmsg
    } else if msg.is_command(IrcMessage::RECONNECT) {
        CommandKind::Reconnect
    } else if msg.is_command(IrcMessage::ROOM_STATE) {
        CommandKind::RoomState
    } else if msg.is_command(IrcMessage::USER_NOTICE) {
        CommandKind::UserNotice
    } else if msg.is_command(IrcMessage::USER_STATE) {
        CommandKind::UserState
    } else if msg.is_command(IrcMessage::WHISPER) {
        CommandKind::Whisper
    } else {
        CommandKind::Raw
    }
}

/// `r` is the outcome of reading `msg` as the kind of message its command names.
pub open spec fn commands_result(r: Result<(), MessageError>, msg: IrcMessage) -> bool {
    match command_kind(msg) {
        CommandKind::Raw => r is Ok,
        CommandKind::IrcReady => shape_result(r, msg, IrcMessage::IRC_READY, false, true, false),
        CommandKind::Ready => shape_result(r, msg, IrcMessage::READY, false, true, false),
        CommandKind::Cap => cap_result(r, msg),
        CommandKind::ClearChat => shape_result(r, msg, IrcMessage::CLEAR_CHAT, false, true, false),
        CommandKind::ClearMsg => shape_result(r, msg, IrcMessage::CLEAR_MSG, false, true, true),
        CommandKind::GlobalUserState => shape_result(r, msg, IrcMessage::GLOBAL_USER_STATE, false, false, false),
        CommandKind::HostTarget => host_target_result(r, msg),
        CommandKind::Join => shape_result(r, msg, IrcMessage::JOIN, true, true, false),
        CommandKind::Notice => shape_result(r, msg, IrcMessage::NOTICE, false, true, true),
        CommandKind::Part => shape_result(r, msg, IrcMessage::PART, true, true, false),
        CommandKind::Ping => shape_result(r, msg, IrcMessage::PING, false, false, true),
        CommandKind::Pong => shape_result(r, msg, IrcMessage::PONG, false, false, true),
        CommandKind::Privmsg => shape_result(r, msg, IrcMessage::PRIVMSG, true, true, true),
        CommandKind::Reconnect => shape_result(r, msg, IrcMessage::RECONNECT, false, false, false),
        CommandKind::RoomState => shape_result(r, msg, IrcMessage::ROOM_STATE, false, true, false),
        CommandKind::UserNotice => shape_result(r, msg, IrcMessage::USER_NOTICE, false, true, false),
        CommandKind::UserState => user_state_result(r, msg),
        CommandKind::Whisper => shape_result(r, msg, IrcMessage::WHISPER, true, false, true),
    }
}

/// What reading `msg` as one of all messages gives: it fails as its own type does, and
/// succeeds with the variant of its command, which keeps the message and its text.
pub open spec fn commands_read<'a>(msg: IrcMessage<'a>, r: Result<Commands<'a>, MessageError>) -> bool {
    &&& commands_result(as_unit(r), msg)
    &&& r matches Ok(c) ==> c.kind() == command_kind(msg) && c.spec_msg() == msg && c.spec_raw_bytes()
        == msg.raw_bytes()
}

/// An enum of all possible Twitch messages.
///
/// This is useful if you just want to subscribe to ***all** messages.
#[derive(Debug)]
pub enum Commands<'a> {
    /// An raw event occured
    Raw(IrcMessage<'a>),
    /// A capabilities event occured
    IrcReady(IrcReady<'a>),
    /// A ready event occured
    Ready(Ready<'a>),
    /// A capability event occured
    Cap(Cap<'a>),
    /// A ClearChat event occured
    ClearChat(ClearChat<'a>),
    /// A ClearMsg event occured
    ClearMsg(ClearMsg<'a>),
    /// A GlobalUserState event occured
    GlobalUserState(GlobalUserState<'a>),
    /// A HostTarget event occured
    HostTarget(HostTarget<'a>),
    /// A Join event occured
    Join(Join<'a>),
    /// A Notice event occured
    Notice(Notice<'a>),
    /// A Part event occured
    Part(Part<'a>),
    /// A Ping event occured
    Ping(Ping<'a>),
    /// A Pong event occured
    Pong(Pong<'a>),
    /// A Privmsg event occured
    Privmsg(Privmsg<'a>),
    /// A Reconnect event occured
    Reconnect(Reconnect<'a>),
    /// A RoomState event occured
    RoomState(RoomState<'a>),
    /// A UserNotice event occured
    UserNotice(UserNotice<'a>),
    /// A UserState event occured
    UserState(UserState<'a>),
    /// A Whisper event occured
    Whisper(Whisper<'a>),
}

impl<'a> Commands<'a> {
    /// The kind of this message.
    pub open spec fn kind(self) -> CommandKind {
        match self {
            Commands::Raw(_) => CommandKind::Raw,
            Commands::IrcReady(_) => CommandKind::IrcReady,
            Commands::Ready(_) => CommandKind::Ready,
            Commands::Cap(_) => CommandKind::Cap,
            Commands::ClearChat(_) => CommandKind::ClearChat,
            Commands::ClearMsg(_) => CommandKind::ClearMsg,
            Commands::GlobalUserState(_) => CommandKind::GlobalUserState,
            Commands::HostTarget(_) => CommandKind::HostTarget,
            Commands::Join(_) => CommandKind::Join,
            Commands::Notice(_) => CommandKind::Notice,
            Commands::Part(_) => CommandKind::Part,
            Commands::Ping(_) => CommandKind::Ping,
            Commands::Pong(_) => CommandKind::Pong,
            Commands::Privmsg(_) => CommandKind::Privmsg,
            Commands::Reconnect(_) => CommandKind::Reconnect,
            Commands::RoomState(_) => CommandKind::RoomState,
            Commands::UserNotice(_) => CommandKind::UserNotice,
            Commands::UserState(_) => CommandKind::UserState,
            Commands::Whisper(_) => CommandKind::Whisper,
        }
    }

    /// The message this was read from.
    pub open spec fn spec_msg(self) -> IrcMessage<'a> {
        match self {
            Commands::Raw(m) => m,
            Commands::IrcReady(m) => m.spec_msg(),
            Commands::Ready(m) => m.spec_msg(),
            Commands::Cap(m) => m.spec_msg(),
            Commands::ClearChat(m) => m.spec_msg(),
            Commands::ClearMsg(m) => m.spec_msg(),
            Commands::GlobalUserState(m) => m.spec_msg(),
            Commands::HostTarget(m) => m.spec_msg(),
            Commands::Join(m) => m.spec_msg(),
            Commands::Notice(m) => m.spec_msg(),
            Commands::Part(m) => m.spec_msg(),
            Commands::Ping(m) => m.spec_msg(),
            Commands::Pong(m) => m.spec_msg(),
            Commands::Privmsg(m) => m.spec_msg(),
            Commands::Reconnect(m) => m.spec_msg(),
            Commands::RoomState(m) => m.spec_msg(),
            Commands::UserNotice(m) => m.spec_msg(),
            Commands::UserState(m) => m.spec_msg(),
            Commands::Whisper(m) => m.spec_msg(),
        }
    }

    /// The raw bytes of this message.
    pub open spec fn spec_raw_bytes(self) -> Seq<u8> {
        match self {
            Commands::Raw(m) => m.raw_bytes(),
            Commands::IrcReady(m) => m.spec_msg().raw_bytes(),
            Commands::Ready(m) => m.spec_msg().raw_bytes(),
            Commands::Cap(m) => m.spec_msg().raw_bytes(),
            Commands::ClearChat(m) => m.spec_msg().raw_bytes(),
            Commands::ClearMsg(m) => m.spec_msg().raw_bytes(),
            Commands::GlobalUserState(m) => m.spec_msg().raw_bytes(),
            Commands::HostTarget(m) => m.spec_msg().raw_bytes(),
            Commands::Join(m) => m.spec_msg().raw_bytes(),
            Commands::Notice(m) => m.spec_msg().raw_bytes(),
            Commands::Part(m) => m.spec_msg().raw_bytes(),
            Commands::Ping(m) => m.spec_msg().raw_bytes(),
            Commands::Pong(m) => m.spec_msg().raw_bytes(),
            Commands::Privmsg(m) => m.spec_msg().raw_bytes(),
            Commands::Reconnect(m) => m.spec_msg().raw_bytes(),
            Commands::RoomState(m) => m.spec_msg().raw_bytes(),
            Commands::UserNotice(m) => m.spec_msg().raw_bytes(),
            Commands::UserState(m) => m.spec_msg().raw_bytes(),
            Commands::Whisper(m) => m.spec_msg().raw_bytes(),
        }
    }

    /// Get the raw string out of this
    pub fn raw(&'a self) -> (r: &'a str)
        ensures
            r.spec_bytes() == self.spec_raw_bytes(),
    {
        match self {
            Commands::Raw(msg) => msg.get_raw(),
            Commands::IrcReady(msg) => msg.raw(),
            Commands::Ready(msg) => msg.raw(),
            Commands::Cap(msg) => msg.raw(),
            Commands::ClearChat(msg) => msg.raw(),
            Commands::ClearMsg(msg) => msg.raw(),
            Commands::GlobalUserState(msg) => msg.raw(),
            Commands::HostTarget(msg) => msg.raw(),
            Commands::Join(msg) => msg.raw(),
            Commands::Notice(msg) => msg.raw(),
            Commands::Part(msg) => msg.raw(),
            Commands::Ping(msg) => msg.raw(),
            Commands::Pong(msg) => msg.raw(),
            Commands::Privmsg(msg) => msg.raw(),
            Commands::Reconnect(msg) => msg.raw(),
            Commands::RoomState(msg) => msg.raw(),
            Commands::UserNotice(msg) => msg.raw(),
            Commands::UserState(msg) => msg.raw(),
            Commands::Whisper(msg) => msg.raw(),
        }
    }

    /// An owned copy of this message.
    pub fn into_owned(self) -> (r: Commands<'static>)
        ensures
            r.kind() == self.kind(),
            r.spec_raw_bytes() == self.spec_raw_bytes(),
    {
        match self {
            Commands::Raw(s) => Commands::Raw(s.into_owned()),
            Commands::IrcReady(s) => Commands::IrcReady(s.into_owned()),
            Commands::Ready(s) => Commands::Ready(s.into_owned()),
            Commands::Cap(s) => Commands::Cap(s.into_owned()),
            Commands::ClearChat(s) => Commands::ClearChat(s.into_owned()),
            Commands::ClearMsg(s) => Commands::ClearMsg(s.into_owned()),
            Commands::GlobalUserState(s) => Commands::GlobalUserState(s.into_owned()),
            Commands::HostTarget(s) => Commands::HostTarget(s.into_owned()),
            Commands::Join(s) => Commands::Join(s.into_owned()),
            Commands::Notice(s) => Commands::Notice(s.into_owned()),
            Commands::Part(s) => Commands::Part(s.into_owned()),
            Commands::Ping(s) => Commands::Ping(s.into_owned()),
            Commands::Pong(s) => Commands::Pong(s.into_owned()),
            Commands::Privmsg(s) => Commands::Privmsg(s.into_owned()),
            Commands::Reconnect(s) => Commands::Reconnect(s.into_owned()),
            Commands::RoomState(s) => Commands::RoomState(s.into_owned()),
            Commands::UserNotice(s) => Commands::UserNotice(s.into_owned()),
            Commands::UserState(s) => Commands::UserState(s.into_owned()),
            Commands::Whisper(s) => Commands::Whisper(s.into_owned()),
        }
    }
}

impl<'a> FromIrcMessage<'a> for Commands<'a> {
    open spec fn raw_text(self) -> Seq<char> {
        self.spec_msg().spec_raw()
    }

    open spec fn accepts(msg: IrcMessage<'a>) -> bool {
        commands_result(Ok(()), msg)
    }

    fn from_irc(msg: IrcMessage<'a>) -> (r: Result<Self, MessageError>)
        ensures
            commands_read(msg, r),
    {
        match kind_of(&msg) {
            CommandKind::Raw => Ok(Commands::Raw(msg)),
            CommandKind::IrcReady => match IrcReady::from_irc(msg) {
                Ok(m) => Ok(Commands::IrcReady(m)),
                Err(e) => Err(e),
            },
            CommandKind::Ready => match Ready::from_irc(msg) {
                Ok(m) => Ok(Commands::Ready(m)),
                Err(e) => Err(e),
            },
            CommandKind::Cap => match Cap::from_irc(msg) {
                Ok(m) => Ok(Commands::Cap(m)),
                Err(e) => Err(e),
            },
            CommandKind::ClearChat => match ClearChat::from_irc(msg) {
                Ok(m) => Ok(Commands::ClearChat(m)),
                Err(e) => Err(e),
            },
            CommandKind::ClearMsg => match ClearMsg::from_irc(msg) {
                Ok(m) => Ok(Commands::ClearMsg(m)),
                Err(e) => Err(e),
            },
            CommandKind::GlobalUserState => match GlobalUserState::from_irc(msg) {
                Ok(m) => Ok(Commands::GlobalUserState(m)),
                Err(e) => Err(e),
            },
            CommandKind::HostTarget => match HostTarget::from_irc(msg) {
                Ok(m) => Ok(Commands::HostTarget(m)),
                Err(e) => Err(e),
            },
            CommandKind::Join => match Join::from_irc(msg) {
                Ok(m) => Ok(Commands::Join(m)),
                Err(e) => Err(e),
            },
            CommandKind::Notice => match Notice::from_irc(msg) {
                Ok(m) => Ok(Commands::Notice(m)),
                Err(e) => Err(e),
            },
            CommandKind::Part => match Part::from_irc(msg) {
                Ok(m) => Ok(Commands::Part(m)),
                Err(e) => Err(e),
            },
            CommandKind::Ping => match Ping::from_irc(msg) {
                Ok(m) => Ok(Commands::Ping(m)),
                Err(e) => Err(e),
            },
            CommandKind::Pong => match Pong::from_irc(msg) {
                Ok(m) => Ok(Commands::Pong(m)),
                Err(e) => Err(e),
            },
            CommandKind::Privmsg => match Privmsg::from_irc(msg) {
                Ok(m) => Ok(Commands::Privmsg(m)),
                Err(e) => Err(e),
            },
            CommandKind::Reconnect => match Reconnect::from_irc(msg) {
                Ok(m) => Ok(Commands::Reconnect(m)),
                Err(e) => Err(e),
            },
            CommandKind::RoomState => match RoomState::from_irc(msg) {
                Ok(m) => Ok(Commands::RoomState(m)),
                Err(e) => Err(e),
            },
            CommandKind::UserNotice => match UserNotice::from_irc(msg) {
                Ok(m) => Ok(Commands::UserNotice(m)),
                Err(e) => Err(e),
            },
            CommandKind::UserState => match UserState::from_irc(msg) {
                Ok(m) => Ok(Commands::UserState(m)),
                Err(e) => Err(e),
            },
            CommandKind::Whisper => match Whisper::from_irc(msg) {
                Ok(m) => Ok(Commands::Whisper(m)),
                Err(e) => Err(e),
            },
        }
    }

    /// Consumes this wrapper and returns the raw `MaybeOwned<'a>`
    fn into_inner(self) -> MaybeOwned<'a> {
        match self {
            Commands::Raw(msg) => msg.into_inner(),
            Commands::IrcReady(msg) => msg.into_inner(),
            Commands::Ready(msg) => msg.into_inner(),
            Commands::Cap(msg) => msg.into_inner(),
            Commands::ClearChat(msg) => msg.into_inner(),
            Commands::ClearMsg(msg) => msg.into_inner(),
            Commands::GlobalUserState(msg) => msg.into_inner(),
            Commands::HostTarget(msg) => msg.into_inner(),
            Commands::Join(msg) => msg.into_inner(),
            Commands::Notice(msg) => msg.into_inner(),
            Commands::Part(msg) => msg.into_inner(),
            Commands::Ping(msg) => msg.into_inner(),
            Commands::Pong(msg) => msg.into_inner(),
            Commands::Privmsg(msg) => msg.into_inner(),
            Commands::Reconnect(msg) => msg.into_inner(),
            Commands::RoomState(msg) => msg.into_inner(),
            Commands::UserNotice(msg) => msg.into_inner(),
            Commands::UserState(msg) => msg.into_inner(),
            Commands::Whisper(msg) => msg.into_inner(),
        }
    }
}


impl<'a> Clone for Commands<'a> {
    fn clone(&self) -> (r: Self)
        ensures
            r.kind() == self.kind(),
            r.spec_raw_bytes() == self.spec_raw_bytes(),
    {
        match self {
            Commands::Raw(m) => Commands::Raw(m.clone()),
            Commands::IrcReady(m) => Commands::IrcReady(m.clone()),
            Commands::Ready(m) => Commands::Ready(m.clone()),
            Commands::Cap(m) => Commands::Cap(m.clone()),
            Commands::ClearChat(m) => Commands::ClearChat(m.clone()),
            Commands::ClearMsg(m) => Commands::ClearMsg(m.clone()),
            Commands::GlobalUserState(m) => Commands::GlobalUserState(m.clone()),
            Commands::HostTarget(m) => Commands::HostTarget(m.clone()),
            Commands::Join(m) => Commands::Join(m.clone()),
            Commands::Notice(m) => Commands::Notice(m.clone()),
            Commands::Part(m) => Commands::Part(m.clone()),
            Commands::Ping(m) => Commands::Ping(m.clone()),
            Commands::Pong(m) => Commands::Pong(m.clone()),
            Commands::Privmsg(m) => Commands::Privmsg(m.clone()),
            Commands::Reconnect(m) => Commands::Reconnect(m.clone()),
            Commands::RoomState(m) => Commands::RoomState(m.clone()),
            Commands::UserNotice(m) => Commands::UserNotice(m.clone()),
            Commands::UserState(m) => Commands::UserState(m.clone()),
            Commands::Whisper(m) => Commands::Whisper(m.clone()),
        }
    }
}

} // verus!

verus! {

/// Whatever its kind, a message read from a line keeps the whole line as its raw text, and a
/// line whose command is none of the known ones is read as a raw message.
pub proof fn commands_keep_the_line<'a>(input: MaybeOwned<'a>, m: IrcMessage<'a>, c: Commands<'a>)
    requires
        parse_result(input, Ok(m)),
        commands_read(m, Ok(c)),
    ensures
        c.spec_raw_bytes() == input.bytes(),
        command_kind(m) == CommandKind::Raw ==> c is Raw,
{
}

} // verus!

verus! {

/// What [`Commands::raw`] gives for a message read from a line is that line, whatever the
/// variant; a line of no known command is read as a raw message.
pub proof fn raw_gives_back_the_line<'a>(input: &'a str, m: IrcMessage<'a>, c: Commands<'a>, raw: &str)
    requires
        parse_result(MaybeOwned::Borrowed(input), Ok(m)),
        commands_read(m, Ok(c)),
        raw.spec_bytes() == c.spec_raw_bytes(),
    ensures
        raw@ == input@,
        command_kind(m) == CommandKind::Raw ==> c is Raw,
{
    commands_keep_the_line(MaybeOwned::Borrowed(input), m, c);
    vstd::utf8::encode_utf8_decode_utf8(raw@);
    vstd::utf8::encode_utf8_decode_utf8(input@);
}

} // verus!

verus! {

/// The command names, byte by byte.
proof fn command_names_bytes()
    ensures
        IrcMessage::IRC_READY.spec_bytes() =~= seq![0x30u8, 0x30u8, 0x31u8],
        IrcMessage::READY.spec_bytes() =~= seq![0x33u8, 0x37u8, 0x36u8],
        IrcMessage::CAP.spec_bytes() =~= seq![0x43u8, 0x41u8, 0x50u8],
        IrcMessage::CLEAR_CHAT.spec_bytes().len() == 9 && IrcMessage::CLEAR_CHAT.spec_bytes()[0] == 0x43u8,
        IrcMessage::CLEAR_MSG.spec_bytes().len() == 8,
        IrcMessage::GLOBAL_USER_STATE.spec_bytes().len() == 15,
        IrcMessage::HOST_TARGET.spec_bytes().len() == 10 && IrcMessage::HOST_TARGET.spec_bytes()[0] == 0x48u8,
        IrcMessage::JOIN.spec_bytes().len() == 4 && IrcMessage::JOIN.spec_bytes()[0] == 0x4au8,
        IrcMessage::NOTICE.spec_bytes().len() == 6,
        IrcMessage::PART.spec_bytes() =~= seq![0x50u8, 0x41u8, 0x52u8, 0x54u8],
        IrcMessage::PING.spec_bytes() =~= seq![0x50u8, 0x49u8, 0x4eu8, 0x47u8],
        IrcMessage::PONG.spec_bytes() =~= seq![0x50u8, 0x4fu8, 0x4eu8, 0x47u8],
        IrcMessage::PRIVMSG.spec_bytes().len() == 7 && IrcMessage::PRIVMSG.spec_bytes()[0] == 0x50u8,
        IrcMessage::RECONNECT.spec_bytes().len() == 9 && IrcMessage::RECONNECT.spec_bytes()[0] == 0x52u8
            && IrcMessage::RECONNECT.spec_bytes()[1] == 0x45u8,
        IrcMessage::ROOM_STATE.spec_bytes().len() == 9 && IrcMessage::ROOM_STATE.spec_bytes()[0] == 0x52u8
            && IrcMessage::ROOM_STATE.spec_bytes()[1] == 0x4fu8,
        IrcMessage::USER_NOTICE.spec_bytes().len() == 10 && IrcMessage::USER_NOTICE.spec_bytes()[0] == 0x55u8,
        IrcMessage::USER_STATE.spec_bytes().len() == 9 && IrcMessage::USER_STATE.spec_bytes()[0] == 0x55u8,
        IrcMessage::WHISPER.spec_bytes().len() == 7 && IrcMessage::WHISPER.spec_bytes()[0] == 0x57u8,
{
    reveal_strlit("001");
    reveal_strlit("376");
    reveal_strlit("CAP");
    reveal_strlit("CLEARCHAT");
    reveal_strlit("CLEARMSG");
    reveal_strlit("GLOBALUSERSTATE");
    reveal_strlit("HOSTTARGET");
    reveal_strlit("JOIN");
    reveal_strlit("NOTICE");
    reveal_strlit("PART");
    reveal_strlit("PING");
    reveal_strlit("PONG");
    reveal_strlit("PRIVMSG");
    reveal_strlit("RECONNECT");
    reveal_strlit("ROOMSTATE");
    reveal_strlit("USERNOTICE");
    reveal_strlit("USERSTATE");
    reveal_strlit("WHISPER");
    assert(vstd::string::is_ascii("001"));
    assert(vstd::string::is_ascii("376"));
    assert(vstd::string::is_ascii("CAP"));
    assert(vstd::string::is_ascii("CLEARCHAT"));
    assert(vstd::string::is_ascii("CLEARMSG"));
    assert(vstd::string::is_ascii("GLOBALUSERSTATE"));
    assert(vstd::string::is_ascii("HOSTTARGET"));
    assert(vstd::string::is_ascii("JOIN"));
    assert(vstd::string::is_ascii("NOTICE"));
    assert(vstd::string::is_ascii("PART"));
    assert(vstd::string::is_ascii("PING"));
    assert(vstd::string::is_ascii("PONG"));
    assert(vstd::string::is_ascii("PRIVMSG"));
    assert(vstd::string::is_ascii("RECONNECT"));
    assert(vstd::string::is_ascii("ROOMSTATE"));
    assert(vstd::string::is_ascii("USERNOTICE"));
    assert(vstd::string::is_ascii("USERSTATE"));
    assert(vstd::string::is_ascii("WHISPER"));
}

/// Each known command is read as its own kind: a message whose command is one of the command
/// names is of the kind that name stands for, and only a message of none of them is raw.
pub proof fn each_command_has_its_kind(msg: IrcMessage)
    ensures
        msg.has_command(IrcMessage::IRC_READY) ==> command_kind(msg) == CommandKind::IrcReady,
        msg.has_command(IrcMessage::READY) ==> command_kind(msg) == CommandKind::Ready,
        msg.has_command(IrcMessage::CAP) ==> command_kind(msg) == CommandKind::Cap,
        msg.has_command(IrcMessage::CLEAR_CHAT) ==> command_kind(msg) == CommandKind::ClearChat,
        msg.has_command(IrcMessage::CLEAR_MSG) ==> command_kind(msg) == CommandKind::ClearMsg,
        msg.has_command(IrcMessage::GLOBAL_USER_STATE) ==> command_kind(msg) == CommandKind::GlobalUserState,
        msg.has_command(IrcMessage::HOST_TARGET) ==> command_kind(msg) == CommandKind::HostTarget,
        msg.has_command(IrcMessage::JOIN) ==> command_kind(msg) == CommandKind::Join,
        msg.has_command(IrcMessage::NOTICE) ==> command_kind(msg) == CommandKind::Notice,
        msg.has_command(IrcMessage::PART) ==> command_kind(msg) == CommandKind::Part,
        msg.has_command(IrcMessage::PING) ==> command_kind(msg) == CommandKind::Ping,
        msg.has_command(IrcMessage::PONG) ==> command_kind(msg) == CommandKind::Pong,
        msg.has_command(IrcMessage::PRIVMSG) ==> command_kind(msg) == CommandKind::Privmsg,
        msg.has_command(IrcMessage::RECONNECT) ==> command_kind(msg) == CommandKind::Reconnect,
        msg.has_command(IrcMessage::ROOM_STATE) ==> command_kind(msg) == CommandKind::RoomState,
        msg.has_command(IrcMessage::USER_NOTICE) ==> command_kind(msg) == CommandKind::UserNotice,
        msg.has_command(IrcMessage::USER_STATE) ==> command_kind(msg) == CommandKind::UserState,
        msg.has_command(IrcMessage::WHISPER) ==> command_kind(msg) == CommandKind::Whisper,
        command_kind(msg) == CommandKind::Raw <==> !(msg.has_command(IrcMessage::IRC_READY)
            || msg.has_command(IrcMessage::READY) || msg.has_command(IrcMessage::CAP)
            || msg.has_command(IrcMessage::CLEAR_CHAT) || msg.has_command(IrcMessage::CLEAR_MSG)
            || msg.has_command(IrcMessage::GLOBAL_USER_STATE) || msg.has_command(IrcMessage::HOST_TARGET)
            || msg.has_command(IrcMessage::JOIN) || msg.has_command(IrcMessage::NOTICE)
            || msg.has_command(IrcMessage::PART) || msg.has_command(IrcMessage::PING)
            || msg.has_command(IrcMessage::PONG) || msg.has_command(IrcMessage::PRIVMSG)
            || msg.has_command(IrcMessage::RECONNECT) || msg.has_command(IrcMessage::ROOM_STATE)
            || msg.has_command(IrcMessage::USER_NOTICE) || msg.has_command(IrcMessage::USER_STATE)
            || msg.has_command(IrcMessage::WHISPER)),
{
    command_names_bytes();
}

} // verus!
