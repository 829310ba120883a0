//! The parts a typed message needs from its IRC message, checked in a fixed order.
use vstd::prelude::*;
use crate::irc::error::MessageError;
use crate::irc::message::IrcMessage;
use crate::irc::prefix::PrefixIndex;

verus! {

/// The result without its value.
pub open spec fn as_unit<T>(r: Result<T, MessageError>) -> Result<(), MessageError> {
    match r {
        Ok(_) => Ok(()),
        Err(e) => Err(e),
    }
}

/// `msg` has the command `cmd` and the parts asked for: a nickname, a first argument and
/// trailing data.
pub open spec fn shape_ok(msg: IrcMessage, cmd: &str, nick: bool, arg0: bool, data: bool) -> bool {
    &&& msg.has_command(cmd)
    &&& nick ==> (msg.spec_parts().prefix matches Some(PrefixIndex::User { .. }))
    &&& arg0 ==> msg.spec_nth_arg(0) is Some
    &&& data ==> msg.spec_parts().data is Some
}

/// `r` is the outcome of checking the shape of `msg`: the first missing part, in the order
/// command, nickname, first argument, data, gives the error.
pub open spec fn shape_result(
    r: Result<(), MessageError>,
    msg: IrcMessage,
    cmd: &str,
    nick: bool,
    arg0: bool,
    data: bool,
) -> bool {
    if !msg.has_command(cmd) {
        r matches Err(MessageError::InvalidCommand { .. })
    } else if nick && !(msg.spec_parts().prefix matches Some(PrefixIndex::User { .. })) {
        r matches Err(MessageError::ExpectedNick)
    } else if arg0 && msg.spec_nth_arg(0) is None {
        r matches Err(MessageError::ExpectedArg { pos }) && pos == 0
    } else if data && msg.spec_parts().data is None {
        r matches Err(MessageError::ExpectedData)
    } else {
        r is Ok
    }
}

/// Checks that `msg` has the command `cmd` and the parts asked for.
pub fn check_shape(msg: &IrcMessage, cmd: &str, nick: bool, arg0: bool, data: bool) -> (r: Result<(), MessageError>)
    ensures
        shape_result(r, *msg, cmd, nick, arg0, data),
        r is Ok <==> shape_ok(*msg, cmd, nick, arg0, data),
{
    match msg.expect_command(cmd) {
        Err(e) => return Err(e),
        Ok(()) => {},
    }
    if nick {
        match msg.expect_nick() {
            Err(e) => return Err(e),
            Ok(_) => {},
        }
    }
    if arg0 {
        match msg.expect_arg(0) {
            Err(e) => return Err(e),
            Ok(_) => {},
        }
    }
    if data {
        match msg.expect_data() {
            Err(e) => return Err(e),
            Ok(_) => {},
        }
    }
    Ok(())
}

} // verus!
