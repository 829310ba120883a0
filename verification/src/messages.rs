//! Twitch messages, as typed views of parsed IRC messages.
pub mod shape;
pub mod cap;
pub mod host_target;
pub mod reconnect;
pub mod user_state;
pub mod basic;
pub mod commands;

pub use cap::{Cap, Capability};
pub use host_target::{HostTarget, HostTargetKind};
pub use reconnect::Reconnect;
pub use user_state::UserState;
pub use basic::{
    ClearChat, ClearMsg, GlobalUserState, IrcReady, Join, Notice, Part, Ping, Pong, Privmsg, Ready,
    RoomState, UserNotice, Whisper,
};
pub use commands::{Commands, CommandKind};
