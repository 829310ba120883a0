//! The decisions of the main loop: idle detection, rate limits, waiting for messages, retries.
pub mod timeout;
pub mod activity;
pub mod status;
pub mod error;
pub mod retry;
pub mod rate_limit;
pub mod wait_for;
pub mod runner_error;
pub mod step;
pub mod control;

pub use status::Status;
pub use error::Error;
pub use retry::RetryStrategy;
pub use timeout::{TimeoutState, IdleEvent, IdleAction, idle_step};
pub use activity::{Activity, ActivitySender, ActivityReceiver};
