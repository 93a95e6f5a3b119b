//! Volume and mute control over an audio service's devices and per-application
//! streams.
//!
//! The library holds the decisions of every operation: validating a requested
//! level, resolving the device or stream an operation acts on, averaging channel
//! levels, and driving a callback-based client connection to a definite outcome
//! within bounded time. The caller performs the service calls that each step asks
//! for and hands back what it observed.
pub mod driver;
pub mod error;
pub mod master;
pub mod platform;
pub mod session;
pub mod stream;
pub mod volume;

pub use driver::{Action, Driver, LinkState, Observation, OpState, Stage, WaitMode};
pub use error::AudioError;
pub use platform::{get_platform, Platform};
pub use session::{
    Answer, Command, Device, Handle, Next, Phase, Reply, Request, Session, Target,
};
pub use stream::{find_stream, list_apps, parse_process_id, AppInfo, StreamEntry};
pub use volume::{channel_average, check_level, shown_volume, uniform_levels, NORMAL_VOLUME};
