//! A local bridge between a back end and a front end: each upload request
//! announces its caller, waits for an acknowledgment, and then hands the
//! files of its multipart body over to be saved under the user's downloads
//! directory.
//!
//! The library holds the logic of that bridge: the two notification channels
//! and the registry that owns them, the line of requests that wait for an
//! acknowledgment, the per-request session that orders the
//! handshake before any read of the body, and the model of what the saved
//! files become.

mod channel;
mod dispatch;
mod registry;
mod session;
mod runs;

pub use channel::{Channel, announce_receivers};
pub use dispatch::{AckDispatcher, one_ack_releases_one, other_than, released, still_waiting};
pub use registry::{
    ChannelRegistry, Direction, RegistryError, Subscription, late_subscriber_misses_history, receivable,
};
pub use session::{AckPoll, Action, Event, Phase, UploadError, UploadSession, UploadedFile, next};
pub use runs::{
    ack_taken_once, action_at, body_waits_for_ack, files_after, is_ack, missing_file_name_fails_and_keeps_earlier_files,
    phase_after, touches_body, upload, upload_overwrites, upload_round_trip,
};
