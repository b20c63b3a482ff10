//! Per-group voice-session and playback-queue coordinator.
//!
//! Many concurrent, arbitrarily ordered user commands from independent
//! groups are mapped onto one serialized, ordered playback timeline per
//! group. The library holds the data structures and the rules: the
//! playback queue, the per-group voice session state machine, the
//! session registry with its single-session-per-group invariant, and the
//! command coordinator that dispatches parsed intents. The chat
//! front-end, the music catalog client and the audio transport are
//! external collaborators: the coordinator returns the transport actions
//! to perform, and the surrounding program performs them and feeds
//! transport events back in.

pub mod config;
pub mod coordinator;
pub mod error;
pub mod handles;
pub mod queue;
pub mod registry;
pub mod session;
pub mod track;

pub use config::Client;
pub use config::Config;
pub use config::LogLevel;
pub use coordinator::CommandCoordinator;
pub use error::CommandError;
pub use handles::MusicClient;
pub use handles::SongHandle;
pub use handles::SubsonicClientHandle;
pub use handles::SubsonicSongHandle;
pub use queue::PlaybackQueue;
pub use registry::SessionRegistry;
pub use session::PlaybackState;
pub use session::TransportAction;
pub use session::VoiceSession;
pub use track::TrackRecord;
