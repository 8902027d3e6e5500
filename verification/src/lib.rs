//! Peer-to-peer networking core: wire framing, per-connection channels with
//! message dispatch and cooperative shutdown, outbound connection planning,
//! and the per-channel protocol state machines (handshake, keepalive, peer
//! discovery, bootstrap).

pub mod channel;
pub mod connector;
pub mod error;
pub mod event;
pub mod message;
pub mod protocol_address;
pub mod protocol_jobs_manager;
pub mod protocol_ping;
pub mod protocol_seed;
pub mod protocol_version;
pub mod settings;
pub mod wire;

pub use channel::Channel;
pub use channel::Subscription;
pub use connector::Connector;
pub use connector::DialPlan;
pub use connector::TransportKind;
pub use error::NetError;
pub use event::BaseEvent;
pub use message::Message;
pub use message::MessageView;
pub use message::decode_frame;
pub use message::encode_frame;
pub use message::frame_body_len;
pub use protocol_address::AddressAction;
pub use protocol_address::AddressEvent;
pub use protocol_address::ProtocolAddress;
pub use protocol_jobs_manager::ProtocolJobsManager;
pub use protocol_jobs_manager::ProtocolJobsManagerPtr;
pub use protocol_jobs_manager::ProtocolKind;
pub use protocol_jobs_manager::TaskSlot;
pub use protocol_ping::PingAction;
pub use protocol_ping::PingEvent;
pub use protocol_ping::PingState;
pub use protocol_ping::ProtocolPing;
pub use protocol_seed::ProtocolSeed;
pub use protocol_seed::SeedAction;
pub use protocol_seed::SeedEvent;
pub use protocol_seed::SeedState;
pub use protocol_version::ProtocolVersion;
pub use protocol_version::VersionAction;
pub use protocol_version::VersionEvent;
pub use protocol_version::VersionState;
pub use settings::Settings;
pub use settings::SettingsPtr;
