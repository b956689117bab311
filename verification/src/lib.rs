//! Verified core of a uProtocol transport over DDS.
//!
//! The library holds everything that a DDS carriage of uProtocol decides:
//! which configuration is acceptable, how a message becomes an outer DDS
//! sample and back, which listener a sample reaches, when a send is complete,
//! what the health handle reports, and in which order a transport is brought
//! up and torn down. The surrounding application owns the DDS entities, the
//! threads and the sockets; it performs the actions that the library asks for
//! and hands back what came of them.

pub mod attributes;
pub mod buffer;
pub mod builder;
pub mod classic;
pub mod config;
pub mod delivery;
pub mod dispatch;
pub mod family;
pub mod health;
pub mod owned;
pub mod payload;
pub mod registry;
pub mod roles;
pub mod setup;
pub mod status;
pub mod text;
pub mod transport;
pub mod uri;
pub mod zero_copy;

pub use classic::{UPTransportDds, UpDdsClassicSampleV1};
pub use config::{AcknowledgmentMode, DdsConfig, DdsQos, Interval, Reliability};
pub use family::{CLASSIC_TOPIC_V1, CLASSIC_TYPE_V1};
pub use health::{DdsHealth, HealthErrorKind, HealthEvent, HealthSnapshot};
