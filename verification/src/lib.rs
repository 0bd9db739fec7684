//! Client-side logic for networked lighting bridges: what to send to a bridge,
//! how to read what it answers, and how a discovery session decides what to do
//! with each datagram it receives.
//!
//! The crate performs no input or output. Every operation is either a
//! description of a request to send, or a function from what was received to
//! what it means.

pub mod answer;
pub mod bridge;
pub mod discovery;
pub mod error;
pub mod lights;
pub mod request;
pub mod response;

pub use bridge::{Bridge, BridgeDevice};
pub use discovery::{find_bridges, BridgeFinder};
pub use error::ApiError;
pub use lights::{Light, LightState};
pub use response::ApiResponseSection;
