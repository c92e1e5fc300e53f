//! Bridge between a control surface and a remote media player that is reached
//! over a message bus: decoding of the player's properties, the fixed names of
//! the remote interface, and the rules by which triggers become bus requests
//! and fetched values become notifications.

pub mod bridge;
pub mod metadata;
pub mod metadata_facts;
pub mod property;
pub mod session;
pub mod status;
pub mod text;
