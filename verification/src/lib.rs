//! Identities, messages and routing decisions of a small actor-based game
//! server whose browser views are live components.
//!
//! The library holds the values that travel between the services (client and
//! view identities, the messages of the welcome and game services), the
//! decisions those services take on them, and the configuration defaults.
//! Everything that touches the network, the actor runtime's event loops or the
//! browser sits in the application around it.

mod actors;
mod view_id;

pub mod message;
pub mod server;
pub mod util;
pub mod web;
pub mod welcome;

pub use view_id::ViewId;
