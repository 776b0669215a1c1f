//! The web front: the configuration of the web server, and what its live
//! view components decide.

pub mod message_listener;
pub mod message_receiver;
pub mod ui;
pub mod view_registration_guard;

pub use message_listener::MessageListener;
pub use message_receiver::MessageReceiver;

use vstd::prelude::*;

verus! {

/// How the web server is set up.
pub struct WebConfig {
    /// The port it listens on.
    pub listen_port: u16,
}

} // verus!
