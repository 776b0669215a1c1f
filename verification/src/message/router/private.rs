//! The states a connection goes through. The trait is sealed: its
//! implementations are these states and no others.

use vstd::prelude::*;

use crate::message::ClientId;

verus! {

/// A state of a client connection.
pub trait ConnectionState {}

/// The connection has just been opened by the client `client_id`.
#[derive(Clone, Debug)]
pub struct Start {
    pub client_id: ClientId,
}

/// The client is logging in.
pub struct Login {}

/// The client is registering.
pub struct Registration {}

/// The client is in the game.
pub struct Game {}

impl ConnectionState for Start {}

impl ConnectionState for Login {}

impl ConnectionState for Registration {}

impl ConnectionState for Game {}

} // verus!
