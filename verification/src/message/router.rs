//! The route of one client connection, whose state is part of its type.

mod private;

pub use private::ConnectionState;
use private::Start;

use vstd::prelude::*;

use super::{ClientId, Told, Welcome};
use crate::actors::tell_one;
use bastion::errors::SendError;

verus! {

/// Directs the messages of one client connection to the service that deals
/// with them in the connection's current state `S`.
pub struct Router<S: ConnectionState = Start> {
    extra: S,
}

impl Router<Start> {
    /// The identity of the client whose connection is just starting.
    pub closed spec fn client(&self) -> Seq<char> {
        self.extra.client_id@
    }

    /// The route of a connection of `client_id` that is just starting.
    pub fn new(client_id: ClientId) -> (r: Self)
        ensures
            r.client() == client_id@,
    {
        Self { extra: Start { client_id } }
    }

    /// The message that announces this connection to the welcome service.
    pub fn hello(&self) -> (m: Welcome)
        ensures
            m matches Welcome::Hello(c) && c@ == self.client(),
    {
        Welcome::Hello(self.extra.client_id.clone())
    }

    /// Announces this connection to the welcome service: sends
    /// `self.hello()` to the group `distributors::welcome()`, the one named
    /// `distributors::welcome_name()`.
    ///
    /// Beside the runtime's answer comes the ghost record of the send:
    /// `Welcome::Hello` of this route's client, told to the group named
    /// `distributors::welcome_name()`, accepted exactly when the answer is
    /// `Ok`.
    pub fn connect(&self) -> (r: (Result<(), SendError>, Ghost<Told<Welcome>>))
        ensures
            r.1@.to == super::distributors::welcome_name(),
            r.1@.message matches Welcome::Hello(c) && c@ == self.client(),
            r.1@.accepted <==> r.0 is Ok,
    {
        tell_one(&super::distributors::welcome(), self.hello())
    }
}

/// A connection's announcement never reaches the game server: the group it
/// is told to, as `Router::connect` records it, is not the game server's.
pub proof fn announcement_misses_the_game_server(told: Told<Welcome>)
    requires
        told.to == super::distributors::welcome_name(),
    ensures
        told.to != super::distributors::game_server_name(),
{
    super::distributors::welcome_is_not_game_server();
}

} // verus!
