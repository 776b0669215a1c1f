//! The messages that travel between the services, and the identity of the
//! clients they are about.

pub mod distributors;
pub mod group;
pub mod router;

pub use group::Group;
pub use router::Router;

use vstd::prelude::*;

use crate::actors::tell_one;
use bastion::errors::SendError;

verus! {

/// The identity of a connected client; it is also the name of the group of
/// actors that receive what is sent to that client.
#[derive(Debug, PartialEq, Eq)]
pub struct ClientId(String);

impl View for ClientId {
    type V = Seq<char>;

    /// The text of the identity.
    closed spec fn view(&self) -> Seq<char> {
        self.0@
    }
}

impl Clone for ClientId {
    /// A copy with the same text.
    fn clone(&self) -> (c: Self)
        ensures
            c@ == self@,
    {
        ClientId(self.0.clone())
    }
}

impl ClientId {
    /// The identity whose text is `id`.
    pub fn from(id: &str) -> (c: Self)
        ensures
            c@ == id@,
    {
        let id = id.to_owned();
        ClientId(id)
    }

    /// The text of the identity, borrowed.
    pub fn as_str(&self) -> (s: &str)
        ensures
            s@ == self@,
    {
        self.0.as_str()
    }

    /// The text of the identity as it is displayed.
    pub fn to_string(&self) -> (s: String)
        ensures
            s@ == self@,
    {
        self.0.clone()
    }

    /// Sends `m` to the group named after this client. Beside the runtime's
    /// answer comes the ghost record of the send: `m`, told to the group
    /// whose name is this client's text, accepted exactly when the answer is
    /// `Ok`.
    pub fn send(&self, m: Client) -> (r: (Result<(), SendError>, Ghost<Told<Client>>))
        ensures
            r.1@.to == self@,
            r.1@.message == m,
            r.1@.accepted <==> r.0 is Ok,
    {
        tell_one(&self.distributor(), m)
    }

    /// The group of actors that receive what is sent to this client: the one
    /// named after the identity's text.
    pub fn distributor(&self) -> (g: Group)
        ensures
            g@ == self@,
    {
        Group::named(self.0.as_str())
    }
}

impl<'a> From<&'a str> for ClientId {
    /// The identity whose text is `id`.
    fn from(id: &'a str) -> (c: Self)
        ensures
            c@ == id@,
    {
        ClientId::from(id)
    }
}

impl<'a> vstd::std_specs::convert::FromSpecImpl<&'a str> for ClientId {
    /// The text of the result is what `from` states; the trait's own
    /// `from_spec` names one exact value, and a `ClientId` holds a `String`,
    /// two of which with the same text are not known to be the same value,
    /// so the trait does not claim that equality.
    open spec fn obeys_from_spec() -> bool {
        false
    }

    open spec fn from_spec(id: &'a str) -> ClientId {
        choose|c: ClientId| c@ == id@
    }
}

/// What one send handed to the actor runtime: the message, the name of the
/// group it was told to, and whether the runtime took it.
pub struct Told<M> {
    pub to: Seq<char>,
    pub message: M,
    pub accepted: bool,
}

/// What a client's connection asks of the game.
#[derive(Debug, PartialEq, Eq)]
pub enum Message {
    /// Register the client.
    Register(ClientId),
    /// The registration did not go through.
    RegistrationFailed,
}

/// What the welcome service is told.
#[derive(Debug, PartialEq, Eq)]
pub enum Welcome {
    /// A client has connected and is to be greeted.
    Hello(ClientId),
}

/// What is sent to a client.
#[derive(Debug, PartialEq, Eq)]
pub enum Client {
    /// A text to show to the player.
    Welcome(String),
}

} // verus!
