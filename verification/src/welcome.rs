//! The welcome service: it greets every client that connects.

use vstd::prelude::*;

use crate::message::{Client, ClientId, Told, Welcome};
use bastion::errors::SendError;

verus! {

/// The message every newly connected client is greeted with.
pub fn greeting() -> (m: Client)
    ensures
        m matches Client::Welcome(text) && text@ == "Heyo!!"@,
{
    Client::Welcome("Heyo!!".to_owned())
}

/// Whether a send went through, with the runtime's reason dropped.
fn delivered(sent: Result<(), SendError>) -> (r: Result<(), ()>)
    ensures
        r is Ok <==> sent is Ok,
{
    match sent {
        Ok(()) => Ok(()),
        Err(_) => Err(()),
    }
}

/// Sends `greeting()` to the client `client_id`, through `ClientId::send`,
/// that is to the group `client_id.distributor()` named after it; `Err(())`
/// when the actor runtime refused the message.
///
/// Beside the result comes the ghost record of the send: the greeting, told
/// to the group whose name is the client's text; the result is `Ok` exactly
/// when the runtime took it.
pub fn say_hello(client_id: ClientId) -> (r: (Result<(), ()>, Ghost<Told<Client>>))
    ensures
        r.1@.to == client_id@,
        r.1@.message matches Client::Welcome(text) && text@ == "Heyo!!"@,
        r.0 is Ok <==> r.1@.accepted,
{
    let (sent, told) = client_id.send(greeting());
    (delivered(sent), told)
}

/// What the welcome service does with a message it is told: it greets the
/// client that said hello, with `say_hello` on that client's identity.
pub fn on_welcome(msg: Welcome) -> Result<(), ()> {
    match msg {
        Welcome::Hello(hello) => say_hello(hello).0,
    }
}

} // verus!
