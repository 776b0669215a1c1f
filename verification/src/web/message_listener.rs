use vstd::prelude::*;

use crate::message::ClientId;
use bastion::supervisor::SupervisorRef;
use crate::actors::clone_supervisor;

verus! {

/// Tracks view components mounting and unmounting.
///
/// When a component is mounted, the listener starts, under its supervisor,
/// an actor that takes the messages sent to the client and hands them to the
/// component.
pub struct MessageListener {
    /// An identifier that all components in the same view have.
    client_id: ClientId,
    supervisor: SupervisorRef,
}

impl MessageListener {
    /// The identity of the client whose components this listener serves.
    pub closed spec fn client(&self) -> Seq<char> {
        self.client_id@
    }

    /// A listener for the components of `client_id`, whose actors run under
    /// `supervisor`.
    pub fn new(client_id: ClientId, supervisor: SupervisorRef) -> (l: Self)
        ensures
            l.runs_under() == supervisor,
            l.client() == client_id@,
    {
        Self { client_id, supervisor }
    }

    /// The identity of the client whose components this listener serves.
    pub fn id(&self) -> (id: &ClientId)
        ensures
            id@ == self.client(),
    {
        &self.client_id
    }

    /// The supervisor that the listener's actors run under.
    pub closed spec fn runs_under(&self) -> SupervisorRef {
        self.supervisor
    }

    /// The supervisor that the listener's actors run under.
    pub fn supervisor(&self) -> (s: &SupervisorRef)
        ensures
            *s == self.runs_under(),
    {
        &self.supervisor
    }
}

impl Clone for MessageListener {
    /// Another listener for the same client, under another handle to the
    /// same supervisor.
    fn clone(&self) -> (l: Self)
        ensures
            l.client() == self.client(),
    {
        MessageListener {
            client_id: self.client_id.clone(),
            supervisor: clone_supervisor(&self.supervisor),
        }
    }
}

} // verus!
