//! A listener that serves the components of one browser view, found by the
//! view's identity.

use vstd::prelude::*;

use crate::view_id::ViewId;
use crate::message::Group;
use crate::actors::clone_supervisor;
use bastion::supervisor::SupervisorRef;

verus! {

/// Tracks view components mounting and unmounting, by view identity.
///
/// When a component is mounted, the listener starts, under its supervisor,
/// an actor that takes the messages sent to the view and hands them to the
/// component.
pub struct MessageListener {
    /// An identifier that all components in the same view have.
    view_id: ViewId,
    supervisor: SupervisorRef,
}

impl MessageListener {
    /// The identity of the view whose components this listener serves.
    pub closed spec fn view_of(&self) -> Seq<char> {
        self.view_id@
    }

    /// A listener for the components of the view `view_id`, whose actors
    /// run under `supervisor`.
    pub fn new(view_id: ViewId, supervisor: SupervisorRef) -> (l: Self)
        ensures
            l.runs_under() == supervisor,
            l.view_of() == view_id@,
    {
        Self { view_id, supervisor }
    }

    /// The group that messages for this view are sent to: the one named
    /// after the view's identity.
    pub fn distributor(&self) -> (g: Group)
        ensures
            g@ == self.view_of(),
    {
        Group::named(self.view_id.as_str())
    }

    /// The supervisor that the listener's actors run under.
    pub closed spec fn runs_under(&self) -> SupervisorRef {
        self.supervisor
    }

    /// The supervisor that the listener's actors run under.
    pub fn supervisor(&self) -> (s: &SupervisorRef)
        ensures
            *s == self.runs_under(),
    {
        &self.supervisor
    }
}

impl Clone for MessageListener {
    /// Another listener for the same view, under another handle to the same
    /// supervisor.
    fn clone(&self) -> (l: Self)
        ensures
            l.view_of() == self.view_of(),
    {
        MessageListener { view_id: self.view_id.clone(), supervisor: clone_supervisor(&self.supervisor) }
    }
}

} // verus!
