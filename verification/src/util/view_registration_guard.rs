use vstd::prelude::*;

use super::view_id::ViewId;

verus! {

/// The kinds of component that a browser view is made of.
#[derive(Debug, Clone, Copy, PartialEq, Eq, Structural)]
pub enum ViewKind {
    /// The scroll of what happened in the game.
    History,
    /// The line where the player types.
    Prompt,
}

/// Follows one view component through its mount.
///
/// Every component of one view holds a guard with the view's identity, so
/// that messages meant for that view can be routed to each of them.
#[derive(Debug)]
pub struct ViewRegistrationGuard {
    kind: ViewKind,
    /// An identifier that all components in the same view have.
    view_id: ViewId,
}

impl View for ViewRegistrationGuard {
    type V = (ViewKind, Seq<char>);

    /// The kind of the component, and the text of its view's identity.
    closed spec fn view(&self) -> (ViewKind, Seq<char>) {
        (self.kind, self.view_id@)
    }
}

impl ViewRegistrationGuard {
    /// Makes the guard of a component of kind `kind` in the view `view_id`;
    /// the guard keeps its own copy of the identity.
    pub fn new(kind: ViewKind, view_id: &ViewId) -> (guard: Self)
        ensures
            guard@ == (kind, view_id@),
    {
        let view_id = view_id.clone();
        Self { view_id, kind }
    }
}

} // verus!
