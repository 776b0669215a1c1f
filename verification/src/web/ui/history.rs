//! The history component: the scroll of what happened in the game.

use vstd::prelude::*;

verus! {

/// The events of the history component.
#[derive(Debug, Clone, Copy, PartialEq, Eq, Structural)]
pub enum ViewMsg {
    /// Something was sent to the view's client.
    Something,
}

} // verus!
