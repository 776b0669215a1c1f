//! The actor runtime as the library sees it: its handle types, declared so
//! that they can stand in signatures and fields, and the calls the library
//! makes into it.

use vstd::prelude::*;

use crate::message::{Group, Told};

verus! {

/// Why a message could not be handed to the actor runtime.
#[verifier::external_type_specification]
#[verifier::external_body]
pub struct ExSendError(bastion::errors::SendError);

/// A handle to a running supervisor, which can start groups of children.
#[verifier::external_type_specification]
#[verifier::external_body]
pub struct ExSupervisorRef(bastion::supervisor::SupervisorRef);

/// `bastion::distributor::Distributor::tell_one` on the distributor that
/// `bastion::distributor::Distributor::named` gives for the name of `to`:
/// hands `message` to one of the actors of the group `to`. The runtime
/// takes as a message every value of a type that is `Any + Send + Sync +
/// Debug`, which the bounds on `M` give.
///
/// Whether that succeeds depends on the state of the running actor system
/// (whether any actor of the group is registered, whether its mailbox is
/// open), so nothing is stated of the runtime's answer itself. Beside it
/// comes a ghost record, erased when compiled, of what was handed to the
/// runtime: the group's name, the message, and whether the answer was `Ok`. Making the runtime's key for
/// the name panics only once its process-wide table of names has run out of
/// keys (more than `u32::MAX` names), which no `requires` can rule out from
/// the arguments.
#[verifier::external_body]
pub(crate) fn tell_one<M: Send + Sync + core::fmt::Debug + 'static>(
    to: &Group,
    message: M,
) -> (r: (Result<(), bastion::errors::SendError>, Ghost<Told<M>>))
    ensures
        r.1@ == (Told { to: to@, message: message, accepted: r.0 is Ok }),
{
    let handed = Ghost(message);
    let sent = bastion::distributor::Distributor::named(to.as_str()).tell_one(message);
    let told = Ghost(Told { to: to@, message: handed@, accepted: sent is Ok });
    (sent, told)
}

/// `<bastion::supervisor::SupervisorRef as Clone>::clone`: another handle to
/// the same supervisor.
///
/// The handle holds channel senders, whose copies are new values, so no
/// equality with `s` is stated.
#[verifier::external_body]
pub(crate) fn clone_supervisor(
    s: &bastion::supervisor::SupervisorRef,
) -> (c: bastion::supervisor::SupervisorRef) {
    s.clone()
}

} // verus!
