use vstd::prelude::*;

verus! {

/// Something that takes the messages meant for one view component, such as
/// the handle through which a live view component is updated.
pub trait MessageReceiver: Send + 'static {
    /// The messages it takes.
    type Message: core::fmt::Debug + Send;

    /// The work of taking one message, which ends in `Err(())` when the
    /// component is gone.
    type Future<'a>: core::future::Future<Output = Result<(), ()>> + Send + 'a where Self: 'a;

    /// Starts taking `msg`.
    fn receive(&self, msg: Self::Message) -> Self::Future<'_>;
}

} // verus!
