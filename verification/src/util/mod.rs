//! Helpers shared by the services: view identities and the guard that
//! follows a view component through its mount.

pub mod view_id;
pub mod view_registration_guard;

pub use view_id::ViewId;
pub use view_registration_guard::{ViewKind, ViewRegistrationGuard};
