//! A host for sandboxed add-ons. The host owns every note; a guest gets a
//! handle to a registered copy and reaches it through two accessors only, and
//! when the guest's hook has returned the host takes the copy back and retires
//! the handle.

pub mod error;
pub mod host;
pub mod lifecycle;
pub mod model;
pub mod note;
pub mod slots;
pub mod table;
