//! The owned handle and the typed wrappers over it.
pub mod dict;
pub mod exc;
pub mod identity;
pub mod list;
pub mod module;
pub mod object;
pub mod typeobject;
