//! Verified core of a safe binding to the CPython object runtime.
//!
//! The core owns the rules of the binding: which reference an owned handle
//! holds and when it gives it up, when an object may be taken for a list, a
//! module, a type or an exception, how a list is filled and walked, how a
//! module's name is decoded, what a failure is raised as.
//!
//! It never calls the interpreter. Three things pass between the core and the
//! embedding that does:
//!
//! - what the interpreter says of an object, as plain values
//!   ([`ffi::PyObject`], [`ffi::PyTypeObject`], [`ffi::StaticTypes`]);
//! - what the interpreter answered to a call: an address, a size, a status,
//!   the bytes of a name;
//! - what the interpreter is to do: a journal of [`ffi::Call`]s, which the
//!   embedding carries out in their order when the core returns it.
//!
//! A function that takes `calls` appends to the journal and tells in its
//! contract exactly what it appended. A function that returns a [`ffi::Call`]
//! asks for something whose answer it cannot go on without; what is made of the
//! answer is in [`err`].
#![allow(non_snake_case)]
#![allow(non_upper_case_globals)]
#![allow(non_camel_case_types)]

pub mod err;
pub mod ffi;
pub mod objects;
pub mod python;
pub mod text;
