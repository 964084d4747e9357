//! A runtime through which scripts address host values.
//!
//! A script may hold on to a value for as long as it likes, while the host
//! goes on changing, moving and destroying what it owns. This crate mediates
//! between the two without ever handing out a pointer:
//!
//! - [`script_ref::Store`] keeps the values of one host type, each beside a
//!   [`validity::ValidityLock`] that counts who is dereferencing it;
//! - [`script_ref::ScriptRef`] is a weak, type-erased reference into a store,
//!   checked on every access;
//! - [`wrappers::WrappedValue`] is what a script holds: the owner of a value,
//!   or a reference to somebody else's;
//! - [`laws`] states what holds across calls.
//!
//! An access that cannot be served is a [`error::ReflectionError`]. Tearing
//! down an owner whose value is still being dereferenced is a
//! [`error::FatalError`].

pub mod error;
pub mod laws;
pub mod script_ref;
pub mod validity;
pub mod wrappers;
