//! Dynamically dispatched serialization and deserialization adapters.
//!
//! The adapters hold a concrete backend in a slot and drive it through the
//! take, call and restore discipline: every adapter accepts exactly the calls
//! that its protocol position allows and answers any other call with a
//! protocol-violation error, leaving its state untouched.
//!
//! * [`error`]: the error carrier that crosses the erasure boundary.
//! * [`de`]: the deserializer, seed, visitor and access adapters.
//! * [`ser`]: the serializer adapter and its builder states.

pub mod de;
pub mod error;
pub mod ser;
