//! A safety layer for driving an opaque, foreign-owned simulation engine.
//!
//! The engine allocates its own objects — a molecular [`System`], polymorphic
//! [`Force`] variants such as [`NonbondedForce`] — and hands back raw
//! addresses; every call into it with a bad address, a bad index, or a bad
//! enumeration value is undefined behavior.  This crate is the layer that
//! stands between application code and that call surface: it owns each
//! foreign address through a [`Handle`] that is null-checked at creation,
//! validates every particle index and force-group value before it may cross
//! the boundary, mirrors the engine-visible state (particle parameters,
//! attached forces, the nonbonded method) so that every query and mutation
//! has a proven meaning, and translates the engine's numeric enumeration for
//! nonbonded methods to and from the closed symbolic set
//! [`NonbondedMethod`].
//!
//! The foreign calls themselves are input/output from this crate's point of
//! view and live with the caller, which hands allocator results in as plain
//! addresses and reads validated addresses back out for its calls.

pub mod error;
pub mod force;
pub mod handle;
pub mod nonbonded;
pub mod system;

pub use error::Error;
pub use force::Force;
pub use handle::Handle;
pub use nonbonded::NonbondedForce;
pub use nonbonded::NonbondedMethod;
pub use nonbonded::ParticleParameters;
pub use system::System;
