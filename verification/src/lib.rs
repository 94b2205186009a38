//! A recursive traversal engine over an intermediate representation of a
//! library's public API surface.
//!
//! The engine walks one [`ir::Item`] top-down, depth-first and in
//! pre-order, and invokes the two hooks of a caller-supplied
//! [`visit::Visitor`] — one per resolved type or trait path occurrence,
//! one per re-export — while skipping lifetime-only and constant-only
//! leaves and treating foreign blanket implementations as opaque. The
//! exact sequence of hook invocations is stated in [`events`] and proved
//! of the engine in [`visit`].

pub mod events;
pub mod ir;
pub mod laws;
pub mod occurrence;
pub mod record;
pub mod visit;
