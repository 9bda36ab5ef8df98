//! A zero-storage marker type `Usize<N>` whose only inhabitant witnesses the
//! compile-time constant `N`, together with the protocols defined over it:
//! fallible construction from a runtime integer, total conversion back to a
//! runtime integer, cross-type equality against runtime integers, statically
//! gated arithmetic, and a width-fallback decoder for plain numeric wire
//! values.

pub mod adapter;
pub mod arith;
pub mod singleton;
