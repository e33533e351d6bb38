//! A verified engine for the lifecycle of a symmetric cipher context.
//!
//! The engine keeps the state that the wrapping layer must enforce around a
//! cipher primitive: which algorithm is bound, in which direction, with which
//! negotiated lengths, and which operations are legal next. Each operation takes
//! the primitive's report of the call it stands for and turns it into a result.
pub mod ctx;
pub mod error;
pub mod laws;
