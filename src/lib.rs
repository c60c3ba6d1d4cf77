//! A codec layer that turns a typed argument or result of a server function into a
//! request or response body, and back, parameterized over an encoding strategy and
//! an HTTP verb.

pub use vstd::view::View;

pub mod codec;
pub mod error;
pub mod put;
pub mod strategy;
pub mod transport;
