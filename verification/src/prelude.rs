//! A bunch of common imports to get you up and running faster.

pub use crate::bot::Bot;
pub use crate::context::Context;
pub use crate::maybe::Maybe;
pub use crate::port::PortManager;
