//! Numbers of fixed width, and fractions of them.

pub mod fraction;
pub mod uint;
