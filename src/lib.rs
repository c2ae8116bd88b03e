//! Inner mutability for shared values through fair ticket spinlocks that are
//! aware of interrupt and exception context.

pub mod cell;
pub mod laws;
pub mod platform;
