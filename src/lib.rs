//! A process-wide memory budget: a shared counter that independent owners
//! consult before committing memory, and a scoped handle that returns what
//! its owner admitted when it goes out of use.

pub mod handle;
pub mod laws;
pub mod quota;
pub mod step;
