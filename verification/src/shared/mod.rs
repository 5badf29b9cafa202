//! Pieces shared by the services: environment keys, the application error,
//! checked arithmetic and the tracing targets.

pub mod env;
pub mod result;
pub mod util;
pub mod tracing;
