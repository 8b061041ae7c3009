//! A leveled, structured logging facade.
//!
//! Records carry a level, a primary message, an ordered list of typed
//! fields, and optional source location. A facade multiplexes each record
//! to the registered sinks under a global severity filter; at most one
//! sink is registered per kind, and the facade's lifecycle runs one way
//! from uninitialized through running to shut down.

pub mod error;
pub mod facade;
pub mod format;
pub mod laws;
pub mod level;
pub mod record;
pub mod sink;
