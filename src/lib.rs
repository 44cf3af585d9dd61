//! The decision logic of a runtime interception engine: the registry of
//! hooks deferred until their module loads, the requests made when a module
//! finishes loading, the table of installed hooks and the directory of
//! loaded modules. Beside it, the logger's queue and log-file names, and the
//! toolchain and source discovery of the engine's build helper.

pub mod building;
pub mod env;
pub mod hooks;
pub mod logger;
pub mod memory;
pub mod path;
pub mod registry;
