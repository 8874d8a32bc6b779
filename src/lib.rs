//! A unified front end over native package managers: which backend is in
//! effect, and which command line a unified operation becomes on it.
use vstd::prelude::*;

pub mod cli;
pub mod error;
pub mod invocation;
pub mod laws;
pub mod os;
pub mod package_manager;
pub mod text;

pub use cli::{Command, Install, Remove, Search, Update};
pub use error::{DepotError, DepotResult, PackageManagerError};
pub use invocation::{Invocation, InvocationView};
pub use os::OperatingSystem;
pub use package_manager::{get_package_manager, needs_host_identification, PackageManager};
