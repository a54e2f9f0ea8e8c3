//! Runtime management for Node.js and Python projects: version rules,
//! configuration, command construction and result reporting.

use vstd::prelude::*;

pub mod error;
mod host;
pub mod init;
pub mod lexical;
pub mod node;
pub mod number;
pub mod order;
pub mod path;
pub mod py;
pub mod run;
pub mod strmap;
pub mod text;

pub use error::{Error, Result};
pub use init::{get_library_info, InitManager, LibraryInfo};
pub use node::NodeManager;
pub use py::PyManager;
pub use run::ScriptRunner;

verus! {

/// The library's version.
pub const VERSION: &'static str = "0.1.0";

/// The library's name.
pub const NAME: &'static str = "ai00-run";

} // verus!
