//! Activation and deactivation of pyenv virtual environments in a shell.
//!
//! The library decides, from a snapshot of the shell's variables and what the
//! filesystem says of the target version, which statements the shell must run
//! to activate or deactivate an environment, and renders them as text.
pub mod activate;
pub mod env;
pub mod error;
pub mod laws;
pub mod options;
pub mod prefix;
pub mod resolve;
pub mod script;

pub use activate::{pyenv_sh_activate, pyenv_sh_deactivate, shell_output, Outcome};
pub use env::{nonempty, EnvSnapshot, Var};
pub use error::{Error, ErrorKind};
pub use options::CommonOpt;
pub use prefix::{pyenv_prefix, PrefixProbe};
pub use resolve::{needs_version_file, pyenv_root, pyenv_version_file_read, pyenv_version_name, resolve_version};
pub use script::{render_script, Mutation};
