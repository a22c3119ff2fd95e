//! Container naming and container-engine invocations for opening untrusted
//! source directories inside isolated containers.
//!
//! The library decides everything that does not need the outside world: the
//! container name of a directory, the argument list of each engine call, and
//! how an engine's answer turns into the result of a command. Running the
//! engine, resolving paths and talking to the terminal is left to the caller.
pub mod error;
pub mod invocation;
pub mod laws;
pub mod naming;
pub mod session;

pub use error::SafecrateError;
pub use naming::{container_name, container_name_for_dir, project_name, CONTAINER_SUFFIX};
pub use invocation::{
    build_invocation, open_invocation, query_invocation, remove_invocation, start_invocation,
    BUILD_CONTEXT, ENGINE, IMAGE_NAME, NAMES_FORMAT, SHELL, WORKSPACE_DIR,
};
pub use session::{is_white_space, lists_container, removal_notice, resume_step, Operation};
