use vstd::prelude::*;
use vstd::string::*;

verus! {

/// Why a command failed, where the library itself can tell.
#[derive(Debug, Clone, Copy, PartialEq, Eq, Structural)]
pub enum SafecrateError {
    /// The canonical directory path has no final component to name a container after.
    InvalidDirectoryName,
    /// The engine lists no container under the directory's name.
    NoExistingContainer,
    /// The engine's image build reported failure. A failed build fails `init`
    /// outright: no success banner follows it.
    BuildFailed,
    /// The engine's run of the container reported failure.
    OpenFailed,
    /// The engine's start of the kept container reported failure.
    ResumeFailed,
    /// The engine's removal of the container reported failure.
    RemoveFailed,
}

impl SafecrateError {
    /// The text shown to the user for this error.
    pub open spec fn message_spec(self) -> Seq<char> {
        match self {
            SafecrateError::InvalidDirectoryName => "Invalid directory name"@,
            SafecrateError::NoExistingContainer =>
                "No existing container to resume. Run `safecrate open` first with --keep-container."@,
            SafecrateError::BuildFailed => "Docker build failed!"@,
            SafecrateError::OpenFailed => "Failed to open container"@,
            SafecrateError::ResumeFailed => "Failed to resume container"@,
            SafecrateError::RemoveFailed => "Failed to remove container"@,
        }
    }

    pub fn message(&self) -> (r: String)
        ensures
            r@ == self.message_spec(),
    {
        match self {
            SafecrateError::InvalidDirectoryName => String::from_str("Invalid directory name"),
            SafecrateError::NoExistingContainer => String::from_str(
                "No existing container to resume. Run `safecrate open` first with --keep-container.",
            ),
            SafecrateError::BuildFailed => String::from_str("Docker build failed!"),
            SafecrateError::OpenFailed => String::from_str("Failed to open container"),
            SafecrateError::ResumeFailed => String::from_str("Failed to resume container"),
            SafecrateError::RemoveFailed => String::from_str("Failed to remove container"),
        }
    }
}

} // verus!
