//! What the host reports about the sidecar process, as plain values.

use vstd::prelude::*;
use vstd::string::StringExecFns;

verus! {

/// The logical name under which the helper executable is bundled. The host
/// resolves it to a path; the supervisor never starts anything else.
pub const SIDECAR_PROGRAM: &'static str = "backend-server";

/// The line shown to the user once the sidecar is up.
pub const SPAWN_ANNOUNCEMENT: &'static str = "Backend sidecar spawned successfully!";

/// Refers to a process that the host created. The supervisor owns the handle
/// of the process it adopted, from adoption until that process is gone.
#[derive(Clone, Copy, Debug, PartialEq, Eq, Structural)]
pub struct ChildProcessHandle {
    pub pid: u32,
}

/// Why no sidecar process came into being.
#[derive(Clone, Copy, Debug, PartialEq, Eq, Structural)]
pub enum SpawnFailureCause {
    /// The bundled executable could not be located.
    BinaryUnresolved,
    /// The operating system refused to create the process.
    ProcessNotCreated,
}

/// The one error of this crate: the sidecar could not be started.
#[derive(Clone, Copy, Debug, PartialEq, Eq, Structural)]
pub struct SidecarSpawnFailure {
    pub cause: SpawnFailureCause,
}

impl SidecarSpawnFailure {
    /// The diagnostic text of this failure.
    pub open spec fn message_text(self) -> Seq<char> {
        match self.cause {
            SpawnFailureCause::BinaryUnresolved => "Failed to spawn sidecar: "@
                + "the bundled executable could not be located"@,
            SpawnFailureCause::ProcessNotCreated => "Failed to spawn sidecar: "@
                + "the operating system refused to create the process"@,
        }
    }

    /// A diagnostic line for the user or the log.
    pub fn message(&self) -> (text: String)
        ensures
            text@ == self.message_text(),
    {
        let mut text = String::from_str("Failed to spawn sidecar: ");
        match self.cause {
            SpawnFailureCause::BinaryUnresolved => {
                text.append("the bundled executable could not be located");
            },
            SpawnFailureCause::ProcessNotCreated => {
                text.append("the operating system refused to create the process");
            },
        }
        text
    }
}

} // verus!
