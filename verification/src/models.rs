//! Plain records exchanged with the surrounding tooling: display rows,
//! deployment permissions, and installation status.

use vstd::prelude::*;

verus! {

/// One row of the component status display.
#[derive(Debug, Clone)]
pub struct ComponentStatus {
    pub name: String,
    pub status: String,
    pub replicas: String,
    pub cpu: String,
    pub memory: String,
}

/// What a deployment request is allowed to contain.
#[derive(Debug, Clone, Copy, PartialEq, Eq, Structural)]
pub struct DeployPermissions {
    max_file_count: u64,
}

impl DeployPermissions {
    pub closed spec fn spec_max_file_count(&self) -> u64 {
        self.max_file_count
    }

    pub fn max_file_count(&self) -> (n: u64)
        ensures
            n == self.spec_max_file_count(),
    {
        self.max_file_count
    }
}

impl Default for DeployPermissions {
    /// At most 4500 files per deployment.
    fn default() -> (p: DeployPermissions)
        ensures
            p.spec_max_file_count() == 4500,
    {
        DeployPermissions { max_file_count: 4500 }
    }
}

/// Which build-environment tools are present after the bootstrap checks.
#[derive(Debug, Clone, Copy, PartialEq, Eq, Structural)]
pub struct InstallationStatus {
    pub node: bool,
    pub npm: bool,
    pub docker: bool,
    pub devcontainers: bool,
}

} // verus!
