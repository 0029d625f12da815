//! What the editor said it can do, as far as the session depends on it.

use vstd::prelude::*;

verus! {

/// The editor's support for being told to send configuration changes.
#[derive(Debug, PartialEq, Eq, Clone, Copy)]
pub struct DidChangeConfigurationClientCapabilities {
    pub dynamic_registration: Option<bool>,
}

/// The workspace part of the editor's capabilities.
#[derive(Debug, PartialEq, Eq, Clone, Copy)]
pub struct WorkspaceClientCapabilities {
    pub configuration: Option<bool>,
    pub did_change_configuration: Option<DidChangeConfigurationClientCapabilities>,
}

/// The capabilities that the editor announced when the session began.
#[derive(Debug, PartialEq, Eq, Clone, Copy)]
pub struct ClientCapabilities {
    pub workspace: Option<WorkspaceClientCapabilities>,
}

/// The two ways in which an editor can keep the server's configuration
/// current.
pub trait ClientCapabilitiesExt {
    /// The editor answers requests for configuration.
    spec fn pull_configuration_support(&self) -> bool;

    /// The editor lets the server register for configuration changes.
    spec fn push_configuration_support(&self) -> bool;

    fn has_pull_configuration_support(&self) -> (supported: bool)
        ensures
            supported == self.pull_configuration_support(),
    ;

    fn has_push_configuration_support(&self) -> (supported: bool)
        ensures
            supported == self.push_configuration_support(),
    ;
}

impl ClientCapabilitiesExt for ClientCapabilities {
    open spec fn pull_configuration_support(&self) -> bool {
        self.workspace matches Some(workspace) && workspace.configuration == Some(true)
    }

    open spec fn push_configuration_support(&self) -> bool {
        &&& self.workspace matches Some(workspace)
        &&& workspace.did_change_configuration matches Some(change)
        &&& change.dynamic_registration == Some(true)
    }

    fn has_pull_configuration_support(&self) -> (supported: bool) {
        match self.workspace {
            Some(workspace) => match workspace.configuration {
                Some(flag) => flag,
                None => false,
            },
            None => false,
        }
    }

    fn has_push_configuration_support(&self) -> (supported: bool) {
        match self.workspace {
            Some(workspace) => match workspace.did_change_configuration {
                Some(change) => match change.dynamic_registration {
                    Some(flag) => flag,
                    None => false,
                },
                None => false,
            },
            None => false,
        }
    }
}

impl Default for ClientCapabilities {
    fn default() -> (capabilities: Self)
        ensures
            capabilities.workspace is None,
    {
        ClientCapabilities { workspace: None }
    }
}

} // verus!
