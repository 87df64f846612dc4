//! The credentials that sessions authenticate with.

use vstd::prelude::*;

use crate::ids::Uuid;
use crate::protocol::{copy_names, names, AgentClient, AgentSide, WorkspaceName};

verus! {

#[derive(Clone, Copy, Debug, PartialEq, Eq, Structural)]
pub enum CredentialRole {
    Agent,
    Operator,
}

/// What a credential says of its bearer, without the secret.
#[derive(Debug, PartialEq)]
pub struct PublicCredentialClaims {
    pub id: Uuid,
    pub role: CredentialRole,
    pub subject: String,
    pub agent_side: Option<AgentSide>,
    pub agent_client: Option<AgentClient>,
    pub workspaces: Vec<WorkspaceName>,
}

/// A credential with its secret.
#[derive(PartialEq)]
pub struct CredentialFile {
    pub id: Uuid,
    pub role: CredentialRole,
    pub subject: String,
    pub agent_side: Option<AgentSide>,
    pub agent_client: Option<AgentClient>,
    pub workspaces: Vec<WorkspaceName>,
    pub token: String,
}

impl CredentialFile {
    /// Whether two credentials are the same.
    pub open spec fn same(self, other: CredentialFile) -> bool {
        &&& self.id == other.id
        &&& self.role == other.role
        &&& self.subject@ == other.subject@
        &&& self.agent_side == other.agent_side
        &&& self.agent_client == other.agent_client
        &&& names(self.workspaces@) == names(other.workspaces@)
        &&& self.token@ == other.token@
    }

    /// Another copy of this credential.
    pub fn copy(&self) -> (copy: CredentialFile)
        ensures
            copy.same(*self),
    {
        CredentialFile {
            id: self.id,
            role: self.role,
            subject: self.subject.as_str().to_owned(),
            agent_side: self.agent_side,
            agent_client: self.agent_client,
            workspaces: copy_names(&self.workspaces),
            token: self.token.as_str().to_owned(),
        }
    }
}

} // verus!
