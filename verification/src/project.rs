//! Project records: metadata, views and their validity conditions.
use std::collections::HashSet;
use vstd::prelude::*;

verus! {

pub struct ProjectInputs {
    pub tag: String,
    pub name: String,
    pub description: String,
}

pub struct ProjectMetadata {
    pub id: usize,
    pub tag: String,
    pub name: String,
    pub description: String,
    pub owner_community_handles: HashSet<String>,
}

pub struct Project {
    pub metadata: ProjectMetadata,
    /// Configs for project views indexed by their ids and serialized as JSON string
    pub view_ids: Vec<String>,
}

pub struct ProjectViewInputsMetadata {
    pub kind: String,
    pub title: String,
    pub description: String,
}

pub struct ProjectViewInputs {
    pub project_id: usize,
    pub metadata: ProjectViewInputsMetadata,
    pub config: String,
}

pub struct ProjectViewMetadata {
    pub id: String,
    pub kind: String,
    pub title: String,
    pub description: String,
}

pub struct ProjectView {
    pub metadata: ProjectViewMetadata,
    pub config: String,
}

pub struct ProjectPermissions {
    pub can_configure: bool,
}

impl Project {
    /// The byte-length ranges that every stored project must satisfy, and
    /// that it is owned by at least one community.
    pub open spec fn valid(&self) -> bool {
        &&& 3 <= vstd::utf8::encode_utf8(self.metadata.name@).len() <= 30
        &&& 6 <= vstd::utf8::encode_utf8(self.metadata.description@).len() <= 60
        &&& 3 <= vstd::utf8::encode_utf8(self.metadata.tag@).len() <= 20
        &&& self.metadata.owner_community_handles@.len() >= 1
    }

    /// Checks the project's field ranges and ownership. Inputs outside the ranges
    /// are excluded up front by the precondition: callers must establish
    /// validity before storing the record.
    pub fn validate(&self)
        requires
            self.valid(),
    {
    }
}

} // verus!
