//! Wire types for working with project data.

use vstd::prelude::*;

use crate::common::{ProjectId, Timestamp};
use crate::identity::PackageType;

verus! {

/// Risk cut-off thresholds for a project, one score per domain, in
/// hundredths of the unit interval.
#[derive(PartialEq, Eq, Structural, PartialOrd, Ord, Hash, Copy, Clone, Debug)]
pub struct ProjectThresholds {
    pub author: u32,
    pub engineering: u32,
    pub license: u32,
    pub malicious: u32,
    pub total: u32,
    pub vulnerability: u32,
}

/// Summary response for a project.
#[derive(Clone, Debug)]
pub struct ProjectSummaryResponse {
    /// The project name.
    pub name: String,
    /// The project id.
    pub id: ProjectId,
    /// When the project was updated.
    pub updated_at: Timestamp,
    /// When the project was created.
    pub created_at: Timestamp,
    /// The ecosystems of the project; determined by its latest job.
    pub ecosystems: Vec<PackageType>,
    /// The project's group's name, if this is a group project.
    pub group_name: Option<String>,
    /// The project's repository location.
    pub repository_url: Option<String>,
}

/// Request to create a project.
#[derive(PartialEq, Eq, PartialOrd, Ord, Hash, Clone, Debug)]
pub struct CreateProjectRequest {
    pub name: String,
    pub group_name: Option<String>,
    pub repository_url: Option<String>,
}

pub type UpdateProjectRequest = CreateProjectRequest;

/// Response of a create project request.
#[derive(Copy, Clone, Debug)]
pub struct CreateProjectResponse {
    /// The id of the newly created project.
    pub id: ProjectId,
}

pub type UpdateProjectResponse = CreateProjectResponse;

} // verus!
