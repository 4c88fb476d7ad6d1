//! Wire types involved with handling processing jobs.

use vstd::prelude::*;

use crate::common::{JobId, ProjectId, Status, UserId};
use crate::identity::PackageType;
use crate::package::{PackageStatus, PackageStatusExtended};
use crate::policy::Action;
use crate::project::ProjectThresholds;
use crate::submission::PackageDescriptorsOrPurls;

verus! {

/// Metadata about a job. The score is in hundredths of the unit interval.
#[derive(PartialEq, Clone, Debug)]
pub struct JobDescriptor {
    pub job_id: JobId,
    pub project: String,
    pub label: String,
    pub num_dependencies: u32,
    pub score: u32,
    pub packages: PackageDescriptorsOrPurls,
    pub pass: bool,
    pub msg: String,
    pub date: String,
    /// Superseded by `ecosystems`, which supports multiple ecosystems.
    pub ecosystem: Option<String>,
    pub ecosystems: Vec<String>,
    pub num_incomplete: u32,
}

/// Submit a package for analysis.
#[derive(PartialEq, Eq, Clone, Debug)]
pub struct SubmitPackageRequest {
    /// The 'type' of package. No longer used.
    pub package_type: Option<PackageType>,
    /// The subpackage dependencies of this package.
    pub packages: PackageDescriptorsOrPurls,
    /// Was this submitted by a user interactively and not a CI?
    pub is_user: bool,
    /// The id of the project this top level package should be associated
    /// with.
    pub project: ProjectId,
    /// A label for this package. Often it's the branch.
    pub label: String,
    /// The group that owns the project, if applicable.
    pub group_name: Option<String>,
}

/// Initial response after a package has been submitted.
#[derive(PartialEq, Eq, Copy, Clone, Debug)]
pub struct SubmitPackageResponse {
    /// The id of the job processing the package.
    pub job_id: JobId,
}

/// A response that summarizes the output of all current jobs.
#[derive(PartialEq, Clone, Debug)]
pub struct AllJobsStatusResponse {
    /// A description of the latest jobs.
    pub jobs: Vec<JobDescriptor>,
    /// Total jobs run.
    pub total_jobs: u32,
    pub count: u32,
}

/// Data returned when querying the job status endpoint. Scores are in
/// hundredths of the unit interval.
#[derive(PartialEq, Clone, Debug)]
pub struct JobStatusResponse<T> {
    /// The id of the job processing the top level package.
    pub job_id: JobId,
    /// The language ecosystem. Superseded by `ecosystems`.
    pub ecosystem: Option<String>,
    /// The language ecosystems.
    pub ecosystems: Vec<String>,
    /// The id of the user submitting the job.
    pub user_id: UserId,
    /// The user email.
    pub user_email: String,
    /// The time the job started in epoch seconds.
    pub created_at: i64,
    /// The job status.
    pub status: Status,
    /// The current score.
    pub score: u32,
    pub pass: bool,
    pub msg: String,
    /// The action to take if the job fails.
    pub action: Action,
    /// Dependencies that have not completed processing.
    pub num_incomplete: u32,
    /// The last time the job metadata was updated.
    pub last_updated: u64,
    /// The id of the project associated with this job.
    pub project: String,
    /// The project name.
    pub project_name: String,
    /// A label associated with this job, most often a branch name.
    pub label: Option<String>,
    /// The currently configured thresholds for this job. If the scores
    /// fall below these thresholds, the client should undertake the
    /// action spelled out by the action field.
    pub thresholds: ProjectThresholds,
    /// The packages that are a part of this job.
    pub packages: Vec<T>,
}

/// The two shapes the job status endpoint answers with; the more
/// detailed shape is tried first when decoding.
#[derive(PartialEq, Clone, Debug)]
pub enum JobStatusResponseVariant {
    Extended(JobStatusResponse<PackageStatusExtended>),
    Basic(JobStatusResponse<PackageStatus>),
}

/// Response from canceling a job.
#[derive(PartialEq, Eq, PartialOrd, Ord, Hash, Clone, Debug)]
pub struct CancelJobResponse {
    pub msg: String,
}

} // verus!
