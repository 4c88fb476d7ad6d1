//! The Maven project descriptor (POM) object model, as decoded from a
//! project file.

use std::collections::HashMap;

use vstd::prelude::*;

verus! {

#[derive(Debug, Clone, PartialEq)]
pub struct Project {
    pub model_version: Option<String>,
    pub parent: Option<Parent>,
    pub group_id: Option<String>,
    pub artifact_id: String,
    pub version: Option<String>,
    pub packaging: Option<String>,
    pub name: Option<String>,
    pub description: Option<String>,
    pub url: Option<String>,
    pub inception_year: Option<String>,
    pub organization: Option<Organization>,
    pub licenses: Option<Licenses>,
    pub developers: Option<Developers>,
    pub contributors: Option<Contributors>,
    pub mailing_lists: Option<MailingLists>,
    pub prerequisites: Option<Prerequisites>,
    pub modules: Option<Modules>,
    pub scm: Option<Scm>,
    pub issue_management: Option<IssueManagement>,
    pub ci_management: Option<CiManagement>,
    pub distribution_management: Option<DistributionManagement>,
    pub properties: HashMap<String, String>,
    pub dependency_management: Option<DependencyManagement>,
    pub dependencies: Option<Dependencies>,
    pub repositories: Option<Repositories>,
    pub plugin_repositories: Option<PluginRepositories>,
    pub build: Option<Build>,
    pub reports: Option<Reports>,
    pub reporting: Option<Reporting>,
    pub profiles: Option<Profiles>,
}

#[derive(Debug, Clone, PartialEq)]
pub struct Licenses {
    pub licenses: Vec<License>,
}

#[derive(Debug, Clone, PartialEq)]
pub struct License {
    pub name: Option<String>,
    pub url: Option<String>,
    pub distribution: Option<String>,
    pub comments: Option<String>,
}

#[derive(Debug, Clone, PartialEq)]
pub struct Organization {
    pub name: Option<String>,
    pub url: Option<String>,
}

#[derive(Debug, Clone, PartialEq)]
pub struct Developers {
    pub developers: Vec<Person>,
}

#[derive(Debug, Clone, PartialEq)]
pub struct Contributors {
    pub contributors: Vec<Person>,
}

#[derive(Debug, Clone, PartialEq)]
pub struct MailingLists {
    pub mailing_list: Vec<MailingList>,
}

#[derive(Debug, Clone, PartialEq)]
pub struct MailingList {
    pub name: Option<String>,
    pub subscribe: Option<String>,
    pub unsubscribe: Option<String>,
    pub post: Option<String>,
    pub archive: Option<String>,
    pub other_archives: Vec<OtherArchive>,
}

#[derive(Debug, Clone, PartialEq)]
pub struct OtherArchive {
    pub other_archive: Option<String>,
}

#[derive(Debug, Clone, PartialEq)]
pub struct Prerequisites {
    pub maven: Option<String>,
}

#[derive(Debug, Clone, PartialEq)]
pub struct Person {
    pub id: Option<String>,
    pub name: Option<String>,
    pub email: Option<String>,
    pub url: Option<String>,
    pub organization: Option<String>,
    pub organization_url: Option<String>,
    pub roles: Option<Roles>,
    pub timezone: Option<String>,
    pub properties: HashMap<String, String>,
}

#[derive(Debug, Clone, PartialEq)]
pub struct Roles {
    pub roles: Vec<String>,
}

#[derive(Debug, Clone, PartialEq)]
pub struct Parent {
    pub group_id: Option<String>,
    pub artifact_id: Option<String>,
    pub version: Option<String>,
    pub relative_path: Option<String>,
}

#[derive(Debug, Clone, PartialEq)]
pub struct Dependencies {
    pub dependencies: Vec<Dependency>,
}

#[derive(Debug, Clone, PartialEq)]
pub struct Dependency {
    pub group_id: Option<String>,
    pub artifact_id: Option<String>,
    pub version: Option<String>,
    pub dtype: Option<String>,
    pub classifier: Option<String>,
    pub scope: Option<String>,
    pub system_path: Option<String>,
    pub exclusions: Option<Exclusions>,
    pub optional: Option<bool>,
}

#[derive(Debug, Clone, PartialEq)]
pub struct Exclusions {
    pub exclusions: Vec<Exclusion>,
}

#[derive(Debug, Clone, PartialEq)]
pub struct Exclusion {
    pub group_id: Option<String>,
    pub artifact_id: Option<String>,
}

#[derive(Debug, Clone, PartialEq)]
pub struct Modules {
    pub modules: Vec<String>,
}

#[derive(Debug, Clone, PartialEq)]
pub struct Build {
    pub source_directory: Option<String>,
    pub script_source_directory: Option<String>,
    pub test_source_directory: Option<String>,
    pub output_directory: Option<String>,
    pub test_output_directory: Option<String>,
    pub extensions: Option<Extensions>,
    pub default_goal: Option<String>,
    pub resources: Option<Resources>,
    pub test_resources: Option<TestResources>,
    pub directory: Option<String>,
    pub final_name: Option<String>,
    pub filters: Option<Filters>,
    pub plugin_management: Option<PluginManagement>,
    pub plugins: Option<Plugins>,
}

#[derive(Debug, Clone, PartialEq)]
pub struct Filters {
    pub filters: Vec<String>,
}

#[derive(Debug, Clone, PartialEq)]
pub struct Resources {
    pub resources: Vec<Resource>,
}

#[derive(Debug, Clone, PartialEq)]
pub struct TestResources {
    pub test_resources: Vec<Resource>,
}

#[derive(Debug, Clone, PartialEq)]
pub struct Resource {
    pub target_path: Option<String>,
    pub filtering: Option<bool>,
    pub directory: Option<String>,
    pub includes: Option<Includes>,
    pub excludes: Option<Excludes>,
}

#[derive(Debug, Clone, PartialEq)]
pub struct Includes {
    pub includes: Vec<String>,
}

#[derive(Debug, Clone, PartialEq)]
pub struct Excludes {
    pub excludes: Vec<String>,
}

#[derive(Debug, Clone, PartialEq)]
pub struct Plugins {
    pub plugins: Vec<Plugin>,
}

#[derive(Debug, Clone, PartialEq)]
pub struct PluginManagement {
    pub plugins: Plugins,
}

#[derive(Debug, Clone, PartialEq)]
pub struct Plugin {
    /// Absent on the wire means the default plugin group id.
    pub group_id: Option<String>,
    pub artifact_id: Option<String>,
    pub version: Option<String>,
    pub extensions: Option<String>,
    pub executions: Option<Executions>,
    pub dependencies: Option<Dependencies>,
    pub goals: Option<Goals>,
    pub inherited: Option<bool>,
    pub configuration: Option<Configuration>,
}

/// The group id a plugin record gets when the wire record carries none.
pub fn default_plugin_group_id() -> (r: Option<String>)
    ensures
        r matches Some(s) && s@ == "org.apache.maven.plugins"@,
{
    Some("org.apache.maven.plugins".to_owned())
}

#[derive(Debug, Clone, PartialEq)]
pub struct Executions {
    pub executions: Vec<Execution>,
}

#[derive(Debug, Clone, PartialEq)]
pub struct Execution {
    pub id: Option<String>,
    pub phase: Option<String>,
    pub goals: Option<Goals>,
    pub inherited: Option<bool>,
    pub configuration: Option<Configuration>,
}

/// Empty because this is different for every plugin and execution.
#[derive(Debug, Clone, PartialEq)]
pub struct Configuration {
}

#[derive(Debug, Clone, PartialEq)]
pub struct Reports {
    pub reports: Vec<String>,
}

#[derive(Debug, Clone, PartialEq)]
pub struct Goals {
    pub goals: Vec<String>,
}

#[derive(Debug, Clone, PartialEq)]
pub struct Extensions {
    pub extensions: Vec<Extension>,
}

#[derive(Debug, Clone, PartialEq)]
pub struct Extension {
    pub artifact_id: Option<String>,
    pub group_id: Option<String>,
    pub version: Option<String>,
}

#[derive(Debug, Clone, PartialEq)]
pub struct Profiles {
    pub profiles: Vec<Profile>,
}

#[derive(Debug, Clone, PartialEq)]
pub struct Profile {
    pub id: Option<String>,
    pub activation: Option<Activation>,
    pub build: Option<Build>,
    pub modules: Option<Modules>,
    pub properties: HashMap<String, String>,
    pub dependency_management: Option<DependencyManagement>,
    pub dependencies: Option<Dependencies>,
    pub repositories: Option<Repositories>,
    pub plugin_repositories: Option<PluginRepositories>,
    pub reports: Option<Reports>,
    pub reporting: Option<Reporting>,
}

#[derive(Debug, Clone, PartialEq)]
pub struct Activation {
    pub active_by_default: Option<bool>,
}

#[derive(Debug, Clone, PartialEq)]
pub struct DependencyManagement {
    pub dependencies: Dependencies,
}

#[derive(Debug, Clone, PartialEq)]
pub struct Repositories {
    pub repositories: Vec<Repository>,
}

#[derive(Debug, Clone, PartialEq)]
pub struct PluginRepositories {
    pub repositories: Vec<Repository>,
}

#[derive(Debug, Clone, PartialEq)]
pub struct Repository {
    pub unique_version: Option<bool>,
    pub releases: Option<RepositoryPolicy>,
    pub snapshots: Option<RepositoryPolicy>,
    pub id: Option<String>,
    pub name: Option<String>,
    pub url: Option<String>,
    pub layout: Option<String>,
}

#[derive(Debug, Clone, PartialEq)]
pub struct RepositoryPolicy {
    pub enabled: Option<String>,
    pub update_policy: Option<String>,
    pub checksum_policy: Option<String>,
}

#[derive(Debug, Clone, PartialEq)]
pub struct Scm {
    pub connection: Option<String>,
    pub developer_connection: Option<String>,
    pub tag: Option<String>,
    pub url: Option<String>,
}

#[derive(Debug, Clone, PartialEq)]
pub struct IssueManagement {
    pub system: Option<String>,
    pub url: Option<String>,
}

#[derive(Debug, Clone, PartialEq)]
pub struct CiManagement {
    pub system: Option<String>,
    pub url: Option<String>,
    pub notifiers: Vec<Notifier>,
}

#[derive(Debug, Clone, PartialEq)]
pub struct Notifier {
    pub ntype: Option<String>,
    pub send_on_error: Option<bool>,
    pub send_on_failure: Option<bool>,
    pub send_on_success: Option<bool>,
    pub send_on_warning: Option<bool>,
    pub address: String,
    pub configuration: HashMap<String, String>,
}

#[derive(Debug, Clone, PartialEq)]
pub struct DistributionManagement {
    pub repository: Option<Repository>,
    pub snapshot_repository: Option<Repository>,
    pub site: Option<String>,
    pub download_url: Option<String>,
    pub relocation: Option<Relocation>,
    pub status: Option<String>,
}

#[derive(Debug, Clone, PartialEq)]
pub struct Relocation {
    pub group_id: Option<String>,
    pub artifact_id: Option<String>,
    pub version: Option<String>,
    pub message: Option<String>,
}

#[derive(Debug, Clone, PartialEq)]
pub struct Reporting {
    pub exclude_defaults: Option<String>,
    pub output_directory: Option<String>,
    pub plugins: Option<Plugins>,
}

} // verus!
