use risk_core::auth::{AccessToken, AccessTokenResponse, IdToken, RefreshToken, TokenResponse};
use risk_core::common::Status;
use risk_core::group::{GroupMember, ListGroupMembersResponse};
use risk_core::job::{JobDescriptor, SubmitPackageResponse};
use risk_core::package::PackageStatus;
use risk_core::submission::PackageDescriptorsOrPurls;

#[test]
fn job_descriptor_clones_whole() {
    let descriptor = JobDescriptor {
        job_id: uuid::Uuid::nil(),
        project: "a project".to_owned(),
        label: "main".to_owned(),
        num_dependencies: 3,
        score: 75,
        packages: PackageDescriptorsOrPurls::default(),
        pass: true,
        msg: String::new(),
        date: "2023-01-01".to_owned(),
        ecosystem: None,
        ecosystems: vec!["npm".to_owned()],
        num_incomplete: 0,
    };
    let copy = descriptor.clone();
    assert_eq!(copy, descriptor);
    assert_eq!(copy.job_id, uuid::Uuid::nil());
}

#[test]
fn submit_package_response_is_copyable() {
    let response = SubmitPackageResponse { job_id: uuid::Uuid::nil() };
    let copy = response;
    assert_eq!(copy, response);
}

#[test]
fn token_responses_hold_their_tokens() {
    let response = TokenResponse {
        access_token: AccessToken::new("a"),
        refresh_token: RefreshToken::new("r"),
        id_token: IdToken::new("i"),
        expires_in_seconds: 60,
    };
    assert_eq!(response.access_token.value(), "a");
    assert_eq!(response.refresh_token.value(), "r");
    assert_eq!(response.id_token.value(), "i");
    let refreshed = AccessTokenResponse {
        access_token: AccessToken::new("b"),
        expires_in_seconds: 30,
    };
    assert_eq!(refreshed.access_token.value(), "b");
}

#[test]
fn package_status_fields() {
    let status = PackageStatus {
        name: "left-pad".to_owned(),
        version: "1.0.0".to_owned(),
        status: Status::Complete,
        last_updated: 1_600_000_000,
        license: Some("MIT".to_owned()),
        package_score: Some(90),
        num_dependencies: 0,
        num_vulnerabilities: 0,
    };
    assert_eq!(status.status, Status::Complete);
    assert_eq!(status.package_score, Some(90));
}

#[test]
fn group_member_listing() {
    let members = ListGroupMembersResponse {
        members: vec![GroupMember {
            user_email: "dev@example.com".to_owned(),
            first_name: "Ada".to_owned(),
            last_name: "L".to_owned(),
        }],
    };
    assert_eq!(members.members.len(), 1);
}
