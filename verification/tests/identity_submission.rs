use risk_core::errors::CoreError;
use risk_core::identity::{
    descriptor_to_specifier, specifier_to_descriptor, PackageDescriptor, PackageSpecifier,
    PackageType,
};
use risk_core::maven::default_plugin_group_id;
use risk_core::auth::{AccessToken, AuthorizationCode, IdToken, RefreshToken};
use risk_core::submission::{
    resolve_submission, PackageDescriptorsOrPurls, SubmissionEntry, SubmissionRecord,
};

fn descriptor(name: &str, version: &str, package_type: PackageType) -> PackageDescriptor {
    PackageDescriptor { name: name.to_owned(), version: version.to_owned(), package_type }
}

/// Interpret a decoded wire value as a submission payload: an array whose
/// elements are either flat strings or keyed records, with the ecosystem
/// label under its current key or its historical alias.
fn payload_from_json(value: &serde_json::Value) -> Vec<SubmissionEntry> {
    let array = value.as_array().expect("payload must be an array");
    array
        .iter()
        .map(|element| match element {
            serde_json::Value::String(s) => SubmissionEntry::Text(s.clone()),
            serde_json::Value::Object(fields) => {
                let get = |key: &str| fields.get(key).and_then(|v| v.as_str()).map(str::to_owned);
                SubmissionEntry::Record(SubmissionRecord {
                    name: get("name"),
                    version: get("version"),
                    package_type: get("type").or_else(|| get("registry")),
                })
            },
            other => panic!("unexpected payload element {other}"),
        })
        .collect()
}

#[test]
fn descriptor_specifier_round_trip() {
    for package_type in [
        PackageType::Npm,
        PackageType::PyPi,
        PackageType::Maven,
        PackageType::RubyGems,
        PackageType::Nuget,
        PackageType::Cargo,
        PackageType::Golang,
    ] {
        let d = descriptor("a-package", "1.2.3", package_type);
        let specifier = descriptor_to_specifier(&d);
        let back = specifier_to_descriptor(specifier).expect("canonical registry must parse");
        assert_eq!(back, d);
    }
}

#[test]
fn registry_is_the_canonical_lowercase_name() {
    let specifier = descriptor_to_specifier(&descriptor("x", "1", PackageType::RubyGems));
    assert_eq!(specifier.registry, "rubygems");
    assert_eq!(specifier.name, "x");
    assert_eq!(specifier.version, "1");
}

#[test]
fn ecosystem_labels_parse_with_aliases_and_any_case() {
    assert_eq!(PackageType::from_str("npm"), Ok(PackageType::Npm));
    assert_eq!(PackageType::from_str("NPM"), Ok(PackageType::Npm));
    assert_eq!(PackageType::from_str("python"), Ok(PackageType::PyPi));
    assert_eq!(PackageType::from_str("PyPi"), Ok(PackageType::PyPi));
    assert_eq!(PackageType::from_str("ruby"), Ok(PackageType::RubyGems));
    assert_eq!(PackageType::from_str("RubyGems"), Ok(PackageType::RubyGems));
    assert_eq!(PackageType::from_str("maven"), Ok(PackageType::Maven));
    assert_eq!(PackageType::from_str("nuget"), Ok(PackageType::Nuget));
    assert_eq!(PackageType::from_str("cargo"), Ok(PackageType::Cargo));
    assert_eq!(PackageType::from_str("golang"), Ok(PackageType::Golang));
    assert_eq!(PackageType::from_str("pip"), Err(()));
    assert_eq!(PackageType::from_str(""), Err(()));
}

#[test]
fn unknown_registry_fails_with_the_offending_label() {
    let specifier = PackageSpecifier {
        registry: "sourceforge".to_owned(),
        name: "x".to_owned(),
        version: "1".to_owned(),
    };
    assert_eq!(
        specifier_to_descriptor(specifier),
        Err(CoreError::UnknownEcosystem("sourceforge".to_owned()))
    );
}

#[test]
fn languages_per_ecosystem() {
    assert_eq!(PackageType::Npm.language(), "Javascript");
    assert_eq!(PackageType::RubyGems.language(), "Ruby");
    assert_eq!(PackageType::PyPi.language(), "Python");
    assert_eq!(PackageType::Maven.language(), "Java");
    assert_eq!(PackageType::Nuget.language(), ".NET");
    assert_eq!(PackageType::Cargo.language(), "Rust");
    assert_eq!(PackageType::Golang.language(), "Golang");
}

#[test]
fn descriptor_payload_resolves_to_descriptors() {
    let wire = r#"[{"name":"a","version":"1.0","type":"npm"},{"name":"b","version":"2.0","type":"pypi"}]"#;
    let value: serde_json::Value = serde_json::from_str(wire).unwrap();
    let payload = payload_from_json(&value);
    let resolved = resolve_submission(&payload).unwrap();
    assert_eq!(
        resolved,
        PackageDescriptorsOrPurls::PackageDescriptors(vec![
            descriptor("a", "1.0", PackageType::Npm),
            descriptor("b", "2.0", PackageType::PyPi),
        ])
    );
}

#[test]
fn descriptor_payload_accepts_the_registry_field_alias() {
    let wire = r#"[{"name":"a","version":"1.0","registry":"cargo"}]"#;
    let value: serde_json::Value = serde_json::from_str(wire).unwrap();
    let resolved = resolve_submission(&payload_from_json(&value)).unwrap();
    assert_eq!(
        resolved,
        PackageDescriptorsOrPurls::PackageDescriptors(vec![descriptor(
            "a",
            "1.0",
            PackageType::Cargo
        )])
    );
}

#[test]
fn purl_payload_resolves_to_purls() {
    let wire = r#"["pkg:npm/a@1.0","pkg:pypi/b@2.0"]"#;
    let value: serde_json::Value = serde_json::from_str(wire).unwrap();
    let resolved = resolve_submission(&payload_from_json(&value)).unwrap();
    assert_eq!(
        resolved,
        PackageDescriptorsOrPurls::Purls(vec![
            "pkg:npm/a@1.0".to_owned(),
            "pkg:pypi/b@2.0".to_owned(),
        ])
    );
}

#[test]
fn empty_payload_resolves_to_empty_descriptors() {
    let wire = "[]";
    let value: serde_json::Value = serde_json::from_str(wire).unwrap();
    let resolved = resolve_submission(&payload_from_json(&value)).unwrap();
    assert_eq!(resolved, PackageDescriptorsOrPurls::PackageDescriptors(Vec::new()));
    assert_eq!(resolved, PackageDescriptorsOrPurls::default());
}

#[test]
fn mixed_payload_is_malformed() {
    let payload = vec![
        SubmissionEntry::Record(SubmissionRecord {
            name: Some("a".to_owned()),
            version: Some("1.0".to_owned()),
            package_type: Some("npm".to_owned()),
        }),
        SubmissionEntry::Text("pkg:npm/b@2.0".to_owned()),
    ];
    assert_eq!(resolve_submission(&payload), Err(CoreError::MalformedSubmission));
}

#[test]
fn incomplete_record_is_malformed() {
    // The record misses its version, so the descriptor shape fails, and a
    // record is no flat string either.
    let payload = vec![SubmissionEntry::Record(SubmissionRecord {
        name: Some("a".to_owned()),
        version: None,
        package_type: Some("npm".to_owned()),
    })];
    assert_eq!(resolve_submission(&payload), Err(CoreError::MalformedSubmission));
}

#[test]
fn record_registry_label_is_exact() {
    // The keyed record admits only canonical lowercase ecosystem names:
    // an alias that the flat-specifier parser would take is rejected here.
    let payload = vec![SubmissionEntry::Record(SubmissionRecord {
        name: Some("a".to_owned()),
        version: Some("1.0".to_owned()),
        package_type: Some("python".to_owned()),
    })];
    assert_eq!(resolve_submission(&payload), Err(CoreError::MalformedSubmission));
}

#[test]
fn token_wrappers_keep_their_value() {
    assert_eq!(AccessToken::new("token-a").value(), "token-a");
    assert_eq!(RefreshToken::new("token-r").value(), "token-r");
    assert_eq!(IdToken::new("token-i").value(), "token-i");
    assert_eq!(AuthorizationCode::new("code").value(), "code");
}

#[test]
fn plugin_group_id_default() {
    assert_eq!(default_plugin_group_id(), Some("org.apache.maven.plugins".to_owned()));
}
