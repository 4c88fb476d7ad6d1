//! Risk-classification and policy-evaluation core of a software
//! supply-chain scanning client.
//!
//! Given the issues discovered about a dependency, this library computes
//! per-severity impact counts, evaluates configured per-domain thresholds
//! to decide pass/fail together with the remediation action to surface,
//! and owns the identity model for packages: converting between a typed
//! (ecosystem, name, version) descriptor and flat specifier strings, and
//! resolving an untagged submission payload without ambiguity.
//!
//! Scores, severity weights and threshold cutoffs are normalized values
//! in the unit interval; this library represents them in hundredths
//! (`0` = worst, `100` = best) so that every comparison is exact integer
//! arithmetic.

pub mod auth;
pub mod common;
pub mod errors;
pub mod group;
pub mod identity;
pub mod issues;
pub mod job;
pub mod maven;
pub mod package;
pub mod policy;
pub mod preferences;
pub mod project;
pub mod settings;
pub mod submission;
pub mod taxonomy;
pub mod text;
