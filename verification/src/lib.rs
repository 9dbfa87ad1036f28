//! The advisory side of a vulnerability database: how advisories and the vulnerabilities that
//! they speak of are found and ingested, and what they assert on packages.
//!
//! The library holds no connection. It says what to ask of the database, as queries that
//! `query::Select::statement` turns into statements, and what to make of the answers.

pub mod advisory;
pub mod answers;
pub mod assertion;
pub mod database;
pub mod entity;
pub mod growth;
pub mod ingestion;
pub mod laws;
pub mod purl;
pub mod query;
pub mod relationship;
pub mod schema;
pub mod sql;

pub use advisory::{
    AdvisoryContext, AdvisoryIngestion, AdvisoryVulnerabilityAssertions,
    AdvisoryVulnerabilityContext, Connection, InnerSystem, VulnerabilityIngestion,
};
pub use assertion::{Assertion, PackageAssertions};
pub use entity::{
    AdvisoryModel, AdvisoryVulnerabilityModel, AffectedVersion, FixedVersion, NewAdvisory,
    NotAffectedVersion,
};
pub use purl::Purl;
pub use relationship::{Relationship, UnexpectedValue};
