use huevos_api::query::{Select, Value};
use huevos_api::schema::{Column, Table};
use huevos_api::{
    AdvisoryContext, AdvisoryIngestion, AdvisoryModel, AdvisoryVulnerabilityContext,
    AdvisoryVulnerabilityModel, AffectedVersion, Assertion, Connection, FixedVersion, InnerSystem,
    NotAffectedVersion, PackageAssertions, VulnerabilityIngestion,
};

/// The tables that ingestion touches, held in memory.
#[derive(Default)]
struct Store {
    advisories: Vec<AdvisoryModel>,
    vulnerabilities: Vec<(i32, String)>,
    links: Vec<AdvisoryVulnerabilityModel>,
}

fn holds(value: &Value, text: &str) -> bool {
    matches!(value, Value::Text(value) if value == text)
}

fn is(value: &Value, number: i32) -> bool {
    matches!(value, Value::Int(value) if *value == number)
}

impl Store {
    fn find_advisory(&self, query: &Select) -> Option<AdvisoryModel> {
        assert_eq!(query.from, Table::Advisory);
        self.advisories
            .iter()
            .find(|row| {
                query.filters.iter().all(|filter| match filter.column.column {
                    Column::Id => is(&filter.value, row.id),
                    Column::Identifier => holds(&filter.value, &row.identifier),
                    Column::Location => holds(&filter.value, &row.location),
                    Column::Sha256 => holds(&filter.value, &row.sha256),
                    _ => false,
                })
            })
            .cloned()
    }

    fn find_link(&self, query: &Select) -> Option<AdvisoryVulnerabilityModel> {
        assert_eq!(query.from, Table::AdvisoryVulnerability);
        self.links
            .iter()
            .find(|row| {
                let (_, identifier) = self
                    .vulnerabilities
                    .iter()
                    .find(|(id, _)| *id == row.vulnerability_id)
                    .unwrap();
                query.filters.iter().all(|filter| {
                    match (filter.column.table, filter.column.column) {
                        (Table::AdvisoryVulnerability, Column::AdvisoryId) => {
                            is(&filter.value, row.advisory_id)
                        }
                        (Table::Vulnerability, Column::Identifier) => {
                            holds(&filter.value, identifier)
                        }
                        _ => false,
                    }
                })
            })
            .copied()
    }

    fn ingest_advisory(&mut self, identifier: &str, location: &str, sha256: &str) -> AdvisoryContext {
        let query = InnerSystem::get_advisory_query(identifier, location, sha256);
        let found = InnerSystem::get_advisory(self.find_advisory(&query));
        match InnerSystem::ingest_advisory(identifier, location, sha256, found) {
            AdvisoryIngestion::Found(advisory) => advisory,
            AdvisoryIngestion::Insert(row) => {
                let row = AdvisoryModel {
                    id: self.advisories.len() as i32 + 1,
                    identifier: row.identifier,
                    location: row.location,
                    sha256: row.sha256,
                };
                self.advisories.push(row.clone());
                AdvisoryContext::from(row)
            }
        }
    }

    fn ingest_vulnerability(
        &mut self,
        advisory: &AdvisoryContext,
        identifier: &str,
    ) -> AdvisoryVulnerabilityContext {
        let query = advisory.get_vulnerability_query(identifier);
        let found = advisory.get_vulnerability(self.find_link(&query));
        match advisory.ingest_vulnerability(identifier, found) {
            VulnerabilityIngestion::Found(vulnerability) => vulnerability,
            VulnerabilityIngestion::Ingest(identifier) => {
                let id = match self.vulnerabilities.iter().find(|(_, i)| *i == identifier) {
                    Some((id, _)) => *id,
                    None => {
                        let id = self.vulnerabilities.len() as i32 + 100;
                        self.vulnerabilities.push((id, identifier));
                        id
                    }
                };
                let row = advisory.link(id);
                self.links.push(row);
                advisory.linked(row)
            }
        }
    }
}

fn quarkus_affected(name: &str, start: &str, end: &str, vulnerability: &str) -> AffectedVersion {
    AffectedVersion {
        ty: "maven".to_string(),
        namespace: Some("io.quarkus".to_string()),
        name: name.to_string(),
        start: start.to_string(),
        end: end.to_string(),
        vulnerability: vulnerability.to_string(),
        identifier: "RHSA-GHSA-1".to_string(),
        location: "http://db.com/rhsa-ghsa-2".to_string(),
        sha256: "2".to_string(),
    }
}

fn quarkus_not_affected(name: &str, version: &str, vulnerability: &str) -> NotAffectedVersion {
    NotAffectedVersion {
        ty: "maven".to_string(),
        namespace: Some("io.quarkus".to_string()),
        name: name.to_string(),
        version: version.to_string(),
        vulnerability: vulnerability.to_string(),
        identifier: "RHSA-GHSA-1".to_string(),
        location: "http://db.com/rhsa-ghsa-2".to_string(),
        sha256: "2".to_string(),
    }
}

fn quarkus_fixed(name: &str, version: &str, vulnerability: &str) -> FixedVersion {
    FixedVersion {
        ty: "maven".to_string(),
        namespace: Some("io.quarkus".to_string()),
        name: name.to_string(),
        version: version.to_string(),
        vulnerability: vulnerability.to_string(),
        identifier: "RHSA-GHSA-1".to_string(),
        location: "http://db.com/rhsa-ghsa-2".to_string(),
        sha256: "2".to_string(),
    }
}

#[test]
fn ingest_advisories() {
    let mut store = Store::default();

    let advisory1 = store.ingest_advisory("RHSA-GHSA-1", "http://db.com/rhsa-ghsa-2", "2");
    let advisory2 = store.ingest_advisory("RHSA-GHSA-1", "http://db.com/rhsa-ghsa-2", "2");
    let advisory3 = store.ingest_advisory("RHSA-GHSA-1", "http://db.com/rhsa-ghsa-2", "89");

    assert_eq!(advisory1.advisory.id, advisory2.advisory.id);
    assert_ne!(advisory1.advisory.id, advisory3.advisory.id);
    assert_eq!(store.advisories.len(), 2);
}

#[test]
fn each_part_of_the_key_tells_advisories_apart() {
    let mut store = Store::default();
    let first = store.ingest_advisory("a", "b", "c");
    let others = [
        store.ingest_advisory("x", "b", "c"),
        store.ingest_advisory("a", "x", "c"),
        store.ingest_advisory("a", "b", "x"),
    ];
    for other in others.iter() {
        assert_ne!(first.advisory.id, other.advisory.id);
    }
    assert_eq!(
        store.ingest_advisory("a", "b", "c").advisory.id,
        first.advisory.id
    );
    assert_eq!(store.advisories.len(), 4);
}

#[test]
fn ingested_advisories_are_found() {
    let mut store = Store::default();
    store.ingest_advisory("RHSA-GHSA-1", "http://db.com/rhsa-ghsa-2", "1");
    let advisory = store.ingest_advisory("RHSA-GHSA-1", "http://db.com/rhsa-ghsa-2", "2");

    let query = InnerSystem::get_advisory_query("RHSA-GHSA-1", "http://db.com/rhsa-ghsa-2", "2");
    let found = InnerSystem::get_advisory(store.find_advisory(&query));
    assert!(found == Some(advisory.clone()));

    let query = InnerSystem::get_advisory_by_id_query(advisory.advisory.id);
    let found = InnerSystem::get_advisory_by_id(store.find_advisory(&query));
    assert!(found == Some(advisory));

    let query = InnerSystem::get_advisory_query("RHSA-GHSA-1", "http://db.com/rhsa-ghsa-2", "3");
    assert!(InnerSystem::get_advisory(store.find_advisory(&query)).is_none());
    let query = InnerSystem::get_advisory_by_id_query(77);
    assert!(InnerSystem::get_advisory_by_id(store.find_advisory(&query)).is_none());
}

#[test]
fn two_ingestions_from_one_table_end_alike() {
    let stored = |keys: &[&str]| {
        let mut store = Store::default();
        for sha256 in keys {
            store.ingest_advisory("RHSA-GHSA-1", "http://db.com/rhsa-ghsa-2", sha256);
        }
        store
    };
    let (mut one, mut two) = (stored(&["2", "89"]), stored(&["2", "89"]));
    let first = one.ingest_advisory("RHSA-GHSA-1", "http://db.com/rhsa-ghsa-2", "89");
    let second = two.ingest_advisory("RHSA-GHSA-1", "http://db.com/rhsa-ghsa-2", "89");
    assert!(first == second);
    assert_eq!((one.advisories.len(), two.advisories.len()), (2, 2));

    let first = one.ingest_advisory("RHSA-GHSA-1", "http://db.com/rhsa-ghsa-2", "90");
    let second = two.ingest_advisory("RHSA-GHSA-1", "http://db.com/rhsa-ghsa-2", "90");
    assert!(first == second);
    assert!(one.advisories == two.advisories);
    assert_eq!(one.advisories.len(), 3);
}

#[test]
fn advisories_are_ingested_over_the_own_connection() {
    for given in [Connection::Own, Connection::Transaction] {
        assert_eq!(InnerSystem::ingest_advisory_connection(given), Connection::Own);
    }
}

#[test]
fn a_link_is_found_again_beside_a_vulnerability_of_the_same_identifier() {
    let mut store = Store::default();
    let advisory = store.ingest_advisory("RHSA-GHSA-1", "http://db.com/rhsa-ghsa-2", "2");
    let first = store.ingest_vulnerability(&advisory, "CVE-123");
    store.vulnerabilities.insert(0, (7, "CVE-123".to_string()));
    let again = store.ingest_vulnerability(&advisory, "CVE-123");
    assert_eq!(first.advisory_vulnerability, again.advisory_vulnerability);
    assert_eq!(store.links.len(), 1);
    assert_eq!(store.vulnerabilities.len(), 2);
}

#[test]
fn advisories_are_compared_by_their_rows() {
    let row = AdvisoryModel {
        id: 1,
        identifier: "a".to_string(),
        location: "b".to_string(),
        sha256: "c".to_string(),
    };
    let advisory = AdvisoryContext::from(row.clone());
    assert!(advisory == advisory.clone());
    let others = [
        AdvisoryModel { id: 2, ..row.clone() },
        AdvisoryModel { identifier: "x".to_string(), ..row.clone() },
        AdvisoryModel { location: "x".to_string(), ..row.clone() },
        AdvisoryModel { sha256: "x".to_string(), ..row.clone() },
    ];
    for other in others.iter() {
        assert!(advisory != AdvisoryContext::from(other.clone()));
    }
}

#[test]
fn ingest_advisory_cve() {
    let mut store = Store::default();

    let advisory = store.ingest_advisory("RHSA-GHSA-1", "http://db.com/rhsa-ghsa-2", "2");

    let first = store.ingest_vulnerability(&advisory, "CVE-123");
    let again = store.ingest_vulnerability(&advisory, "CVE-123");
    let other = store.ingest_vulnerability(&advisory, "CVE-456");

    assert_eq!(first.advisory_vulnerability, again.advisory_vulnerability);
    assert_ne!(first.advisory_vulnerability, other.advisory_vulnerability);
    assert_eq!(first.advisory_vulnerability.advisory_id, advisory.advisory.id);
    assert_eq!(first.advisory_vulnerability.vulnerability_id, 100);
    assert!(first.advisory == advisory);
    assert_eq!(store.links.len(), 2);
}

#[test]
fn a_vulnerability_is_linked_to_each_advisory() {
    let mut store = Store::default();
    let one = store.ingest_advisory("RHSA-GHSA-1", "http://db.com/rhsa-ghsa-2", "2");
    let two = store.ingest_advisory("RHSA-GHSA-1", "http://db.com/rhsa-ghsa-2", "89");
    let first = store.ingest_vulnerability(&one, "CVE-123");
    let second = store.ingest_vulnerability(&two, "CVE-123");
    assert_eq!(
        first.advisory_vulnerability.vulnerability_id,
        second.advisory_vulnerability.vulnerability_id
    );
    assert_ne!(
        first.advisory_vulnerability.advisory_id,
        second.advisory_vulnerability.advisory_id
    );
    assert_eq!(store.vulnerabilities.len(), 1);
}

#[test]
fn vulnerabilities_stand_in_the_order_in_which_they_were_found() {
    let mut store = Store::default();
    let advisory = store.ingest_advisory("RHSA-GHSA-1", "http://db.com/rhsa-ghsa-2", "2");
    let rows = vec![advisory.link(9), advisory.link(4)];
    let vulnerabilities = advisory.vulnerabilities(rows);
    assert_eq!(vulnerabilities.len(), 2);
    assert_eq!(vulnerabilities[0].advisory_vulnerability.vulnerability_id, 9);
    assert_eq!(vulnerabilities[1].advisory_vulnerability.vulnerability_id, 4);
    assert!(vulnerabilities[1].advisory == advisory);
    assert!(advisory.vulnerabilities(vec![]).is_empty());
}

#[test]
fn advisory_fixed_vulnerability_assertions() {
    let fixed = AdvisoryContext::fixed_assertions(vec![
        quarkus_fixed("quarkus-core", "1.2.0", "CVE-1234567"),
        quarkus_fixed("quarkus-addons", "1.2.0", "CVE-1234567"),
    ]);
    assert_eq!(2, fixed.assertions.len());
    let list = fixed
        .assertions
        .get("pkg://maven/io.quarkus/quarkus-addons")
        .unwrap();
    assert_eq!(1, list.len());
    assert!(matches!(
        &list[0],
        Assertion::Fixed { vulnerability, version }
            if vulnerability == "CVE-1234567" && version == "1.2.0"
    ));
}

#[test]
fn assertions_on_a_package_keep_their_order() {
    let affected = AdvisoryContext::affected_assertions(vec![
        quarkus_affected("quarkus-core", "1.0", "1.1", "CVE-1"),
        quarkus_affected("quarkus-addons", "2.0", "2.1", "CVE-2"),
        quarkus_affected("quarkus-core", "3.0", "3.1", "CVE-3"),
        quarkus_affected("quarkus-core", "1.0", "1.1", "CVE-1"),
    ]);
    assert_eq!(2, affected.assertions.len());
    let list = affected
        .assertions
        .get("pkg://maven/io.quarkus/quarkus-core")
        .unwrap();
    let starts: Vec<&str> = list
        .iter()
        .map(|assertion| match assertion {
            Assertion::Affected { start_version, .. } => start_version.as_str(),
            _ => "",
        })
        .collect();
    assert_eq!(starts, vec!["1.0", "3.0", "1.0"]);
    assert!(affected.assertions.get("pkg://maven/quarkus-core").is_none());
}

#[test]
fn no_rows_make_no_assertions() {
    assert_eq!(0, AdvisoryContext::affected_assertions(vec![]).assertions.len());
    assert_eq!(0, AdvisoryContext::not_affected_assertions(vec![]).assertions.len());
    assert_eq!(0, AdvisoryContext::fixed_assertions(vec![]).assertions.len());
}

#[test]
fn all_assertions_stand_together() {
    let all = AdvisoryContext::vulnerability_assertions(
        AdvisoryContext::affected_assertions(vec![quarkus_affected(
            "quarkus-core",
            "1.0.2",
            "1.2.0",
            "CVE-42",
        )]),
        AdvisoryContext::not_affected_assertions(vec![
            quarkus_not_affected("quarkus-addons", "1.1.9", "CVE-42"),
            quarkus_not_affected("quarkus-core", "1.1.9", "CVE-42"),
        ]),
        AdvisoryContext::fixed_assertions(vec![
            quarkus_fixed("quarkus-core", "1.2.0", "CVE-42"),
            quarkus_fixed("quarkus-rest", "1.2.0", "CVE-42"),
        ]),
    );
    assert_eq!(3, all.assertions.len());
    let core = all
        .assertions
        .get("pkg://maven/io.quarkus/quarkus-core")
        .unwrap();
    assert_eq!(3, core.len());
    assert!(matches!(&core[0], Assertion::Affected { .. }));
    assert!(matches!(&core[1], Assertion::NotAffected { .. }));
    assert!(matches!(&core[2], Assertion::Fixed { .. }));

    let mut packages: Vec<(String, usize)> = all
        .assertions
        .into_entries()
        .into_iter()
        .map(|(package, list)| (package, list.len()))
        .collect();
    packages.sort();
    assert_eq!(
        packages,
        vec![
            ("pkg://maven/io.quarkus/quarkus-addons".to_string(), 1),
            ("pkg://maven/io.quarkus/quarkus-core".to_string(), 3),
            ("pkg://maven/io.quarkus/quarkus-rest".to_string(), 1),
        ]
    );
}

#[test]
fn a_package_without_assertions_is_kept() {
    let map = PackageAssertions::new().extend("pkg://cargo/serde".to_string(), vec![]);
    let merged = PackageAssertions::new().merge(map);
    assert_eq!(1, merged.len());
    assert!(merged.get("pkg://cargo/serde").unwrap().is_empty());
}
