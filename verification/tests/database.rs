use huevos_api::query::{Select, Value};
use huevos_api::schema::{Column, ColumnRef, Table};
use huevos_api::{
    AdvisoryContext, AdvisoryModel, AdvisoryVulnerabilityAssertions, AffectedVersion, Assertion,
    FixedVersion, NotAffectedVersion,
};

#[derive(Clone, Debug, PartialEq)]
enum Cell {
    Null,
    Int(i32),
    Text(String),
}

fn text(value: &str) -> Cell {
    Cell::Text(value.to_string())
}

type Row = Vec<(Column, Cell)>;

/// A database in memory that answers queries.
#[derive(Default)]
struct Database {
    rows: Vec<(Table, Row)>,
    next_id: i32,
}

fn cell(rows: &[(Table, Row)], column: ColumnRef) -> Cell {
    let (_, row) = rows.iter().find(|(table, _)| *table == column.table).unwrap();
    let (_, cell) = row.iter().find(|(name, _)| *name == column.column).unwrap();
    cell.clone()
}

fn equal(a: &Cell, b: &Cell) -> bool {
    a == b && *a != Cell::Null
}

impl Database {
    fn insert(&mut self, table: Table, row: Row) {
        self.rows.push((table, row));
    }

    fn insert_with_id(&mut self, table: Table, row: Row) -> i32 {
        self.next_id += 1;
        let mut row = row;
        row.push((Column::Id, Cell::Int(self.next_id)));
        self.insert(table, row);
        self.next_id
    }

    fn of(&self, table: Table) -> Vec<(Table, Row)> {
        self.rows.iter().filter(|(t, _)| *t == table).cloned().collect()
    }

    fn select(&self, query: &Select) -> Vec<Vec<(&'static str, Cell)>> {
        let mut combinations: Vec<Vec<(Table, Row)>> =
            self.of(query.from).into_iter().map(|row| vec![row]).collect();
        for relation in query.joins.iter() {
            let mut joined = vec![];
            for rows in combinations {
                for row in self.of(relation.to.table) {
                    let mut rows = rows.clone();
                    rows.push(row);
                    if equal(&cell(&rows, relation.from), &cell(&rows, relation.to)) {
                        joined.push(rows);
                    }
                }
            }
            combinations = joined;
        }
        combinations
            .into_iter()
            .filter(|rows| {
                query.filters.iter().all(|filter| {
                    let wanted = match &filter.value {
                        Value::Int(value) => Cell::Int(*value),
                        Value::Text(value) => text(value),
                    };
                    equal(&cell(rows, filter.column), &wanted)
                })
            })
            .map(|rows| {
                query
                    .columns
                    .iter()
                    .map(|selection| {
                        let name = selection.alias.unwrap_or(selection.column.column.name());
                        (name, cell(&rows, selection.column))
                    })
                    .collect()
            })
            .collect()
    }

    fn advisory(&mut self, identifier: &str, location: &str, sha256: &str) -> AdvisoryContext {
        let id = self.insert_with_id(
            Table::Advisory,
            vec![
                (Column::Identifier, text(identifier)),
                (Column::Location, text(location)),
                (Column::Sha256, text(sha256)),
            ],
        );
        AdvisoryContext::from(AdvisoryModel {
            id,
            identifier: identifier.to_string(),
            location: location.to_string(),
            sha256: sha256.to_string(),
        })
    }

    fn vulnerability(&mut self, advisory: &AdvisoryContext, identifier: &str) {
        let id = self.insert_with_id(
            Table::Vulnerability,
            vec![(Column::Identifier, text(identifier))],
        );
        let row = advisory.link(id);
        self.insert(
            Table::AdvisoryVulnerability,
            vec![
                (Column::AdvisoryId, Cell::Int(row.advisory_id)),
                (Column::VulnerabilityId, Cell::Int(row.vulnerability_id)),
            ],
        );
    }

    fn package(&mut self, ty: &str, namespace: Option<&str>, name: &str) -> i32 {
        self.insert_with_id(
            Table::Package,
            vec![
                (Column::Type, text(ty)),
                (Column::Namespace, namespace.map(text).unwrap_or(Cell::Null)),
                (Column::Name, text(name)),
            ],
        )
    }

    fn affected(&mut self, advisory: &AdvisoryContext, package: i32, start: &str, end: &str) {
        let range = self.insert_with_id(
            Table::PackageVersionRange,
            vec![
                (Column::PackageId, Cell::Int(package)),
                (Column::Start, text(start)),
                (Column::End, text(end)),
            ],
        );
        self.insert_with_id(
            Table::AffectedPackageVersionRange,
            vec![
                (Column::AdvisoryId, Cell::Int(advisory.advisory.id)),
                (Column::PackageVersionRangeId, Cell::Int(range)),
            ],
        );
    }

    fn listed(&mut self, list: Table, advisory: &AdvisoryContext, package: i32, version: &str) {
        let version = self.insert_with_id(
            Table::PackageVersion,
            vec![
                (Column::PackageId, Cell::Int(package)),
                (Column::Version, text(version)),
            ],
        );
        self.insert_with_id(
            list,
            vec![
                (Column::AdvisoryId, Cell::Int(advisory.advisory.id)),
                (Column::PackageVersionId, Cell::Int(version)),
            ],
        );
    }

    fn affected_assertions(&self, advisory: &AdvisoryContext) -> AdvisoryVulnerabilityAssertions {
        let rows = self.select(&advisory.affected_assertions_query());
        AdvisoryContext::affected_assertions(
            rows.iter()
                .map(|row| AffectedVersion {
                    ty: read(row, "ty"),
                    namespace: read_optional(row, "namespace"),
                    name: read(row, "name"),
                    start: read(row, "start"),
                    end: read(row, "end"),
                    vulnerability: read(row, "vulnerability"),
                    identifier: read(row, "identifier"),
                    location: read(row, "location"),
                    sha256: read(row, "sha256"),
                })
                .collect(),
        )
    }

    fn not_affected_assertions(&self, advisory: &AdvisoryContext) -> AdvisoryVulnerabilityAssertions {
        let rows = self.select(&advisory.not_affected_assertions_query());
        AdvisoryContext::not_affected_assertions(
            rows.iter()
                .map(|row| NotAffectedVersion {
                    ty: read(row, "ty"),
                    namespace: read_optional(row, "namespace"),
                    name: read(row, "name"),
                    version: read(row, "version"),
                    vulnerability: read(row, "vulnerability"),
                    identifier: read(row, "identifier"),
                    location: read(row, "location"),
                    sha256: read(row, "sha256"),
                })
                .collect(),
        )
    }

    fn fixed_assertions(&self, advisory: &AdvisoryContext) -> AdvisoryVulnerabilityAssertions {
        let rows = self.select(&advisory.fixed_assertions_query());
        AdvisoryContext::fixed_assertions(
            rows.iter()
                .map(|row| FixedVersion {
                    ty: read(row, "ty"),
                    namespace: read_optional(row, "namespace"),
                    name: read(row, "name"),
                    version: read(row, "version"),
                    vulnerability: read(row, "vulnerability"),
                    identifier: read(row, "identifier"),
                    location: read(row, "location"),
                    sha256: read(row, "sha256"),
                })
                .collect(),
        )
    }
}

fn read_optional(row: &[(&'static str, Cell)], name: &str) -> Option<String> {
    match row.iter().find(|(n, _)| *n == name) {
        Some((_, Cell::Text(value))) => Some(value.clone()),
        Some((_, Cell::Null)) => None,
        other => panic!("no text in {}: {:?}", name, other),
    }
}

fn read(row: &[(&'static str, Cell)], name: &str) -> String {
    read_optional(row, name).unwrap()
}

fn about(assertion: &Assertion) -> &str {
    match assertion {
        Assertion::Affected { vulnerability, .. } => vulnerability,
        Assertion::NotAffected { vulnerability, .. } => vulnerability,
        Assertion::Fixed { vulnerability, .. } => vulnerability,
    }
}

#[test]
fn advisory_affected_vulnerability_assertions() {
    let mut db = Database::default();
    let advisory = db.advisory("RHSA-GHSA-1", "http://db.com/rhsa-ghsa-2", "2");
    db.vulnerability(&advisory, "CVE-42");

    let core = db.package("maven", Some("io.quarkus"), "quarkus-core");
    db.affected(&advisory, core, "1.0.2", "1.2.0");

    // pkg://maven/.io.quarkus/quarkus-core@1.1.9
    let other = db.package("maven", Some(".io.quarkus"), "quarkus-core");
    db.listed(Table::NotAffectedPackageVersion, &advisory, other, "1.1.9");

    let affected = db.affected_assertions(&advisory);

    assert_eq!(1, affected.assertions.len());

    let pkg_assertions = affected
        .assertions
        .get("pkg://maven/io.quarkus/quarkus-core")
        .unwrap();
    assert_eq!(1, pkg_assertions.len());
    assert!(matches!(
        &pkg_assertions[0],
        Assertion::Affected { vulnerability, start_version, end_version }
            if vulnerability == "CVE-42" && start_version == "1.0.2" && end_version == "1.2.0"
    ));
}

#[test]
fn advisory_not_affected_vulnerability_assertions() {
    let mut db = Database::default();
    let advisory = db.advisory("RHSA-GHSA-1", "http://db.com/rhsa-ghsa-2", "2");
    db.vulnerability(&advisory, "INTERAL-77");

    let core = db.package("maven", Some("io.quarkus"), "quarkus-core");
    db.affected(&advisory, core, "1.0.2", "1.2.0");

    // pkg://maven/io.quarkus/quarkus-core@1.1.9
    db.listed(Table::NotAffectedPackageVersion, &advisory, core, "1.1.9");

    let not_affected = db.not_affected_assertions(&advisory);

    assert_eq!(1, not_affected.assertions.len());

    let pkg_assertions = not_affected
        .assertions
        .get(&"pkg://maven/io.quarkus/quarkus-core".to_string());

    assert!(pkg_assertions.is_some());

    let pkg_assertions = pkg_assertions.unwrap();

    assert_eq!(1, pkg_assertions.len());

    let assertion = &pkg_assertions[0];

    assert!(matches!( assertion, Assertion::NotAffected {version, ..}
        if version == "1.1.9"
    ));
    assert_eq!(about(assertion), "INTERAL-77");
}

#[test]
fn assertions_are_about_the_vulnerabilities_of_the_advisory() {
    let mut db = Database::default();
    let one = db.advisory("RHSA-GHSA-1", "http://db.com/rhsa-ghsa-2", "2");
    let two = db.advisory("RHSA-GHSA-1", "http://db.com/rhsa-ghsa-2", "89");
    db.vulnerability(&one, "CVE-1");
    db.vulnerability(&one, "CVE-2");
    db.vulnerability(&two, "CVE-3");
    let core = db.package("maven", Some("io.quarkus"), "quarkus-core");
    let serde = db.package("cargo", None, "serde");
    db.affected(&one, core, "1.0", "1.1");
    db.affected(&two, core, "2.0", "2.1");
    db.listed(Table::NotAffectedPackageVersion, &one, core, "3.0");
    db.listed(Table::FixedPackageVersion, &one, serde, "4.0");
    db.listed(Table::FixedPackageVersion, &two, serde, "5.0");

    let all = AdvisoryContext::vulnerability_assertions(
        db.affected_assertions(&one),
        db.not_affected_assertions(&one),
        db.fixed_assertions(&one),
    );
    assert_eq!(2, all.assertions.len());
    let on_core = all
        .assertions
        .get("pkg://maven/io.quarkus/quarkus-core")
        .unwrap();
    let on_serde = all.assertions.get("pkg://cargo/serde").unwrap();
    let named: Vec<&str> = on_core.iter().map(about).collect();
    assert_eq!(named, vec!["CVE-1", "CVE-2", "CVE-1", "CVE-2"]);
    let named: Vec<&str> = on_serde.iter().map(about).collect();
    assert_eq!(named, vec!["CVE-1", "CVE-2"]);
    assert!(matches!(&on_core[0], Assertion::Affected { start_version, .. } if start_version == "1.0"));
    assert!(matches!(&on_core[2], Assertion::NotAffected { version, .. } if version == "3.0"));
    assert!(matches!(&on_serde[0], Assertion::Fixed { version, .. } if version == "4.0"));
}

#[test]
fn an_advisory_without_vulnerabilities_asserts_nothing() {
    let mut db = Database::default();
    let advisory = db.advisory("RHSA-GHSA-1", "http://db.com/rhsa-ghsa-2", "2");
    let core = db.package("maven", Some("io.quarkus"), "quarkus-core");
    db.affected(&advisory, core, "1.0.2", "1.2.0");
    assert_eq!(0, db.affected_assertions(&advisory).assertions.len());
}

/// The assertions of each package, sorted.
fn sorted(assertions: AdvisoryVulnerabilityAssertions) -> Vec<(String, Vec<String>)> {
    let mut all: Vec<(String, Vec<String>)> = assertions
        .assertions
        .into_entries()
        .into_iter()
        .map(|(package, list)| {
            let mut list: Vec<String> = list.iter().map(|a| format!("{:?}", a)).collect();
            list.sort();
            (package, list)
        })
        .collect();
    all.sort();
    all
}

impl Database {
    fn all_assertions(&self, advisory: &AdvisoryContext) -> Vec<(String, Vec<String>)> {
        sorted(AdvisoryContext::vulnerability_assertions(
            self.affected_assertions(advisory),
            self.not_affected_assertions(advisory),
            self.fixed_assertions(advisory),
        ))
    }
}

#[test]
fn every_combination_is_asserted_once() {
    let mut db = Database::default();
    let advisory = db.advisory("RHSA-GHSA-1", "http://db.com/rhsa-ghsa-2", "2");
    db.vulnerability(&advisory, "CVE-1");
    db.vulnerability(&advisory, "CVE-2");
    let core = db.package("maven", Some("io.quarkus"), "quarkus-core");
    db.affected(&advisory, core, "1.0", "1.1");
    db.affected(&advisory, core, "2.0", "2.1");
    db.affected(&advisory, core, "2.0", "2.1");

    let affected = db.affected_assertions(&advisory);
    assert_eq!(1, affected.assertions.len());
    let stated: Vec<(String, String, String)> = affected
        .assertions
        .get("pkg://maven/io.quarkus/quarkus-core")
        .unwrap()
        .iter()
        .map(|assertion| match assertion {
            Assertion::Affected { vulnerability, start_version, end_version } => {
                (vulnerability.clone(), start_version.clone(), end_version.clone())
            }
            other => panic!("{:?}", other),
        })
        .collect();
    let mut expected = vec![];
    for (start, end) in [("1.0", "1.1"), ("2.0", "2.1"), ("2.0", "2.1")] {
        for vulnerability in ["CVE-1", "CVE-2"] {
            expected.push((vulnerability.to_string(), start.to_string(), end.to_string()));
        }
    }
    assert_eq!(stated, expected);
}

#[test]
fn other_advisories_change_nothing() {
    let mut db = Database::default();
    let one = db.advisory("RHSA-GHSA-1", "http://db.com/rhsa-ghsa-2", "2");
    let two = db.advisory("RHSA-GHSA-1", "http://db.com/rhsa-ghsa-2", "89");
    db.vulnerability(&one, "CVE-1");
    let core = db.package("maven", Some("io.quarkus"), "quarkus-core");
    db.affected(&one, core, "1.0", "1.1");
    db.listed(Table::NotAffectedPackageVersion, &one, core, "3.0");
    db.listed(Table::FixedPackageVersion, &one, core, "4.0");
    let before = db.all_assertions(&one);
    assert_eq!(before.len(), 1);
    assert_eq!(before[0].1.len(), 3);

    db.vulnerability(&two, "CVE-1");
    let serde = db.package("cargo", None, "serde");
    db.affected(&two, core, "1.0", "1.1");
    db.affected(&two, serde, "1.0", "1.1");
    db.listed(Table::NotAffectedPackageVersion, &two, core, "3.0");
    db.listed(Table::FixedPackageVersion, &two, serde, "4.0");
    assert_eq!(db.all_assertions(&one), before);
    assert_eq!(db.all_assertions(&two).len(), 2);
}

#[test]
fn rows_only_add_assertions() {
    let mut db = Database::default();
    let advisory = db.advisory("RHSA-GHSA-1", "http://db.com/rhsa-ghsa-2", "2");
    db.vulnerability(&advisory, "CVE-1");
    let core = db.package("maven", Some("io.quarkus"), "quarkus-core");
    db.affected(&advisory, core, "1.0", "1.1");
    let before = db.all_assertions(&advisory);
    assert_eq!(before[0].1.len(), 1);

    db.vulnerability(&advisory, "CVE-2");
    db.affected(&advisory, core, "1.0", "1.1");
    let serde = db.package("cargo", None, "serde");
    db.listed(Table::FixedPackageVersion, &advisory, serde, "4.0");
    let after = db.all_assertions(&advisory);
    assert_eq!(after.len(), 2);
    let (_, on_core) = after.iter().find(|(package, _)| *package == before[0].0).unwrap();
    assert_eq!(on_core.len(), 4);
    assert_eq!(on_core.iter().filter(|assertion| **assertion == before[0].1[0]).count(), 2);
}

#[test]
fn affected_and_fixed_leave_not_affected() {
    let mut db = Database::default();
    let advisory = db.advisory("RHSA-GHSA-1", "http://db.com/rhsa-ghsa-2", "2");
    db.vulnerability(&advisory, "CVE-1");
    let core = db.package("maven", Some("io.quarkus"), "quarkus-core");
    db.listed(Table::NotAffectedPackageVersion, &advisory, core, "3.0");
    let before = sorted(db.not_affected_assertions(&advisory));
    assert_eq!(before.len(), 1);

    let serde = db.package("cargo", None, "serde");
    db.affected(&advisory, core, "1.0", "1.1");
    db.affected(&advisory, serde, "1.0", "1.1");
    db.listed(Table::FixedPackageVersion, &advisory, core, "3.0");
    db.listed(Table::FixedPackageVersion, &advisory, serde, "4.0");
    assert_eq!(sorted(db.not_affected_assertions(&advisory)), before);
    assert_eq!(sorted(db.affected_assertions(&advisory)).len(), 2);
}

#[test]
fn asking_in_another_order_gives_the_same() {
    let mut db = Database::default();
    let advisory = db.advisory("RHSA-GHSA-1", "http://db.com/rhsa-ghsa-2", "2");
    db.vulnerability(&advisory, "CVE-1");
    db.vulnerability(&advisory, "CVE-2");
    let core = db.package("maven", Some("io.quarkus"), "quarkus-core");
    let serde = db.package("cargo", None, "serde");
    db.affected(&advisory, core, "1.0", "1.1");
    db.affected(&advisory, serde, "2.0", "2.1");
    db.affected(&advisory, core, "3.0", "3.1");
    let forwards = db.affected_assertions(&advisory);
    assert_eq!(sorted(db.affected_assertions(&advisory)), sorted(forwards));

    let forwards = db.affected_assertions(&advisory);
    db.rows.reverse();
    let backwards = db.affected_assertions(&advisory);
    let url = "pkg://maven/io.quarkus/quarkus-core";
    let first = format!("{:?}", forwards.assertions.get(url).unwrap()[0]);
    let last = format!("{:?}", backwards.assertions.get(url).unwrap()[3]);
    assert_eq!(first, last);
    assert_eq!(sorted(forwards), sorted(backwards));
}
