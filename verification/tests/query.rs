use huevos_api::query::Select;
use huevos_api::schema::Table;
use huevos_api::{AdvisoryContext, AdvisoryModel, InnerSystem};
use sea_query::PostgresQueryBuilder;

fn advisory(id: i32) -> AdvisoryContext {
    AdvisoryContext::from(AdvisoryModel {
        id,
        identifier: "RHSA-GHSA-1".to_string(),
        location: "http://db.com/rhsa-ghsa-2".to_string(),
        sha256: "2".to_string(),
    })
}

#[test]
fn query_for_an_advisory_by_id() {
    assert_eq!(
        InnerSystem::get_advisory_by_id_query(5)
            .statement()
            .to_string(PostgresQueryBuilder),
        r#"SELECT "advisory"."id", "advisory"."identifier", "advisory"."location", "advisory"."sha256" FROM "advisory" WHERE "advisory"."id" = 5 LIMIT 1"#
    );
}

#[test]
fn query_for_an_advisory_by_key() {
    assert_eq!(
        InnerSystem::get_advisory_query("RHSA-GHSA-1", "http://db.com/rhsa-ghsa-2", "2")
            .statement()
            .to_string(PostgresQueryBuilder),
        r#"SELECT "advisory"."id", "advisory"."identifier", "advisory"."location", "advisory"."sha256" FROM "advisory" WHERE "advisory"."identifier" = 'RHSA-GHSA-1' AND "advisory"."location" = 'http://db.com/rhsa-ghsa-2' AND "advisory"."sha256" = '2' LIMIT 1"#
    );
}

#[test]
fn query_for_a_vulnerability_of_an_advisory() {
    assert_eq!(
        advisory(7)
            .get_vulnerability_query("CVE-123")
            .statement()
            .to_string(PostgresQueryBuilder),
        r#"SELECT "advisory_vulnerability"."advisory_id", "advisory_vulnerability"."vulnerability_id" FROM "advisory_vulnerability" JOIN "vulnerability" ON "advisory_vulnerability"."vulnerability_id" = "vulnerability"."id" WHERE "advisory_vulnerability"."advisory_id" = 7 AND "vulnerability"."identifier" = 'CVE-123' LIMIT 1"#
    );
}

#[test]
fn query_for_the_vulnerabilities_of_an_advisory() {
    assert_eq!(
        advisory(7)
            .vulnerabilities_query()
            .statement()
            .to_string(PostgresQueryBuilder),
        r#"SELECT "advisory_vulnerability"."advisory_id", "advisory_vulnerability"."vulnerability_id" FROM "advisory_vulnerability" JOIN "advisory_vulnerability" ON "vulnerability"."id" = "advisory_vulnerability"."vulnerability_id" WHERE "advisory_vulnerability"."advisory_id" = 7"#
    );
}

#[test]
fn query_for_affected_versions() {
    assert_eq!(
        advisory(7)
            .affected_assertions_query()
            .statement()
            .to_string(PostgresQueryBuilder),
        [
            r#"SELECT "affected_package_version_range"."id", "affected_package_version_range"."advisory_id", "#,
            r#""affected_package_version_range"."package_version_range_id", "#,
            r#""package"."type" AS "ty", "package"."namespace" AS "namespace", "package"."name" AS "name", "#,
            r#""package_version_range"."start" AS "start", "package_version_range"."end" AS "end", "#,
            r#""vulnerability"."identifier" AS "vulnerability", "advisory"."identifier" AS "identifier", "#,
            r#""advisory"."location" AS "location", "advisory"."sha256" AS "sha256" "#,
            r#"FROM "affected_package_version_range" "#,
            r#"JOIN "package_version_range" ON "affected_package_version_range"."package_version_range_id" = "package_version_range"."id" "#,
            r#"JOIN "advisory" ON "affected_package_version_range"."advisory_id" = "advisory"."id" "#,
            r#"JOIN "package" ON "package_version_range"."package_id" = "package"."id" "#,
            r#"JOIN "advisory_vulnerability" ON "advisory"."id" = "advisory_vulnerability"."advisory_id" "#,
            r#"JOIN "vulnerability" ON "advisory_vulnerability"."vulnerability_id" = "vulnerability"."id" "#,
            r#"WHERE "affected_package_version_range"."advisory_id" = 7"#,
        ]
        .concat()
    );
}

fn listed_versions(table: &str) -> String {
    [
        r#"SELECT "list"."id", "list"."advisory_id", "list"."package_version_id", "#,
        r#""package"."type" AS "ty", "package"."namespace" AS "namespace", "package"."name" AS "name", "#,
        r#""package_version"."version" AS "version", "#,
        r#""vulnerability"."identifier" AS "vulnerability", "advisory"."identifier" AS "identifier", "#,
        r#""advisory"."location" AS "location", "advisory"."sha256" AS "sha256" "#,
        r#"FROM "list" "#,
        r#"JOIN "package_version" ON "list"."package_version_id" = "package_version"."id" "#,
        r#"JOIN "advisory" ON "list"."advisory_id" = "advisory"."id" "#,
        r#"JOIN "package" ON "package_version"."package_id" = "package"."id" "#,
        r#"JOIN "advisory_vulnerability" ON "advisory"."id" = "advisory_vulnerability"."advisory_id" "#,
        r#"JOIN "vulnerability" ON "advisory_vulnerability"."vulnerability_id" = "vulnerability"."id" "#,
        r#"WHERE "list"."advisory_id" = 7"#,
    ]
    .concat()
    .replace("list", table)
}

#[test]
fn query_for_versions_that_are_not_affected() {
    assert_eq!(
        advisory(7)
            .not_affected_assertions_query()
            .statement()
            .to_string(PostgresQueryBuilder),
        listed_versions("not_affected_package_version")
    );
}

#[test]
fn query_for_versions_that_are_fixed() {
    assert_eq!(
        advisory(7)
            .fixed_assertions_query()
            .statement()
            .to_string(PostgresQueryBuilder),
        listed_versions("fixed_package_version")
    );
}

fn names_each_table_once(query: &Select) -> bool {
    let mut tables: Vec<Table> = vec![query.from];
    for join in query.joins.iter() {
        if tables.contains(&join.to.table) {
            return false;
        }
        tables.push(join.to.table);
    }
    true
}

#[test]
fn queries_name_each_table_once() {
    let advisory = advisory(7);
    for query in [
        InnerSystem::get_advisory_by_id_query(7),
        InnerSystem::get_advisory_query("RHSA-GHSA-1", "http://db.com/rhsa-ghsa-2", "2"),
        advisory.get_vulnerability_query("CVE-123"),
        advisory.affected_assertions_query(),
        advisory.not_affected_assertions_query(),
        advisory.fixed_assertions_query(),
    ] {
        assert!(names_each_table_once(&query));
    }
    assert!(!names_each_table_once(&advisory.vulnerabilities_query()));
}
