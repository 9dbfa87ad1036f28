use huevos_api::Purl;

fn url(ty: &str, namespace: Option<&str>, name: &str) -> String {
    Purl {
        ty: ty.to_string(),
        namespace: namespace.map(|namespace| namespace.to_string()),
        name: name.to_string(),
    }
    .to_string()
}

#[test]
fn url_with_a_namespace() {
    assert_eq!(
        url("maven", Some("io.quarkus"), "quarkus-core"),
        "pkg://maven/io.quarkus/quarkus-core"
    );
}

#[test]
fn url_without_a_namespace() {
    assert_eq!(url("cargo", None, "serde"), "pkg://cargo/serde");
}

#[test]
fn urls_of_different_packages_differ() {
    let urls = [
        url("maven", Some("io.quarkus"), "quarkus-core"),
        url("maven", Some(".io.quarkus"), "quarkus-core"),
        url("maven", Some("io.quarkus"), "quarkus-addons"),
        url("maven", Some(""), "quarkus-core"),
        url("maven", None, "quarkus-core"),
        url("github", Some("a/b"), "c"),
        url("github", Some("a"), "c"),
    ];
    for (i, a) in urls.iter().enumerate() {
        for (j, b) in urls.iter().enumerate() {
            assert_eq!(i == j, a == b);
        }
    }
}

#[test]
fn a_slash_in_a_name_can_hide_the_namespace() {
    assert_eq!(url("maven", None, "a/b"), url("maven", Some("a"), "b"));
}
