use huevos_api::{Relationship, UnexpectedValue};

const ALL: [Relationship; 13] = [
    Relationship::ContainedBy,
    Relationship::DependencyOf,
    Relationship::DevDependencyOf,
    Relationship::OptionalDependencyOf,
    Relationship::ProvidedDependencyOf,
    Relationship::TestDependencyOf,
    Relationship::RuntimeDependencyOf,
    Relationship::ExampleOf,
    Relationship::GeneratedFrom,
    Relationship::AncestorOf,
    Relationship::VariantOf,
    Relationship::BuildToolOf,
    Relationship::DevToolOf,
];

#[test]
fn relationships_are_stored_in_order() {
    for (i, relationship) in ALL.iter().enumerate() {
        assert_eq!(relationship.to_value(), i as i32);
    }
}

#[test]
fn stored_relationships_are_read_back() {
    for relationship in ALL.iter() {
        assert_eq!(
            Relationship::try_from_value(&relationship.to_value()),
            Ok(*relationship)
        );
    }
}

#[test]
fn other_integers_stand_for_no_relationship() {
    for value in [-1, 13, i32::MIN, i32::MAX] {
        assert_eq!(
            Relationship::try_from_value(&value),
            Err(UnexpectedValue { value })
        );
    }
}
