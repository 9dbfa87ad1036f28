//! The ways in which one package can relate to another.
use vstd::prelude::*;

verus! {

/// How a package relates to another one. Each variant is stored as a small integer.
#[derive(Debug, Copy, Clone, PartialEq, Eq, Structural)]
pub enum Relationship {
    ContainedBy,
    DependencyOf,
    DevDependencyOf,
    OptionalDependencyOf,
    ProvidedDependencyOf,
    TestDependencyOf,
    RuntimeDependencyOf,
    ExampleOf,
    GeneratedFrom,
    AncestorOf,
    VariantOf,
    BuildToolOf,
    DevToolOf,
}

/// A stored integer that stands for no `Relationship`.
#[derive(Debug, Copy, Clone, PartialEq, Eq, Structural)]
pub struct UnexpectedValue {
    pub value: i32,
}

impl Relationship {
    /// Every relationship, each at the index that is the integer it is stored as.
    pub open spec fn all() -> Seq<Relationship> {
        seq![
            Relationship::ContainedBy,
            Relationship::DependencyOf,
            Relationship::DevDependencyOf,
            Relationship::OptionalDependencyOf,
            Relationship::ProvidedDependencyOf,
            Relationship::TestDependencyOf,
            Relationship::RuntimeDependencyOf,
            Relationship::ExampleOf,
            Relationship::GeneratedFrom,
            Relationship::AncestorOf,
            Relationship::VariantOf,
            Relationship::BuildToolOf,
            Relationship::DevToolOf,
        ]
    }

    /// Whether the relationship is stored as the integer `value`.
    pub open spec fn stored_as(self, value: int) -> bool {
        0 <= value < Self::all().len() && Self::all()[value] == self
    }

    /// The integer to store for this relationship.
    pub fn to_value(&self) -> (value: i32)
        ensures
            self.stored_as(value as int),
            0 <= value <= 12,
    {
        match self {
            Relationship::ContainedBy => 0,
            Relationship::DependencyOf => 1,
            Relationship::DevDependencyOf => 2,
            Relationship::OptionalDependencyOf => 3,
            Relationship::ProvidedDependencyOf => 4,
            Relationship::TestDependencyOf => 5,
            Relationship::RuntimeDependencyOf => 6,
            Relationship::ExampleOf => 7,
            Relationship::GeneratedFrom => 8,
            Relationship::AncestorOf => 9,
            Relationship::VariantOf => 10,
            Relationship::BuildToolOf => 11,
            Relationship::DevToolOf => 12,
        }
    }

    /// The relationship that a stored integer stands for. An integer that stands for none is
    /// handed back in the error.
    pub fn try_from_value(v: &i32) -> (result: Result<Relationship, UnexpectedValue>)
        ensures
            result is Ok <==> 0 <= *v < Self::all().len(),
            result is Ok <==> 0 <= *v <= 12,
            result matches Ok(relationship) ==> relationship.stored_as(*v as int),
            result matches Err(error) ==> error.value == *v,
    {
        match *v {
            0 => Ok(Relationship::ContainedBy),
            1 => Ok(Relationship::DependencyOf),
            2 => Ok(Relationship::DevDependencyOf),
            3 => Ok(Relationship::OptionalDependencyOf),
            4 => Ok(Relationship::ProvidedDependencyOf),
            5 => Ok(Relationship::TestDependencyOf),
            6 => Ok(Relationship::RuntimeDependencyOf),
            7 => Ok(Relationship::ExampleOf),
            8 => Ok(Relationship::GeneratedFrom),
            9 => Ok(Relationship::AncestorOf),
            10 => Ok(Relationship::VariantOf),
            11 => Ok(Relationship::BuildToolOf),
            12 => Ok(Relationship::DevToolOf),
            value => Err(UnexpectedValue { value }),
        }
    }
}

/// Storing and reading back are inverse to each other: a relationship is stored as exactly one
/// integer, and an integer stands for at most one relationship.
pub proof fn stored_values_round_trip(a: Relationship, b: Relationship, v: int, w: int)
    requires
        a.stored_as(v),
        b.stored_as(w),
    ensures
        a == b <==> v == w,
{
}

} // verus!
