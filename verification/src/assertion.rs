//! What advisories say about packages.
use vstd::hash_map::StringHashMap;
use vstd::prelude::*;

verus! {

/// What an advisory says of a package in respect of one vulnerability.
#[derive(Debug)]
pub enum Assertion {
    /// The versions of a range have the vulnerability.
    Affected { vulnerability: String, start_version: String, end_version: String },
    /// A version does not have the vulnerability.
    NotAffected { vulnerability: String, version: String },
    /// A version no longer has the vulnerability.
    Fixed { vulnerability: String, version: String },
}

pub enum AssertionView {
    Affected { vulnerability: Seq<char>, start_version: Seq<char>, end_version: Seq<char> },
    NotAffected { vulnerability: Seq<char>, version: Seq<char> },
    Fixed { vulnerability: Seq<char>, version: Seq<char> },
}

impl View for Assertion {
    type V = AssertionView;

    open spec fn view(&self) -> AssertionView {
        match self {
            Assertion::Affected { vulnerability, start_version, end_version } =>
                AssertionView::Affected {
                    vulnerability: vulnerability@,
                    start_version: start_version@,
                    end_version: end_version@,
                },
            Assertion::NotAffected { vulnerability, version } => AssertionView::NotAffected {
                vulnerability: vulnerability@,
                version: version@,
            },
            Assertion::Fixed { vulnerability, version } => AssertionView::Fixed {
                vulnerability: vulnerability@,
                version: version@,
            },
        }
    }
}

impl AssertionView {
    /// The vulnerability that the assertion is about.
    pub open spec fn about(self) -> Seq<char> {
        match self {
            AssertionView::Affected { vulnerability, .. } => vulnerability,
            AssertionView::NotAffected { vulnerability, .. } => vulnerability,
            AssertionView::Fixed { vulnerability, .. } => vulnerability,
        }
    }
}

/// The assertions of a list, as values.
pub open spec fn views(list: Seq<Assertion>) -> Seq<AssertionView> {
    list.map_values(|a: Assertion| a@)
}

/// The assertions on each package: the URL of the package, and a list.
pub type AssertionMap = Map<Seq<char>, Seq<AssertionView>>;

/// The assertions on one package; none if the package does not occur.
pub open spec fn assertions_on(map: AssertionMap, package: Seq<char>) -> Seq<AssertionView> {
    if map.contains_key(package) {
        map[package]
    } else {
        seq![]
    }
}

/// The map with more assertions on one package, behind those that it had.
pub open spec fn extended(
    map: AssertionMap,
    package: Seq<char>,
    list: Seq<AssertionView>,
) -> AssertionMap {
    map.insert(package, assertions_on(map, package) + list)
}

/// The assertions of two maps: on each package those of the first, then those of the second.
pub open spec fn merged(first: AssertionMap, second: AssertionMap) -> AssertionMap {
    Map::new(
        |package: Seq<char>| first.contains_key(package) || second.contains_key(package),
        |package: Seq<char>| assertions_on(first, package) + assertions_on(second, package),
    )
}

/// An assertion, and the URL of the package that it is on.
pub type Finding = (Seq<char>, AssertionView);

/// Whether a finding is for the package.
pub open spec fn is_on(package: Seq<char>) -> spec_fn(Finding) -> bool {
    |f: Finding| f.0 == package
}

/// The findings by package: each package that is found, with the assertions on it in the order
/// in which they were found.
pub open spec fn grouped(found: Seq<Finding>) -> AssertionMap {
    Map::new(
        |package: Seq<char>|
            exists|i: int| 0 <= i < found.len() && #[trigger] found[i].0 == package,
        |package: Seq<char>| found.filter(is_on(package)).map_values(|f: Finding| f.1),
    )
}

/// One more finding adds one assertion on its package.
pub(crate) proof fn lemma_grouped_push(found: Seq<Finding>, next: Finding)
    ensures
        grouped(found.push(next)) == extended(grouped(found), next.0, seq![next.1]),
{
    reveal(Seq::filter);
    let more = found.push(next);
    let before = grouped(found);
    let after = grouped(more);
    assert(more.drop_last() =~= found);
    assert forall|k: Seq<char>| #[trigger]
        after.contains_key(k) <==> k == next.0 || before.contains_key(k) by {
        if k == next.0 {
            assert(more[found.len() as int].0 == k);
        }
        if before.contains_key(k) {
            let i = choose|i: int| 0 <= i < found.len() && #[trigger] found[i].0 == k;
            assert(more[i].0 == k);
        }
        if after.contains_key(k) && k != next.0 {
            let i = choose|i: int| 0 <= i < more.len() && #[trigger] more[i].0 == k;
            assert(found[i].0 == k);
        }
    }
    assert forall|k: Seq<char>| #[trigger]
        after.contains_key(k) implies after[k] =~= extended(before, next.0, seq![next.1])[k] by {
        let is_on = is_on(k);
        if k == next.0 {
            assert(more.filter(is_on) == found.filter(is_on).push(next));
            if !before.contains_key(k) {
                assert forall|i: int| 0 <= i < found.len() implies !is_on(#[trigger] found[i]) by {
                    assert(found[i].0 != k);
                }
                found.lemma_all_neg_filter_empty(is_on);
            }
        } else {
            assert(more.filter(is_on) == found.filter(is_on));
        }
    }
    assert(after =~= extended(before, next.0, seq![next.1]));
}

/// Assertions by package. Each package occurs once, and has its assertions in the order in which
/// they came.
pub struct PackageAssertions {
    index: StringHashMap<usize>,
    entries: Vec<(String, Vec<Assertion>)>,
}

impl View for PackageAssertions {
    type V = AssertionMap;

    closed spec fn view(&self) -> AssertionMap {
        self.index@.map_values(|i: usize| views(self.entries@[i as int].1@))
    }
}

/// The index has the place of each entry, and nothing else.
spec fn indexes(index: Map<Seq<char>, usize>, entries: Seq<(String, Vec<Assertion>)>) -> bool {
    &&& forall|k: Seq<char>| #[trigger]
        index.contains_key(k) ==> index[k] < entries.len() && entries[index[k] as int].0@ == k
    &&& forall|i: int|
        0 <= i < entries.len() ==> index.contains_key((#[trigger] entries[i]).0@)
            && index[entries[i].0@] == i
}

impl PackageAssertions {
    #[verifier::type_invariant]
    spec fn well_formed(self) -> bool {
        indexes(self.index@, self.entries@)
    }

    /// No assertions on any package.
    pub fn new() -> (map: PackageAssertions)
        ensures
            map@ == Map::<Seq<char>, Seq<AssertionView>>::empty(),
    {
        let map = PackageAssertions { index: StringHashMap::new(), entries: Vec::new() };
        assert(map@ =~= Map::empty());
        map
    }

    /// The number of packages.
    pub fn len(&self) -> (len: usize)
        ensures
            len == self@.dom().len(),
    {
        assert(self@.dom() =~= self.index@.dom());
        self.index.len()
    }

    /// The assertions on a package, if it occurs.
    pub fn get(&self, package: &str) -> (list: Option<&Vec<Assertion>>)
        ensures
            list is Some <==> self@.contains_key(package@),
            list matches Some(list) ==> views(list@) == self@[package@],
            list matches Some(list) ==> {
                &&& list@.len() == self@[package@].len()
                &&& forall|i: int|
                    0 <= i < list@.len() ==> (#[trigger] list@[i])@ == self@[package@][i]
            },
    {
        proof {
            use_type_invariant(self);
        }
        match self.index.get(package) {
            Some(i) => Some(&self.entries[*i].1),
            None => None,
        }
    }

    /// Adds assertions on a package behind those that it has. The package occurs from then on,
    /// even if the list is empty.
    pub fn extend(self, package: String, list: Vec<Assertion>) -> (map: PackageAssertions)
        ensures
            map@ == extended(self@, package@, views(list@)),
            map@.contains_key(package@),
            map@[package@].len() == assertions_on(self@, package@).len() + list@.len(),
            forall|i: int|
                0 <= i < list@.len() ==> map@[package@][assertions_on(self@, package@).len() + i]
                    == (#[trigger] list@[i])@,
    {
        proof {
            use_type_invariant(&self);
        }
        let ghost added = views(list@);
        let mut list = list;
        let mut index = self.index;
        let mut entries = self.entries;
        let known = match index.get(package.as_str()) {
            Some(i) => Some(*i),
            None => None,
        };
        match known {
            Some(i) => {
                entries[i].1.append(&mut list);
            },
            None => {
                index.insert(package.clone(), entries.len());
                entries.push((package, list));
            },
        }
        let map = PackageAssertions { index, entries };
        assert(map@ =~= extended(self@, package@, added)) by {
            assert forall|k: Seq<char>| #[trigger]
                map@.contains_key(k) implies map@[k] =~= extended(self@, package@, added)[k] by {
                if k == package@ {
                    assert(map@[k] =~= assertions_on(self@, k) + added);
                } else {
                    assert(index@.contains_key(k) && index@[k] == self.index@[k]);
                    assert(entries@[index@[k] as int] == self.entries@[index@[k] as int]);
                }
            }
        }
        map
    }

    /// Adds one assertion on a package behind those that it has.
    pub fn push(self, package: String, assertion: Assertion) -> (map: PackageAssertions)
        ensures
            map@ == extended(self@, package@, seq![assertion@]),
    {
        let mut list: Vec<Assertion> = Vec::new();
        list.push(assertion);
        assert(views(list@) =~= seq![assertion@]);
        self.extend(package, list)
    }

    /// Adds the assertions of another map: on each package behind those that are here.
    pub fn merge(self, other: PackageAssertions) -> (map: PackageAssertions)
        ensures
            map@ == merged(self@, other@),
    {
        proof {
            use_type_invariant(&other);
        }
        let ghost first = self@;
        let ghost second = other@;
        let ghost index = other.index@;
        let ghost all = other.entries@;
        let mut map = self;
        for entry in iter: other.entries
            invariant
                iter.seq() == all,
                indexes(index, all),
                second == index.map_values(|i: usize| views(all[i as int].1@)),
                forall|k: Seq<char>| #[trigger]
                    map@.contains_key(k) <==> first.contains_key(k) || (index.contains_key(k)
                        && index[k] < iter.index()),
                forall|k: Seq<char>|
                    #![trigger map@[k]]
                    map@.contains_key(k) ==> {
                        let added = index.contains_key(k) && index[k] < iter.index();
                        map@[k] == assertions_on(first, k) + (if added {
                            second[k]
                        } else {
                            seq![]
                        })
                    },
        {
            let (package, list) = entry;
            map = map.extend(package, list);
        }
        assert(map@ =~= merged(first, second));
        map
    }

    /// All packages with the assertions on them. Each package stands there once.
    pub fn into_entries(self) -> (entries: Vec<(String, Vec<Assertion>)>)
        ensures
            forall|i: int|
                0 <= i < entries.len() ==> self@.contains_key((#[trigger] entries@[i]).0@)
                    && self@[entries@[i].0@] == views(entries@[i].1@),
            forall|package: Seq<char>| #[trigger]
                self@.contains_key(package) ==> exists|i: int|
                    0 <= i < entries.len() && (#[trigger] entries@[i]).0@ == package,
            forall|i: int, j: int|
                0 <= i < j < entries.len() ==> (#[trigger] entries@[i]).0@
                    != (#[trigger] entries@[j]).0@,
    {
        proof {
            use_type_invariant(&self);
        }
        self.entries
    }
}

/// What is proved of an assertion as a value holds of its fields: nothing of them is left out.
pub proof fn assertion_is_seen_whole(assertion: Assertion)
    ensures
        match assertion {
            Assertion::Affected { vulnerability, start_version, end_version } => assertion@ == (
            AssertionView::Affected {
                vulnerability: vulnerability@,
                start_version: start_version@,
                end_version: end_version@,
            }),
            Assertion::NotAffected { vulnerability, version } => assertion@ == (
            AssertionView::NotAffected { vulnerability: vulnerability@, version: version@ }),
            Assertion::Fixed { vulnerability, version } => assertion@ == (AssertionView::Fixed {
                vulnerability: vulnerability@,
                version: version@,
            }),
        },
{
}

/// A list of assertions is seen one by one, in its order.
pub proof fn lists_are_seen_whole(list: Seq<Assertion>)
    ensures
        views(list).len() == list.len(),
        forall|i: int| 0 <= i < list.len() ==> #[trigger] views(list)[i] == list[i]@,
{
}

/// Assertions are added on one package, behind those that it has, and on no other.
pub proof fn extending_changes_one_package(
    map: AssertionMap,
    package: Seq<char>,
    list: Seq<AssertionView>,
    other: Seq<char>,
)
    ensures
        extended(map, package, list).contains_key(package),
        map.contains_key(package) ==> extended(map, package, list)[package] == map[package] + list,
        !map.contains_key(package) ==> extended(map, package, list)[package] == list,
        other != package ==> {
            &&& extended(map, package, list).contains_key(other) <==> map.contains_key(other)
            &&& map.contains_key(other) ==> extended(map, package, list)[other] == map[other]
        },
{
    assert(Seq::<AssertionView>::empty() + list =~= list);
}

/// Two maps are merged package by package: a package occurs if it occurs in either, with the
/// assertions of the first map and then those of the second.
pub proof fn merging_goes_package_by_package(
    first: AssertionMap,
    second: AssertionMap,
    package: Seq<char>,
)
    ensures
        merged(first, second).contains_key(package) <==> first.contains_key(package)
            || second.contains_key(package),
        first.contains_key(package) && second.contains_key(package) ==> merged(
            first,
            second,
        )[package] == first[package] + second[package],
        first.contains_key(package) && !second.contains_key(package) ==> merged(
            first,
            second,
        )[package] == first[package],
        !first.contains_key(package) && second.contains_key(package) ==> merged(
            first,
            second,
        )[package] == second[package],
{
    if first.contains_key(package) && !second.contains_key(package) {
        assert(merged(first, second)[package] =~= first[package]);
    }
    if !first.contains_key(package) && second.contains_key(package) {
        assert(merged(first, second)[package] =~= second[package]);
    }
}

/// Nothing found is on no package. What is found next is added on its package, behind what was
/// found for it before, and changes no other package.
pub proof fn findings_are_grouped_in_their_order(
    found: Seq<Finding>,
    next: Finding,
    other: Seq<char>,
)
    ensures
        !grouped(seq![]).contains_key(other),
        grouped(found.push(next)).contains_key(next.0),
        grouped(found).contains_key(next.0) ==> grouped(found.push(next))[next.0] == grouped(
            found,
        )[next.0].push(next.1),
        !grouped(found).contains_key(next.0) ==> grouped(found.push(next))[next.0] == seq![next.1],
        other != next.0 ==> {
            &&& grouped(found.push(next)).contains_key(other) <==> grouped(found).contains_key(
                other,
            )
            &&& grouped(found).contains_key(other) ==> grouped(found.push(next))[other] == grouped(
                found,
            )[other]
        },
{
    lemma_grouped_push(found, next);
    extending_changes_one_package(grouped(found), next.0, seq![next.1], other);
    if grouped(found).contains_key(next.0) {
        assert(grouped(found)[next.0] + seq![next.1] =~= grouped(found)[next.0].push(next.1));
    }
}

} // verus!
