//! How the assertions of an advisory change as the database grows.
use crate::advisory::{affected_versions, link_to_advisory, link_to_vulnerability, listed_versions};
use crate::assertion::{
    assertions_on, grouped, lemma_grouped_push, merged, AssertionMap, AssertionView, Finding,
};
use crate::database::{
    equal, ids_differ, kept, lemma_refers_to_old_row, lemma_still_selected, lemma_was_selected,
    lemma_yields_more, refers, rows_at, Cell, Combination, Database, Places,
};
use crate::entity::{
    affected_findings, fixed_findings, not_affected_findings, AffectedVersion, FixedVersion,
    NotAffectedVersion,
};
use crate::laws::{
    affected_answered, affected_assertions_are_stored, affected_finding,
    affected_versions_of_one_advisory, all_asserted, fixed_answered, fixed_assertions_are_stored,
    fixed_finding, listed_versions_of_one_advisory, not_affected_answered,
    not_affected_assertions_are_stored, not_affected_finding, speaks_of,
};
use crate::query::SelectView;
use crate::schema::{Column, RelationDef, Table};
use vstd::prelude::*;

verus! {

/// Whether the two maps have the same packages, and on each package the same assertions, each as
/// often, in any order.
pub open spec fn same_assertions(one: AssertionMap, other: AssertionMap) -> bool {
    &&& forall|package: Seq<char>| #[trigger]
        one.contains_key(package) <==> other.contains_key(package)
    &&& forall|package: Seq<char>|
        (#[trigger] assertions_on(one, package)).to_multiset() == assertions_on(
            other,
            package,
        ).to_multiset()
}

/// Whether `more` has every package of `some`, and on each package all its assertions, each at
/// least as often.
pub open spec fn includes(more: AssertionMap, some: AssertionMap) -> bool {
    &&& forall|package: Seq<char>| #[trigger]
        some.contains_key(package) ==> more.contains_key(package)
    &&& forall|package: Seq<char>|
        (#[trigger] assertions_on(some, package)).to_multiset().subset_of(
            assertions_on(more, package).to_multiset(),
        )
}

/// Grouping counts every finding: an assertion stands on a package as often as it was found for
/// it.
pub proof fn grouping_counts_every_finding(
    found: Seq<Finding>,
    package: Seq<char>,
    assertion: AssertionView,
)
    ensures
        assertions_on(grouped(found), package).to_multiset().count(assertion)
            == found.to_multiset().count((package, assertion)),
    decreases found.len(),
{
    broadcast use vstd::seq_lib::group_to_multiset_ensures;

    if found.len() == 0 {
        assert(!found.contains((package, assertion)));
        assert(!grouped(found).contains_key(package));
        assert(!assertions_on(grouped(found), package).contains(assertion));
    } else {
        let rest = found.drop_last();
        let last = found.last();
        assert(found =~= rest.push(last));
        grouping_counts_every_finding(rest, package, assertion);
        lemma_grouped_push(rest, last);
        let before = assertions_on(grouped(rest), package);
        if last.0 == package {
            assert(assertions_on(grouped(found), package) =~= before.push(last.1));
        } else {
            assert(assertions_on(grouped(found), package) == before);
        }
    }
}

/// More findings give more assertions.
proof fn lemma_more_findings(some: Seq<Finding>, more: Seq<Finding>)
    requires
        some.to_multiset().subset_of(more.to_multiset()),
    ensures
        includes(grouped(more), grouped(some)),
{
    broadcast use vstd::seq_lib::group_to_multiset_ensures;

    assert forall|package: Seq<char>| #[trigger]
        grouped(some).contains_key(package) implies grouped(more).contains_key(package) by {
        let i = choose|i: int| 0 <= i < some.len() && #[trigger] some[i].0 == package;
        assert(some.contains(some[i]));
        assert(some.to_multiset().count(some[i]) <= more.to_multiset().count(some[i]));
        assert(more.contains(some[i]));
        let j = choose|j: int| 0 <= j < more.len() && more[j] == some[i];
        assert(more[j].0 == package);
    }
    assert forall|package: Seq<char>|
        (#[trigger] assertions_on(grouped(some), package)).to_multiset().subset_of(
            assertions_on(grouped(more), package).to_multiset(),
        ) by {
        assert forall|assertion: AssertionView|
            assertions_on(grouped(some), package).to_multiset().count(assertion) <= assertions_on(
                grouped(more),
                package,
            ).to_multiset().count(assertion) by {
            grouping_counts_every_finding(some, package, assertion);
            grouping_counts_every_finding(more, package, assertion);
            assert(some.to_multiset().count((package, assertion)) <= more.to_multiset().count(
                (package, assertion),
            ));
        }
    }
}

/// Two maps that include each other have the same assertions.
proof fn lemma_include_each_other(one: AssertionMap, other: AssertionMap)
    requires
        includes(one, other),
        includes(other, one),
    ensures
        same_assertions(one, other),
{
    assert forall|package: Seq<char>|
        (#[trigger] assertions_on(one, package)).to_multiset() == assertions_on(
            other,
            package,
        ).to_multiset() by {
        let a = assertions_on(one, package).to_multiset();
        let b = assertions_on(other, package).to_multiset();
        assert(a.subset_of(b));
        assert(b.subset_of(a));
        assert forall|assertion: AssertionView| a.count(assertion) == b.count(assertion) by {
            assert(a.count(assertion) <= b.count(assertion));
            assert(b.count(assertion) <= a.count(assertion));
        }
        assert(a =~= b);
    }
}

/// Two maps with the same assertions include each other.
proof fn lemma_same_includes(one: AssertionMap, other: AssertionMap)
    requires
        same_assertions(one, other),
    ensures
        includes(one, other),
        includes(other, one),
{
    assert forall|package: Seq<char>|
        (#[trigger] assertions_on(other, package)).to_multiset().subset_of(
            assertions_on(one, package).to_multiset(),
        ) by {
        assert(assertions_on(one, package).to_multiset() == assertions_on(
            other,
            package,
        ).to_multiset());
    }
}

/// The order in which findings come does not matter: the same findings in another order give the
/// same packages, and on each package the same assertions, each as often.
pub proof fn order_of_findings_does_not_matter(found: Seq<Finding>, other: Seq<Finding>)
    requires
        found.to_multiset() == other.to_multiset(),
    ensures
        same_assertions(grouped(found), grouped(other)),
{
    lemma_more_findings(found, other);
    lemma_more_findings(other, found);
    lemma_include_each_other(grouped(found), grouped(other));
}

/// Merging keeps what is included: where two maps include two others, so does what they are
/// merged into.
proof fn lemma_merged_includes(
    some: AssertionMap,
    more: AssertionMap,
    other_some: AssertionMap,
    other_more: AssertionMap,
)
    requires
        includes(more, some),
        includes(other_more, other_some),
    ensures
        includes(merged(more, other_more), merged(some, other_some)),
{
    let few = merged(some, other_some);
    let many = merged(more, other_more);
    assert forall|package: Seq<char>|
        (#[trigger] assertions_on(few, package)).to_multiset().subset_of(
            assertions_on(many, package).to_multiset(),
        ) by {
        let a = assertions_on(some, package);
        let b = assertions_on(other_some, package);
        let c = assertions_on(more, package);
        let d = assertions_on(other_more, package);
        assert(assertions_on(few, package) =~= a + b);
        assert(assertions_on(many, package) =~= c + d);
        vstd::seq_lib::lemma_multiset_commutative(a, b);
        vstd::seq_lib::lemma_multiset_commutative(c, d);
        assert(a.to_multiset().subset_of(c.to_multiset()));
        assert(b.to_multiset().subset_of(d.to_multiset()));
        assert forall|assertion: AssertionView|
            (a + b).to_multiset().count(assertion) <= (c + d).to_multiset().count(assertion) by {
            assert(a.to_multiset().count(assertion) <= c.to_multiset().count(assertion));
            assert(b.to_multiset().count(assertion) <= d.to_multiset().count(assertion));
        }
    }
}

/// Where each of the three kinds of assertions is included, so are all together.
proof fn lemma_all_included(
    affected: Seq<AffectedVersion>,
    more_affected: Seq<AffectedVersion>,
    not_affected: Seq<NotAffectedVersion>,
    more_not_affected: Seq<NotAffectedVersion>,
    fixed: Seq<FixedVersion>,
    more_fixed: Seq<FixedVersion>,
)
    requires
        includes(
            grouped(affected_findings(more_affected)),
            grouped(affected_findings(affected)),
        ),
        includes(
            grouped(not_affected_findings(more_not_affected)),
            grouped(not_affected_findings(not_affected)),
        ),
        includes(grouped(fixed_findings(more_fixed)), grouped(fixed_findings(fixed))),
    ensures
        includes(
            all_asserted(more_affected, more_not_affected, more_fixed),
            all_asserted(affected, not_affected, fixed),
        ),
{
    let a = grouped(affected_findings(affected));
    let b = grouped(affected_findings(more_affected));
    let c = grouped(not_affected_findings(not_affected));
    let d = grouped(not_affected_findings(more_not_affected));
    lemma_merged_includes(a, b, c, d);
    lemma_merged_includes(
        merged(a, c),
        merged(b, d),
        grouped(fixed_findings(fixed)),
        grouped(fixed_findings(more_fixed)),
    );
}

/// The same items in another order give the same values.
proof fn lemma_map_of_reordered<A, B>(one: Seq<A>, other: Seq<A>, f: spec_fn(A) -> B)
    requires
        one.to_multiset() == other.to_multiset(),
    ensures
        one.map_values(f).to_multiset() == other.map_values(f).to_multiset(),
    decreases one.len(),
{
    broadcast use vstd::seq_lib::group_to_multiset_ensures;

    assert(one.len() == one.to_multiset().len());
    assert(other.len() == other.to_multiset().len());
    if one.len() == 0 {
        assert(one.map_values(f) =~= other.map_values(f));
    } else {
        let last = one.last();
        assert(one.contains(last));
        assert(one.to_multiset().count(last) > 0);
        assert(other.contains(last));
        let j = choose|j: int| 0 <= j < other.len() && other[j] == last;
        let rest = one.drop_last();
        let others = other.remove(j);
        assert(rest =~= one.remove(one.len() - 1));
        lemma_map_of_reordered(rest, others, f);
        assert(one.map_values(f) =~= rest.map_values(f).push(f(last)));
        assert(others.map_values(f) =~= other.map_values(f).remove(j));
        assert(other.map_values(f).contains(other.map_values(f)[j]));
        assert(other.map_values(f).to_multiset() =~= others.map_values(f).to_multiset().insert(
            f(last),
        ));
    }
}

/// Where the assertions of each of the three kinds are the same, so are all together.
proof fn lemma_all_same(
    affected: Seq<AffectedVersion>,
    other_affected: Seq<AffectedVersion>,
    not_affected: Seq<NotAffectedVersion>,
    other_not_affected: Seq<NotAffectedVersion>,
    fixed: Seq<FixedVersion>,
    other_fixed: Seq<FixedVersion>,
)
    requires
        same_assertions(
            grouped(affected_findings(affected)),
            grouped(affected_findings(other_affected)),
        ),
        same_assertions(
            grouped(not_affected_findings(not_affected)),
            grouped(not_affected_findings(other_not_affected)),
        ),
        same_assertions(grouped(fixed_findings(fixed)), grouped(fixed_findings(other_fixed))),
    ensures
        same_assertions(
            all_asserted(affected, not_affected, fixed),
            all_asserted(other_affected, other_not_affected, other_fixed),
        ),
{
    lemma_same_includes(
        grouped(affected_findings(affected)),
        grouped(affected_findings(other_affected)),
    );
    lemma_same_includes(
        grouped(not_affected_findings(not_affected)),
        grouped(not_affected_findings(other_not_affected)),
    );
    lemma_same_includes(grouped(fixed_findings(fixed)), grouped(fixed_findings(other_fixed)));
    lemma_all_included(
        affected,
        other_affected,
        not_affected,
        other_not_affected,
        fixed,
        other_fixed,
    );
    lemma_all_included(
        other_affected,
        affected,
        other_not_affected,
        not_affected,
        other_fixed,
        fixed,
    );
    lemma_include_each_other(
        all_asserted(affected, not_affected, fixed),
        all_asserted(other_affected, other_not_affected, other_fixed),
    );
}

/// The order of the rows for version ranges that are affected does not matter: the same rows in
/// another order give the same packages, and on each package the same assertions, each as often.
pub proof fn order_of_affected_rows_does_not_matter(
    rows: Seq<AffectedVersion>,
    reordered: Seq<AffectedVersion>,
)
    requires
        rows.to_multiset() == reordered.to_multiset(),
    ensures
        same_assertions(
            grouped(affected_findings(rows)),
            grouped(affected_findings(reordered)),
        ),
{
    lemma_map_of_reordered(rows, reordered, |row: AffectedVersion| row.finding());
    let found = affected_findings(rows);
    let other = affected_findings(reordered);
    assert(found.to_multiset() == other.to_multiset());
    order_of_findings_does_not_matter(found, other);
}

/// The order of the rows for versions that are not affected does not matter: the same rows in
/// another order give the same packages, and on each package the same assertions, each as often.
pub proof fn order_of_not_affected_rows_does_not_matter(
    rows: Seq<NotAffectedVersion>,
    reordered: Seq<NotAffectedVersion>,
)
    requires
        rows.to_multiset() == reordered.to_multiset(),
    ensures
        same_assertions(
            grouped(not_affected_findings(rows)),
            grouped(not_affected_findings(reordered)),
        ),
{
    lemma_map_of_reordered(rows, reordered, |row: NotAffectedVersion| row.finding());
    let found = not_affected_findings(rows);
    let other = not_affected_findings(reordered);
    assert(found.to_multiset() == other.to_multiset());
    order_of_findings_does_not_matter(found, other);
}

/// The order of the rows for versions that are fixed does not matter: the same rows in
/// another order give the same packages, and on each package the same assertions, each as often.
pub proof fn order_of_fixed_rows_does_not_matter(
    rows: Seq<FixedVersion>,
    reordered: Seq<FixedVersion>,
)
    requires
        rows.to_multiset() == reordered.to_multiset(),
    ensures
        same_assertions(
            grouped(fixed_findings(rows)),
            grouped(fixed_findings(reordered)),
        ),
{
    lemma_map_of_reordered(rows, reordered, |row: FixedVersion| row.finding());
    let found = fixed_findings(rows);
    let other = fixed_findings(reordered);
    assert(found.to_multiset() == other.to_multiset());
    order_of_findings_does_not_matter(found, other);
}

/// The order in which the database answers does not matter to all the assertions together either.
pub proof fn order_of_rows_does_not_matter(
    affected: Seq<AffectedVersion>,
    reordered_affected: Seq<AffectedVersion>,
    not_affected: Seq<NotAffectedVersion>,
    reordered_not_affected: Seq<NotAffectedVersion>,
    fixed: Seq<FixedVersion>,
    reordered_fixed: Seq<FixedVersion>,
)
    requires
        affected.to_multiset() == reordered_affected.to_multiset(),
        not_affected.to_multiset() == reordered_not_affected.to_multiset(),
        fixed.to_multiset() == reordered_fixed.to_multiset(),
    ensures
        same_assertions(
            all_asserted(affected, not_affected, fixed),
            all_asserted(reordered_affected, reordered_not_affected, reordered_fixed),
        ),
{
    order_of_affected_rows_does_not_matter(affected, reordered_affected);
    order_of_not_affected_rows_does_not_matter(not_affected, reordered_not_affected);
    order_of_fixed_rows_does_not_matter(fixed, reordered_fixed);
    lemma_all_same(
        affected,
        reordered_affected,
        not_affected,
        reordered_not_affected,
        fixed,
        reordered_fixed,
    );
}

/// What a query finds in a database that has only grown includes what it found before.
proof fn lemma_finds_more(
    query: SelectView,
    before: Database,
    after: Database,
    finding: spec_fn(Combination) -> Finding,
    some: Seq<Finding>,
    more: Seq<Finding>,
)
    requires
        kept(before, after),
        query.yields(before, finding, some),
        query.yields(after, finding, more),
    ensures
        includes(grouped(more), grouped(some)),
{
    assert forall|places: Places| #[trigger] query.selects(before, places) implies query.selects(
        after,
        places,
    ) && rows_at(before, places) == rows_at(after, places) by {
        lemma_still_selected(query, before, after, places);
    }
    lemma_yields_more(query, before, after, finding, some, more);
    lemma_more_findings(some, more);
}

/// Where a query asks for nothing that it did not ask for before the database grew, it finds the
/// same.
proof fn lemma_finds_the_same(
    query: SelectView,
    before: Database,
    after: Database,
    finding: spec_fn(Combination) -> Finding,
    found: Seq<Finding>,
    later: Seq<Finding>,
)
    requires
        kept(before, after),
        query.yields(before, finding, found),
        query.yields(after, finding, later),
        forall|places: Places| #[trigger]
            query.selects(after, places) ==> query.selects(before, places),
    ensures
        same_assertions(grouped(found), grouped(later)),
{
    lemma_finds_more(query, before, after, finding, found, later);
    assert forall|places: Places| #[trigger] query.selects(after, places) implies query.selects(
        before,
        places,
    ) && rows_at(after, places) == rows_at(before, places) by {
        lemma_still_selected(query, before, after, places);
    }
    lemma_yields_more(query, after, before, finding, later, found);
    lemma_more_findings(later, found);
    lemma_include_each_other(grouped(found), grouped(later));
}

/// Rows only add assertions on version ranges that are affected: as long as nothing is changed or
/// deleted, every package keeps occurring, and every assertion on it stays, as often as it was
/// there.
pub proof fn rows_only_add_affected(
    before: Database,
    after: Database,
    advisory_id: int,
    rows: Seq<AffectedVersion>,
    later_rows: Seq<AffectedVersion>,
)
    requires
        kept(before, after),
        affected_answered(before, advisory_id, rows),
        affected_answered(after, advisory_id, later_rows),
    ensures
        includes(
            grouped(affected_findings(later_rows)),
            grouped(affected_findings(rows)),
        ),
{
    affected_assertions_are_stored(before, advisory_id, rows);
    affected_assertions_are_stored(after, advisory_id, later_rows);
    lemma_finds_more(
        affected_versions(advisory_id),
        before,
        after,
        affected_finding(),
        affected_findings(rows),
        affected_findings(later_rows),
    );
}

/// Rows only add assertions on versions that are not affected: as long as nothing is changed or
/// deleted, every package keeps occurring, and every assertion on it stays, as often as it was
/// there.
pub proof fn rows_only_add_not_affected(
    before: Database,
    after: Database,
    advisory_id: int,
    rows: Seq<NotAffectedVersion>,
    later_rows: Seq<NotAffectedVersion>,
)
    requires
        kept(before, after),
        not_affected_answered(before, advisory_id, rows),
        not_affected_answered(after, advisory_id, later_rows),
    ensures
        includes(
            grouped(not_affected_findings(later_rows)),
            grouped(not_affected_findings(rows)),
        ),
{
    not_affected_assertions_are_stored(before, advisory_id, rows);
    not_affected_assertions_are_stored(after, advisory_id, later_rows);
    lemma_finds_more(
        listed_versions(Table::NotAffectedPackageVersion, advisory_id),
        before,
        after,
        not_affected_finding(),
        not_affected_findings(rows),
        not_affected_findings(later_rows),
    );
}

/// Rows only add assertions on versions that are fixed: as long as nothing is changed or
/// deleted, every package keeps occurring, and every assertion on it stays, as often as it was
/// there.
pub proof fn rows_only_add_fixed(
    before: Database,
    after: Database,
    advisory_id: int,
    rows: Seq<FixedVersion>,
    later_rows: Seq<FixedVersion>,
)
    requires
        kept(before, after),
        fixed_answered(before, advisory_id, rows),
        fixed_answered(after, advisory_id, later_rows),
    ensures
        includes(
            grouped(fixed_findings(later_rows)),
            grouped(fixed_findings(rows)),
        ),
{
    fixed_assertions_are_stored(before, advisory_id, rows);
    fixed_assertions_are_stored(after, advisory_id, later_rows);
    lemma_finds_more(
        listed_versions(Table::FixedPackageVersion, advisory_id),
        before,
        after,
        fixed_finding(),
        fixed_findings(rows),
        fixed_findings(later_rows),
    );
}

/// Rows only add assertions, of all the kinds together: as long as nothing is changed or deleted,
/// every package keeps occurring, and every assertion on it stays, as often as it was there.
pub proof fn rows_only_add_assertions(
    before: Database,
    after: Database,
    advisory_id: int,
    affected: Seq<AffectedVersion>,
    later_affected: Seq<AffectedVersion>,
    not_affected: Seq<NotAffectedVersion>,
    later_not_affected: Seq<NotAffectedVersion>,
    fixed: Seq<FixedVersion>,
    later_fixed: Seq<FixedVersion>,
)
    requires
        kept(before, after),
        affected_answered(before, advisory_id, affected),
        affected_answered(after, advisory_id, later_affected),
        not_affected_answered(before, advisory_id, not_affected),
        not_affected_answered(after, advisory_id, later_not_affected),
        fixed_answered(before, advisory_id, fixed),
        fixed_answered(after, advisory_id, later_fixed),
    ensures
        includes(
            all_asserted(later_affected, later_not_affected, later_fixed),
            all_asserted(affected, not_affected, fixed),
        ),
{
    rows_only_add_affected(before, after, advisory_id, affected, later_affected);
    rows_only_add_not_affected(before, after, advisory_id, not_affected, later_not_affected);
    rows_only_add_fixed(before, after, advisory_id, fixed, later_fixed);
    lemma_all_included(
        affected,
        later_affected,
        not_affected,
        later_not_affected,
        fixed,
        later_fixed,
    );
}

/// Asking twice for the version ranges that are affected gives the same: two answers of one
/// database give the same packages, and on each package the same assertions, each as often, in
/// whatever order the database answers.
pub proof fn asking_twice_gives_the_same_affected(
    database: Database,
    advisory_id: int,
    rows: Seq<AffectedVersion>,
    again: Seq<AffectedVersion>,
)
    requires
        affected_answered(database, advisory_id, rows),
        affected_answered(database, advisory_id, again),
    ensures
        same_assertions(
            grouped(affected_findings(rows)),
            grouped(affected_findings(again)),
        ),
{
    rows_only_add_affected(database, database, advisory_id, rows, again);
    rows_only_add_affected(database, database, advisory_id, again, rows);
    lemma_include_each_other(
        grouped(affected_findings(rows)),
        grouped(affected_findings(again)),
    );
}

/// Asking twice for the versions that are not affected gives the same: two answers of one database
/// give the same packages, and on each package the same assertions, each as often, in whatever
/// order the database answers.
pub proof fn asking_twice_gives_the_same_not_affected(
    database: Database,
    advisory_id: int,
    rows: Seq<NotAffectedVersion>,
    again: Seq<NotAffectedVersion>,
)
    requires
        not_affected_answered(database, advisory_id, rows),
        not_affected_answered(database, advisory_id, again),
    ensures
        same_assertions(
            grouped(not_affected_findings(rows)),
            grouped(not_affected_findings(again)),
        ),
{
    rows_only_add_not_affected(database, database, advisory_id, rows, again);
    rows_only_add_not_affected(database, database, advisory_id, again, rows);
    lemma_include_each_other(
        grouped(not_affected_findings(rows)),
        grouped(not_affected_findings(again)),
    );
}

/// Asking twice for the versions that are fixed gives the same: two answers of one database
/// give the same packages, and on each package the same assertions, each as often, in whatever
/// order the database answers.
pub proof fn asking_twice_gives_the_same_fixed(
    database: Database,
    advisory_id: int,
    rows: Seq<FixedVersion>,
    again: Seq<FixedVersion>,
)
    requires
        fixed_answered(database, advisory_id, rows),
        fixed_answered(database, advisory_id, again),
    ensures
        same_assertions(
            grouped(fixed_findings(rows)),
            grouped(fixed_findings(again)),
        ),
{
    rows_only_add_fixed(database, database, advisory_id, rows, again);
    rows_only_add_fixed(database, database, advisory_id, again, rows);
    lemma_include_each_other(
        grouped(fixed_findings(rows)),
        grouped(fixed_findings(again)),
    );
}

/// Asking twice gives the same, of all the kinds together.
pub proof fn asking_twice_gives_the_same(
    database: Database,
    advisory_id: int,
    affected: Seq<AffectedVersion>,
    affected_again: Seq<AffectedVersion>,
    not_affected: Seq<NotAffectedVersion>,
    not_affected_again: Seq<NotAffectedVersion>,
    fixed: Seq<FixedVersion>,
    fixed_again: Seq<FixedVersion>,
)
    requires
        affected_answered(database, advisory_id, affected),
        affected_answered(database, advisory_id, affected_again),
        not_affected_answered(database, advisory_id, not_affected),
        not_affected_answered(database, advisory_id, not_affected_again),
        fixed_answered(database, advisory_id, fixed),
        fixed_answered(database, advisory_id, fixed_again),
    ensures
        same_assertions(
            all_asserted(affected, not_affected, fixed),
            all_asserted(affected_again, not_affected_again, fixed_again),
        ),
{
    asking_twice_gives_the_same_affected(database, advisory_id, affected, affected_again);
    asking_twice_gives_the_same_not_affected(
        database,
        advisory_id,
        not_affected,
        not_affected_again,
    );
    asking_twice_gives_the_same_fixed(database, advisory_id, fixed, fixed_again);
    lemma_all_same(
        affected,
        affected_again,
        not_affected,
        not_affected_again,
        fixed,
        fixed_again,
    );
}

/// Whether no two rows of a table that others refer to have the same id.
pub open spec fn ids_are_distinct(database: Database) -> bool {
    &&& ids_differ(database, Table::Advisory)
    &&& ids_differ(database, Table::Vulnerability)
    &&& ids_differ(database, Table::Package)
    &&& ids_differ(database, Table::PackageVersion)
    &&& ids_differ(database, Table::PackageVersionRange)
}

/// Whether the rows of a table that lists versions refer to an advisory and to what is listed.
pub open spec fn listing_refers(
    database: Database,
    list: Table,
    key: Column,
    listed: Table,
) -> bool {
    &&& refers(database, RelationDef::belongs_to(list, key, listed))
    &&& refers(database, RelationDef::belongs_to(list, Column::AdvisoryId, Table::Advisory))
}

/// Whether every row refers to rows that are there.
pub open spec fn references_hold(database: Database) -> bool {
    &&& listing_refers(
        database,
        Table::AffectedPackageVersionRange,
        Column::PackageVersionRangeId,
        Table::PackageVersionRange,
    )
    &&& listing_refers(
        database,
        Table::NotAffectedPackageVersion,
        Column::PackageVersionId,
        Table::PackageVersion,
    )
    &&& listing_refers(
        database,
        Table::FixedPackageVersion,
        Column::PackageVersionId,
        Table::PackageVersion,
    )
    &&& refers(
        database,
        RelationDef::belongs_to(Table::PackageVersionRange, Column::PackageId, Table::Package),
    )
    &&& refers(
        database,
        RelationDef::belongs_to(Table::PackageVersion, Column::PackageId, Table::Package),
    )
    &&& refers(database, link_to_advisory())
    &&& refers(database, link_to_vulnerability())
}

/// Whether the database grew soundly: nothing was changed or deleted, rows referred to rows that
/// were there, and the ids are distinct.
pub open spec fn grew(before: Database, after: Database) -> bool {
    &&& kept(before, after)
    &&& references_hold(before)
    &&& ids_are_distinct(after)
}

/// Whether none of the rows that the table has gained is of this advisory.
pub open spec fn gained_none_of(
    before: Database,
    after: Database,
    table: Table,
    advisory_id: int,
) -> bool {
    forall|i: int|
        before[table].len() <= i < after[table].len() ==> {
            (#[trigger] after[table][i])[Column::AdvisoryId] != Cell::Int(advisory_id)
        }
}

/// What a query for the versions in a list asks for it asked for before the database grew, if no
/// row of the list and no link of the advisory came in. `key` is the column by which the list
/// refers to what is listed.
proof fn lemma_selected_before(
    query: SelectView,
    list: Table,
    key: Column,
    listed: Table,
    before: Database,
    after: Database,
    advisory_id: int,
    places: Places,
)
    requires
        grew(before, after),
        listing_refers(before, list, key, listed),
        refers(before, RelationDef::belongs_to(listed, Column::PackageId, Table::Package)),
        ids_differ(after, listed),
        gained_none_of(before, after, list, advisory_id),
        gained_none_of(before, after, Table::AdvisoryVulnerability, advisory_id),
        query.selects(after, places),
        forall|table: Table| #[trigger]
            query.reads(table) <==> table == list || table == listed || table == Table::Package
                || table == Table::Advisory || table == Table::AdvisoryVulnerability || table
                == Table::Vulnerability,
        speaks_of(after, advisory_id, rows_at(after, places)),
        rows_at(after, places)[list][Column::AdvisoryId] == Cell::Int(advisory_id),
        equal(rows_at(after, places)[list][key], rows_at(after, places)[listed][Column::Id]),
        equal(
            rows_at(after, places)[listed][Column::PackageId],
            rows_at(after, places)[Table::Package][Column::Id],
        ),
    ensures
        query.selects(before, places),
{
    let link = Table::AdvisoryVulnerability;
    assert(query.reads(list) && query.reads(listed) && query.reads(Table::Package));
    assert(query.reads(link) && query.reads(Table::Advisory) && query.reads(Table::Vulnerability));
    assert(places.contains_key(list) && places.contains_key(listed) && places.contains_key(link));
    assert(places.contains_key(Table::Package) && places.contains_key(Table::Advisory)
        && places.contains_key(Table::Vulnerability));
    assert(places[list] < before[list].len());
    lemma_refers_to_old_row(
        before,
        after,
        RelationDef::belongs_to(list, key, listed),
        places[list],
        places[listed],
    );
    lemma_refers_to_old_row(
        before,
        after,
        RelationDef::belongs_to(listed, Column::PackageId, Table::Package),
        places[listed],
        places[Table::Package],
    );
    lemma_refers_to_old_row(
        before,
        after,
        RelationDef::belongs_to(list, Column::AdvisoryId, Table::Advisory),
        places[list],
        places[Table::Advisory],
    );
    assert(places[link] < before[link].len());
    lemma_refers_to_old_row(
        before,
        after,
        link_to_vulnerability(),
        places[link],
        places[Table::Vulnerability],
    );
    lemma_was_selected(query, before, after, places);
}

/// What the query for affected version ranges asks for it asked for before the database grew, if
/// no such row and no link of the advisory came in.
proof fn lemma_affected_selected_before(
    before: Database,
    after: Database,
    advisory_id: int,
    places: Places,
)
    requires
        grew(before, after),
        gained_none_of(before, after, Table::AffectedPackageVersionRange, advisory_id),
        gained_none_of(before, after, Table::AdvisoryVulnerability, advisory_id),
        affected_versions(advisory_id).selects(after, places),
    ensures
        affected_versions(advisory_id).selects(before, places),
{
    let query = affected_versions(advisory_id);
    affected_versions_of_one_advisory(after, advisory_id, rows_at(after, places));
    assert(query.joins.len() == 5);
    assert(query.joins[0].to.table == Table::PackageVersionRange);
    assert(query.joins[1].to.table == Table::Advisory);
    assert(query.joins[2].to.table == Table::Package);
    assert(query.joins[3].to.table == Table::AdvisoryVulnerability);
    assert(query.joins[4].to.table == Table::Vulnerability);
    lemma_selected_before(
        query,
        Table::AffectedPackageVersionRange,
        Column::PackageVersionRangeId,
        Table::PackageVersionRange,
        before,
        after,
        advisory_id,
        places,
    );
}

/// What the query for the versions in a list asks for it asked for before the database grew, if
/// no row of the list and no link of the advisory came in.
proof fn lemma_listed_selected_before(
    list: Table,
    before: Database,
    after: Database,
    advisory_id: int,
    places: Places,
)
    requires
        list == Table::NotAffectedPackageVersion || list == Table::FixedPackageVersion,
        grew(before, after),
        gained_none_of(before, after, list, advisory_id),
        gained_none_of(before, after, Table::AdvisoryVulnerability, advisory_id),
        listed_versions(list, advisory_id).selects(after, places),
    ensures
        listed_versions(list, advisory_id).selects(before, places),
{
    let query = listed_versions(list, advisory_id);
    listed_versions_of_one_advisory(list, after, advisory_id, rows_at(after, places));
    assert(query.joins.len() == 5);
    assert(query.joins[0].to.table == Table::PackageVersion);
    assert(query.joins[1].to.table == Table::Advisory);
    assert(query.joins[2].to.table == Table::Package);
    assert(query.joins[3].to.table == Table::AdvisoryVulnerability);
    assert(query.joins[4].to.table == Table::Vulnerability);
    lemma_selected_before(
        query,
        list,
        Column::PackageVersionId,
        Table::PackageVersion,
        before,
        after,
        advisory_id,
        places,
    );
}

/// Affected version ranges come from the advisory's own rows alone: as long as no row that calls
/// a range affected and no link comes in for the advisory, whatever else comes in leaves these
/// assertions as they are.
pub proof fn only_own_rows_change_affected(
    before: Database,
    after: Database,
    advisory_id: int,
    rows: Seq<AffectedVersion>,
    later_rows: Seq<AffectedVersion>,
)
    requires
        grew(before, after),
        gained_none_of(before, after, Table::AffectedPackageVersionRange, advisory_id),
        gained_none_of(before, after, Table::AdvisoryVulnerability, advisory_id),
        affected_answered(before, advisory_id, rows),
        affected_answered(after, advisory_id, later_rows),
    ensures
        same_assertions(
            grouped(affected_findings(rows)),
            grouped(affected_findings(later_rows)),
        ),
{
    let query = affected_versions(advisory_id);
    affected_assertions_are_stored(before, advisory_id, rows);
    affected_assertions_are_stored(after, advisory_id, later_rows);
    assert forall|places: Places| #[trigger] query.selects(after, places) implies query.selects(
        before,
        places,
    ) by {
        lemma_affected_selected_before(before, after, advisory_id, places);
    }
    lemma_finds_the_same(
        query,
        before,
        after,
        affected_finding(),
        affected_findings(rows),
        affected_findings(later_rows),
    );
}

/// The same of versions that are not affected: as long as no row that calls a version not
/// affected and no link comes in for the advisory, whatever else comes in leaves these assertions
/// as they are.
pub proof fn only_own_rows_change_not_affected(
    before: Database,
    after: Database,
    advisory_id: int,
    rows: Seq<NotAffectedVersion>,
    later_rows: Seq<NotAffectedVersion>,
)
    requires
        grew(before, after),
        gained_none_of(before, after, Table::NotAffectedPackageVersion, advisory_id),
        gained_none_of(before, after, Table::AdvisoryVulnerability, advisory_id),
        not_affected_answered(before, advisory_id, rows),
        not_affected_answered(after, advisory_id, later_rows),
    ensures
        same_assertions(
            grouped(not_affected_findings(rows)),
            grouped(not_affected_findings(later_rows)),
        ),
{
    let list = Table::NotAffectedPackageVersion;
    let query = listed_versions(list, advisory_id);
    not_affected_assertions_are_stored(before, advisory_id, rows);
    not_affected_assertions_are_stored(after, advisory_id, later_rows);
    assert forall|places: Places| #[trigger] query.selects(after, places) implies query.selects(
        before,
        places,
    ) by {
        lemma_listed_selected_before(list, before, after, advisory_id, places);
    }
    lemma_finds_the_same(
        query,
        before,
        after,
        not_affected_finding(),
        not_affected_findings(rows),
        not_affected_findings(later_rows),
    );
}

/// The same of versions that are fixed: as long as no row that calls a version fixed and no link
/// comes in for the advisory, whatever else comes in leaves these assertions as they are.
pub proof fn only_own_rows_change_fixed(
    before: Database,
    after: Database,
    advisory_id: int,
    rows: Seq<FixedVersion>,
    later_rows: Seq<FixedVersion>,
)
    requires
        grew(before, after),
        gained_none_of(before, after, Table::FixedPackageVersion, advisory_id),
        gained_none_of(before, after, Table::AdvisoryVulnerability, advisory_id),
        fixed_answered(before, advisory_id, rows),
        fixed_answered(after, advisory_id, later_rows),
    ensures
        same_assertions(grouped(fixed_findings(rows)), grouped(fixed_findings(later_rows))),
{
    let list = Table::FixedPackageVersion;
    let query = listed_versions(list, advisory_id);
    fixed_assertions_are_stored(before, advisory_id, rows);
    fixed_assertions_are_stored(after, advisory_id, later_rows);
    assert forall|places: Places| #[trigger] query.selects(after, places) implies query.selects(
        before,
        places,
    ) by {
        lemma_listed_selected_before(list, before, after, advisory_id, places);
    }
    lemma_finds_the_same(
        query,
        before,
        after,
        fixed_finding(),
        fixed_findings(rows),
        fixed_findings(later_rows),
    );
}

/// Affected ranges and fixed versions do not change what is asserted of versions that are not
/// affected: as long as nothing comes in among the versions that are not affected and among the
/// links, affected ranges, fixed versions, and the packages, versions and ranges that come in with
/// them leave these assertions as they are.
pub proof fn affected_and_fixed_leave_not_affected(
    before: Database,
    after: Database,
    advisory_id: int,
    rows: Seq<NotAffectedVersion>,
    later_rows: Seq<NotAffectedVersion>,
)
    requires
        grew(before, after),
        after[Table::NotAffectedPackageVersion] == before[Table::NotAffectedPackageVersion],
        after[Table::AdvisoryVulnerability] == before[Table::AdvisoryVulnerability],
        not_affected_answered(before, advisory_id, rows),
        not_affected_answered(after, advisory_id, later_rows),
    ensures
        same_assertions(
            grouped(not_affected_findings(rows)),
            grouped(not_affected_findings(later_rows)),
        ),
{
    only_own_rows_change_not_affected(before, after, advisory_id, rows, later_rows);
}

/// Rows of other advisories never change the assertions of an advisory: where all the affected
/// ranges, versions that are not affected, fixed versions and links that come in are of others,
/// the packages stay the same, and on each package the assertions, each as often. Of each kind
/// alone, `only_own_rows_change_affected` and its like say so.
pub proof fn other_advisories_change_nothing(
    before: Database,
    after: Database,
    advisory_id: int,
    affected: Seq<AffectedVersion>,
    later_affected: Seq<AffectedVersion>,
    not_affected: Seq<NotAffectedVersion>,
    later_not_affected: Seq<NotAffectedVersion>,
    fixed: Seq<FixedVersion>,
    later_fixed: Seq<FixedVersion>,
)
    requires
        grew(before, after),
        gained_none_of(before, after, Table::AffectedPackageVersionRange, advisory_id),
        gained_none_of(before, after, Table::NotAffectedPackageVersion, advisory_id),
        gained_none_of(before, after, Table::FixedPackageVersion, advisory_id),
        gained_none_of(before, after, Table::AdvisoryVulnerability, advisory_id),
        affected_answered(before, advisory_id, affected),
        affected_answered(after, advisory_id, later_affected),
        not_affected_answered(before, advisory_id, not_affected),
        not_affected_answered(after, advisory_id, later_not_affected),
        fixed_answered(before, advisory_id, fixed),
        fixed_answered(after, advisory_id, later_fixed),
    ensures
        same_assertions(
            all_asserted(affected, not_affected, fixed),
            all_asserted(later_affected, later_not_affected, later_fixed),
        ),
{
    only_own_rows_change_affected(before, after, advisory_id, affected, later_affected);
    only_own_rows_change_not_affected(
        before,
        after,
        advisory_id,
        not_affected,
        later_not_affected,
    );
    only_own_rows_change_fixed(before, after, advisory_id, fixed, later_fixed);
    lemma_all_same(
        affected,
        later_affected,
        not_affected,
        later_not_affected,
        fixed,
        later_fixed,
    );
}

} // verus!
