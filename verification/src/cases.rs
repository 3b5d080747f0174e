//! Counting the recorded cases of each neighbourhood.

use vstd::prelude::*;
use vstd::seq_lib::*;
use crate::names::{canonical_name, neighbourhood_names_normalizer};
use crate::table::NameTable;

verus! {

/// One recorded case. Only the neighbourhood is read when cases are counted;
/// the other fields are carried along.
#[derive(Clone, Debug, PartialEq, Eq)]
pub struct CovidEntry {
    /// The row's identifier in the published dataset.
    pub id: u32,
    /// Whether the case belongs to an outbreak in an institution.
    pub outbreak_associated: String,
    /// The age group at the time of illness, where known.
    pub age_group: Option<String>,
    /// The neighbourhood of the case, where known, as the dataset spells it.
    pub neighbourhood: Option<String>,
    /// The first three characters of the postal code, where known.
    pub fsa: Option<String>,
}

/// The name under which a record is counted, if it is counted at all: a
/// record without a neighbourhood is counted nowhere.
pub open spec fn counted_name(record: CovidEntry) -> Option<Seq<char>> {
    match record.neighbourhood {
        Some(raw) => Some(canonical_name(raw@)),
        None => None,
    }
}

/// How many of the records are counted under `name`.
pub open spec fn case_count(records: Seq<CovidEntry>, name: Seq<char>) -> nat {
    records.filter(|r: CovidEntry| counted_name(r) == Some(name)).len()
}

/// The count of every name under which at least one record is counted.
pub open spec fn case_counts(records: Seq<CovidEntry>) -> Map<Seq<char>, u32> {
    Map::new(
        |name: Seq<char>| case_count(records, name) > 0,
        |name: Seq<char>| case_count(records, name) as u32,
    )
}

/// What one record adds to the count of `name`.
pub open spec fn contribution(record: CovidEntry, name: Seq<char>) -> nat {
    if counted_name(record) == Some(name) {
        1
    } else {
        0
    }
}

/// One more record raises the count of its own name by one and no other.
pub proof fn lemma_case_count_push(records: Seq<CovidEntry>, record: CovidEntry, name: Seq<char>)
    ensures
        case_count(records.push(record), name) == case_count(records, name) + contribution(
            record,
            name,
        ),
{
    reveal(Seq::filter);
    assert(records.push(record).drop_last() =~= records);
}

/// No name is counted more often than there are records.
pub proof fn lemma_case_count_bound(records: Seq<CovidEntry>, name: Seq<char>)
    ensures
        case_count(records, name) <= records.len(),
{
    records.lemma_filter_len(|r: CovidEntry| counted_name(r) == Some(name));
}

/// The count over two runs of records is the sum of the counts over each.
pub proof fn lemma_case_count_concat(a: Seq<CovidEntry>, b: Seq<CovidEntry>, name: Seq<char>)
    ensures
        case_count(a + b, name) == case_count(a, name) + case_count(b, name),
{
    Seq::filter_distributes_over_add(a, b, |r: CovidEntry| counted_name(r) == Some(name));
}

/// Taking one record out lowers the count by what that record added.
pub proof fn lemma_case_count_remove(records: Seq<CovidEntry>, at: int, name: Seq<char>)
    requires
        0 <= at < records.len(),
    ensures
        case_count(records, name) == case_count(records.remove(at), name) + contribution(
            records[at],
            name,
        ),
{
    let before = records.take(at);
    let after = records.skip(at + 1);
    assert(records =~= before.push(records[at]) + after);
    assert(records.remove(at) =~= before + after);
    lemma_case_count_concat(before.push(records[at]), after, name);
    lemma_case_count_concat(before, after, name);
    lemma_case_count_push(before, records[at], name);
}

/// How many of the records are counted under some name.
pub open spec fn counted_records(records: Seq<CovidEntry>) -> nat {
    records.filter(|r: CovidEntry| r.neighbourhood is Some).len()
}

/// Two sequences that hold the same records, each as often as the other,
/// count the same number of cases under every name.
pub proof fn lemma_case_count_permutation(
    a: Seq<CovidEntry>,
    b: Seq<CovidEntry>,
    name: Seq<char>,
)
    requires
        a.to_multiset() == b.to_multiset(),
    ensures
        case_count(a, name) == case_count(b, name),
    decreases a.len(),
{
    to_multiset_len(a);
    to_multiset_len(b);
    if a.len() > 0 {
        let last = a.last();
        let rest = a.drop_last();
        assert(a =~= rest.push(last));
        // The last record of `a` stands somewhere in `b`.
        to_multiset_build(rest, last);
        to_multiset_contains(b, last);
        let at = choose|at: int| 0 <= at < b.len() && b[at] == last;
        // Without it, the two still hold the same records.
        to_multiset_remove(a, a.len() - 1);
        to_multiset_remove(b, at);
        assert(a.remove(a.len() - 1) =~= rest);
        lemma_case_count_permutation(rest, b.remove(at), name);
        lemma_case_count_push(rest, last, name);
        lemma_case_count_remove(b, at, name);
    }
}

/// The counts do not depend on the order in which the records come: any
/// rearrangement of the same records gives the same count for every name.
pub proof fn case_counts_order_independent(a: Seq<CovidEntry>, b: Seq<CovidEntry>)
    requires
        a.to_multiset() == b.to_multiset(),
    ensures
        case_counts(a) == case_counts(b),
{
    assert forall|name: Seq<char>| case_count(a, name) == case_count(b, name) by {
        lemma_case_count_permutation(a, b, name);
    }
    assert(case_counts(a) =~= case_counts(b));
}

/// A record without a neighbourhood, wherever it stands among the others,
/// changes no count, and does not change how many records are counted.
pub proof fn case_counts_skip_absent(records: Seq<CovidEntry>, at: int, record: CovidEntry)
    requires
        0 <= at <= records.len(),
        record.neighbourhood is None,
    ensures
        case_counts(records.insert(at, record)) == case_counts(records),
        counted_records(records.insert(at, record)) == counted_records(records),
{
    let with = records.insert(at, record);
    assert(with.remove(at) =~= records);
    assert forall|name: Seq<char>| case_count(with, name) == case_count(records, name) by {
        lemma_case_count_remove(with, at, name);
    }
    assert(case_counts(with) =~= case_counts(records));
    let counted = |r: CovidEntry| r.neighbourhood is Some;
    let before = records.take(at);
    let after = records.skip(at);
    assert(records =~= before + after);
    assert(with =~= before.push(record) + after);
    Seq::filter_distributes_over_add(before, after, counted);
    Seq::filter_distributes_over_add(before.push(record), after, counted);
    assert(before.push(record).filter(counted) == before.filter(counted)) by {
        reveal(Seq::filter);
        assert(before.push(record).drop_last() =~= before);
    }
}

/// Counts the cases of each neighbourhood. A record without a neighbourhood
/// is passed over; every other record is counted under the normalized name
/// of its neighbourhood.
pub fn aggregate(records: &Vec<CovidEntry>) -> (counts: NameTable)
    requires
        records.len() <= u32::MAX,
    ensures
        counts@ == case_counts(records@),
{
    let mut counts = NameTable::new();
    let mut i: usize = 0;
    assert(counts@ =~= case_counts(records@.take(0))) by {
        assert forall|name: Seq<char>| case_count(records@.take(0), name) == 0 by {
            lemma_case_count_bound(records@.take(0), name);
        }
    }
    while i < records.len()
        invariant
            i <= records.len(),
            records.len() <= u32::MAX,
            counts@ == case_counts(records@.take(i as int)),
        decreases records.len() - i,
    {
        let ghost seen = records@.take(i as int);
        proof {
            assert(records@.take(i + 1) =~= seen.push(records@[i as int]));
            assert forall|name: Seq<char>|
                case_count(records@.take(i + 1), name) == case_count(seen, name) + contribution(
                    records@[i as int],
                    name,
                ) by {
                lemma_case_count_push(seen, records@[i as int], name);
            }
        }
        match &records[i].neighbourhood {
            Some(raw) => {
                let name = neighbourhood_names_normalizer(raw.as_str());
                proof {
                    lemma_case_count_bound(seen, name@);
                }
                let so_far: u32 = match counts.get(name) {
                    Some(n) => n,
                    None => 0,
                };
                counts.insert(name.to_owned(), so_far + 1);
            },
            None => {},
        }
        i = i + 1;
        assert(counts@ =~= case_counts(records@.take(i as int)));
    }
    assert(records@.take(i as int) =~= records@);
    counts
}

} // verus!
