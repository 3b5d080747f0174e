//! The census table: finding the row of populations and reading it.

use vstd::prelude::*;
use vstd::hash_map::StringHashMap;
use vstd::seq_lib::*;
use crate::error::JoinError;
use crate::names::{canonical_name, neighbourhood_names_normalizer};
use crate::population::{parse_population, population_of};
use crate::table::NameTable;

verus! {

/// Whether no heading stands above two of the columns.
pub open spec fn distinct_headings(columns: Seq<(String, Option<String>)>) -> bool {
    forall|i: int, j: int| 0 <= i < j < columns.len() ==> columns[i].0@ != columns[j].0@
}

/// Whether `heading` stands above one of the first `n` columns.
pub open spec fn heads_a_column(
    columns: Seq<(String, Option<String>)>,
    n: int,
    heading: Seq<char>,
) -> bool {
    exists|k: int| 0 <= k < n && #[trigger] columns[k].0@ == heading
}

/// The neighbourhood columns of a row of the census table: for each heading
/// the cell below it, `None` where the publisher left the cell out. The
/// columns are a mapping: no heading stands above two of them. They keep
/// the order in which they were given.
#[derive(Debug, PartialEq, Eq)]
pub struct NeighbourhoodColumns {
    entries: Vec<(String, Option<String>)>,
}

impl View for NeighbourhoodColumns {
    type V = Seq<(String, Option<String>)>;

    closed spec fn view(&self) -> Seq<(String, Option<String>)> {
        self.entries@
    }
}

impl NeighbourhoodColumns {
    /// What holds of every value of this type: the columns are a mapping.
    #[verifier::type_invariant]
    spec fn headings_are_distinct(&self) -> bool {
        distinct_headings(self.entries@)
    }

    /// Takes the columns as they are given. Columns in which a heading
    /// occurs twice are no mapping, and are refused.
    pub fn new(entries: Vec<(String, Option<String>)>) -> (columns: Option<NeighbourhoodColumns>)
        ensures
            columns is Some <==> distinct_headings(entries@),
            columns matches Some(c) ==> c@ == entries@,
    {
        let mut seen: StringHashMap<bool> = StringHashMap::new();
        let mut i: usize = 0;
        while i < entries.len()
            invariant
                i <= entries.len(),
                distinct_headings(entries@.take(i as int)),
                forall|heading: Seq<char>|
                    seen@.contains_key(heading) <==> heads_a_column(entries@, i as int, heading),
            decreases entries.len() - i,
        {
            let heading = &entries[i].0;
            if seen.contains_key(heading.as_str()) {
                proof {
                    let k = choose|k: int| 0 <= k < i && #[trigger] entries@[k].0@ == heading@;
                    assert(entries@[k].0@ == entries@[i as int].0@);
                }
                return None;
            }
            proof {
                // The heading stands above none of the columns before this
                // one, so these and this one have distinct headings.
                let before = entries@.take(i as int);
                let with = entries@.take(i + 1);
                assert forall|a: int, b: int| 0 <= a < b < with.len() implies with[a].0@
                    != with[b].0@ by {
                    if b == i {
                        assert(!heads_a_column(entries@, i as int, heading@));
                        assert(entries@[a].0@ != heading@);
                    } else {
                        assert(before[a].0@ != before[b].0@);
                    }
                }
            }
            seen.insert(heading.clone(), true);
            proof {
                assert forall|h: Seq<char>|
                    seen@.contains_key(h) <==> heads_a_column(entries@, i + 1, h) by {
                    if heads_a_column(entries@, i + 1, h) {
                        let k = choose|k: int| 0 <= k < i + 1 && #[trigger] entries@[k].0@ == h;
                        if k < i {
                            assert(heads_a_column(entries@, i as int, h));
                        }
                    }
                    if heads_a_column(entries@, i as int, h) {
                        let k = choose|k: int| 0 <= k < i && #[trigger] entries@[k].0@ == h;
                        assert(0 <= k < i + 1 && entries@[k].0@ == h);
                    }
                    if h == heading@ {
                        assert(entries@[i as int].0@ == h);
                    }
                }
            }
            i = i + 1;
        }
        assert(entries@.take(i as int) =~= entries@);
        Some(NeighbourhoodColumns { entries })
    }

    /// The columns in their order. No heading occurs twice among them.
    pub fn entries(&self) -> (entries: &Vec<(String, Option<String>)>)
        ensures
            entries@ == self@,
            distinct_headings(entries@),
    {
        proof {
            use_type_invariant(self);
        }
        &self.entries
    }

    /// Gives the columns up, in their order.
    pub fn into_entries(self) -> (entries: Vec<(String, Option<String>)>)
        ensures
            entries@ == self@,
            distinct_headings(entries@),
    {
        proof {
            use_type_invariant(&self);
        }
        self.entries
    }
}

/// One row of the census table. Besides a few fixed fields it holds one
/// column for each neighbourhood, headed by the neighbourhood's name as the
/// census spells it. Which names head the columns is data: it is not known
/// before the table is read.
#[derive(Debug, PartialEq, Eq)]
pub struct CensusEntry {
    /// The row's identifier in the published dataset.
    pub id: u32,
    /// The broad subject of the row.
    pub category: String,
    /// The narrower subject of the row.
    pub topic: String,
    /// Where the figures of the row come from.
    pub data_source: String,
    /// The neighbourhood columns of the row.
    pub neighbourhoods: NeighbourhoodColumns,
}

/// A row of the census table by what it measures.
#[derive(Debug, PartialEq, Eq)]
pub enum CensusEntryCategory {
    /// The row that numbers the neighbourhoods.
    NeighbourhoodInformation(CensusEntry),
    /// The row that holds the population of each neighbourhood in 2016.
    Population2016(CensusEntry),
    /// Any other row.
    Other,
}

/// The rows, in order, that hold populations.
pub open spec fn population_rows(census: Seq<CensusEntryCategory>) -> Seq<CensusEntryCategory> {
    census.filter(|row: CensusEntryCategory| row is Population2016)
}

/// The name that a column's heading stands for: the heading, normalized.
pub open spec fn column_name(column: (String, Option<String>)) -> Seq<char> {
    canonical_name(column.0@)
}

/// The population in a column's cell. A cell that is left out, or holds no
/// number, gives none.
pub open spec fn column_population(column: (String, Option<String>)) -> Option<u32> {
    match column.1 {
        Some(cell) => population_of(cell@),
        None => None,
    }
}

/// Whether a column gives a population for `name`.
pub open spec fn gives_population(column: (String, Option<String>), name: Seq<char>) -> bool {
    column_population(column) is Some && column_name(column) == name
}

/// The table of populations that a row's columns give, taken from the first
/// to the last: where two columns give the same name, the later one stays.
pub open spec fn population_table(columns: Seq<(String, Option<String>)>) -> Map<Seq<char>, u32>
    decreases columns.len(),
{
    if columns.len() == 0 {
        Map::empty()
    } else {
        let earlier = population_table(columns.drop_last());
        match column_population(columns.last()) {
            Some(population) => earlier.insert(column_name(columns.last()), population),
            None => earlier,
        }
    }
}

/// Whether column `at` is the last of the columns to give a population for
/// `name`.
pub open spec fn is_last_column_of(
    columns: Seq<(String, Option<String>)>,
    at: int,
    name: Seq<char>,
) -> bool {
    &&& 0 <= at < columns.len()
    &&& gives_population(columns[at], name)
    &&& forall|j: int| at < j < columns.len() ==> !gives_population(#[trigger] columns[j], name)
}

/// A name is in the table exactly when some column gives a population for
/// it, and its number is the one that the last such column gives.
pub proof fn lemma_population_table_entries(
    columns: Seq<(String, Option<String>)>,
    name: Seq<char>,
)
    ensures
        population_table(columns).contains_key(name) <==> exists|at: int|
            is_last_column_of(columns, at, name),
        forall|at: int|
            is_last_column_of(columns, at, name) ==> population_table(columns)[name]
                == column_population(columns[at])->0,
    decreases columns.len(),
{
    if columns.len() > 0 {
        let earlier = columns.drop_last();
        let last = columns.len() - 1;
        lemma_population_table_entries(earlier, name);
        if gives_population(columns[last], name) {
            // The last column gives the name, so no earlier one is the last
            // to give it.
            assert(is_last_column_of(columns, last, name));
            assert forall|at: int| is_last_column_of(columns, at, name) implies at == last by {
                if at < last {
                    assert(gives_population(columns[last], name));
                }
            }
        } else {
            // The last column does not give the name, so the last to give
            // it is the same with and without that column.
            assert forall|at: int|
                is_last_column_of(columns, at, name) <==> is_last_column_of(earlier, at, name) by {
                if is_last_column_of(columns, at, name) {
                    assert forall|j: int| at < j < earlier.len() implies !gives_population(
                        #[trigger] earlier[j],
                        name,
                    ) by {
                        assert(earlier[j] == columns[j]);
                    }
                }
                if is_last_column_of(earlier, at, name) {
                    assert forall|j: int| at < j < columns.len() implies !gives_population(
                        #[trigger] columns[j],
                        name,
                    ) by {
                        if j < last {
                            assert(earlier[j] == columns[j]);
                        }
                    }
                }
            }
            if population_table(columns).contains_key(name) {
                let at = choose|at: int| is_last_column_of(earlier, at, name);
                assert(is_last_column_of(columns, at, name));
            }
        }
    }
}

/// Where some column gives a population for `name`, one of them is the last
/// to do so.
pub proof fn lemma_last_column_exists(
    columns: Seq<(String, Option<String>)>,
    at: int,
    name: Seq<char>,
)
    requires
        0 <= at < columns.len(),
        gives_population(columns[at], name),
    ensures
        exists|last: int| is_last_column_of(columns, last, name),
    decreases columns.len() - at,
{
    if exists|later: int| at < later < columns.len() && gives_population(columns[later], name) {
        let later = choose|later: int|
            at < later < columns.len() && gives_population(columns[later], name);
        lemma_last_column_exists(columns, later, name);
    } else {
        assert(is_last_column_of(columns, at, name));
    }
}

/// Whether no two of the columns give a population for the same name.
pub open spec fn gives_each_name_once(columns: Seq<(String, Option<String>)>) -> bool {
    forall|i: int, j: int|
        0 <= i < j < columns.len() && column_population(#[trigger] columns[i]) is Some
            && column_population(#[trigger] columns[j]) is Some ==> column_name(columns[i])
            != column_name(columns[j])
}

/// Where no two columns give a population for the same name, the table does
/// not depend on the order of the columns: the same columns in any other
/// order give the same table.
pub proof fn population_table_order_independent(
    a: Seq<(String, Option<String>)>,
    b: Seq<(String, Option<String>)>,
)
    requires
        a.to_multiset() == b.to_multiset(),
        gives_each_name_once(a),
    ensures
        population_table(a) == population_table(b),
{
    let table_a = population_table(a);
    let table_b = population_table(b);
    assert forall|name: Seq<char>|
        #![trigger table_a.dom().contains(name)]
        #![trigger table_b.dom().contains(name)]
        table_a.dom().contains(name) == table_b.dom().contains(name) && (table_a.dom().contains(
            name,
        ) ==> table_a[name] == table_b[name]) by {
        lemma_population_table_entries(a, name);
        lemma_population_table_entries(b, name);
        if population_table(a).contains_key(name) {
            let in_a = choose|at: int| is_last_column_of(a, at, name);
            to_multiset_contains(a, a[in_a]);
            to_multiset_contains(b, a[in_a]);
            let q = choose|q: int| 0 <= q < b.len() && b[q] == a[in_a];
            lemma_last_column_exists(b, q, name);
        }
        if population_table(b).contains_key(name) {
            let in_b = choose|at: int| is_last_column_of(b, at, name);
            to_multiset_contains(b, b[in_b]);
            to_multiset_contains(a, b[in_b]);
            let p = choose|p: int| 0 <= p < a.len() && a[p] == b[in_b];
            lemma_last_column_exists(a, p, name);
            // The table of `a` has the name from one column only, and that
            // column is the one which `b` takes last.
            let in_a = choose|at: int| is_last_column_of(a, at, name);
            assert(in_a == p) by {
                if in_a < p {
                    assert(gives_population(a[in_a], name) && gives_population(a[p], name));
                } else if p < in_a {
                    assert(gives_population(a[p], name) && gives_population(a[in_a], name));
                }
            }
        }
    }
    assert(table_a =~= table_b);
}

/// The table of populations that a census table gives: that of the columns
/// of its one row of populations. A census table with no such row, or with
/// more than one, gives none.
pub open spec fn census_populations(census: Seq<CensusEntryCategory>) -> Option<
    Map<Seq<char>, u32>,
> {
    if population_rows(census).len() == 1 {
        match population_rows(census)[0] {
            CensusEntryCategory::Population2016(row) => Some(
                population_table(row.neighbourhoods@),
            ),
            _ => None,
        }
    } else {
        None
    }
}

/// Every one of the rows that `population_rows` picks holds populations.
pub proof fn lemma_population_rows(census: Seq<CensusEntryCategory>, at: int)
    requires
        0 <= at < population_rows(census).len(),
    ensures
        population_rows(census)[at] is Population2016,
{
    census.lemma_filter_pred(|row: CensusEntryCategory| row is Population2016, at);
}

/// Finds the one row of the census table that holds populations. A table
/// with no such row, or with more than one, is refused.
pub fn find_population_row(census: &Vec<CensusEntryCategory>) -> (found: Result<
    &CensusEntry,
    JoinError,
>)
    ensures
        match found {
            Ok(row) => population_rows(census@) == seq![CensusEntryCategory::Population2016(*row)],
            Err(e) => e == JoinError::MissingCategoryRow && population_rows(census@).len() != 1,
        },
{
    let mut first: Option<usize> = None;
    let mut several = false;
    let mut i: usize = 0;
    while i < census.len()
        invariant
            i <= census.len(),
            first is None ==> population_rows(census@.take(i as int)).len() == 0 && !several,
            first is Some ==> first->0 < i && population_rows(census@.take(i as int)).len() >= 1
                && population_rows(census@.take(i as int))[0] == census@[first->0 as int],
            several <==> population_rows(census@.take(i as int)).len() > 1,
        decreases census.len() - i,
    {
        proof {
            assert(census@.take(i + 1).drop_last() =~= census@.take(i as int));
            reveal(Seq::filter);
        }
        match &census[i] {
            CensusEntryCategory::Population2016(_) => {
                if first.is_some() {
                    several = true;
                } else {
                    first = Some(i);
                }
            },
            _ => {},
        }
        i = i + 1;
    }
    assert(census@.take(i as int) =~= census@);
    if several {
        return Err(JoinError::MissingCategoryRow);
    }
    match first {
        Some(at) => match &census[at] {
            CensusEntryCategory::Population2016(row) => {
                assert(population_rows(census@) =~= seq![census@[at as int]]);
                Ok(row)
            },
            _ => Err(JoinError::MissingCategoryRow),
        },
        None => Err(JoinError::MissingCategoryRow),
    }
}

/// Reads the populations from the columns of a row. A column whose cell is
/// left out, or does not hold a number, is passed over; the heading of every
/// other column is normalized and entered with its number. No heading
/// occurs twice among the columns, but two headings may be spellings of one
/// name: then the later column stays.
pub fn read_populations(row: &CensusEntry) -> (populations: NameTable)
    ensures
        distinct_headings(row.neighbourhoods@),
        populations@ == population_table(row.neighbourhoods@),
{
    let columns = row.neighbourhoods.entries();
    let mut populations = NameTable::new();
    let mut i: usize = 0;
    while i < columns.len()
        invariant
            i <= columns.len(),
            populations@ == population_table(columns@.take(i as int)),
        decreases columns.len() - i,
    {
        proof {
            assert(columns@.take(i + 1).drop_last() =~= columns@.take(i as int));
        }
        let column = &columns[i];
        match &column.1 {
            Some(cell) => match parse_population(cell.as_str()) {
                Some(population) => {
                    let name = neighbourhood_names_normalizer(column.0.as_str());
                    populations.insert(name.to_owned(), population);
                },
                None => {},
            },
            None => {},
        }
        i = i + 1;
    }
    assert(columns@.take(i as int) =~= columns@);
    populations
}

/// Builds the table of populations from the census table: the columns of
/// its one row of populations, read by `read_populations`. A census table
/// without exactly one such row is refused.
pub fn build_population_table(census: &Vec<CensusEntryCategory>) -> (built: Result<
    NameTable,
    JoinError,
>)
    ensures
        match built {
            Ok(populations) => census_populations(census@) == Some(populations@),
            Err(e) => e == JoinError::MissingCategoryRow && census_populations(census@) is None,
        },
        built is Ok <==> population_rows(census@).len() == 1,
{
    proof {
        if population_rows(census@).len() == 1 {
            lemma_population_rows(census@, 0);
        }
    }
    match find_population_row(census) {
        Ok(row) => Ok(read_populations(row)),
        Err(e) => Err(e),
    }
}

} // verus!
