//! The whole join: from the three datasets to the enriched boundary map.

use vstd::prelude::*;
use crate::boundary::{all_enriched, all_joinable, enrich, fails_first_at};
use crate::cases::{aggregate, case_counts, CovidEntry};
use crate::census::{build_population_table, census_populations, CensusEntryCategory};
use crate::document::BoundaryMap;
use crate::error::JoinError;

verus! {

/// Joins the case records and the census table onto the boundary map: the
/// cases are counted by neighbourhood, the populations are read from the
/// census table, and both are entered among the properties of every
/// feature. Nothing else of the map changes. The census table is looked at
/// first: without its row of populations nothing is joined. After that the
/// first feature that cannot be joined fails the run.
pub fn join_datasets(
    map: BoundaryMap,
    records: &Vec<CovidEntry>,
    census: &Vec<CensusEntryCategory>,
) -> (joined: Result<BoundaryMap, JoinError>)
    requires
        records.len() <= u32::MAX,
    ensures
        joined is Ok <==> (census_populations(census@) matches Some(populations) && all_joinable(
            map.features@,
            case_counts(records@),
            populations,
        )),
        match joined {
            Ok(enriched) => {
                &&& enriched.bbox == map.bbox
                &&& enriched.foreign_members == map.foreign_members
                &&& census_populations(census@) matches Some(populations) && all_enriched(
                    enriched.features@,
                    map.features@,
                    case_counts(records@),
                    populations,
                )
            },
            Err(e) => match census_populations(census@) {
                Some(populations) => exists|at: int|
                    fails_first_at(map.features@, case_counts(records@), populations, at, e),
                None => e == JoinError::MissingCategoryRow,
            },
        },
{
    let populations = match build_population_table(census) {
        Ok(populations) => populations,
        Err(e) => {
            return Err(e);
        },
    };
    let counts = aggregate(records);
    let BoundaryMap { bbox, features, foreign_members } = map;
    match enrich(features, &counts, &populations) {
        Ok(enriched) => Ok(BoundaryMap { bbox, features: enriched, foreign_members }),
        Err(e) => Err(e),
    }
}

} // verus!
