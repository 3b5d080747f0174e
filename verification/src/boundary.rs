//! Boundary features and the join of the statistics onto them.

use vstd::prelude::*;
use crate::error::JoinError;
use crate::external::{integer, integer_value, properties, property, text_of};
use crate::names::{canonical_name, neighbourhood_names_normalizer};
use crate::table::NameTable;

verus! {

/// One neighbourhood of the boundary map: its outline and its properties.
/// The fields are those of `geojson::Feature`.
#[derive(Clone, Debug, PartialEq)]
pub struct BoundaryFeature {
    /// The bounding box, where the feature has one.
    pub bbox: Option<geojson::Bbox>,
    /// The outline.
    pub geometry: Option<geojson::Geometry>,
    /// The identifier, where the feature has one.
    pub id: Option<geojson::feature::Id>,
    /// The property bag. Among its properties is the area name.
    pub properties: Option<serde_json::Map<String, serde_json::Value>>,
    /// Members that the format does not define.
    pub foreign_members: Option<serde_json::Map<String, serde_json::Value>>,
}

/// The joining name that a property bag gives: the normalized text under
/// `AREA_NAME`. A bag without that property has no area name, and one that
/// holds something other than text there is malformed.
pub open spec fn area_name(bag: Map<Seq<char>, serde_json::Value>) -> Result<Seq<char>, JoinError> {
    if !bag.contains_key("AREA_NAME"@) {
        Err(JoinError::MissingAreaName)
    } else {
        match text_of(bag["AREA_NAME"@]) {
            Some(raw) => Ok(canonical_name(raw)),
            None => Err(JoinError::MalformedRecord),
        }
    }
}

/// Derives the joining name of a feature from its property bag.
pub fn get_name(data: &serde_json::Map<String, serde_json::Value>) -> (name: Result<
    String,
    JoinError,
>)
    ensures
        match name {
            Ok(n) => area_name(properties(*data)) == Ok::<Seq<char>, JoinError>(n@),
            Err(e) => area_name(properties(*data)) == Err::<Seq<char>, JoinError>(e),
        },
{
    match property(data, "AREA_NAME") {
        Some(value) => match value.as_str() {
            Some(raw) => {
                let name = neighbourhood_names_normalizer(raw);
                Ok(name.to_owned())
            },
            None => Err(JoinError::MalformedRecord),
        },
        None => Err(JoinError::MissingAreaName),
    }
}

/// The two numbers that the join attaches to a feature.
#[derive(Debug, Clone, Copy, PartialEq, Eq, Structural)]
pub struct Statistics {
    /// The cases counted in the neighbourhood.
    pub covid_case_count: u32,
    /// The people living in the neighbourhood.
    pub population: u32,
}

/// The joining name of a feature. A feature without a property bag has no
/// area name.
pub open spec fn feature_name(feature: BoundaryFeature) -> Result<Seq<char>, JoinError> {
    match feature.properties {
        Some(bag) => area_name(properties(bag)),
        None => Err(JoinError::MissingAreaName),
    }
}

/// The statistics that belong to a feature: the numbers that both tables
/// hold under its joining name. A feature whose name one of the tables lacks
/// cannot be joined; there is no number to fall back on.
pub open spec fn joined_statistics(
    feature: BoundaryFeature,
    counts: Map<Seq<char>, u32>,
    populations: Map<Seq<char>, u32>,
) -> Result<Statistics, JoinError> {
    match feature_name(feature) {
        Ok(name) => if counts.contains_key(name) && populations.contains_key(name) {
            Ok(Statistics { covid_case_count: counts[name], population: populations[name] })
        } else {
            Err(JoinError::UnjoinedNeighbourhood)
        },
        Err(e) => Err(e),
    }
}

/// A property bag with the statistics entered, under the keys
/// `covid_case_count` and `population`. Every other property is as before.
pub open spec fn with_statistics(
    bag: Map<Seq<char>, serde_json::Value>,
    statistics: Statistics,
) -> Map<Seq<char>, serde_json::Value> {
    bag.insert("covid_case_count"@, integer_value(statistics.covid_case_count)).insert(
        "population"@,
        integer_value(statistics.population),
    )
}

/// Whether `after` is `before` with the statistics entered among its
/// properties and nothing else changed.
pub open spec fn is_enriched(
    after: BoundaryFeature,
    before: BoundaryFeature,
    statistics: Statistics,
) -> bool {
    &&& after.bbox == before.bbox
    &&& after.geometry == before.geometry
    &&& after.id == before.id
    &&& after.foreign_members == before.foreign_members
    &&& before.properties is Some
    &&& after.properties is Some
    &&& properties(after.properties->0) == with_statistics(
        properties(before.properties->0),
        statistics,
    )
}

/// Looks up the statistics that belong to a feature.
pub fn lookup_statistics(
    feature: &BoundaryFeature,
    counts: &NameTable,
    populations: &NameTable,
) -> (found: Result<Statistics, JoinError>)
    ensures
        found == joined_statistics(*feature, counts@, populations@),
{
    let name = match &feature.properties {
        Some(bag) => match get_name(bag) {
            Ok(name) => name,
            Err(e) => {
                return Err(e);
            },
        },
        None => {
            return Err(JoinError::MissingAreaName);
        },
    };
    match counts.get(name.as_str()) {
        Some(covid_case_count) => match populations.get(name.as_str()) {
            Some(population) => Ok(Statistics { covid_case_count, population }),
            None => Err(JoinError::UnjoinedNeighbourhood),
        },
        None => Err(JoinError::UnjoinedNeighbourhood),
    }
}

/// Joins the statistics onto one feature: its case count and its population
/// are entered among its properties. A feature that cannot be joined is
/// refused with the reason.
pub fn enrich_feature(feature: BoundaryFeature, counts: &NameTable, populations: &NameTable) -> (joined:
    Result<BoundaryFeature, JoinError>)
    ensures
        match joined {
            Ok(after) => joined_statistics(feature, counts@, populations@) matches Ok(statistics)
                && is_enriched(after, feature, statistics),
            Err(e) => joined_statistics(feature, counts@, populations@) == Err::<
                Statistics,
                JoinError,
            >(e),
        },
{
    let statistics = match lookup_statistics(&feature, counts, populations) {
        Ok(statistics) => statistics,
        Err(e) => {
            return Err(e);
        },
    };
    let BoundaryFeature { bbox, geometry, id, properties, foreign_members } = feature;
    match properties {
        Some(mut bag) => {
            bag.insert("covid_case_count".to_owned(), integer(statistics.covid_case_count));
            bag.insert("population".to_owned(), integer(statistics.population));
            Ok(BoundaryFeature { bbox, geometry, id, properties: Some(bag), foreign_members })
        },
        None => Err(JoinError::MissingAreaName),
    }
}

/// Whether `enriched` holds the features of `features`, one for one and in
/// their order, each with its statistics entered.
pub open spec fn all_enriched(
    enriched: Seq<BoundaryFeature>,
    features: Seq<BoundaryFeature>,
    counts: Map<Seq<char>, u32>,
    populations: Map<Seq<char>, u32>,
) -> bool {
    &&& enriched.len() == features.len()
    &&& forall|i: int|
        0 <= i < features.len() ==> (joined_statistics(#[trigger] features[i], counts, populations)
            matches Ok(statistics) && is_enriched(enriched[i], features[i], statistics))
}

/// Whether every feature can be joined.
pub open spec fn all_joinable(
    features: Seq<BoundaryFeature>,
    counts: Map<Seq<char>, u32>,
    populations: Map<Seq<char>, u32>,
) -> bool {
    forall|i: int|
        0 <= i < features.len() ==> joined_statistics(#[trigger] features[i], counts, populations)
            is Ok
}

/// Whether the feature at `at` is the first that cannot be joined, and `e`
/// is the reason.
pub open spec fn fails_first_at(
    features: Seq<BoundaryFeature>,
    counts: Map<Seq<char>, u32>,
    populations: Map<Seq<char>, u32>,
    at: int,
    e: JoinError,
) -> bool {
    &&& 0 <= at < features.len()
    &&& joined_statistics(features[at], counts, populations) == Err::<Statistics, JoinError>(e)
    &&& all_joinable(features.take(at), counts, populations)
}

/// Where both tables hold the joining name of every feature, every feature
/// can be joined.
pub proof fn join_totality(
    features: Seq<BoundaryFeature>,
    counts: Map<Seq<char>, u32>,
    populations: Map<Seq<char>, u32>,
)
    requires
        forall|i: int|
            0 <= i < features.len() ==> (feature_name(#[trigger] features[i]) matches Ok(name)
                && counts.contains_key(name) && populations.contains_key(name)),
    ensures
        all_joinable(features, counts, populations),
{
}

/// A feature whose joining name one of the tables lacks is unjoined, and
/// with it the whole boundary map cannot be joined.
pub proof fn join_failure(
    features: Seq<BoundaryFeature>,
    counts: Map<Seq<char>, u32>,
    populations: Map<Seq<char>, u32>,
    at: int,
)
    requires
        0 <= at < features.len(),
        feature_name(features[at]) matches Ok(name) && !(counts.contains_key(name)
            && populations.contains_key(name)),
    ensures
        joined_statistics(features[at], counts, populations) == Err::<Statistics, JoinError>(
            JoinError::UnjoinedNeighbourhood,
        ),
        !all_joinable(features, counts, populations),
{
}

/// An enriched feature holds both numbers among its properties, and every
/// other property as it was.
pub proof fn lemma_enriched_properties(
    after: BoundaryFeature,
    before: BoundaryFeature,
    statistics: Statistics,
)
    requires
        is_enriched(after, before, statistics),
    ensures
        properties(after.properties->0).contains_key("covid_case_count"@),
        properties(after.properties->0)["covid_case_count"@] == integer_value(
            statistics.covid_case_count,
        ),
        properties(after.properties->0).contains_key("population"@),
        properties(after.properties->0)["population"@] == integer_value(statistics.population),
        forall|key: Seq<char>|
            key != "covid_case_count"@ && key != "population"@ ==> (properties(
                after.properties->0,
            ).contains_key(key) == properties(before.properties->0).contains_key(key)
                && properties(after.properties->0)[key] == properties(before.properties->0)[key]),
{
    reveal_strlit("covid_case_count");
    reveal_strlit("population");
    assert("covid_case_count"@.len() != "population"@.len());
}

/// Joins the statistics onto every feature of the boundary map. Either every
/// feature is joined, or the run fails with what is wrong with the first
/// feature that cannot be joined, and there is no output.
pub fn enrich(features: Vec<BoundaryFeature>, counts: &NameTable, populations: &NameTable) -> (joined:
    Result<Vec<BoundaryFeature>, JoinError>)
    ensures
        joined is Ok <==> all_joinable(features@, counts@, populations@),
        match joined {
            Ok(enriched) => all_enriched(enriched@, features@, counts@, populations@),
            Err(e) => exists|at: int| fails_first_at(features@, counts@, populations@, at, e),
        },
{
    let ghost all = features@;
    let mut enriched: Vec<BoundaryFeature> = Vec::new();
    for feature in it: features
        invariant
            it.seq() == all,
            all_enriched(enriched@, all.take(it.index() as int), counts@, populations@),
    {
        let ghost at = it.index() as int;
        match enrich_feature(feature, counts, populations) {
            Ok(after) => {
                enriched.push(after);
                assert forall|i: int| 0 <= i < at + 1 implies (joined_statistics(
                    #[trigger] all.take(at + 1)[i],
                    counts@,
                    populations@,
                ) matches Ok(statistics) && is_enriched(
                    enriched@[i],
                    all.take(at + 1)[i],
                    statistics,
                )) by {
                    if i < at {
                        assert(all.take(at)[i] == all[i]);
                    }
                }
            },
            Err(e) => {
                assert(fails_first_at(all, counts@, populations@, at, e));
                return Err(e);
            },
        }
    }
    assert(all.take(all.len() as int) =~= all);
    Ok(enriched)
}

} // verus!
