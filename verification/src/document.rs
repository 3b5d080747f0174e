//! The boundary map as a document: reading it from GeoJSON text and writing
//! it back.

use vstd::prelude::*;
use crate::boundary::BoundaryFeature;

verus! {

/// The boundary map: the features of every neighbourhood. The fields are
/// those of `geojson::FeatureCollection`.
#[derive(Clone, Debug, PartialEq)]
pub struct BoundaryMap {
    /// The bounding box, where the map has one.
    pub bbox: Option<geojson::Bbox>,
    /// The neighbourhoods.
    pub features: Vec<BoundaryFeature>,
    /// Members that the format does not define.
    pub foreign_members: Option<serde_json::Map<String, serde_json::Value>>,
}

/// Why a text gives no boundary map.
#[derive(Debug)]
pub enum DocumentError {
    /// The text is no GeoJSON document.
    Unreadable(geojson::Error),
    /// The document is a single feature or a single geometry.
    NotAFeatureCollection,
}

/// What a text holds when it is read as GeoJSON: the feature collection that
/// `str::parse::<geojson::GeoJson>` gives for it, `None` where that gives a
/// single feature or geometry, or the error with which it refuses the text.
pub uninterp spec fn parsed_boundary_map(text: Seq<char>) -> Result<
    Option<BoundaryMap>,
    geojson::Error,
>;

/// The GeoJSON text of a boundary map: what `to_string` gives for the
/// `geojson::FeatureCollection` with its fields.
pub uninterp spec fn rendered_boundary_map(map: BoundaryMap) -> Seq<char>;

/// `str::parse::<geojson::GeoJson>`, with a feature collection handed on
/// field by field. What it gives depends on the text alone.
#[verifier::external_body]
fn parse_boundary_map(text: &str) -> (parsed: Result<Option<BoundaryMap>, geojson::Error>)
    ensures
        parsed == parsed_boundary_map(text@),
{
    match text.parse::<geojson::GeoJson>()? {
        geojson::GeoJson::FeatureCollection(c) => Ok(Some(BoundaryMap {
            bbox: c.bbox,
            features: c.features.into_iter().map(|f| BoundaryFeature {
                bbox: f.bbox, geometry: f.geometry, id: f.id,
                properties: f.properties, foreign_members: f.foreign_members,
            }).collect(),
            foreign_members: c.foreign_members,
        })),
        geojson::GeoJson::Feature(_) => Ok(None),
        geojson::GeoJson::Geometry(_) => Ok(None),
    }
}

/// `to_string` of `geojson::FeatureCollection`, which is put together field
/// by field from the map. What it gives depends on the map alone.
#[verifier::external_body]
fn render_boundary_map(map: BoundaryMap) -> (text: String)
    ensures
        text@ == rendered_boundary_map(map),
{
    geojson::FeatureCollection {
        bbox: map.bbox,
        features: map.features.into_iter().map(|f| geojson::Feature {
            bbox: f.bbox, geometry: f.geometry, id: f.id,
            properties: f.properties, foreign_members: f.foreign_members,
        }).collect(),
        foreign_members: map.foreign_members,
    }.to_string()
}

/// The boundary map that a parsed document holds: a feature collection is
/// the map, anything else is refused.
pub fn boundary_map_of(parsed: Result<Option<BoundaryMap>, geojson::Error>) -> (read: Result<
    BoundaryMap,
    DocumentError,
>)
    ensures
        match read {
            Ok(map) => parsed == Ok::<Option<BoundaryMap>, geojson::Error>(Some(map)),
            Err(DocumentError::Unreadable(e)) => parsed == Err::<
                Option<BoundaryMap>,
                geojson::Error,
            >(e),
            Err(DocumentError::NotAFeatureCollection) => parsed == Ok::<
                Option<BoundaryMap>,
                geojson::Error,
            >(None),
        },
{
    match parsed {
        Ok(Some(map)) => Ok(map),
        Ok(None) => Err(DocumentError::NotAFeatureCollection),
        Err(e) => Err(DocumentError::Unreadable(e)),
    }
}

/// Reads the boundary map from GeoJSON text.
pub fn read_boundary_map(text: &str) -> (read: Result<BoundaryMap, DocumentError>)
    ensures
        match read {
            Ok(map) => parsed_boundary_map(text@) == Ok::<Option<BoundaryMap>, geojson::Error>(
                Some(map),
            ),
            Err(DocumentError::Unreadable(e)) => parsed_boundary_map(text@) == Err::<
                Option<BoundaryMap>,
                geojson::Error,
            >(e),
            Err(DocumentError::NotAFeatureCollection) => parsed_boundary_map(text@) == Ok::<
                Option<BoundaryMap>,
                geojson::Error,
            >(None),
        },
{
    boundary_map_of(parse_boundary_map(text))
}

/// Writes the boundary map as GeoJSON text.
pub fn write_boundary_map(map: BoundaryMap) -> (text: String)
    ensures
        text@ == rendered_boundary_map(map),
{
    render_boundary_map(map)
}

} // verus!
