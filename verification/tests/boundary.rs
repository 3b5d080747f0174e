use geojson::{Geometry, GeometryValue};
use neighbourhood_stats::boundary::{
    enrich, enrich_feature, get_name, lookup_statistics, BoundaryFeature, Statistics,
};
use neighbourhood_stats::error::JoinError;
use neighbourhood_stats::table::NameTable;
use serde_json::Value;

fn bag(entries: &[(&str, Value)]) -> serde_json::Map<String, Value> {
    let mut bag = serde_json::Map::new();
    for (key, value) in entries {
        bag.insert(key.to_string(), value.clone());
    }
    bag
}

fn named(area_name: &str) -> BoundaryFeature {
    BoundaryFeature {
        bbox: Some(vec![-79.5, 43.6, -79.4, 43.7]),
        geometry: Some(Geometry::new(GeometryValue::new_point([-79.49, 43.61]))),
        id: Some(geojson::feature::Id::String("f1".to_owned())),
        properties: Some(bag(&[
            ("AREA_ID", Value::from(25886861)),
            ("AREA_NAME", Value::from(area_name)),
            ("Shape__Area", Value::from(3217960.5)),
        ])),
        foreign_members: Some(bag(&[("note", Value::from("kept"))])),
    }
}

fn table(entries: &[(&str, u32)]) -> NameTable {
    let mut table = NameTable::new();
    for (name, value) in entries {
        table.insert(name.to_string(), *value);
    }
    table
}

#[test]
fn get_name_drops_the_qualifier() {
    let data = bag(&[("AREA_NAME", Value::from("Mimico (includes Humber Bay Shores) (17)"))]);
    assert_eq!(get_name(&data), Ok("Mimico".to_owned()));
    let data = bag(&[("AREA_NAME", Value::from("Briar Hill-Belgravia (also known as X)"))]);
    assert_eq!(get_name(&data), Ok("Briar Hill-Belgravia".to_owned()));
    let data = bag(&[("AREA_NAME", Value::from("Annex"))]);
    assert_eq!(get_name(&data), Ok("Annex".to_owned()));
}

#[test]
fn get_name_reconciles_after_dropping_the_qualifier() {
    let data = bag(&[("AREA_NAME", Value::from("Weston-Pellam Park (91)"))]);
    assert_eq!(get_name(&data), Ok("Weston-Pelham Park".to_owned()));
    let data = bag(&[("AREA_NAME", Value::from("Danforth East York (59)"))]);
    assert_eq!(get_name(&data), Ok("Danforth-East York".to_owned()));
    let data = bag(&[("AREA_NAME", Value::from("Cabbagetown-South St.James Town (71)"))]);
    assert_eq!(get_name(&data), Ok("Cabbagetown-South St. James Town".to_owned()));
}

#[test]
fn get_name_without_area_name_fails() {
    assert_eq!(get_name(&serde_json::Map::new()), Err(JoinError::MissingAreaName));
    let data = bag(&[("area_name", Value::from("Annex")), ("AREA_ID", Value::from(1))]);
    assert_eq!(get_name(&data), Err(JoinError::MissingAreaName));
}

#[test]
fn get_name_of_other_than_text_is_malformed() {
    for value in [
        Value::Null,
        Value::from(17),
        Value::from(true),
        Value::Array(vec![Value::from("Annex")]),
        Value::Object(bag(&[("name", Value::from("Annex"))])),
    ] {
        let data = bag(&[("AREA_NAME", value)]);
        assert_eq!(get_name(&data), Err(JoinError::MalformedRecord));
    }
}

#[test]
fn mimico_gains_both_properties() {
    let feature = named("Mimico (includes Humber Bay Shores)");
    let counts = table(&[("Mimico", 7)]);
    let populations = table(&[("Mimico", 32000)]);
    let enriched = match enrich(vec![feature.clone()], &counts, &populations) {
        Ok(enriched) => enriched,
        Err(e) => panic!("refused: {:?}", e),
    };
    assert_eq!(enriched.len(), 1);
    let properties = enriched[0].properties.as_ref().unwrap();
    assert_eq!(properties.get("covid_case_count"), Some(&Value::from(7)));
    assert_eq!(properties.get("population"), Some(&Value::from(32000)));
    assert_eq!(properties.get("covid_case_count").unwrap().as_u64(), Some(7));
    assert_eq!(properties.get("population").unwrap().as_u64(), Some(32000));
    assert_eq!(properties.len(), 5);
}

#[test]
fn briar_hill_joins_directly() {
    let feature = named("Briar Hill-Belgravia (also known as X)");
    let counts = table(&[("Briar Hill-Belgravia", 12), ("Mimico", 7)]);
    let populations = table(&[("Mimico", 32000), ("Briar Hill-Belgravia", 14257)]);
    assert_eq!(
        lookup_statistics(&feature, &counts, &populations),
        Ok(Statistics { covid_case_count: 12, population: 14257 })
    );
    let enriched = enrich(vec![feature], &counts, &populations).unwrap();
    let properties = enriched[0].properties.as_ref().unwrap();
    assert_eq!(properties.get("covid_case_count"), Some(&Value::from(12)));
    assert_eq!(properties.get("population"), Some(&Value::from(14257)));
}

#[test]
fn enrich_leaves_everything_else_unchanged() {
    let features = vec![named("Annex (95)"), named("Rouge (131)"), named("Mimico")];
    let counts = table(&[("Annex", 1), ("Rouge", 0), ("Mimico", 3)]);
    let populations = table(&[("Annex", 30526), ("Rouge", 46496), ("Mimico", 33964)]);
    let enriched = enrich(features.clone(), &counts, &populations).unwrap();
    assert_eq!(enriched.len(), features.len());
    let expected = [(1, 30526), (0, 46496), (3, 33964)];
    for i in 0..features.len() {
        let before = &features[i];
        let after = &enriched[i];
        assert_eq!(after.bbox, before.bbox);
        assert_eq!(after.geometry, before.geometry);
        assert_eq!(after.id, before.id);
        assert_eq!(after.foreign_members, before.foreign_members);
        let old = before.properties.as_ref().unwrap();
        let new = after.properties.as_ref().unwrap();
        assert_eq!(new.len(), old.len() + 2);
        for (key, value) in old.iter() {
            assert_eq!(new.get(key), Some(value));
        }
        assert_eq!(new.get("covid_case_count"), Some(&Value::from(expected[i].0)));
        assert_eq!(new.get("population"), Some(&Value::from(expected[i].1)));
    }
}

#[test]
fn enrich_of_no_features_gives_none() {
    let enriched = enrich(Vec::new(), &NameTable::new(), &NameTable::new()).unwrap();
    assert!(enriched.is_empty());
}

#[test]
fn enrich_enters_numbers_not_text() {
    let counts = table(&[("Annex", 0)]);
    let populations = table(&[("Annex", u32::MAX)]);
    let after = enrich_feature(named("Annex"), &counts, &populations).unwrap();
    let properties = after.properties.unwrap();
    assert!(properties["covid_case_count"].is_u64());
    assert!(properties["population"].is_u64());
    assert_eq!(properties["covid_case_count"], Value::from(0));
    assert_eq!(properties["population"].as_u64(), Some(4294967295));
    assert_ne!(properties["population"], Value::from("4294967295"));
    assert_eq!(properties["AREA_NAME"].as_str(), Some("Annex"));
}

#[test]
fn enrich_sets_the_two_properties_anew() {
    let mut feature = named("Annex");
    feature
        .properties
        .as_mut()
        .unwrap()
        .insert("population".to_owned(), Value::from("old"));
    let counts = table(&[("Annex", 4)]);
    let populations = table(&[("Annex", 30526)]);
    let after = enrich_feature(feature, &counts, &populations).unwrap();
    let properties = after.properties.unwrap();
    assert_eq!(properties.len(), 5);
    assert_eq!(properties["population"], Value::from(30526));
    assert_eq!(properties["covid_case_count"], Value::from(4));
    assert_eq!(properties["AREA_ID"], Value::from(25886861));
}

#[test]
fn name_absent_from_counts_fails_the_join() {
    let features = vec![named("Annex"), named("Atlantis")];
    let counts = table(&[("Annex", 1)]);
    let populations = table(&[("Annex", 30526), ("Atlantis", 1)]);
    assert_eq!(
        enrich(features.clone(), &counts, &populations),
        Err(JoinError::UnjoinedNeighbourhood)
    );
    assert_eq!(
        lookup_statistics(&features[1], &counts, &populations),
        Err(JoinError::UnjoinedNeighbourhood)
    );
    assert_eq!(
        enrich_feature(features[1].clone(), &counts, &populations),
        Err(JoinError::UnjoinedNeighbourhood)
    );
}

#[test]
fn name_absent_from_populations_fails_the_join() {
    let counts = table(&[("Annex", 1)]);
    let populations = table(&[("Rouge", 46496)]);
    assert_eq!(
        enrich(vec![named("Annex")], &counts, &populations),
        Err(JoinError::UnjoinedNeighbourhood)
    );
}

#[test]
fn unreconciled_spelling_fails_the_join() {
    let counts = table(&[("Weston-Pellam Park", 1)]);
    let populations = table(&[("Weston-Pellam Park", 11098)]);
    assert_eq!(
        enrich(vec![named("Weston-Pellam Park")], &counts, &populations),
        Err(JoinError::UnjoinedNeighbourhood)
    );
}

#[test]
fn feature_without_properties_has_no_area_name() {
    let mut feature = named("Annex");
    feature.properties = None;
    let counts = table(&[("Annex", 1)]);
    let populations = table(&[("Annex", 30526)]);
    assert_eq!(
        lookup_statistics(&feature, &counts, &populations),
        Err(JoinError::MissingAreaName)
    );
    assert_eq!(enrich(vec![feature], &counts, &populations), Err(JoinError::MissingAreaName));
}

#[test]
fn feature_with_malformed_area_name_fails_the_join() {
    let mut feature = named("Annex");
    feature
        .properties
        .as_mut()
        .unwrap()
        .insert("AREA_NAME".to_owned(), Value::from(95));
    let counts = table(&[("Annex", 1)]);
    let populations = table(&[("Annex", 30526)]);
    assert_eq!(enrich(vec![feature], &counts, &populations), Err(JoinError::MalformedRecord));
}

#[test]
fn the_first_failure_is_reported() {
    let mut nameless = named("Annex");
    nameless.properties.as_mut().unwrap().remove("AREA_NAME");
    let counts = table(&[("Annex", 1)]);
    let populations = table(&[("Annex", 30526)]);
    assert_eq!(
        enrich(
            vec![named("Annex"), nameless.clone(), named("Atlantis")],
            &counts,
            &populations
        ),
        Err(JoinError::MissingAreaName)
    );
    assert_eq!(
        enrich(vec![named("Atlantis"), nameless, named("Annex")], &counts, &populations),
        Err(JoinError::UnjoinedNeighbourhood)
    );
}
