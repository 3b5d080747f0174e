use neighbourhood_stats::cases::{aggregate, CovidEntry};
use neighbourhood_stats::table::NameTable;

fn case(id: u32, neighbourhood: Option<&str>) -> CovidEntry {
    CovidEntry {
        id,
        outbreak_associated: "Sporadic".to_owned(),
        age_group: Some("20-29".to_owned()),
        neighbourhood: neighbourhood.map(|n| n.to_owned()),
        fsa: None,
    }
}

fn assert_same_tables(a: &NameTable, b: &NameTable, names: &[&str]) {
    assert_eq!(a.len(), b.len());
    for name in names {
        assert_eq!(a.get(name), b.get(name), "name {:?}", name);
    }
}

#[test]
fn aggregate_of_nothing_is_empty() {
    let counts = aggregate(&Vec::new());
    assert_eq!(counts.len(), 0);
    assert_eq!(counts.get("Annex"), None);
}

#[test]
fn aggregate_counts_each_neighbourhood() {
    let records = vec![
        case(1, Some("Annex")),
        case(2, Some("Malvern")),
        case(3, Some("Annex")),
        case(4, Some("Annex")),
        case(5, Some("Rouge")),
    ];
    let counts = aggregate(&records);
    assert_eq!(counts.len(), 3);
    assert_eq!(counts.get("Annex"), Some(3));
    assert_eq!(counts.get("Malvern"), Some(1));
    assert_eq!(counts.get("Rouge"), Some(1));
    assert_eq!(counts.get("Weston"), None);
    assert!(counts.contains("Annex"));
    assert!(!counts.contains("Weston"));
}

#[test]
fn aggregate_counts_variant_spellings_together() {
    let records = vec![
        case(1, Some("Weston-Pellam Park")),
        case(2, Some("Weston-Pelham Park")),
        case(3, Some("Danforth East York")),
        case(4, Some("Mimico (includes Humber Bay Shores)")),
        case(5, Some("Mimico")),
        case(6, Some("Briar Hill - Belgravia")),
    ];
    let counts = aggregate(&records);
    assert_eq!(counts.len(), 4);
    assert_eq!(counts.get("Weston-Pelham Park"), Some(2));
    assert_eq!(counts.get("Weston-Pellam Park"), None);
    assert_eq!(counts.get("Danforth-East York"), Some(1));
    assert_eq!(counts.get("Danforth East York"), None);
    assert_eq!(counts.get("Mimico"), Some(2));
    assert_eq!(counts.get("Briar Hill-Belgravia"), Some(1));
}

#[test]
fn aggregate_counts_a_qualified_name_under_the_name() {
    let records = vec![
        case(1, Some("Annex (north)")),
        case(2, Some("Annex")),
        case(3, Some("Weston-Pellam Park (91)")),
        case(4, Some("Annex (south) (old)")),
    ];
    let counts = aggregate(&records);
    assert_eq!(counts.len(), 2);
    assert_eq!(counts.get("Annex"), Some(3));
    assert_eq!(counts.get("Annex (north)"), None);
    assert_eq!(counts.get("Weston-Pelham Park"), Some(1));
}

#[test]
fn aggregate_skips_records_without_neighbourhood() {
    let with = vec![
        case(1, None),
        case(2, Some("Annex")),
        case(3, None),
        case(4, Some("Rouge")),
        case(5, None),
    ];
    let without = vec![case(2, Some("Annex")), case(4, Some("Rouge"))];
    let a = aggregate(&with);
    let b = aggregate(&without);
    assert_eq!(a.len(), 2);
    assert_same_tables(&a, &b, &["Annex", "Rouge", ""]);
    let total: u32 = ["Annex", "Rouge"].iter().map(|n| a.get(n).unwrap()).sum();
    assert_eq!(total, 2);
}

#[test]
fn aggregate_of_only_absent_neighbourhoods_is_empty() {
    let counts = aggregate(&vec![case(1, None), case(2, None)]);
    assert_eq!(counts.len(), 0);
}

#[test]
fn aggregate_does_not_depend_on_order() {
    let names = ["Annex", "Rouge", "Malvern", "Weston-Pelham Park"];
    let forward = vec![
        case(1, Some("Annex")),
        case(2, Some("Rouge")),
        case(3, None),
        case(4, Some("Weston-Pellam Park")),
        case(5, Some("Annex")),
        case(6, Some("Malvern")),
        case(7, Some("Weston-Pelham Park")),
    ];
    let mut backward = forward.clone();
    backward.reverse();
    let mut rotated = forward.clone();
    rotated.rotate_left(3);
    let a = aggregate(&forward);
    assert_eq!(a.get("Annex"), Some(2));
    assert_eq!(a.get("Weston-Pelham Park"), Some(2));
    assert_same_tables(&a, &aggregate(&backward), &names);
    assert_same_tables(&a, &aggregate(&rotated), &names);
}

#[test]
fn aggregate_carries_other_fields_along() {
    let records = vec![case(9, Some("Annex"))];
    let before = records.clone();
    let _ = aggregate(&records);
    assert_eq!(records, before);
}

#[test]
fn name_table_holds_what_was_inserted() {
    let mut table = NameTable::new();
    assert_eq!(table.len(), 0);
    assert!(!table.contains("Mimico"));
    table.insert("Mimico".to_owned(), 7);
    table.insert("Annex".to_owned(), 1);
    assert_eq!(table.len(), 2);
    assert_eq!(table.get("Mimico"), Some(7));
    assert_eq!(table.get("Annex"), Some(1));
    assert_eq!(table.get("mimico"), None);
    table.insert("Mimico".to_owned(), 8);
    assert_eq!(table.len(), 2);
    assert_eq!(table.get("Mimico"), Some(8));
    assert!(table.contains("Mimico"));
}
