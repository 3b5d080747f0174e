use neighbourhood_stats::names::{
    neighbourhood_names_normalizer, reconcile_spelling, strip_qualifier,
};
use neighbourhood_stats::registry::{is_registered, NEIGHBOURHOOD_NAMES};
use neighbourhood_stats::text::{characters, same_text};

const VARIANTS: [(&str, &str); 6] = [
    ("Weston-Pellam Park", "Weston-Pelham Park"),
    ("Briar Hill - Belgravia", "Briar Hill-Belgravia"),
    ("Cabbagetown-South St.James Town", "Cabbagetown-South St. James Town"),
    ("North St.James Town", "North St. James Town"),
    ("Mimico (includes Humber Bay Shores)", "Mimico"),
    ("Danforth East York", "Danforth-East York"),
];

#[test]
fn normalizer_replaces_each_variant_spelling() {
    for (variant, canonical) in VARIANTS {
        assert_eq!(neighbourhood_names_normalizer(variant), canonical);
    }
}

#[test]
fn normalizer_leaves_counterparts_alone() {
    for (_, canonical) in VARIANTS {
        assert_eq!(neighbourhood_names_normalizer(canonical), canonical);
    }
}

#[test]
fn normalizer_passes_unknown_spellings_through() {
    assert_eq!(neighbourhood_names_normalizer("Annex"), "Annex");
    assert_eq!(neighbourhood_names_normalizer(""), "");
    assert_eq!(neighbourhood_names_normalizer("Atlantis"), "Atlantis");
    assert_eq!(neighbourhood_names_normalizer("weston-pellam park"), "weston-pellam park");
    assert_eq!(neighbourhood_names_normalizer("Weston-Pellam Park "), "Weston-Pellam Park ");
    assert_eq!(neighbourhood_names_normalizer("Île-de-Montréal"), "Île-de-Montréal");
}

#[test]
fn normalizer_is_idempotent() {
    let mut inputs: Vec<&str> = NEIGHBOURHOOD_NAMES.to_vec();
    for (variant, canonical) in VARIANTS {
        inputs.push(variant);
        inputs.push(canonical);
    }
    inputs.push("Somewhere else");
    for raw in inputs {
        let once = neighbourhood_names_normalizer(raw);
        assert_eq!(neighbourhood_names_normalizer(once), once);
    }
}

#[test]
fn registry_holds_141_distinct_names() {
    assert_eq!(NEIGHBOURHOOD_NAMES.len(), 141);
    for (i, a) in NEIGHBOURHOOD_NAMES.iter().enumerate() {
        for b in NEIGHBOURHOOD_NAMES.iter().skip(i + 1) {
            assert_ne!(a, b);
        }
    }
    assert_eq!(NEIGHBOURHOOD_NAMES[0], "Lambton Baby Point");
    assert_eq!(NEIGHBOURHOOD_NAMES[95], "City of Toronto");
    assert_eq!(NEIGHBOURHOOD_NAMES[140], "Humber Summit");
}

#[test]
fn registered_names_stand_for_themselves() {
    for name in NEIGHBOURHOOD_NAMES {
        assert_eq!(neighbourhood_names_normalizer(name), name);
        assert_eq!(strip_qualifier(name), name);
        assert_eq!(reconcile_spelling(name), name);
    }
}

#[test]
fn registry_holds_the_reconciled_spellings() {
    for (variant, canonical) in VARIANTS {
        assert!(is_registered(canonical));
        assert!(!is_registered(variant));
        assert!(is_registered(neighbourhood_names_normalizer(variant)));
    }
    assert_eq!(NEIGHBOURHOOD_NAMES[88], "Danforth-East York");
    assert_eq!(NEIGHBOURHOOD_NAMES[110], "Mimico");
}

#[test]
fn is_registered_finds_exactly_the_registered_names() {
    for name in NEIGHBOURHOOD_NAMES {
        assert!(is_registered(name));
    }
    assert!(is_registered("Humber Summit"));
    assert!(is_registered("Lambton Baby Point"));
    assert!(!is_registered(""));
    assert!(!is_registered("Humber Summi"));
    assert!(!is_registered("humber summit"));
    assert!(!is_registered("Weston-Pellam Park"));
}

#[test]
fn strip_qualifier_cuts_at_the_first_bracket() {
    assert_eq!(strip_qualifier("Mimico (includes Humber Bay Shores)"), "Mimico");
    assert_eq!(
        strip_qualifier("Briar Hill-Belgravia (also known as X)"),
        "Briar Hill-Belgravia"
    );
    assert_eq!(strip_qualifier("A (b) (c)"), "A");
    assert_eq!(strip_qualifier("A  (b)"), "A ");
}

#[test]
fn strip_qualifier_leaves_other_names_whole() {
    assert_eq!(strip_qualifier("Annex"), "Annex");
    assert_eq!(strip_qualifier(""), "");
    assert_eq!(strip_qualifier(" "), " ");
    assert_eq!(strip_qualifier("("), "(");
    assert_eq!(strip_qualifier("A(b)"), "A(b)");
    assert_eq!(strip_qualifier("A ( b"), "A");
    assert_eq!(strip_qualifier("Trailing "), "Trailing ");
    assert_eq!(strip_qualifier("A( b"), "A( b");
}

#[test]
fn strip_qualifier_handles_edges() {
    assert_eq!(strip_qualifier(" (all of it)"), "");
    assert_eq!(strip_qualifier("End ("), "End");
    assert_eq!(strip_qualifier("Café Île (près du lac)"), "Café Île");
    assert_eq!(strip_qualifier("日本 (にほん)"), "日本");
}

#[test]
fn strip_qualifier_agrees_with_split() {
    let inputs = [
        "Mimico (includes Humber Bay Shores)",
        "Annex",
        "",
        " (",
        "a (b (c",
        "Crème (brûlée)",
        "x ( y",
        "x( y",
    ];
    for raw in inputs {
        assert_eq!(strip_qualifier(raw), raw.split(" (").next().unwrap());
    }
}

#[test]
fn normalizer_cuts_the_qualifier_before_the_lookup() {
    assert_eq!(
        neighbourhood_names_normalizer("Briar Hill-Belgravia (also known as X)"),
        "Briar Hill-Belgravia"
    );
    assert_eq!(neighbourhood_names_normalizer("Annex (north)"), "Annex");
    assert_eq!(neighbourhood_names_normalizer("Weston-Pellam Park (91)"), "Weston-Pelham Park");
    assert_eq!(neighbourhood_names_normalizer("Danforth East York (59) (old)"), "Danforth-East York");
    assert_eq!(neighbourhood_names_normalizer("Mimico (anything at all)"), "Mimico");
    assert_eq!(neighbourhood_names_normalizer(" (only a qualifier)"), "");
    assert_eq!(neighbourhood_names_normalizer("Annex(north)"), "Annex(north)");
}

#[test]
fn reconcile_spelling_looks_the_whole_text_up() {
    for (variant, canonical) in VARIANTS {
        assert_eq!(reconcile_spelling(variant), canonical);
        assert_eq!(reconcile_spelling(canonical), canonical);
    }
    assert_eq!(reconcile_spelling("Annex (north)"), "Annex (north)");
    assert_eq!(reconcile_spelling("Weston-Pellam Park (91)"), "Weston-Pellam Park (91)");
    assert_eq!(reconcile_spelling(""), "");
}

#[test]
fn normalized_names_are_stable() {
    let inputs = [
        "Mimico (includes Humber Bay Shores)",
        "Weston-Pellam Park (old spelling)",
        "Danforth East York",
        "Annex (central)",
        "Nowhere",
    ];
    for raw in inputs {
        let once = neighbourhood_names_normalizer(raw);
        assert_eq!(neighbourhood_names_normalizer(once), once);
    }
}

#[test]
fn normalizer_drops_the_qualifier_then_reconciles() {
    assert_eq!(neighbourhood_names_normalizer("Mimico (includes Humber Bay Shores)"), "Mimico");
    assert_eq!(
        neighbourhood_names_normalizer("Briar Hill-Belgravia (also known as X)"),
        "Briar Hill-Belgravia"
    );
    assert_eq!(neighbourhood_names_normalizer("Weston-Pellam Park (91)"), "Weston-Pelham Park");
    assert_eq!(neighbourhood_names_normalizer("North St.James Town"), "North St. James Town");
    assert_eq!(neighbourhood_names_normalizer("Annex"), "Annex");
    assert_eq!(neighbourhood_names_normalizer(""), "");
}

#[test]
fn same_text_compares_by_characters() {
    assert!(same_text("", ""));
    assert!(same_text("Annex", "Annex"));
    assert!(!same_text("Annex", "Annexe"));
    assert!(!same_text("Annex", "annex"));
    assert!(!same_text("Annex", ""));
    assert!(same_text("Île", "Île"));
    assert!(!same_text("Île", "Ile"));
}

#[test]
fn characters_lists_each_character() {
    assert_eq!(characters(""), Vec::<char>::new());
    assert_eq!(characters("a (b"), vec!['a', ' ', '(', 'b']);
    assert_eq!(characters("Île"), vec!['Î', 'l', 'e']);
}
