//! The closed list of neighbourhood names that the datasets are expected to
//! resolve to.

use vstd::prelude::*;
use crate::names::{
    canonical_name, is_variant_spelling, lemma_reconciled_fixed, lemma_unqualified_name,
    qualifier_start,
};
use crate::text::same_text;

verus! {

/// Every neighbourhood name of the city in the spelling used for joining,
/// together with the name of the row that stands for the city as a whole.
pub const NEIGHBOURHOOD_NAMES: [&'static str; 141] = [
    "Lambton Baby Point",
    "Yonge-Eglinton",
    "Ionview",
    "Flemingdon Park",
    "Banbury-Don Mills",
    "Mount Dennis",
    "Alderwood",
    "Clanton Park",
    "Bay Street Corridor",
    "Don Valley Village",
    "Bridle Path-Sunnybrook-York Mills",
    "Downsview-Roding-CFB",
    "Clairlea-Birchmount",
    "North Riverdale",
    "Mount Pleasant West",
    "Westminster-Branson",
    "Eringate-Centennial-West Deane",
    "Oakridge",
    "Tam O'Shanter-Sullivan",
    "South Riverdale",
    "Birchcliffe-Cliffside",
    "Palmerston-Little Italy",
    "Kingsview Village-The Westway",
    "Morningside",
    "Oakwood Village",
    "Runnymede-Bloor West Village",
    "Princess-Rosethorn",
    "Kensington-Chinatown",
    "O'Connor-Parkview",
    "Agincourt North",
    "Lawrence Park North",
    "Dorset Park",
    "Wychwood",
    "Yonge-St.Clair",
    "Kingsway South",
    "Parkwoods-Donalda",
    "Rexdale-Kipling",
    "Church-Yonge Corridor",
    "Brookhaven-Amesbury",
    "Bayview Village",
    "Humber Heights-Westmount",
    "Bayview Woods-Steeles",
    "Niagara",
    "Long Branch",
    "Leaside-Bennington",
    "St.Andrew-Windfields",
    "Corso Italia-Davenport",
    "Wexford/Maryvale",
    "Cliffcrest",
    "Steeles",
    "Broadview North",
    "Etobicoke West Mall",
    "L'Amoreaux",
    "South Parkdale",
    "Willowdale East",
    "Bedford Park-Nortown",
    "North St. James Town",
    "Woodbine Corridor",
    "Playter Estates-Danforth",
    "Lawrence Park South",
    "Casa Loma",
    "Scarborough Village",
    "Edenbridge-Humber Valley",
    "Beechborough-Greenbrook",
    "Pleasant View",
    "Danforth",
    "Old East York",
    "Islington-City Centre West",
    "Humewood-Cedarvale",
    "York University Heights",
    "Taylor-Massey",
    "Mount Olive-Silverstone-Jamestown",
    "Roncesvalles",
    "Trinity-Bellwoods",
    "Mount Pleasant East",
    "Humbermede",
    "Keelesdale-Eglinton West",
    "Highland Creek",
    "Thorncliffe Park",
    "Rosedale-Moore Park",
    "Junction Area",
    "Lansing-Westgate",
    "Regent Park",
    "Thistletown-Beaumond Heights",
    "Markland Wood",
    "Guildwood",
    "Henry Farm",
    "Maple Leaf",
    "Danforth-East York",
    "Woburn",
    "High Park-Swansea",
    "Milliken",
    "Victoria Village",
    "Yorkdale-Glen Park",
    "Glenfield-Jane Heights",
    "City of Toronto",
    "High Park North",
    "Waterfront Communities-The Island",
    "Centennial Scarborough",
    "The Beaches",
    "Agincourt South-Malvern West",
    "West Hill",
    "Englemount-Lawrence",
    "Rockcliffe-Smythe",
    "Dovercourt-Wallace Emerson-Junction",
    "Stonegate-Queensway",
    "Bathurst Manor",
    "Newtonbrook West",
    "Rustic",
    "Forest Hill South",
    "Mimico",
    "Woodbine-Lumsden",
    "Caledonia-Fairbank",
    "Greenwood-Coxwell",
    "Annex",
    "Eglinton East",
    "Malvern",
    "Hillcrest Village",
    "Willowdale West",
    "Little Portugal",
    "Black Creek",
    "Kennedy Park",
    "New Toronto",
    "University",
    "East End-Danforth",
    "Bendale",
    "Elms-Old Rexdale",
    "Blake-Jones",
    "West Humber-Clairville",
    "Dufferin Grove",
    "Briar Hill-Belgravia",
    "Willowridge-Martingrove-Richview",
    "Pelmo Park-Humberlea",
    "Cabbagetown-South St. James Town",
    "Weston-Pelham Park",
    "Moss Park",
    "Forest Hill North",
    "Weston",
    "Rouge",
    "Newtonbrook East",
    "Humber Summit",
];

/// The registered names as a sequence of character sequences.
pub open spec fn registry() -> Seq<Seq<char>> {
    Seq::new(141, |i: int| NEIGHBOURHOOD_NAMES[i]@)
}

/// Whether a name is one of the registered names.
pub fn is_registered(name: &str) -> (found: bool)
    ensures
        found == registry().contains(name@),
{
    let mut i: usize = 0;
    while i < 141
        invariant
            i <= 141,
            forall|j: int| 0 <= j < i ==> registry()[j] != name@,
        decreases 141 - i,
    {
        if same_text(NEIGHBOURHOOD_NAMES[i], name) {
            assert(registry()[i as int] == name@);
            return true;
        }
        i = i + 1;
    }
    false
}

/// Whether a name differs from each of the variant spellings in length or
/// in one of the places where they differ from other names.
spec fn differs_from_variants(name: Seq<char>) -> bool {
    &&& name.len() == 18 ==> (name[0] != 'W' || name[10] != 'l') && (name[0] != 'D' || name[8]
        != ' ')
    &&& name.len() == 19 ==> name[0] != 'N'
    &&& name.len() == 22 ==> name[0] != 'B'
    &&& name.len() == 31 ==> name[0] != 'C'
    &&& name.len() == 35 ==> name[0] != 'M'
}

/// A name that differs from the variant spellings in such a place is none
/// of them.
proof fn lemma_not_variant(name: Seq<char>)
    requires
        differs_from_variants(name),
    ensures
        !is_variant_spelling(name),
{
    reveal_strlit("Weston-Pellam Park");
    reveal_strlit("Briar Hill - Belgravia");
    reveal_strlit("Cabbagetown-South St.James Town");
    reveal_strlit("North St.James Town");
    reveal_strlit("Mimico (includes Humber Bay Shores)");
    reveal_strlit("Danforth East York");
    assert("Weston-Pellam Park"@.len() == 18 && "Weston-Pellam Park"@[0] == 'W'
        && "Weston-Pellam Park"@[10] == 'l');
    assert("Danforth East York"@.len() == 18 && "Danforth East York"@[0] == 'D'
        && "Danforth East York"@[8] == ' ');
    assert("North St.James Town"@.len() == 19 && "North St.James Town"@[0] == 'N');
    assert("Briar Hill - Belgravia"@.len() == 22 && "Briar Hill - Belgravia"@[0] == 'B');
    assert("Cabbagetown-South St.James Town"@.len() == 31
        && "Cabbagetown-South St.James Town"@[0] == 'C');
    assert("Mimico (includes Humber Bay Shores)"@.len() == 35
        && "Mimico (includes Humber Bay Shores)"@[0] == 'M');
}

/// A name in which no qualifier opens, and which is no variant spelling, is
/// its own normal form.
proof fn lemma_plain_name(name: Seq<char>)
    requires
        qualifier_start(name, 0) == name.len(),
        differs_from_variants(name),
    ensures
        canonical_name(name) == name,
{
    lemma_not_variant(name);
    lemma_reconciled_fixed(name);
    lemma_unqualified_name(name);
}

/// Every registered name is its own normal form: no qualifier opens in it,
/// and it is no variant spelling.
pub proof fn registered_names_are_canonical(name: Seq<char>)
    requires
        registry().contains(name),
    ensures
        canonical_name(name) == name,
{
    let at = choose|at: int| 0 <= at < registry().len() && registry()[at] == name;
    // The longest name has 35 characters: unfolding that far walks through
    // each name to its end.
    reveal_with_fuel(qualifier_start, 37);
    if at == 0 {
        reveal_strlit("Lambton Baby Point");
        lemma_plain_name("Lambton Baby Point"@);
    } else if at == 1 {
        reveal_strlit("Yonge-Eglinton");
        lemma_plain_name("Yonge-Eglinton"@);
    } else if at == 2 {
        reveal_strlit("Ionview");
        lemma_plain_name("Ionview"@);
    } else if at == 3 {
        reveal_strlit("Flemingdon Park");
        lemma_plain_name("Flemingdon Park"@);
    } else if at == 4 {
        reveal_strlit("Banbury-Don Mills");
        lemma_plain_name("Banbury-Don Mills"@);
    } else if at == 5 {
        reveal_strlit("Mount Dennis");
        lemma_plain_name("Mount Dennis"@);
    } else if at == 6 {
        reveal_strlit("Alderwood");
        lemma_plain_name("Alderwood"@);
    } else if at == 7 {
        reveal_strlit("Clanton Park");
        lemma_plain_name("Clanton Park"@);
    } else if at == 8 {
        reveal_strlit("Bay Street Corridor");
        lemma_plain_name("Bay Street Corridor"@);
    } else if at == 9 {
        reveal_strlit("Don Valley Village");
        lemma_plain_name("Don Valley Village"@);
    } else if at == 10 {
        reveal_strlit("Bridle Path-Sunnybrook-York Mills");
        lemma_plain_name("Bridle Path-Sunnybrook-York Mills"@);
    } else if at == 11 {
        reveal_strlit("Downsview-Roding-CFB");
        lemma_plain_name("Downsview-Roding-CFB"@);
    } else if at == 12 {
        reveal_strlit("Clairlea-Birchmount");
        lemma_plain_name("Clairlea-Birchmount"@);
    } else if at == 13 {
        reveal_strlit("North Riverdale");
        lemma_plain_name("North Riverdale"@);
    } else if at == 14 {
        reveal_strlit("Mount Pleasant West");
        lemma_plain_name("Mount Pleasant West"@);
    } else if at == 15 {
        reveal_strlit("Westminster-Branson");
        lemma_plain_name("Westminster-Branson"@);
    } else if at == 16 {
        reveal_strlit("Eringate-Centennial-West Deane");
        lemma_plain_name("Eringate-Centennial-West Deane"@);
    } else if at == 17 {
        reveal_strlit("Oakridge");
        lemma_plain_name("Oakridge"@);
    } else if at == 18 {
        reveal_strlit("Tam O'Shanter-Sullivan");
        lemma_plain_name("Tam O'Shanter-Sullivan"@);
    } else if at == 19 {
        reveal_strlit("South Riverdale");
        lemma_plain_name("South Riverdale"@);
    } else if at == 20 {
        reveal_strlit("Birchcliffe-Cliffside");
        lemma_plain_name("Birchcliffe-Cliffside"@);
    } else if at == 21 {
        reveal_strlit("Palmerston-Little Italy");
        lemma_plain_name("Palmerston-Little Italy"@);
    } else if at == 22 {
        reveal_strlit("Kingsview Village-The Westway");
        lemma_plain_name("Kingsview Village-The Westway"@);
    } else if at == 23 {
        reveal_strlit("Morningside");
        lemma_plain_name("Morningside"@);
    } else if at == 24 {
        reveal_strlit("Oakwood Village");
        lemma_plain_name("Oakwood Village"@);
    } else if at == 25 {
        reveal_strlit("Runnymede-Bloor West Village");
        lemma_plain_name("Runnymede-Bloor West Village"@);
    } else if at == 26 {
        reveal_strlit("Princess-Rosethorn");
        lemma_plain_name("Princess-Rosethorn"@);
    } else if at == 27 {
        reveal_strlit("Kensington-Chinatown");
        lemma_plain_name("Kensington-Chinatown"@);
    } else if at == 28 {
        reveal_strlit("O'Connor-Parkview");
        lemma_plain_name("O'Connor-Parkview"@);
    } else if at == 29 {
        reveal_strlit("Agincourt North");
        lemma_plain_name("Agincourt North"@);
    } else if at == 30 {
        reveal_strlit("Lawrence Park North");
        lemma_plain_name("Lawrence Park North"@);
    } else if at == 31 {
        reveal_strlit("Dorset Park");
        lemma_plain_name("Dorset Park"@);
    } else if at == 32 {
        reveal_strlit("Wychwood");
        lemma_plain_name("Wychwood"@);
    } else if at == 33 {
        reveal_strlit("Yonge-St.Clair");
        lemma_plain_name("Yonge-St.Clair"@);
    } else if at == 34 {
        reveal_strlit("Kingsway South");
        lemma_plain_name("Kingsway South"@);
    } else if at == 35 {
        reveal_strlit("Parkwoods-Donalda");
        lemma_plain_name("Parkwoods-Donalda"@);
    } else if at == 36 {
        reveal_strlit("Rexdale-Kipling");
        lemma_plain_name("Rexdale-Kipling"@);
    } else if at == 37 {
        reveal_strlit("Church-Yonge Corridor");
        lemma_plain_name("Church-Yonge Corridor"@);
    } else if at == 38 {
        reveal_strlit("Brookhaven-Amesbury");
        lemma_plain_name("Brookhaven-Amesbury"@);
    } else if at == 39 {
        reveal_strlit("Bayview Village");
        lemma_plain_name("Bayview Village"@);
    } else if at == 40 {
        reveal_strlit("Humber Heights-Westmount");
        lemma_plain_name("Humber Heights-Westmount"@);
    } else if at == 41 {
        reveal_strlit("Bayview Woods-Steeles");
        lemma_plain_name("Bayview Woods-Steeles"@);
    } else if at == 42 {
        reveal_strlit("Niagara");
        lemma_plain_name("Niagara"@);
    } else if at == 43 {
        reveal_strlit("Long Branch");
        lemma_plain_name("Long Branch"@);
    } else if at == 44 {
        reveal_strlit("Leaside-Bennington");
        lemma_plain_name("Leaside-Bennington"@);
    } else if at == 45 {
        reveal_strlit("St.Andrew-Windfields");
        lemma_plain_name("St.Andrew-Windfields"@);
    } else if at == 46 {
        reveal_strlit("Corso Italia-Davenport");
        lemma_plain_name("Corso Italia-Davenport"@);
    } else if at == 47 {
        reveal_strlit("Wexford/Maryvale");
        lemma_plain_name("Wexford/Maryvale"@);
    } else if at == 48 {
        reveal_strlit("Cliffcrest");
        lemma_plain_name("Cliffcrest"@);
    } else if at == 49 {
        reveal_strlit("Steeles");
        lemma_plain_name("Steeles"@);
    } else if at == 50 {
        reveal_strlit("Broadview North");
        lemma_plain_name("Broadview North"@);
    } else if at == 51 {
        reveal_strlit("Etobicoke West Mall");
        lemma_plain_name("Etobicoke West Mall"@);
    } else if at == 52 {
        reveal_strlit("L'Amoreaux");
        lemma_plain_name("L'Amoreaux"@);
    } else if at == 53 {
        reveal_strlit("South Parkdale");
        lemma_plain_name("South Parkdale"@);
    } else if at == 54 {
        reveal_strlit("Willowdale East");
        lemma_plain_name("Willowdale East"@);
    } else if at == 55 {
        reveal_strlit("Bedford Park-Nortown");
        lemma_plain_name("Bedford Park-Nortown"@);
    } else if at == 56 {
        reveal_strlit("North St. James Town");
        lemma_plain_name("North St. James Town"@);
    } else if at == 57 {
        reveal_strlit("Woodbine Corridor");
        lemma_plain_name("Woodbine Corridor"@);
    } else if at == 58 {
        reveal_strlit("Playter Estates-Danforth");
        lemma_plain_name("Playter Estates-Danforth"@);
    } else if at == 59 {
        reveal_strlit("Lawrence Park South");
        lemma_plain_name("Lawrence Park South"@);
    } else if at == 60 {
        reveal_strlit("Casa Loma");
        lemma_plain_name("Casa Loma"@);
    } else if at == 61 {
        reveal_strlit("Scarborough Village");
        lemma_plain_name("Scarborough Village"@);
    } else if at == 62 {
        reveal_strlit("Edenbridge-Humber Valley");
        lemma_plain_name("Edenbridge-Humber Valley"@);
    } else if at == 63 {
        reveal_strlit("Beechborough-Greenbrook");
        lemma_plain_name("Beechborough-Greenbrook"@);
    } else if at == 64 {
        reveal_strlit("Pleasant View");
        lemma_plain_name("Pleasant View"@);
    } else if at == 65 {
        reveal_strlit("Danforth");
        lemma_plain_name("Danforth"@);
    } else if at == 66 {
        reveal_strlit("Old East York");
        lemma_plain_name("Old East York"@);
    } else if at == 67 {
        reveal_strlit("Islington-City Centre West");
        lemma_plain_name("Islington-City Centre West"@);
    } else if at == 68 {
        reveal_strlit("Humewood-Cedarvale");
        lemma_plain_name("Humewood-Cedarvale"@);
    } else if at == 69 {
        reveal_strlit("York University Heights");
        lemma_plain_name("York University Heights"@);
    } else if at == 70 {
        reveal_strlit("Taylor-Massey");
        lemma_plain_name("Taylor-Massey"@);
    } else if at == 71 {
        reveal_strlit("Mount Olive-Silverstone-Jamestown");
        lemma_plain_name("Mount Olive-Silverstone-Jamestown"@);
    } else if at == 72 {
        reveal_strlit("Roncesvalles");
        lemma_plain_name("Roncesvalles"@);
    } else if at == 73 {
        reveal_strlit("Trinity-Bellwoods");
        lemma_plain_name("Trinity-Bellwoods"@);
    } else if at == 74 {
        reveal_strlit("Mount Pleasant East");
        lemma_plain_name("Mount Pleasant East"@);
    } else if at == 75 {
        reveal_strlit("Humbermede");
        lemma_plain_name("Humbermede"@);
    } else if at == 76 {
        reveal_strlit("Keelesdale-Eglinton West");
        lemma_plain_name("Keelesdale-Eglinton West"@);
    } else if at == 77 {
        reveal_strlit("Highland Creek");
        lemma_plain_name("Highland Creek"@);
    } else if at == 78 {
        reveal_strlit("Thorncliffe Park");
        lemma_plain_name("Thorncliffe Park"@);
    } else if at == 79 {
        reveal_strlit("Rosedale-Moore Park");
        lemma_plain_name("Rosedale-Moore Park"@);
    } else if at == 80 {
        reveal_strlit("Junction Area");
        lemma_plain_name("Junction Area"@);
    } else if at == 81 {
        reveal_strlit("Lansing-Westgate");
        lemma_plain_name("Lansing-Westgate"@);
    } else if at == 82 {
        reveal_strlit("Regent Park");
        lemma_plain_name("Regent Park"@);
    } else if at == 83 {
        reveal_strlit("Thistletown-Beaumond Heights");
        lemma_plain_name("Thistletown-Beaumond Heights"@);
    } else if at == 84 {
        reveal_strlit("Markland Wood");
        lemma_plain_name("Markland Wood"@);
    } else if at == 85 {
        reveal_strlit("Guildwood");
        lemma_plain_name("Guildwood"@);
    } else if at == 86 {
        reveal_strlit("Henry Farm");
        lemma_plain_name("Henry Farm"@);
    } else if at == 87 {
        reveal_strlit("Maple Leaf");
        lemma_plain_name("Maple Leaf"@);
    } else if at == 88 {
        reveal_strlit("Danforth-East York");
        lemma_plain_name("Danforth-East York"@);
    } else if at == 89 {
        reveal_strlit("Woburn");
        lemma_plain_name("Woburn"@);
    } else if at == 90 {
        reveal_strlit("High Park-Swansea");
        lemma_plain_name("High Park-Swansea"@);
    } else if at == 91 {
        reveal_strlit("Milliken");
        lemma_plain_name("Milliken"@);
    } else if at == 92 {
        reveal_strlit("Victoria Village");
        lemma_plain_name("Victoria Village"@);
    } else if at == 93 {
        reveal_strlit("Yorkdale-Glen Park");
        lemma_plain_name("Yorkdale-Glen Park"@);
    } else if at == 94 {
        reveal_strlit("Glenfield-Jane Heights");
        lemma_plain_name("Glenfield-Jane Heights"@);
    } else if at == 95 {
        reveal_strlit("City of Toronto");
        lemma_plain_name("City of Toronto"@);
    } else if at == 96 {
        reveal_strlit("High Park North");
        lemma_plain_name("High Park North"@);
    } else if at == 97 {
        reveal_strlit("Waterfront Communities-The Island");
        lemma_plain_name("Waterfront Communities-The Island"@);
    } else if at == 98 {
        reveal_strlit("Centennial Scarborough");
        lemma_plain_name("Centennial Scarborough"@);
    } else if at == 99 {
        reveal_strlit("The Beaches");
        lemma_plain_name("The Beaches"@);
    } else if at == 100 {
        reveal_strlit("Agincourt South-Malvern West");
        lemma_plain_name("Agincourt South-Malvern West"@);
    } else if at == 101 {
        reveal_strlit("West Hill");
        lemma_plain_name("West Hill"@);
    } else if at == 102 {
        reveal_strlit("Englemount-Lawrence");
        lemma_plain_name("Englemount-Lawrence"@);
    } else if at == 103 {
        reveal_strlit("Rockcliffe-Smythe");
        lemma_plain_name("Rockcliffe-Smythe"@);
    } else if at == 104 {
        reveal_strlit("Dovercourt-Wallace Emerson-Junction");
        lemma_plain_name("Dovercourt-Wallace Emerson-Junction"@);
    } else if at == 105 {
        reveal_strlit("Stonegate-Queensway");
        lemma_plain_name("Stonegate-Queensway"@);
    } else if at == 106 {
        reveal_strlit("Bathurst Manor");
        lemma_plain_name("Bathurst Manor"@);
    } else if at == 107 {
        reveal_strlit("Newtonbrook West");
        lemma_plain_name("Newtonbrook West"@);
    } else if at == 108 {
        reveal_strlit("Rustic");
        lemma_plain_name("Rustic"@);
    } else if at == 109 {
        reveal_strlit("Forest Hill South");
        lemma_plain_name("Forest Hill South"@);
    } else if at == 110 {
        reveal_strlit("Mimico");
        lemma_plain_name("Mimico"@);
    } else if at == 111 {
        reveal_strlit("Woodbine-Lumsden");
        lemma_plain_name("Woodbine-Lumsden"@);
    } else if at == 112 {
        reveal_strlit("Caledonia-Fairbank");
        lemma_plain_name("Caledonia-Fairbank"@);
    } else if at == 113 {
        reveal_strlit("Greenwood-Coxwell");
        lemma_plain_name("Greenwood-Coxwell"@);
    } else if at == 114 {
        reveal_strlit("Annex");
        lemma_plain_name("Annex"@);
    } else if at == 115 {
        reveal_strlit("Eglinton East");
        lemma_plain_name("Eglinton East"@);
    } else if at == 116 {
        reveal_strlit("Malvern");
        lemma_plain_name("Malvern"@);
    } else if at == 117 {
        reveal_strlit("Hillcrest Village");
        lemma_plain_name("Hillcrest Village"@);
    } else if at == 118 {
        reveal_strlit("Willowdale West");
        lemma_plain_name("Willowdale West"@);
    } else if at == 119 {
        reveal_strlit("Little Portugal");
        lemma_plain_name("Little Portugal"@);
    } else if at == 120 {
        reveal_strlit("Black Creek");
        lemma_plain_name("Black Creek"@);
    } else if at == 121 {
        reveal_strlit("Kennedy Park");
        lemma_plain_name("Kennedy Park"@);
    } else if at == 122 {
        reveal_strlit("New Toronto");
        lemma_plain_name("New Toronto"@);
    } else if at == 123 {
        reveal_strlit("University");
        lemma_plain_name("University"@);
    } else if at == 124 {
        reveal_strlit("East End-Danforth");
        lemma_plain_name("East End-Danforth"@);
    } else if at == 125 {
        reveal_strlit("Bendale");
        lemma_plain_name("Bendale"@);
    } else if at == 126 {
        reveal_strlit("Elms-Old Rexdale");
        lemma_plain_name("Elms-Old Rexdale"@);
    } else if at == 127 {
        reveal_strlit("Blake-Jones");
        lemma_plain_name("Blake-Jones"@);
    } else if at == 128 {
        reveal_strlit("West Humber-Clairville");
        lemma_plain_name("West Humber-Clairville"@);
    } else if at == 129 {
        reveal_strlit("Dufferin Grove");
        lemma_plain_name("Dufferin Grove"@);
    } else if at == 130 {
        reveal_strlit("Briar Hill-Belgravia");
        lemma_plain_name("Briar Hill-Belgravia"@);
    } else if at == 131 {
        reveal_strlit("Willowridge-Martingrove-Richview");
        lemma_plain_name("Willowridge-Martingrove-Richview"@);
    } else if at == 132 {
        reveal_strlit("Pelmo Park-Humberlea");
        lemma_plain_name("Pelmo Park-Humberlea"@);
    } else if at == 133 {
        reveal_strlit("Cabbagetown-South St. James Town");
        lemma_plain_name("Cabbagetown-South St. James Town"@);
    } else if at == 134 {
        reveal_strlit("Weston-Pelham Park");
        lemma_plain_name("Weston-Pelham Park"@);
    } else if at == 135 {
        reveal_strlit("Moss Park");
        lemma_plain_name("Moss Park"@);
    } else if at == 136 {
        reveal_strlit("Forest Hill North");
        lemma_plain_name("Forest Hill North"@);
    } else if at == 137 {
        reveal_strlit("Weston");
        lemma_plain_name("Weston"@);
    } else if at == 138 {
        reveal_strlit("Rouge");
        lemma_plain_name("Rouge"@);
    } else if at == 139 {
        reveal_strlit("Newtonbrook East");
        lemma_plain_name("Newtonbrook East"@);
    } else if at == 140 {
        reveal_strlit("Humber Summit");
        lemma_plain_name("Humber Summit"@);
    }
}

/// Every variant spelling is normalized to a registered name.
pub proof fn variant_spellings_are_registered(raw: Seq<char>)
    requires
        is_variant_spelling(raw),
    ensures
        registry().contains(canonical_name(raw)),
{
    reveal_strlit("Weston-Pellam Park");
    reveal_strlit("Briar Hill - Belgravia");
    reveal_strlit("Cabbagetown-South St.James Town");
    reveal_strlit("North St.James Town");
    reveal_strlit("Mimico (includes Humber Bay Shores)");
    reveal_strlit("Mimico");
    reveal_strlit("Danforth East York");
    reveal_with_fuel(qualifier_start, 33);
    if raw == "Mimico (includes Humber Bay Shores)"@ {
        // This one is cut at its qualifier, and what is left is registered.
        let prefix = raw.take(6);
        assert(qualifier_start(raw, 0) == 6);
        assert(prefix =~= "Mimico"@) by {
            assert(prefix.len() == 6 && "Mimico"@.len() == 6);
            assert(prefix[0] == "Mimico"@[0] && prefix[1] == "Mimico"@[1]);
            assert(prefix[2] == "Mimico"@[2] && prefix[3] == "Mimico"@[3]);
            assert(prefix[4] == "Mimico"@[4] && prefix[5] == "Mimico"@[5]);
        }
        lemma_not_variant("Mimico"@);
        lemma_reconciled_fixed("Mimico"@);
    } else {
        // No qualifier opens in the others: the table gives their
        // counterparts.
        assert(qualifier_start(raw, 0) == raw.len());
        lemma_unqualified_name(raw);
    }
    assert(registry()[134] == "Weston-Pelham Park"@);
    assert(registry()[130] == "Briar Hill-Belgravia"@);
    assert(registry()[133] == "Cabbagetown-South St. James Town"@);
    assert(registry()[56] == "North St. James Town"@);
    assert(registry()[110] == "Mimico"@);
    assert(registry()[88] == "Danforth-East York"@);
}

} // verus!
