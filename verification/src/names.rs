//! Reconciling the spellings of neighbourhood names.
//!
//! A name is normalized in two steps: a qualifier in brackets that follows
//! the name is cut off, and what is left is looked up in the table of
//! variant spellings.

use vstd::prelude::*;
use crate::text::{characters, same_text};

verus! {

/// The table of variant spellings: a known variant spelling is replaced by
/// its agreed counterpart, any other text stands for itself.
pub open spec fn reconciled(text: Seq<char>) -> Seq<char> {
    if text == "Weston-Pellam Park"@ {
        "Weston-Pelham Park"@
    } else if text == "Briar Hill - Belgravia"@ {
        "Briar Hill-Belgravia"@
    } else if text == "Cabbagetown-South St.James Town"@ {
        "Cabbagetown-South St. James Town"@
    } else if text == "North St.James Town"@ {
        "North St. James Town"@
    } else if text == "Mimico (includes Humber Bay Shores)"@ {
        "Mimico"@
    } else if text == "Danforth East York"@ {
        "Danforth-East York"@
    } else {
        text
    }
}

/// Whether the two characters `" ("`, which open a qualifier in brackets,
/// begin at position `at` of `text`.
pub open spec fn opens_qualifier(text: Seq<char>, at: int) -> bool {
    0 <= at && at + 1 < text.len() && text[at] == ' ' && text[at + 1] == '('
}

/// The first position at or after `from` where a qualifier opens, or the
/// length of `text` when none opens there.
pub open spec fn qualifier_start(text: Seq<char>, from: int) -> int
    decreases text.len() - from,
{
    if from < 0 || from >= text.len() {
        text.len() as int
    } else if opens_qualifier(text, from) {
        from
    } else {
        qualifier_start(text, from + 1)
    }
}

/// A name without the qualifier in brackets that may follow it: what stands
/// before the first `" ("`, or the whole name when there is none.
pub open spec fn without_qualifier(text: Seq<char>) -> Seq<char> {
    text.take(qualifier_start(text, 0))
}

/// The spelling that all datasets are joined on: the name is cut at the
/// first `" ("`, and what stands before it is looked up in the table of
/// variant spellings.
pub open spec fn canonical_name(raw: Seq<char>) -> Seq<char> {
    reconciled(without_qualifier(raw))
}

/// Looks a text up in the table of variant spellings.
pub fn reconcile_spelling(text: &str) -> (spelling: &str)
    ensures
        spelling@ == reconciled(text@),
{
    if same_text(text, "Weston-Pellam Park") {
        "Weston-Pelham Park"
    } else if same_text(text, "Briar Hill - Belgravia") {
        "Briar Hill-Belgravia"
    } else if same_text(text, "Cabbagetown-South St.James Town") {
        "Cabbagetown-South St. James Town"
    } else if same_text(text, "North St.James Town") {
        "North St. James Town"
    } else if same_text(text, "Mimico (includes Humber Bay Shores)") {
        "Mimico"
    } else if same_text(text, "Danforth East York") {
        "Danforth-East York"
    } else {
        text
    }
}

/// Whether a qualifier opens at position `at` of `chars`.
fn qualifier_opens_at(chars: &Vec<char>, at: usize) -> (opens: bool)
    ensures
        opens == opens_qualifier(chars@, at as int),
{
    at < chars.len() && chars.len() - at > 1 && chars[at] == ' ' && chars[at + 1] == '('
}

/// Drops the qualifier in brackets from a name.
pub fn strip_qualifier(name: &str) -> (prefix: &str)
    ensures
        prefix@ == without_qualifier(name@),
{
    let chars = characters(name);
    let mut i: usize = 0;
    while i < chars.len() && !qualifier_opens_at(&chars, i)
        invariant
            chars@ == name@,
            i <= chars.len(),
            qualifier_start(name@, 0) == qualifier_start(name@, i as int),
        decreases chars.len() - i,
    {
        i = i + 1;
    }
    name.substring_char(0, i)
}

/// Maps a neighbourhood name as found in any of the datasets to the spelling
/// used for joining: the qualifier in brackets is dropped, then the spelling
/// is reconciled.
pub fn neighbourhood_names_normalizer(name: &str) -> (canonical: &str)
    ensures
        canonical@ == canonical_name(name@),
{
    reconcile_spelling(strip_qualifier(name))
}

/// `qualifier_start` finds a position where a qualifier opens, unless it runs
/// to the end, and no qualifier opens between `from` and what it finds.
pub proof fn lemma_qualifier_start(text: Seq<char>, from: int)
    requires
        0 <= from <= text.len(),
    ensures
        from <= qualifier_start(text, from) <= text.len(),
        qualifier_start(text, from) == text.len() || opens_qualifier(
            text,
            qualifier_start(text, from),
        ),
        forall|j: int| from <= j < qualifier_start(text, from) ==> !opens_qualifier(text, j),
    decreases text.len() - from,
{
    if from < text.len() && !opens_qualifier(text, from) {
        lemma_qualifier_start(text, from + 1);
    }
}

/// A text in which no qualifier opens is left whole.
pub proof fn lemma_no_qualifier(text: Seq<char>, from: int)
    requires
        0 <= from <= text.len(),
        forall|j: int| from <= j < text.len() ==> !opens_qualifier(text, j),
    ensures
        qualifier_start(text, from) == text.len(),
    decreases text.len() - from,
{
    if from < text.len() {
        lemma_no_qualifier(text, from + 1);
    }
}

/// A name in which no qualifier opens is normalized by the table alone.
pub proof fn lemma_unqualified_name(name: Seq<char>)
    requires
        qualifier_start(name, 0) == name.len(),
    ensures
        without_qualifier(name) == name,
        canonical_name(name) == reconciled(name),
{
    assert(name.take(name.len() as int) =~= name);
}

/// A name that is followed by a qualifier in brackets is normalized as the
/// name alone is: the qualifier is cut off before the table is looked at.
pub proof fn qualified_name_is_cut(name: Seq<char>, qualifier: Seq<char>)
    requires
        qualifier_start(name, 0) == name.len(),
        opens_qualifier(qualifier, 0),
    ensures
        without_qualifier(name + qualifier) == name,
        canonical_name(name + qualifier) == reconciled(name),
        canonical_name(name + qualifier) == canonical_name(name),
{
    let whole = name + qualifier;
    let n = name.len() as int;
    lemma_qualifier_start(name, 0);
    assert(opens_qualifier(whole, n)) by {
        assert(whole[n] == qualifier[0] && whole[n + 1] == qualifier[1]);
    }
    assert forall|j: int| 0 <= j < n implies !opens_qualifier(whole, j) by {
        if j + 1 < n {
            assert(whole[j] == name[j] && whole[j + 1] == name[j + 1]);
            assert(!opens_qualifier(name, j));
        } else {
            assert(whole[j + 1] == qualifier[0]);
        }
    }
    lemma_qualifier_start(whole, 0);
    assert(whole.take(n) =~= name);
    lemma_unqualified_name(name);
}

/// Whether `text` is one of the known variant spellings, which the table
/// replaces.
pub open spec fn is_variant_spelling(text: Seq<char>) -> bool {
    ||| text == "Weston-Pellam Park"@
    ||| text == "Briar Hill - Belgravia"@
    ||| text == "Cabbagetown-South St.James Town"@
    ||| text == "North St.James Town"@
    ||| text == "Mimico (includes Humber Bay Shores)"@
    ||| text == "Danforth East York"@
}

/// What the table gives is never itself a variant spelling.
pub proof fn lemma_reconciled_settled(text: Seq<char>)
    ensures
        !is_variant_spelling(reconciled(text)),
{
    reveal_strlit("Weston-Pellam Park");
    reveal_strlit("Weston-Pelham Park");
    reveal_strlit("Briar Hill - Belgravia");
    reveal_strlit("Briar Hill-Belgravia");
    reveal_strlit("Cabbagetown-South St.James Town");
    reveal_strlit("Cabbagetown-South St. James Town");
    reveal_strlit("North St.James Town");
    reveal_strlit("North St. James Town");
    reveal_strlit("Mimico (includes Humber Bay Shores)");
    reveal_strlit("Mimico");
    reveal_strlit("Danforth East York");
    reveal_strlit("Danforth-East York");
    // Most counterparts differ from every variant spelling in length.
    assert("Weston-Pellam Park"@.len() == 18 && "Weston-Pelham Park"@.len() == 18);
    assert("Briar Hill - Belgravia"@.len() == 22 && "Briar Hill-Belgravia"@.len() == 20);
    assert("Cabbagetown-South St.James Town"@.len() == 31);
    assert("Cabbagetown-South St. James Town"@.len() == 32);
    assert("North St.James Town"@.len() == 19 && "North St. James Town"@.len() == 20);
    assert("Mimico (includes Humber Bay Shores)"@.len() == 35 && "Mimico"@.len() == 6);
    assert("Danforth East York"@.len() == 18 && "Danforth-East York"@.len() == 18);
    // Of the spellings of equal length, each pair differs in one of these
    // places.
    assert("Weston-Pelham Park"@[10] != "Weston-Pellam Park"@[10]);
    assert("Weston-Pelham Park"@[0] != "Danforth East York"@[0]);
    assert("Danforth-East York"@[0] != "Weston-Pellam Park"@[0]);
    assert("Danforth-East York"@[8] != "Danforth East York"@[8]);
}

/// The table leaves a text as it is exactly when it is no variant spelling.
pub proof fn lemma_reconciled_fixed(text: Seq<char>)
    ensures
        reconciled(text) == text <==> !is_variant_spelling(text),
{
    lemma_reconciled_settled(text);
}

/// Looking a spelling up twice gives what looking it up once gives.
pub proof fn reconciled_idempotent(text: Seq<char>)
    ensures
        reconciled(reconciled(text)) == reconciled(text),
{
    lemma_reconciled_settled(text);
}

/// No qualifier opens in what the table puts in place of a variant
/// spelling.
proof fn lemma_counterparts_unqualified(text: Seq<char>)
    requires
        is_variant_spelling(text),
    ensures
        without_qualifier(reconciled(text)) == reconciled(text),
{
    lemma_reconciled_settled(text);
    reveal_strlit("Weston-Pelham Park");
    reveal_strlit("Briar Hill-Belgravia");
    reveal_strlit("Cabbagetown-South St. James Town");
    reveal_strlit("North St. James Town");
    reveal_strlit("Mimico");
    reveal_strlit("Danforth-East York");
    // The longest counterpart has 32 characters: unfolding that far walks
    // through each of them to its end.
    reveal_with_fuel(qualifier_start, 34);
    let name = reconciled(text);
    assert(qualifier_start(name, 0) == name.len());
    lemma_unqualified_name(name);
}

/// Nothing is lost by dropping the qualifier a second time.
pub proof fn without_qualifier_idempotent(text: Seq<char>)
    ensures
        without_qualifier(without_qualifier(text)) == without_qualifier(text),
{
    let prefix = without_qualifier(text);
    lemma_qualifier_start(text, 0);
    assert forall|j: int| 0 <= j < prefix.len() implies !opens_qualifier(prefix, j) by {
        if opens_qualifier(prefix, j) {
            assert(opens_qualifier(text, j));
        }
    }
    lemma_no_qualifier(prefix, 0);
    lemma_unqualified_name(prefix);
}

/// Normalizing a name twice gives what normalizing it once gives.
pub proof fn canonical_name_idempotent(raw: Seq<char>)
    ensures
        canonical_name(canonical_name(raw)) == canonical_name(raw),
{
    let prefix = without_qualifier(raw);
    without_qualifier_idempotent(raw);
    if is_variant_spelling(prefix) {
        lemma_counterparts_unqualified(prefix);
    }
    reconciled_idempotent(prefix);
}

} // verus!
