//! Maps a free-form human-readable layout name to a canonical
//! (region, variant) pair by case-insensitive substring matching against a
//! fixed, ordered list of language and region hints. Compound names are
//! checked before their components, so a Swiss French layout is never taken
//! for plain French.
use crate::text::contains_ci;
use crate::text::str_contains_ci;
use vstd::prelude::*;

verus! {

/// A resolved keyboard layout: a region code and a possibly empty variant.
#[derive(Debug, Clone, PartialEq, Eq)]
pub struct LayoutIdentifier {
    pub region: String,
    pub variant: String,
}

impl View for LayoutIdentifier {
    type V = (Seq<char>, Seq<char>);

    open spec fn view(&self) -> (Seq<char>, Seq<char>) {
        (self.region@, self.variant@)
    }
}

impl LayoutIdentifier {
    /// The hard-coded safe default: a plain US layout.
    pub fn default_layout() -> (r: LayoutIdentifier)
        ensures
            r@ == ("us"@, Seq::<char>::empty()),
    {
        LayoutIdentifier { region: String::from_str("us"), variant: String::new() }
    }
}

/// The classification of a layout name: the ordered hint list, compound
/// hints first, each hint matched without regard to case.
pub open spec fn classify_spec(name: Seq<char>) -> Option<(Seq<char>, Seq<char>)> {
    if contains_ci(name, "swiss"@) || contains_ci(name, "switzerland"@) {
        if contains_ci(name, "french"@) {
            Some(("ch"@, "fr"@))
        } else {
            Some(("ch"@, "de"@))
        }
    } else if contains_ci(name, "german"@) {
        Some(("de"@, Seq::<char>::empty()))
    } else if contains_ci(name, "french"@) {
        Some(("fr"@, Seq::<char>::empty()))
    } else if contains_ci(name, "italian"@) {
        Some(("it"@, Seq::<char>::empty()))
    } else if contains_ci(name, "spanish"@) {
        Some(("es"@, Seq::<char>::empty()))
    } else if contains_ci(name, "portuguese"@) {
        Some(("pt"@, Seq::<char>::empty()))
    } else if contains_ci(name, "uk"@) || contains_ci(name, "british"@) {
        Some(("gb"@, Seq::<char>::empty()))
    } else if contains_ci(name, "us"@) || contains_ci(name, "english"@) {
        Some(("us"@, Seq::<char>::empty()))
    } else {
        None
    }
}

pub fn keymap_name_to_code(name: &str) -> (r: Option<LayoutIdentifier>)
    ensures
        match r {
            Some(id) => classify_spec(name@) == Some(id@),
            None => classify_spec(name@) is None,
        },
{
    if str_contains_ci(name, "swiss") || str_contains_ci(name, "switzerland") {
        if str_contains_ci(name, "french") {
            Some(
                LayoutIdentifier {
                    region: String::from_str("ch"),
                    variant: String::from_str("fr"),
                },
            )
        } else {
            Some(
                LayoutIdentifier {
                    region: String::from_str("ch"),
                    variant: String::from_str("de"),
                },
            )
        }
    } else if str_contains_ci(name, "german") {
        Some(LayoutIdentifier { region: String::from_str("de"), variant: String::new() })
    } else if str_contains_ci(name, "french") {
        Some(LayoutIdentifier { region: String::from_str("fr"), variant: String::new() })
    } else if str_contains_ci(name, "italian") {
        Some(LayoutIdentifier { region: String::from_str("it"), variant: String::new() })
    } else if str_contains_ci(name, "spanish") {
        Some(LayoutIdentifier { region: String::from_str("es"), variant: String::new() })
    } else if str_contains_ci(name, "portuguese") {
        Some(LayoutIdentifier { region: String::from_str("pt"), variant: String::new() })
    } else if str_contains_ci(name, "uk") || str_contains_ci(name, "british") {
        Some(LayoutIdentifier { region: String::from_str("gb"), variant: String::new() })
    } else if str_contains_ci(name, "us") || str_contains_ci(name, "english") {
        Some(LayoutIdentifier { region: String::from_str("us"), variant: String::new() })
    } else {
        None
    }
}

/// Law: a name containing both "swiss" and "french" in any case always
/// classifies as the Swiss French layout.
pub proof fn lemma_swiss_french_name(name: Seq<char>)
    requires
        contains_ci(name, "swiss"@),
        contains_ci(name, "french"@),
    ensures
        classify_spec(name) == Some(("ch"@, "fr"@)),
{
}

/// Law: a name containing "swiss" but not "french" in any case always
/// classifies as the Swiss German layout.
pub proof fn lemma_swiss_name(name: Seq<char>)
    requires
        contains_ci(name, "swiss"@),
        !contains_ci(name, "french"@),
    ensures
        classify_spec(name) == Some(("ch"@, "de"@)),
{
}

/// Law: a name matching none of the hints classifies as nothing, so the
/// caller goes on to the next detection strategy.
pub proof fn lemma_unmatched_name(name: Seq<char>)
    requires
        !contains_ci(name, "swiss"@),
        !contains_ci(name, "switzerland"@),
        !contains_ci(name, "german"@),
        !contains_ci(name, "french"@),
        !contains_ci(name, "italian"@),
        !contains_ci(name, "spanish"@),
        !contains_ci(name, "portuguese"@),
        !contains_ci(name, "uk"@),
        !contains_ci(name, "british"@),
        !contains_ci(name, "us"@),
        !contains_ci(name, "english"@),
    ensures
        classify_spec(name) is None,
{
}

} // verus!
