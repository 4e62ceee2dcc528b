//! Address component flags, normalisation options and component labels.

use vstd::prelude::*;

verus! {

/// Address component flags (bit flags).
pub const ADDRESS_NONE: u64 = 0;
pub const ADDRESS_ANY: u64 = 0xFFFF_FFFF_FFFF_FFFF;
pub const ADDRESS_NAME: u64 = 1;
pub const ADDRESS_HOUSE_NUMBER: u64 = 2;
pub const ADDRESS_STREET: u64 = 4;
pub const ADDRESS_UNIT: u64 = 8;
pub const ADDRESS_LEVEL: u64 = 16;
pub const ADDRESS_STAIRCASE: u64 = 32;
pub const ADDRESS_ENTRANCE: u64 = 64;
pub const ADDRESS_CATEGORY: u64 = 128;
pub const ADDRESS_NEAR: u64 = 256;
pub const ADDRESS_TOPONYM: u64 = 512;
pub const ADDRESS_POSTAL_CODE: u64 = 1024;
pub const ADDRESS_PO_BOX: u64 = 2048;
pub const ADDRESS_ALL: u64 = ADDRESS_ANY;

/// String normalisation options (bit flags).
pub const NORMALIZE_STRING_LATIN_ASCII: u32 = 1;
pub const NORMALIZE_STRING_TRANSLITERATE: u32 = 2;
pub const NORMALIZE_STRING_STRIP_ACCENTS: u32 = 4;
pub const NORMALIZE_STRING_DECOMPOSE: u32 = 8;
pub const NORMALIZE_STRING_LOWERCASE: u32 = 16;
pub const NORMALIZE_STRING_TRIM: u32 = 32;
pub const NORMALIZE_STRING_REPLACE_HYPHENS: u32 = 64;
pub const NORMALIZE_STRING_SIMPLE_LATIN_ASCII: u32 = 128;
pub const NORMALIZE_STRING_REPLACE_NUMEX: u32 = 256;

/// Default string normalisation: ASCII, lowercase and trim.
pub const NORMALIZE_DEFAULT_STRING_OPTIONS: u32 = NORMALIZE_STRING_LATIN_ASCII
    | NORMALIZE_STRING_LOWERCASE | NORMALIZE_STRING_TRIM;

/// Token normalisation options (bit flags).
pub const NORMALIZE_TOKEN_REPLACE_HYPHENS: u32 = 1;
pub const NORMALIZE_TOKEN_DELETE_HYPHENS: u32 = 2;
pub const NORMALIZE_TOKEN_DELETE_FINAL_PERIOD: u32 = 4;
pub const NORMALIZE_TOKEN_DELETE_ACRONYM_PERIODS: u32 = 8;
pub const NORMALIZE_TOKEN_DROP_ENGLISH_POSSESSIVES: u32 = 16;
pub const NORMALIZE_TOKEN_DELETE_OTHER_APOSTROPHE: u32 = 32;
pub const NORMALIZE_TOKEN_SPLIT_ALPHA_FROM_NUMERIC: u32 = 64;
pub const NORMALIZE_TOKEN_REPLACE_DIGITS: u32 = 128;

/// Default token normalisation: drop the final period and acronym periods.
pub const NORMALIZE_DEFAULT_TOKEN_OPTIONS: u32 = NORMALIZE_TOKEN_DELETE_FINAL_PERIOD
    | NORMALIZE_TOKEN_DELETE_ACRONYM_PERIODS;

/// Token types.
pub const TOKEN_TYPE_WORD: &'static str = "word";
pub const TOKEN_TYPE_ABBREVIATION: &'static str = "abbreviation";
pub const TOKEN_TYPE_NUMBER: &'static str = "number";
pub const TOKEN_TYPE_ALPHANUMERIC: &'static str = "alphanumeric";
pub const TOKEN_TYPE_PUNCTUATION: &'static str = "punctuation";
pub const TOKEN_TYPE_WHITESPACE: &'static str = "whitespace";
pub const TOKEN_TYPE_OTHER: &'static str = "other";

/// Address component labels.
pub const COMPONENT_HOUSE_NUMBER: &'static str = "house_number";
pub const COMPONENT_ROAD: &'static str = "road";
pub const COMPONENT_UNIT: &'static str = "unit";
pub const COMPONENT_LEVEL: &'static str = "level";
pub const COMPONENT_STAIRCASE: &'static str = "staircase";
pub const COMPONENT_ENTRANCE: &'static str = "entrance";
pub const COMPONENT_PO_BOX: &'static str = "po_box";
pub const COMPONENT_POSTCODE: &'static str = "postcode";
pub const COMPONENT_SUBURB: &'static str = "suburb";
pub const COMPONENT_CITY_DISTRICT: &'static str = "city_district";
pub const COMPONENT_CITY: &'static str = "city";
pub const COMPONENT_ISLAND: &'static str = "island";
pub const COMPONENT_STATE_DISTRICT: &'static str = "state_district";
pub const COMPONENT_STATE: &'static str = "state";
pub const COMPONENT_COUNTRY_REGION: &'static str = "country_region";
pub const COMPONENT_COUNTRY: &'static str = "country";
pub const COMPONENT_WORLD_REGION: &'static str = "world_region";
pub const COMPONENT_CATEGORY: &'static str = "category";
pub const COMPONENT_NEAR: &'static str = "near";
pub const COMPONENT_TOPONYM: &'static str = "toponym";

/// The canonical component labels, in their fixed order.
pub open spec fn component_labels() -> Seq<Seq<char>> {
    seq![
        "house_number"@,
        "road"@,
        "unit"@,
        "level"@,
        "staircase"@,
        "entrance"@,
        "po_box"@,
        "postcode"@,
        "suburb"@,
        "city_district"@,
        "city"@,
        "island"@,
        "state_district"@,
        "state"@,
        "country_region"@,
        "country"@,
        "world_region"@,
        "category"@,
        "near"@,
        "toponym"@,
    ]
}

/// Whether `label` names one of the canonical address components.
pub open spec fn is_component_label(label: Seq<char>) -> bool {
    component_labels().contains(label)
}

/// All canonical component labels, in their fixed order.
pub fn get_all_component_types() -> (r: Vec<&'static str>)
    ensures
        r@.len() == component_labels().len(),
        forall|i: int| 0 <= i < r@.len() ==> #[trigger] r@[i]@ == component_labels()[i],
{
    let mut r: Vec<&'static str> = Vec::new();
    r.push(COMPONENT_HOUSE_NUMBER);
    r.push(COMPONENT_ROAD);
    r.push(COMPONENT_UNIT);
    r.push(COMPONENT_LEVEL);
    r.push(COMPONENT_STAIRCASE);
    r.push(COMPONENT_ENTRANCE);
    r.push(COMPONENT_PO_BOX);
    r.push(COMPONENT_POSTCODE);
    r.push(COMPONENT_SUBURB);
    r.push(COMPONENT_CITY_DISTRICT);
    r.push(COMPONENT_CITY);
    r.push(COMPONENT_ISLAND);
    r.push(COMPONENT_STATE_DISTRICT);
    r.push(COMPONENT_STATE);
    r.push(COMPONENT_COUNTRY_REGION);
    r.push(COMPONENT_COUNTRY);
    r.push(COMPONENT_WORLD_REGION);
    r.push(COMPONENT_CATEGORY);
    r.push(COMPONENT_NEAR);
    r.push(COMPONENT_TOPONYM);
    r
}

/// Whether `component_type` is one of the canonical component labels.
pub fn is_valid_component_type(component_type: &str) -> (r: bool)
    ensures
        r == is_component_label(component_type@),
{
    let labels = get_all_component_types();
    let wanted = String::from_str(component_type);
    let mut i: usize = 0;
    while i < labels.len()
        invariant
            i <= labels@.len(),
            labels@.len() == component_labels().len(),
            forall|j: int| 0 <= j < labels@.len() ==> #[trigger] labels@[j]@ == component_labels()[j],
            wanted@ == component_type@,
            forall|j: int| 0 <= j < i ==> component_labels()[j] != component_type@,
        decreases labels@.len() - i,
    {
        let candidate = String::from_str(labels[i]);
        if candidate == wanted {
            return true;
        }
        i = i + 1;
    }
    proof {
        if component_labels().contains(component_type@) {
            let k = choose|k: int| 0 <= k < component_labels().len() && component_labels()[k] == component_type@;
            assert(component_labels()[k] != component_type@);
        }
    }
    false
}

/// The "all" flag is the "any" flag, every bit set; the "none" flag has no
/// bit set.
pub proof fn lemma_address_flag_sentinels()
    ensures
        ADDRESS_ALL == ADDRESS_ANY,
        ADDRESS_ANY == u64::MAX,
        ADDRESS_NONE == 0,
{
}

} // verus!
