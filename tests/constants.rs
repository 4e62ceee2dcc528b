use oxidize_postal::constants::{
    get_all_component_types, is_valid_component_type, ADDRESS_ALL, ADDRESS_ANY, ADDRESS_NONE,
    ADDRESS_PO_BOX, ADDRESS_STREET, NORMALIZE_DEFAULT_STRING_OPTIONS,
    NORMALIZE_DEFAULT_TOKEN_OPTIONS, NORMALIZE_STRING_LATIN_ASCII, NORMALIZE_STRING_LOWERCASE,
    NORMALIZE_STRING_TRIM, NORMALIZE_TOKEN_DELETE_ACRONYM_PERIODS,
    NORMALIZE_TOKEN_DELETE_FINAL_PERIOD,
};

#[test]
fn flag_sentinels() {
    assert_eq!(ADDRESS_ALL, ADDRESS_ANY);
    assert_eq!(ADDRESS_ANY, u64::MAX);
    assert_eq!(ADDRESS_NONE, 0);
    assert_eq!(ADDRESS_STREET, 1 << 2);
    assert_eq!(ADDRESS_PO_BOX, 1 << 11);
}

#[test]
fn default_normalization_options() {
    assert_eq!(
        NORMALIZE_DEFAULT_STRING_OPTIONS,
        NORMALIZE_STRING_LATIN_ASCII | NORMALIZE_STRING_LOWERCASE | NORMALIZE_STRING_TRIM
    );
    assert_eq!(NORMALIZE_DEFAULT_STRING_OPTIONS, 49);
    assert_eq!(
        NORMALIZE_DEFAULT_TOKEN_OPTIONS,
        NORMALIZE_TOKEN_DELETE_FINAL_PERIOD | NORMALIZE_TOKEN_DELETE_ACRONYM_PERIODS
    );
    assert_eq!(NORMALIZE_DEFAULT_TOKEN_OPTIONS, 12);
}

#[test]
fn all_component_types_in_order() {
    let all = get_all_component_types();
    assert_eq!(all.len(), 20);
    assert_eq!(all[0], "house_number");
    assert_eq!(all[1], "road");
    assert_eq!(all[7], "postcode");
    assert_eq!(all[15], "country");
    assert_eq!(all[19], "toponym");
}

#[test]
fn every_label_is_valid() {
    for label in get_all_component_types() {
        assert!(is_valid_component_type(label));
    }
}

#[test]
fn unknown_labels_are_invalid() {
    assert!(!is_valid_component_type("banana"));
    assert!(!is_valid_component_type(""));
    assert!(!is_valid_component_type("Road"));
    assert!(!is_valid_component_type("house"));
    assert!(!is_valid_component_type("road "));
}
