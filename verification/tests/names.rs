use entity_store_spec::names::{capitalise_first_letter, name_from_field_name};
use entity_store_spec::tokens::{
    valid_aggregate_type_strings, valid_storage_type_strings, AggregateType, StorageType,
};

#[test]
fn capitalise_first_letter_basic() {
    assert_eq!(capitalise_first_letter("hello"), "Hello");
    assert_eq!(capitalise_first_letter("a"), "A");
    assert_eq!(capitalise_first_letter(""), "");
    assert_eq!(capitalise_first_letter("already"), "Already");
}

#[test]
fn name_from_field_name_underscore_case() {
    assert_eq!(name_from_field_name("foo_bar"), "FooBar");
    assert_eq!(name_from_field_name("under_score"), "UnderScore");
    assert_eq!(name_from_field_name("a"), "A");
    assert_eq!(name_from_field_name(""), "");
    assert_eq!(name_from_field_name("position"), "Position");
}

#[test]
fn name_from_field_name_empty_segments_skipped() {
    assert_eq!(name_from_field_name("double__underscore"), "DoubleUnderscore");
    assert_eq!(name_from_field_name("_leading"), "Leading");
    assert_eq!(name_from_field_name("trailing_"), "Trailing");
    assert_eq!(name_from_field_name("_"), "");
}

#[test]
fn storage_token_resolution() {
    assert_eq!(StorageType::from_str("vector"), Some(StorageType::Vector));
    assert_eq!(StorageType::from_str("hash"), Some(StorageType::Hash));
    assert_eq!(StorageType::from_str("btree"), Some(StorageType::BTree));
    assert_eq!(StorageType::from_str("linked_list"), None);
    assert_eq!(StorageType::from_str(""), None);
}

#[test]
fn storage_token_round_trip() {
    for token in ["vector", "hash", "btree"] {
        let st = StorageType::from_str(token).unwrap();
        assert_eq!(st.to_str(), token);
    }
}

#[test]
fn aggregate_token_resolution() {
    assert_eq!(AggregateType::from_str("total"), Some(AggregateType::Total));
    assert_eq!(AggregateType::from_str("count"), Some(AggregateType::Count));
    assert_eq!(AggregateType::from_str("max"), Some(AggregateType::Max));
    assert_eq!(AggregateType::from_str("mean"), None);
}

#[test]
fn aggregate_token_round_trip() {
    for token in ["total", "count", "max"] {
        let at = AggregateType::from_str(token).unwrap();
        assert_eq!(at.to_str(), token);
    }
}

#[test]
fn valid_token_lists_complete_and_ordered() {
    assert_eq!(valid_storage_type_strings(), vec!["vector", "hash", "btree"]);
    assert_eq!(valid_aggregate_type_strings(), vec!["total", "count", "max"]);
}
