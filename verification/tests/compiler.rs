use entity_store_spec::error::Error;
use entity_store_spec::input::{InputComponent, InputSpatialHashField, InputSpec};
use entity_store_spec::spec::Spec;
use entity_store_spec::tokens::AggregateType;

fn comp(typ: Option<&str>, name_override: Option<&str>, storage: Option<&str>) -> InputComponent {
    InputComponent {
        typ: typ.map(|s| s.to_string()),
        name_override: name_override.map(|s| s.to_string()),
        storage: storage.map(|s| s.to_string()),
    }
}

fn field(component: &str, aggregate: Option<&str>) -> InputSpatialHashField {
    InputSpatialHashField {
        component: component.to_string(),
        aggregate: aggregate.map(|s| s.to_string()),
    }
}

fn raw(
    id_width: usize,
    components: Vec<(&str, InputComponent)>,
    spatial_hash: Vec<(&str, InputSpatialHashField)>,
    spatial_hash_key: Option<&str>,
) -> InputSpec {
    InputSpec {
        id_width,
        components: components.into_iter().map(|(k, v)| (k.to_string(), v)).collect(),
        spatial_hash: spatial_hash.into_iter().map(|(k, v)| (k.to_string(), v)).collect(),
        spatial_hash_key: spatial_hash_key.map(|s| s.to_string()),
    }
}

fn storage_tokens() -> Vec<String> {
    vec!["vector".to_string(), "hash".to_string(), "btree".to_string()]
}

fn aggregate_tokens() -> Vec<String> {
    vec!["total".to_string(), "count".to_string(), "max".to_string()]
}

#[test]
fn supported_id_widths_give_id_type() {
    for (w, id_type) in [(8, "u8"), (16, "u16"), (32, "u32"), (64, "u64")] {
        let spec_in = raw(w, vec![("position", comp(Some("Coord"), None, None))], vec![], None);
        let spec = Spec::from_input(&spec_in).unwrap();
        let out = spec.to_output();
        assert_eq!(out.id_type, id_type);
    }
}

#[test]
fn unsupported_id_width_rejected() {
    for w in [0, 7, 12, 128] {
        let spec_in = raw(w, vec![("position", comp(Some("Coord"), None, None))], vec![], None);
        let err = Spec::from_input(&spec_in).unwrap_err();
        assert_eq!(err, Error::InvalidIdWidth(vec![8, 16, 32, 64]));
    }
}

#[test]
fn round_trip_single_component() {
    let spec_in = raw(8, vec![("position", comp(Some("Coord"), None, None))], vec![], None);
    let spec = Spec::from_input(&spec_in).unwrap();
    assert!(spec.spatial_hash.is_none());
    assert_eq!(spec.components.id_width, 8);
    assert_eq!(spec.components.components.len(), 1);
    assert_eq!(spec.components.components[0].0, "position");
    assert_eq!(spec.components.components[0].1.name, "Position");

    let out = spec.to_output();
    assert_eq!(out.num_component_types, 1);
    assert_eq!(out.id_type, "u8");
    assert_eq!(out.components.len(), 1);
    let (key, oc) = &out.components[0];
    assert_eq!(key, "position");
    assert_eq!(oc.key, "position");
    assert_eq!(oc.index, 0);
    assert_eq!(oc.name, "Position");
    assert_eq!(oc.typ.as_deref(), Some("Coord"));
    assert!(oc.storage.is_none());
}

#[test]
fn name_override_used_verbatim() {
    let spec_in = raw(8, vec![("position", comp(None, Some("Pos"), None))], vec![], None);
    let spec = Spec::from_input(&spec_in).unwrap();
    assert_eq!(spec.components.components[0].1.name, "Pos");
}

#[test]
fn storage_projects_map_family_for_data_component() {
    let spec_in = raw(8, vec![("position", comp(Some("Coord"), None, Some("vector")))], vec![], None);
    let out = Spec::from_input(&spec_in).unwrap().to_output();
    let info = out.components[0].1.storage.as_ref().unwrap();
    assert_eq!(info.typ, "vector");
    assert_eq!(info.rust_type, "EntityVecMap");
}

#[test]
fn storage_projects_set_family_for_tag_component() {
    let spec_in = raw(8, vec![("solid", comp(None, None, Some("vector")))], vec![], None);
    let out = Spec::from_input(&spec_in).unwrap().to_output();
    let info = out.components[0].1.storage.as_ref().unwrap();
    assert_eq!(info.typ, "vector");
    assert_eq!(info.rust_type, "EntityVecSet");
}

#[test]
fn all_storage_families() {
    for (token, map_name, set_name) in [
        ("vector", "EntityVecMap", "EntityVecSet"),
        ("hash", "EntityHashMap", "EntityHashSet"),
        ("btree", "EntityBTreeMap", "EntityBTreeSet"),
    ] {
        let spec_in = raw(
            8,
            vec![
                ("data", comp(Some("u32"), None, Some(token))),
                ("tag", comp(None, None, Some(token))),
            ],
            vec![],
            None,
        );
        let out = Spec::from_input(&spec_in).unwrap().to_output();
        assert_eq!(out.components[0].1.storage.as_ref().unwrap().rust_type, map_name);
        assert_eq!(out.components[1].1.storage.as_ref().unwrap().rust_type, set_name);
    }
}

#[test]
fn unknown_storage_token_rejected_with_valid_tokens() {
    // The failure carries the complete valid-token list, unaffected by any
    // other field's validity (here the id width is also bad).
    let spec_in = raw(
        12,
        vec![("position", comp(Some("Coord"), None, Some("linked_list")))],
        vec![],
        None,
    );
    let err = Spec::from_input(&spec_in).unwrap_err();
    assert_eq!(err, Error::InvalidStorageType(storage_tokens()));
}

#[test]
fn unknown_aggregate_token_rejected_with_valid_tokens() {
    let spec_in = raw(
        8,
        vec![("position", comp(Some("Coord"), None, None))],
        vec![("density", field("position", Some("mean")))],
        Some("position"),
    );
    let err = Spec::from_input(&spec_in).unwrap_err();
    assert_eq!(err, Error::InvalidAggregateType(aggregate_tokens()));
}

#[test]
fn spatial_field_referencing_undeclared_component() {
    let spec_in = raw(
        8,
        vec![("position", comp(Some("Coord"), None, None))],
        vec![("density", field("missing", None))],
        Some("position"),
    );
    let err = Spec::from_input(&spec_in).unwrap_err();
    assert_eq!(err, Error::NoSuchComponent("missing".to_string()));
}

#[test]
fn spatial_fields_without_key_rejected() {
    let spec_in = raw(
        8,
        vec![("position", comp(Some("Coord"), None, None))],
        vec![("density", field("position", None))],
        None,
    );
    let err = Spec::from_input(&spec_in).unwrap_err();
    assert_eq!(err, Error::MissingSpatialHashKey);
}

#[test]
fn spatial_key_not_a_component_rejected() {
    let spec_in = raw(
        8,
        vec![("position", comp(Some("Coord"), None, None))],
        vec![],
        Some("nope"),
    );
    let err = Spec::from_input(&spec_in).unwrap_err();
    assert_eq!(err, Error::NoSuchComponent("nope".to_string()));
}

#[test]
fn no_key_and_no_fields_gives_no_spatial_hash() {
    let spec_in = raw(16, vec![("position", comp(Some("Coord"), None, None))], vec![], None);
    let spec = Spec::from_input(&spec_in).unwrap();
    assert!(spec.spatial_hash.is_none());
}

#[test]
fn spatial_hash_compiled_when_key_declared() {
    let spec_in = raw(
        8,
        vec![
            ("heat", comp(Some("u32"), None, None)),
            ("position", comp(Some("Coord"), None, None)),
        ],
        vec![("heat_total", field("heat", Some("total")))],
        Some("position"),
    );
    let spec = Spec::from_input(&spec_in).unwrap();
    let sh = spec.spatial_hash.as_ref().unwrap();
    assert_eq!(sh.position_component, "position");
    assert_eq!(sh.fields.len(), 1);
    assert_eq!(sh.fields[0].0, "heat_total");
    assert_eq!(sh.fields[0].1.component_field, "heat");
    assert_eq!(sh.fields[0].1.aggregate_type, Some(AggregateType::Total));
}

#[test]
fn indices_contiguous_in_sorted_key_order_and_stable() {
    let spec_in = raw(
        32,
        vec![
            ("alpha", comp(Some("u8"), None, None)),
            ("beta", comp(None, None, None)),
            ("gamma", comp(Some("u16"), None, Some("hash"))),
        ],
        vec![],
        None,
    );
    let spec = Spec::from_input(&spec_in).unwrap();
    let out1 = spec.to_output();
    let out2 = spec.to_output();
    assert_eq!(out1.num_component_types, 3);
    for (i, (key, oc)) in out1.components.iter().enumerate() {
        assert_eq!(oc.index, i);
        assert_eq!(&oc.key, key);
    }
    assert_eq!(
        out1.components.iter().map(|(k, _)| k.as_str()).collect::<Vec<_>>(),
        vec!["alpha", "beta", "gamma"],
    );
    // Re-running the projector reproduces the same indices and keys.
    assert_eq!(out2.components.len(), out1.components.len());
    for ((k1, c1), (k2, c2)) in out1.components.iter().zip(out2.components.iter()) {
        assert_eq!(k1, k2);
        assert_eq!(c1.index, c2.index);
        assert_eq!(c1.name, c2.name);
        assert_eq!(c1.typ, c2.typ);
    }
}

#[test]
fn component_error_takes_precedence_over_later_checks() {
    // Fail-fast: the storage error of a component is reported even though
    // the spatial-hash section and the id width are also invalid.
    let spec_in = raw(
        5,
        vec![("position", comp(Some("Coord"), None, Some("bogus")))],
        vec![("density", field("missing", Some("mean")))],
        None,
    );
    let err = Spec::from_input(&spec_in).unwrap_err();
    assert_eq!(err, Error::InvalidStorageType(storage_tokens()));
}

#[test]
fn aggregate_checked_before_component_existence() {
    // Within one spatial-hash field the aggregate token is validated before
    // the component-existence check.
    let spec_in = raw(
        8,
        vec![("position", comp(Some("Coord"), None, None))],
        vec![("density", field("missing", Some("mean")))],
        Some("position"),
    );
    let err = Spec::from_input(&spec_in).unwrap_err();
    assert_eq!(err, Error::InvalidAggregateType(aggregate_tokens()));
}

#[test]
fn spatial_key_without_fields_gives_empty_field_set() {
    let spec_in = raw(
        8,
        vec![("position", comp(Some("Coord"), None, None))],
        vec![],
        Some("position"),
    );
    let spec = Spec::from_input(&spec_in).unwrap();
    let sh = spec.spatial_hash.as_ref().unwrap();
    assert_eq!(sh.position_component, "position");
    assert!(sh.fields.is_empty());
}

#[test]
fn compilation_is_deterministic() {
    let spec_in = raw(
        16,
        vec![
            ("heat", comp(Some("u32"), None, Some("btree"))),
            ("position", comp(Some("Coord"), None, None)),
        ],
        vec![("heat_total", field("heat", Some("total")))],
        Some("position"),
    );
    let sp1 = Spec::from_input(&spec_in).unwrap();
    let sp2 = Spec::from_input(&spec_in).unwrap();
    assert_eq!(sp1.components.id_width, sp2.components.id_width);
    assert_eq!(sp1.components.components.len(), sp2.components.components.len());
    for ((k1, c1), (k2, c2)) in sp1
        .components
        .components
        .iter()
        .zip(sp2.components.components.iter())
    {
        assert_eq!(k1, k2);
        assert_eq!(c1.name, c2.name);
        assert_eq!(c1.typ, c2.typ);
        assert_eq!(c1.storage_type, c2.storage_type);
    }
    let sh1 = sp1.spatial_hash.as_ref().unwrap();
    let sh2 = sp2.spatial_hash.as_ref().unwrap();
    assert_eq!(sh1.position_component, sh2.position_component);
    assert_eq!(sh1.fields.len(), sh2.fields.len());
    for ((k1, f1), (k2, f2)) in sh1.fields.iter().zip(sh2.fields.iter()) {
        assert_eq!(k1, k2);
        assert_eq!(f1.component_field, f2.component_field);
        assert_eq!(f1.aggregate_type, f2.aggregate_type);
    }
}

#[test]
fn empty_schema_compiles() {
    let spec_in = raw(64, vec![], vec![], None);
    let spec = Spec::from_input(&spec_in).unwrap();
    assert!(spec.spatial_hash.is_none());
    let out = spec.to_output();
    assert_eq!(out.num_component_types, 0);
    assert_eq!(out.id_type, "u64");
    assert!(out.components.is_empty());
}
