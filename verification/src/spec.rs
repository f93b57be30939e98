//! The schema compiler's core: validates the raw input model into a typed
//! `Spec` (fail-fast, no partial results) and projects a validated `Spec`
//! into the output descriptor. The component mapping is kept as an
//! association list in sorted key order; that order assigns the stable,
//! zero-based component indices the code generator depends on.

use vstd::prelude::*;

verus! {

use vstd::string::StringExecFns;
use crate::strutil::{keys_sorted, key_present, contains_key, lex_lt};
use crate::names::{normalized_name, name_from_field_name};
use crate::tokens::{
    StorageType,
    AggregateType,
    spec_storage_from_token,
    spec_aggregate_from_token,
    spec_storage_token,
    spec_storage_tokens,
    spec_aggregate_tokens,
    valid_storage_type_strings,
    valid_aggregate_type_strings,
};
use crate::input::{InputComponent, InputSpatialHashField, InputSpec};
use crate::error::Error;
use crate::output;

/// A validated component: optional payload type (a data component if
/// present, a tag component if not), display name, and optional storage
/// strategy.
#[derive(Clone, Debug)]
pub struct Component {
    pub typ: Option<String>,
    pub name: String,
    pub storage_type: Option<StorageType>,
}

/// The validated component set: the entity-id bit width and the components,
/// keyed and iterated in sorted key order.
#[derive(Clone, Debug)]
pub struct ComponentSpec {
    pub id_width: usize,
    pub components: Vec<(String, Component)>,
}

/// A validated spatial-hash field: optional aggregate strategy and the key
/// of the component it reads, which exists in the enclosing component set.
#[derive(Clone, Debug)]
pub struct SpatialHashField {
    pub aggregate_type: Option<AggregateType>,
    pub component_field: String,
}

/// The validated spatial-hash configuration: the key of the component
/// designated as the spatial key, and the aggregated fields in sorted key
/// order.
#[derive(Clone, Debug)]
pub struct SpatialHashSpec {
    pub position_component: String,
    pub fields: Vec<(String, SpatialHashField)>,
}

/// A fully validated schema: present spatial-hash configuration if and only
/// if a spatial-hash key was declared.
#[derive(Clone, Debug)]
pub struct Spec {
    pub components: ComponentSpec,
    pub spatial_hash: Option<SpatialHashSpec>,
}

/// The raw component's storage token, if any, resolves.
pub open spec fn storage_ok(c: InputComponent) -> bool {
    match c.storage {
        Some(s) => spec_storage_from_token(s@) is Some,
        None => true,
    }
}

/// The raw field's aggregate token, if any, resolves.
pub open spec fn aggregate_ok(f: InputSpatialHashField) -> bool {
    match f.aggregate {
        Some(a) => spec_aggregate_from_token(a@) is Some,
        None => true,
    }
}

/// Every raw component entry resolves its storage token.
pub open spec fn components_ok(cs: Seq<(String, InputComponent)>) -> bool {
    forall|i: int| 0 <= i < cs.len() ==> storage_ok((#[trigger] cs[i]).1)
}

/// A raw spatial-hash field is valid against the raw component entries: its
/// aggregate token resolves and it references a declared component.
pub open spec fn field_ok(f: InputSpatialHashField, cs: Seq<(String, InputComponent)>) -> bool {
    aggregate_ok(f) && key_present(f.component@, cs)
}

/// Every raw spatial-hash field entry is valid.
pub open spec fn fields_ok(
    fs: Seq<(String, InputSpatialHashField)>,
    cs: Seq<(String, InputComponent)>,
) -> bool {
    forall|i: int| 0 <= i < fs.len() ==> field_ok((#[trigger] fs[i]).1, cs)
}

/// The spatial-hash key, if declared, names a declared component; if not
/// declared, no spatial-hash fields are declared either.
pub open spec fn spatial_key_ok(s: InputSpec) -> bool {
    match s.spatial_hash_key {
        Some(k) => key_present(k@, s.components@),
        None => s.spatial_hash@.len() == 0,
    }
}

/// The id width is one of the supported widths.
pub open spec fn id_width_ok(w: usize) -> bool {
    w == 8 || w == 16 || w == 32 || w == 64
}

/// The raw schema passes every semantic check: compilation succeeds exactly
/// on such inputs.
pub open spec fn input_ok(s: InputSpec) -> bool {
    &&& components_ok(s.components@)
    &&& fields_ok(s.spatial_hash@, s.components@)
    &&& spatial_key_ok(s)
    &&& id_width_ok(s.id_width)
}

/// A compiled component agrees with its raw entry: the resolved storage
/// strategy, the overridden or normalized name, and the payload type copied
/// verbatim.
pub open spec fn component_matches(key: Seq<char>, cin: InputComponent, c: Component) -> bool {
    &&& match cin.storage {
        Some(s) => c.storage_type == spec_storage_from_token(s@),
        None => c.storage_type is None,
    }
    &&& c.name@ == match cin.name_override {
        Some(n) => n@,
        None => normalized_name(key),
    }
    &&& c.typ == cin.typ
}

/// A compiled spatial-hash field agrees with its raw entry.
pub open spec fn shf_matches(fin: InputSpatialHashField, shf: SpatialHashField) -> bool {
    &&& match fin.aggregate {
        Some(a) => shf.aggregate_type == spec_aggregate_from_token(a@),
        None => shf.aggregate_type is None,
    }
    &&& shf.component_field == fin.component
}

/// The compiled component list mirrors the raw entries: same keys in the
/// same order, each component compiled from its entry.
pub open spec fn compiled_components_match(
    cs: Seq<(String, InputComponent)>,
    out: Seq<(String, Component)>,
) -> bool {
    &&& out.len() == cs.len()
    &&& forall|i: int|
        0 <= i < cs.len() ==> (#[trigger] out[i]).0 == cs[i].0 && component_matches(
            cs[i].0@,
            cs[i].1,
            out[i].1,
        )
}

/// The compiled spatial-hash field list mirrors the raw entries.
pub open spec fn compiled_fields_match(
    fs: Seq<(String, InputSpatialHashField)>,
    out: Seq<(String, SpatialHashField)>,
) -> bool {
    &&& out.len() == fs.len()
    &&& forall|i: int|
        0 <= i < fs.len() ==> (#[trigger] out[i]).0 == fs[i].0 && shf_matches(fs[i].1, out[i].1)
}

/// A compiled `Spec` agrees with the raw schema it was compiled from; the
/// spatial-hash configuration is present exactly when a key was declared.
pub open spec fn spec_matches(s: InputSpec, sp: Spec) -> bool {
    &&& sp.components.id_width == s.id_width
    &&& compiled_components_match(s.components@, sp.components.components@)
    &&& match s.spatial_hash_key {
        Some(k) => (sp.spatial_hash matches Some(sh) && sh.position_component == k
            && compiled_fields_match(s.spatial_hash@, sh.fields@)),
        None => sp.spatial_hash is None,
    }
}

/// The first invalid spatial-hash field entry fails on its aggregate token.
pub open spec fn first_bad_is_aggregate(
    fs: Seq<(String, InputSpatialHashField)>,
    cs: Seq<(String, InputComponent)>,
) -> bool {
    exists|j: int|
        0 <= j < fs.len() && !aggregate_ok((#[trigger] fs[j]).1) && (forall|k: int|
            0 <= k < j ==> field_ok((#[trigger] fs[k]).1, cs))
}

/// The first invalid spatial-hash field entry resolves its aggregate token
/// but references the undeclared component `key`.
pub open spec fn first_bad_is_missing(
    fs: Seq<(String, InputSpatialHashField)>,
    cs: Seq<(String, InputComponent)>,
    key: Seq<char>,
) -> bool {
    exists|j: int|
        0 <= j < fs.len() && aggregate_ok((#[trigger] fs[j]).1) && !key_present(
            fs[j].1.component@,
            cs,
        ) && key == fs[j].1.component@ && (forall|k: int|
            0 <= k < j ==> field_ok((#[trigger] fs[k]).1, cs))
}

/// Which error compilation reports for an invalid raw schema, following the
/// fail-fast order: components first, then spatial-hash fields (aggregate
/// token before component existence), then the spatial-hash key, then the id
/// width.
pub open spec fn error_matches(s: InputSpec, e: Error) -> bool {
    if !components_ok(s.components@) {
        (e matches Error::InvalidStorageType(v) && v.deep_view() == spec_storage_tokens())
    } else if !fields_ok(s.spatial_hash@, s.components@) {
        ||| (e matches Error::InvalidAggregateType(v) && v.deep_view() == spec_aggregate_tokens()
            && first_bad_is_aggregate(s.spatial_hash@, s.components@))
        ||| (e matches Error::NoSuchComponent(k) && first_bad_is_missing(
            s.spatial_hash@,
            s.components@,
            k@,
        ))
    } else if !spatial_key_ok(s) {
        match s.spatial_hash_key {
            Some(sk) => (e matches Error::NoSuchComponent(k) && k@ == sk@),
            None => e is MissingSpatialHashKey,
        }
    } else {
        (e matches Error::InvalidIdWidth(v) && v@ == seq![8usize, 16usize, 32usize, 64usize]
            && !id_width_ok(s.id_width))
    }
}

/// The generated type's name for a storage strategy: the keyed-map family
/// for a data component (payload type present), the set family for a tag
/// component.
pub open spec fn spec_rust_type(st: StorageType, has_payload: bool) -> Seq<char> {
    match st {
        StorageType::Vector => if has_payload {
            "EntityVecMap"@
        } else {
            "EntityVecSet"@
        },
        StorageType::Hash => if has_payload {
            "EntityHashMap"@
        } else {
            "EntityHashSet"@
        },
        StorageType::BTree => if has_payload {
            "EntityBTreeMap"@
        } else {
            "EntityBTreeSet"@
        },
    }
}

/// The entity-id type name for a supported id width.
pub open spec fn spec_id_type(w: usize) -> Seq<char> {
    if w == 8 {
        "u8"@
    } else if w == 16 {
        "u16"@
    } else if w == 32 {
        "u32"@
    } else if w == 64 {
        "u64"@
    } else {
        Seq::empty()
    }
}

/// A projected component agrees with its compiled component, key and index:
/// payload type and name copied, the key and index as assigned, and a
/// storage descriptor exactly when a storage strategy was chosen.
pub open spec fn output_component_matches(
    c: Component,
    key: Seq<char>,
    index: int,
    oc: output::Component,
) -> bool {
    &&& oc.typ == c.typ
    &&& oc.name == c.name
    &&& oc.key@ == key
    &&& oc.index == index
    &&& match c.storage_type {
        Some(st) => (oc.storage matches Some(info) && info.typ@ == spec_storage_token(st)
            && info.rust_type@ == spec_rust_type(st, c.typ is Some)),
        None => oc.storage is None,
    }
}

/// The projected descriptor agrees with the validated `Spec`: one entry per
/// component in the same (sorted) order, indices equal to iteration
/// position, and the id type derived from the id width.
pub open spec fn output_matches(s: Spec, o: output::Spec) -> bool {
    &&& o.num_component_types == s.components.components@.len()
    &&& o.id_type@ == spec_id_type(s.components.id_width)
    &&& o.components@.len() == s.components.components@.len()
    &&& forall|i: int|
        0 <= i < o.components@.len() ==> (#[trigger] o.components@[i]).0
            == s.components.components@[i].0 && output_component_matches(
            s.components.components@[i].1,
            s.components.components@[i].0@,
            i,
            o.components@[i].1,
        )
}

/// Two projected entries agree in everything observable.
pub open spec fn output_entry_obs_eq(
    a: (String, output::Component),
    b: (String, output::Component),
) -> bool {
    &&& a.0@ == b.0@
    &&& a.1.typ == b.1.typ
    &&& a.1.name == b.1.name
    &&& a.1.key@ == b.1.key@
    &&& a.1.index == b.1.index
    &&& match (a.1.storage, b.1.storage) {
        (Some(x), Some(y)) => x.typ@ == y.typ@ && x.rust_type@ == y.rust_type@,
        (None, None) => true,
        _ => false,
    }
}

/// Law: the indices a projection assigns are exactly the contiguous range
/// from zero to the component count, in ascending sorted-key order.
pub proof fn lemma_output_indices(s: Spec, o: output::Spec)
    requires
        s.wf(),
        output_matches(s, o),
    ensures
        o.num_component_types == o.components@.len(),
        forall|i: int| 0 <= i < o.components@.len() ==> (#[trigger] o.components@[i]).1.index == i,
        forall|i: int, j: int|
            0 <= i < j < o.components@.len() ==> lex_lt(
                (#[trigger] o.components@[i]).0@,
                (#[trigger] o.components@[j]).0@,
            ),
{
    assert forall|i: int, j: int| 0 <= i < j < o.components@.len() implies lex_lt(
        (#[trigger] o.components@[i]).0@,
        (#[trigger] o.components@[j]).0@,
    ) by {
        assert(o.components@[i].0 == s.components.components@[i].0);
        assert(o.components@[j].0 == s.components.components@[j].0);
        assert(lex_lt(s.components.components@[i].0@, s.components.components@[j].0@));
    }
}

/// Law: projection is deterministic — any two descriptors projected from
/// the same `Spec` agree in everything observable.
pub proof fn lemma_output_deterministic(s: Spec, o1: output::Spec, o2: output::Spec)
    requires
        output_matches(s, o1),
        output_matches(s, o2),
    ensures
        o1.num_component_types == o2.num_component_types,
        o1.id_type@ == o2.id_type@,
        o1.components@.len() == o2.components@.len(),
        forall|i: int|
            0 <= i < o1.components@.len() ==> output_entry_obs_eq(
                (#[trigger] o1.components@[i]),
                o2.components@[i],
            ),
{
    assert forall|i: int| 0 <= i < o1.components@.len() implies output_entry_obs_eq(
        (#[trigger] o1.components@[i]),
        o2.components@[i],
    ) by {
        assert(o1.components@[i].0 == s.components.components@[i].0);
        assert(o2.components@[i].0 == s.components.components@[i].0);
        assert(output_component_matches(
            s.components.components@[i].1,
            s.components.components@[i].0@,
            i,
            o1.components@[i].1,
        ));
        assert(output_component_matches(
            s.components.components@[i].1,
            s.components.components@[i].0@,
            i,
            o2.components@[i].1,
        ));
    }
}

/// Two compiled component entries agree in everything observable.
pub open spec fn component_entry_obs_eq(a: (String, Component), b: (String, Component)) -> bool {
    &&& a.0 == b.0
    &&& a.1.name@ == b.1.name@
    &&& a.1.typ == b.1.typ
    &&& a.1.storage_type == b.1.storage_type
}

/// Two compiled spatial-hash configurations agree in everything observable.
pub open spec fn spatial_hash_obs_eq(
    a: Option<SpatialHashSpec>,
    b: Option<SpatialHashSpec>,
) -> bool {
    match (a, b) {
        (Some(x), Some(y)) => x.position_component == y.position_component && x.fields@
            == y.fields@,
        (None, None) => true,
        _ => false,
    }
}

/// Law: compilation is deterministic — any two `Spec`s compiled from the
/// same raw schema agree in everything observable.
pub proof fn lemma_compile_deterministic(s: InputSpec, sp1: Spec, sp2: Spec)
    requires
        spec_matches(s, sp1),
        spec_matches(s, sp2),
    ensures
        sp1.components.id_width == sp2.components.id_width,
        sp1.components.components@.len() == sp2.components.components@.len(),
        forall|i: int|
            0 <= i < sp1.components.components@.len() ==> component_entry_obs_eq(
                (#[trigger] sp1.components.components@[i]),
                sp2.components.components@[i],
            ),
        spatial_hash_obs_eq(sp1.spatial_hash, sp2.spatial_hash),
{
    assert forall|i: int| 0 <= i < sp1.components.components@.len() implies component_entry_obs_eq(
        (#[trigger] sp1.components.components@[i]),
        sp2.components.components@[i],
    ) by {
        assert(component_matches(
            s.components@[i].0@,
            s.components@[i].1,
            sp1.components.components@[i].1,
        ));
        assert(component_matches(
            s.components@[i].0@,
            s.components@[i].1,
            sp2.components.components@[i].1,
        ));
    }
    match (sp1.spatial_hash, sp2.spatial_hash) {
        (Some(x), Some(y)) => {
            assert(x.fields@ =~= y.fields@) by {
                assert forall|i: int| 0 <= i < x.fields@.len() implies (#[trigger] x.fields@[i])
                    == y.fields@[i] by {
                    assert(shf_matches(s.spatial_hash@[i].1, x.fields@[i].1));
                    assert(shf_matches(s.spatial_hash@[i].1, y.fields@[i].1));
                    assert(x.fields@[i].0 == s.spatial_hash@[i].0);
                    assert(y.fields@[i].0 == s.spatial_hash@[i].0);
                }
            }
        },
        _ => {},
    }
}

/// Key presence does not depend on the values of an association list, only
/// on its keys.
proof fn lemma_key_present_transfer<A, B>(a: Seq<(String, A)>, b: Seq<(String, B)>, key: Seq<char>)
    requires
        b.len() == a.len(),
        forall|i: int| 0 <= i < a.len() ==> (#[trigger] b[i]).0 == a[i].0,
    ensures
        key_present(key, a) <==> key_present(key, b),
{
    if key_present(key, a) {
        let i = choose|i: int| 0 <= i < a.len() && (#[trigger] a[i]).0@ == key;
        assert((b[i]).0@ == key);
    }
    if key_present(key, b) {
        let i = choose|i: int| 0 <= i < b.len() && (#[trigger] b[i]).0@ == key;
        assert((a[i]).0@ == key);
    }
}

impl Component {
    /// Compiles one raw component entry: resolves the storage token if
    /// present, takes the explicit name override or the normalized field
    /// key as the name, and copies the payload type verbatim.
    pub fn from_input(field_name: &str, c: &InputComponent) -> (r: Result<Component, Error>)
        ensures
            r is Ok <==> storage_ok(*c),
            (r matches Ok(comp) ==> component_matches(field_name@, *c, comp)),
            (r matches Err(e) ==> (e matches Error::InvalidStorageType(v) && v.deep_view()
                == spec_storage_tokens())),
    {
        let storage_type = match &c.storage {
            Some(s) => {
                match StorageType::from_str(s.as_str()) {
                    Some(st) => Some(st),
                    None => {
                        return Err(Error::InvalidStorageType(valid_storage_type_strings()));
                    },
                }
            },
            None => None,
        };
        let name = match &c.name_override {
            Some(n) => n.clone(),
            None => name_from_field_name(field_name),
        };
        let typ = match &c.typ {
            Some(t) => Some(t.clone()),
            None => None,
        };
        Ok(Component { typ, name, storage_type })
    }

    /// Projects this component to its output descriptor under the given key
    /// and assigned index. A storage descriptor is derived only if a storage
    /// strategy was chosen; it selects the keyed-map generated-type family
    /// for a data component and the set family for a tag component.
    pub fn to_output(&self, key: &String, index: usize) -> (r: output::Component)
        ensures
            output_component_matches(*self, key@, index as int, r),
    {
        let storage = match &self.storage_type {
            Some(st) => {
                let rust_type = if self.typ.is_some() {
                    match st {
                        StorageType::Vector => "EntityVecMap",
                        StorageType::Hash => "EntityHashMap",
                        StorageType::BTree => "EntityBTreeMap",
                    }
                } else {
                    match st {
                        StorageType::Vector => "EntityVecSet",
                        StorageType::Hash => "EntityHashSet",
                        StorageType::BTree => "EntityBTreeSet",
                    }
                };
                Some(
                    output::StorageInfo {
                        typ: String::from_str(st.to_str()),
                        rust_type: String::from_str(rust_type),
                    },
                )
            },
            None => None,
        };
        let typ = match &self.typ {
            Some(t) => Some(t.clone()),
            None => None,
        };
        output::Component { typ, name: self.name.clone(), storage, key: key.clone(), index }
    }
}

impl SpatialHashField {
    /// Compiles one raw spatial-hash field entry against the compiled
    /// component set: resolves the aggregate token first, then checks that
    /// the referenced component exists.
    pub fn from_input(f: &InputSpatialHashField, components: &Vec<(String, Component)>) -> (r:
        Result<SpatialHashField, Error>)
        ensures
            r is Ok <==> (aggregate_ok(*f) && key_present(f.component@, components@)),
            (r matches Ok(shf) ==> shf_matches(*f, shf)),
            (r matches Err(e) ==> (if !aggregate_ok(*f) {
                e matches Error::InvalidAggregateType(v) && v.deep_view()
                    == spec_aggregate_tokens()
            } else {
                e matches Error::NoSuchComponent(k) && k == f.component
            })),
    {
        let aggregate_type = match &f.aggregate {
            Some(a) => {
                match AggregateType::from_str(a.as_str()) {
                    Some(at) => Some(at),
                    None => {
                        return Err(Error::InvalidAggregateType(valid_aggregate_type_strings()));
                    },
                }
            },
            None => None,
        };
        if !contains_key(components, f.component.as_str()) {
            return Err(Error::NoSuchComponent(f.component.clone()));
        }
        Ok(SpatialHashField { aggregate_type, component_field: f.component.clone() })
    }
}

impl Spec {
    /// A compiled `Spec` is well formed: component keys strictly ascending,
    /// a supported id width, and a spatial-hash configuration (if present)
    /// whose field keys are strictly ascending and whose references all name
    /// declared components.
    pub open spec fn wf(self) -> bool {
        &&& keys_sorted(self.components.components@)
        &&& id_width_ok(self.components.id_width)
        &&& match self.spatial_hash {
            Some(sh) => {
                &&& keys_sorted(sh.fields@)
                &&& key_present(sh.position_component@, self.components.components@)
                &&& forall|i: int|
                    0 <= i < sh.fields@.len() ==> key_present(
                        (#[trigger] sh.fields@[i]).1.component_field@,
                        self.components.components@,
                    )
            },
            None => true,
        }
    }

    /// Compiles the raw schema into a validated `Spec`, fail-fast: the first
    /// failing check aborts compilation and returns only its error.
    pub fn from_input(spec_in: &InputSpec) -> (r: Result<Spec, Error>)
        requires
            keys_sorted(spec_in.components@),
            keys_sorted(spec_in.spatial_hash@),
        ensures
            r is Ok <==> input_ok(*spec_in),
            (r matches Ok(sp) ==> spec_matches(*spec_in, sp) && sp.wf()),
            (r matches Err(e) ==> error_matches(*spec_in, e)),
    {
        let mut components: Vec<(String, Component)> = Vec::new();
        let mut i: usize = 0;
        while i < spec_in.components.len()
            invariant
                0 <= i <= spec_in.components@.len(),
                components@.len() == i,
                forall|j: int|
                    0 <= j < i ==> (#[trigger] components@[j]).0 == spec_in.components@[j].0
                        && component_matches(
                        spec_in.components@[j].0@,
                        spec_in.components@[j].1,
                        components@[j].1,
                    ),
                forall|j: int| 0 <= j < i ==> storage_ok((#[trigger] spec_in.components@[j]).1),
            decreases spec_in.components@.len() - i,
        {
            let pair = &spec_in.components[i];
            match Component::from_input(pair.0.as_str(), &pair.1) {
                Ok(c) => {
                    components.push((pair.0.clone(), c));
                },
                Err(e) => {
                    proof {
                        assert(!storage_ok(spec_in.components@[i as int].1));
                    }
                    return Err(e);
                },
            }
            i += 1;
        }
        assert(compiled_components_match(spec_in.components@, components@));

        let mut fields: Vec<(String, SpatialHashField)> = Vec::new();
        let mut i: usize = 0;
        while i < spec_in.spatial_hash.len()
            invariant
                compiled_components_match(spec_in.components@, components@),
                components_ok(spec_in.components@),
                0 <= i <= spec_in.spatial_hash@.len(),
                fields@.len() == i,
                forall|j: int|
                    0 <= j < i ==> (#[trigger] fields@[j]).0 == spec_in.spatial_hash@[j].0
                        && shf_matches(spec_in.spatial_hash@[j].1, fields@[j].1),
                forall|j: int|
                    0 <= j < i ==> field_ok(
                        (#[trigger] spec_in.spatial_hash@[j]).1,
                        spec_in.components@,
                    ),
            decreases spec_in.spatial_hash@.len() - i,
        {
            let pair = &spec_in.spatial_hash[i];
            proof {
                lemma_key_present_transfer(
                    spec_in.components@,
                    components@,
                    spec_in.spatial_hash@[i as int].1.component@,
                );
            }
            match SpatialHashField::from_input(&pair.1, &components) {
                Ok(shf) => {
                    fields.push((pair.0.clone(), shf));
                },
                Err(e) => {
                    proof {
                        let fs = spec_in.spatial_hash@;
                        let cs = spec_in.components@;
                        assert(!field_ok(fs[i as int].1, cs));
                        assert(!fields_ok(fs, cs));
                        if !aggregate_ok(fs[i as int].1) {
                            assert(first_bad_is_aggregate(fs, cs));
                        } else {
                            assert(first_bad_is_missing(fs, cs, fs[i as int].1.component@));
                        }
                    }
                    return Err(e);
                },
            }
            i += 1;
        }
        assert(fields_ok(spec_in.spatial_hash@, spec_in.components@));
        assert(compiled_fields_match(spec_in.spatial_hash@, fields@));

        let spatial_hash = match &spec_in.spatial_hash_key {
            Some(shk) => {
                proof {
                    lemma_key_present_transfer(spec_in.components@, components@, shk@);
                }
                if !contains_key(&components, shk.as_str()) {
                    return Err(Error::NoSuchComponent(shk.clone()));
                }
                Some(SpatialHashSpec { position_component: shk.clone(), fields })
            },
            None => {
                if fields.len() > 0 {
                    return Err(Error::MissingSpatialHashKey);
                }
                None
            },
        };
        assert(spatial_key_ok(*spec_in));

        let id_width = spec_in.id_width;
        if !(id_width == 8 || id_width == 16 || id_width == 32 || id_width == 64) {
            let mut v: Vec<usize> = Vec::new();
            v.push(8);
            v.push(16);
            v.push(32);
            v.push(64);
            proof {
                assert(v@ =~= seq![8usize, 16usize, 32usize, 64usize]);
            }
            return Err(Error::InvalidIdWidth(v));
        }

        let sp = Spec { components: ComponentSpec { id_width, components }, spatial_hash };
        proof {
            let cs = spec_in.components@;
            let out = sp.components.components@;
            assert forall|a: int, b: int| 0 <= a < b < out.len() implies lex_lt(
                (#[trigger] out[a]).0@,
                (#[trigger] out[b]).0@,
            ) by {
                assert(out[a].0 == cs[a].0);
                assert(out[b].0 == cs[b].0);
                assert(lex_lt(cs[a].0@, cs[b].0@));
            }
            match &sp.spatial_hash {
                Some(sh) => {
                    let fs = spec_in.spatial_hash@;
                    assert forall|a: int, b: int| 0 <= a < b < sh.fields@.len() implies lex_lt(
                        (#[trigger] sh.fields@[a]).0@,
                        (#[trigger] sh.fields@[b]).0@,
                    ) by {
                        assert(sh.fields@[a].0 == fs[a].0);
                        assert(sh.fields@[b].0 == fs[b].0);
                        assert(lex_lt(fs[a].0@, fs[b].0@));
                    }
                    assert forall|j: int| 0 <= j < sh.fields@.len() implies key_present(
                        (#[trigger] sh.fields@[j]).1.component_field@,
                        out,
                    ) by {
                        assert(shf_matches(fs[j].1, sh.fields@[j].1));
                        assert(field_ok(fs[j].1, cs));
                        lemma_key_present_transfer(cs, out, fs[j].1.component@);
                    }
                    match &spec_in.spatial_hash_key {
                        Some(k) => {
                            lemma_key_present_transfer(cs, out, k@);
                        },
                        None => {},
                    }
                },
                None => {},
            }
        }
        Ok(sp)
    }

    /// Projects a validated `Spec` into the output descriptor, total by
    /// construction: components are iterated in their sorted key order and
    /// each is assigned its iteration position as index; the id type is the
    /// numeric-width identifier derived from the id width.
    pub fn to_output(&self) -> (r: output::Spec)
        requires
            self.wf(),
        ensures
            output_matches(*self, r),
    {
        let n = self.components.components.len();
        let mut out: Vec<(String, output::Component)> = Vec::new();
        let mut i: usize = 0;
        while i < n
            invariant
                n == self.components.components@.len(),
                0 <= i <= n,
                out@.len() == i,
                forall|j: int|
                    0 <= j < i ==> (#[trigger] out@[j]).0 == self.components.components@[j].0
                        && output_component_matches(
                        self.components.components@[j].1,
                        self.components.components@[j].0@,
                        j,
                        out@[j].1,
                    ),
            decreases n - i,
        {
            let pair = &self.components.components[i];
            let oc = pair.1.to_output(&pair.0, i);
            out.push((pair.0.clone(), oc));
            i += 1;
        }
        let w = self.components.id_width;
        let id_type = if w == 8 {
            "u8"
        } else if w == 16 {
            "u16"
        } else if w == 32 {
            "u32"
        } else {
            "u64"
        };
        output::Spec {
            num_component_types: n,
            components: out,
            id_type: String::from_str(id_type),
        }
    }
}

} // verus!
