//! Output descriptor: the sole contract with the downstream code generator.
//! It is complete enough that the generator needs no further access to the
//! raw schema.

use vstd::prelude::*;

verus! {

/// The storage descriptor of a component that chose a storage strategy: the
/// strategy's token and the generated type's name (a keyed-map family for
/// data components, a set family for tag components).
#[derive(Clone, Debug)]
pub struct StorageInfo {
    pub typ: String,
    pub rust_type: String,
}

/// One projected component: its payload type, display name, optional storage
/// descriptor, schema key, and assigned index.
#[derive(Clone, Debug)]
pub struct Component {
    pub typ: Option<String>,
    pub name: String,
    pub storage: Option<StorageInfo>,
    pub key: String,
    pub index: usize,
}

/// The projected schema: the component count, the components keyed and in
/// sorted key order, and the entity-id type name.
#[derive(Clone, Debug)]
pub struct Spec {
    pub num_component_types: usize,
    pub components: Vec<(String, Component)>,
    pub id_type: String,
}

} // verus!
