//! Raw schema model, as handed in by the external deserialization layer.
//! The compiler treats it as structurally well-formed and performs only
//! semantic validation. Mappings arrive as association lists iterated in
//! sorted key order.

use vstd::prelude::*;

verus! {

/// One raw component entry: an optional payload type (opaque at this layer),
/// an optional explicit display-name override, and an optional storage token.
#[derive(Clone, Debug)]
pub struct InputComponent {
    pub typ: Option<String>,
    pub name_override: Option<String>,
    pub storage: Option<String>,
}

/// One raw spatial-hash field entry: the key of the component it reads and
/// an optional aggregate token.
#[derive(Clone, Debug)]
pub struct InputSpatialHashField {
    pub component: String,
    pub aggregate: Option<String>,
}

/// The whole raw schema: the id width, the component entries, the
/// spatial-hash field entries, and the optional spatial-hash key.
#[derive(Clone, Debug)]
pub struct InputSpec {
    pub id_width: usize,
    pub components: Vec<(String, InputComponent)>,
    pub spatial_hash: Vec<(String, InputSpatialHashField)>,
    pub spatial_hash_key: Option<String>,
}

} // verus!
