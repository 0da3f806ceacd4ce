//! Materials: what a mesh is drawn with.
use vstd::prelude::*;

verus! {

/// A named material. `texture` identifies the texture it samples; the pass
/// records it in each bind group it creates.
pub struct Material {
    pub name: String,
    pub texture: u64,
}

} // verus!
