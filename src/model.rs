use vstd::prelude::*;
use crate::loader::MeshLayout;

verus! {

// GPU objects (buffers `B`, textures `T`, binding sets `G`) are created and used
// by the graphics device; the types here only carry them from where they are
// made to where they are drawn.

/// A named material: its texture and the binding set that exposes it at the
/// material slot.
pub struct Material<T, G> {
    pub name: String,
    pub texture: T,
    pub bind_group: G,
}

/// One sub-mesh: interleaved vertex data, 32-bit indices, how many indices to
/// draw, and which material of the owning model it uses.
pub struct Mesh<B> {
    pub name: String,
    pub vertex_buffer: B,
    pub index_buffer: B,
    pub num_elements: u32,
    pub material: usize,
}

/// A loaded model: its sub-meshes in file order and its materials.
pub struct Model<B, T, G> {
    pub mesh: Vec<Mesh<B>>,
    pub material: Vec<Material<T, G>>,
}

/// One placed copy of a model; the placement is already baked into the vertex data.
pub struct Instance<B, T, G> {
    pub model: Model<B, T, G>,
}

impl<B> Mesh<B> {
    /// A sub-mesh whose buffers were filled as `layout` describes.
    pub fn new(name: String, vertex_buffer: B, index_buffer: B, layout: &MeshLayout) -> (r: Mesh<B>)
        ensures
            r.name == name,
            r.vertex_buffer == vertex_buffer,
            r.index_buffer == index_buffer,
            r.num_elements == layout.index_count,
            r.material == layout.material,
    {
        Mesh { name, vertex_buffer, index_buffer, num_elements: layout.index_count, material: layout.material }
    }
}

impl<B, T, G> Model<B, T, G> {
    pub fn new(mesh: Vec<Mesh<B>>, material: Vec<Material<T, G>>) -> (r: Model<B, T, G>)
        ensures
            r.mesh == mesh,
            r.material == material,
    {
        Model { mesh, material }
    }
}

impl<B, T, G> Instance<B, T, G> {
    pub fn new(model: Model<B, T, G>) -> (r: Instance<B, T, G>)
        ensures
            r.model == model,
    {
        Instance { model }
    }
}

} // verus!
