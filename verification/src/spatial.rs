//! Spatial rendering: textured meshes and the entity drawable.
//!
//! A mesh is a list of spatial vertices with UV coordinates; an entity
//! composes a spatial node, a mesh and an optional texture.  Loading an
//! entity uploads the mesh and either its texture or the placeholder.

use vstd::prelude::*;

use crate::engine::DrawTransforms;
use crate::engine::Drawable;
use crate::engine::FlatEngine;
use crate::engine::Renderer;
use crate::node::Node3D;
use crate::node::NodeObject3D;
use crate::render::TexDimensions;
use crate::render::Texture;
use crate::types::Mat4;
use crate::types::Vector2;
use crate::types::Vector3;

verus! {

/// A vertex of a textured mesh: spatial position plus UV coordinates.
#[derive(Clone, Copy, Debug, PartialEq, Eq, Structural)]
pub struct UvVertex3f {
    pub pos: Vector3,
    pub uv: Vector2,
}

/// Copies a vertex list into an owned vector.
fn copy_uv_vertices(data: &Vec<UvVertex3f>) -> (r: Vec<UvVertex3f>)
    ensures
        r@ == data@,
{
    let mut out: Vec<UvVertex3f> = Vec::new();
    let mut i: usize = 0;
    while i < data.len()
        invariant
            i <= data@.len(),
            out@ == data@.take(i as int),
        decreases data@.len() - i,
    {
        out.push(data[i]);
        proof {
            assert(data@.take(i + 1 as int) =~= data@.take(i as int).push(data@[i as int]));
        }
        i = i + 1;
    }
    proof {
        assert(data@.take(data@.len() as int) =~= data@);
    }
    out
}

/// The resource-binding renderer of one mesh drawable: the vertex and
/// texture data the GPU holds, and counters for the recorded commands.
#[derive(Clone, Debug)]
pub struct MeshRenderer {
    /// The vertex data the GPU currently holds.
    pub vertices: Vec<UvVertex3f>,
    /// The texture the GPU currently holds.
    pub texture: Texture,
    /// Vertex-buffer re-uploads since creation.
    pub vertex_uploads: u64,
    /// Texture re-uploads since creation.
    pub texture_uploads: u64,
    /// Draw calls issued since creation.
    pub draws: u64,
    /// The transforms of the most recent draw call.
    pub last_draw: Option<DrawTransforms>,
}

impl MeshRenderer {
    pub open spec fn wf(self) -> bool {
        self.texture.wf()
    }

    pub fn new(vertices: Vec<UvVertex3f>, texture: Texture) -> (r: MeshRenderer)
        ensures
            r.vertices@ == vertices@,
            r.texture == texture,
            r.vertex_uploads == 0,
            r.texture_uploads == 0,
            r.draws == 0,
            r.last_draw is None,
    {
        MeshRenderer {
            vertices,
            texture,
            vertex_uploads: 0,
            texture_uploads: 0,
            draws: 0,
            last_draw: None,
        }
    }

    /// Allocates the GPU objects for one mesh: uploads the initial vertex
    /// and texture data and records both uploads on the device.
    pub fn create(vertices: &Vec<UvVertex3f>, texture: &Texture, renderer: &mut Renderer) -> (r:
        MeshRenderer)
        requires
            old(renderer).counters_ok(),
        ensures
            r.vertices@ == vertices@,
            r.texture.data@ == texture.data@,
            r.texture.dimensions == texture.dimensions,
            r.vertex_uploads == 0,
            r.texture_uploads == 0,
            r.draws == 0,
            r.last_draw is None,
            *final(renderer) == old(renderer).spec_record_buffer_upload().spec_record_texture_upload(),
    {
        renderer.buffer_uploads = renderer.buffer_uploads + 1;
        renderer.texture_uploads = renderer.texture_uploads + 1;
        MeshRenderer::new(copy_uv_vertices(vertices), texture.duplicate())
    }

    /// Issues one draw call with the given transforms and flushes the
    /// command stream.
    pub fn render(&mut self, model_trans: Mat4, view_trans: Mat4, projection_trans: Mat4, engine: &mut FlatEngine)
        requires
            old(self).draws < u64::MAX,
            old(engine).renderer.draw_calls < u64::MAX,
            old(engine).renderer.flushes < u64::MAX,
        ensures
            final(self).vertices == old(self).vertices,
            final(self).texture == old(self).texture,
            final(self).vertex_uploads == old(self).vertex_uploads,
            final(self).texture_uploads == old(self).texture_uploads,
            final(self).draws == old(self).draws + 1,
            final(self).last_draw == Some(
                DrawTransforms {
                    model: model_trans,
                    view: view_trans,
                    projection: projection_trans,
                },
            ),
            *final(engine) == (FlatEngine {
                renderer: old(engine).renderer.spec_record_draw(),
                ..*old(engine)
            }),
    {
        self.draws = self.draws + 1;
        self.last_draw = Some(
            DrawTransforms { model: model_trans, view: view_trans, projection: projection_trans },
        );
        engine.renderer.draw_calls = engine.renderer.draw_calls + 1;
        engine.renderer.flushes = engine.renderer.flushes + 1;
    }

    /// Replaces the uploaded vertex data and records the upload.
    pub fn update_vertices(&mut self, vertices: &Vec<UvVertex3f>, renderer: &mut Renderer)
        requires
            old(self).vertex_uploads < u64::MAX,
            old(renderer).buffer_uploads < u64::MAX,
        ensures
            final(self).vertices@ == vertices@,
            final(self).texture == old(self).texture,
            final(self).vertex_uploads == old(self).vertex_uploads + 1,
            final(self).texture_uploads == old(self).texture_uploads,
            final(self).draws == old(self).draws,
            final(self).last_draw == old(self).last_draw,
            *final(renderer) == old(renderer).spec_record_buffer_upload(),
    {
        self.vertices = copy_uv_vertices(vertices);
        self.vertex_uploads = self.vertex_uploads + 1;
        renderer.buffer_uploads = renderer.buffer_uploads + 1;
    }

    /// Replaces the uploaded texture and records the upload.
    pub fn update_texture(&mut self, texture: &Texture, renderer: &mut Renderer)
        requires
            old(self).texture_uploads < u64::MAX,
            old(renderer).texture_uploads < u64::MAX,
        ensures
            final(self).vertices == old(self).vertices,
            final(self).texture.data@ == texture.data@,
            final(self).texture.dimensions == texture.dimensions,
            final(self).vertex_uploads == old(self).vertex_uploads,
            final(self).texture_uploads == old(self).texture_uploads + 1,
            final(self).draws == old(self).draws,
            final(self).last_draw == old(self).last_draw,
            *final(renderer) == old(renderer).spec_record_texture_upload(),
    {
        self.texture = texture.duplicate();
        self.texture_uploads = self.texture_uploads + 1;
        renderer.texture_uploads = renderer.texture_uploads + 1;
    }
}

/// A list of spatial vertices ready for upload.
#[derive(Clone, Debug)]
pub struct Mesh {
    pub vertices: Vec<UvVertex3f>,
}

impl Mesh {
    pub fn new() -> (r: Mesh)
        ensures
            r.vertices@.len() == 0,
    {
        Mesh { vertices: Vec::new() }
    }

    /// Builds a mesh from bare positions, with all UV coordinates zero.
    pub fn from_vertices(verts: Vec<Vector3>) -> (r: Mesh)
        ensures
            r.vertices@.len() == verts@.len(),
            forall|i: int|
                0 <= i < verts@.len() ==> r.vertices@[i] == (UvVertex3f {
                    pos: verts@[i],
                    uv: Vector2 {
                        x: crate::scalar::Scalar::spec_zero(),
                        y: crate::scalar::Scalar::spec_zero(),
                    },
                }),
    {
        let mut uvverts: Vec<UvVertex3f> = Vec::new();
        let mut i: usize = 0;
        while i < verts.len()
            invariant
                i <= verts@.len(),
                uvverts@.len() == i,
                forall|j: int|
                    0 <= j < i ==> uvverts@[j] == (UvVertex3f {
                        pos: verts@[j],
                        uv: Vector2 {
                            x: crate::scalar::Scalar::spec_zero(),
                            y: crate::scalar::Scalar::spec_zero(),
                        },
                    }),
            decreases verts@.len() - i,
        {
            uvverts.push(UvVertex3f { pos: verts[i], uv: Vector2::zero() });
            i = i + 1;
        }
        Mesh { vertices: uvverts }
    }
}

/// A drawable in space: a spatial node, a mesh and an optional texture.
#[derive(Clone, Debug)]
pub struct Entity {
    pub node: NodeObject3D,
    pub mesh: Mesh,
    pub texture: Option<Texture>,
    pub mesh_renderer: Option<MeshRenderer>,
}

impl Entity {
    pub open spec fn wf(self) -> bool {
        &&& self.node.wf()
        &&& match self.texture {
            Some(t) => t.wf(),
            None => true,
        }
        &&& match self.mesh_renderer {
            Some(r) => r.wf(),
            None => true,
        }
    }

    /// The texture an entity uploads: its own, or the placeholder pixel.
    pub open spec fn spec_upload_texture(self) -> (Seq<u8>, TexDimensions) {
        match self.texture {
            Some(t) => (t.data@, t.dimensions),
            None => (seq![0u8, 0u8, 0u8, 0u8], TexDimensions { x: 1, y: 1 }),
        }
    }

    pub fn new() -> (r: Entity)
        ensures
            r.node == (NodeObject3D { trans: Mat4::spec_identity() }),
            r.mesh.vertices@.len() == 0,
            r.texture is None,
            r.mesh_renderer is None,
            r.wf(),
    {
        Entity { node: NodeObject3D::new(), mesh: Mesh::new(), texture: None, mesh_renderer: None }
    }

    pub fn from_mesh(mesh: Mesh, texture: Option<Texture>) -> (r: Entity)
        ensures
            r.node == (NodeObject3D { trans: Mat4::spec_identity() }),
            r.mesh == mesh,
            r.texture == texture,
            r.mesh_renderer is None,
    {
        Entity { node: NodeObject3D::new(), mesh, texture, mesh_renderer: None }
    }
}

impl Node3D for Entity {
    open spec fn nview3(&self) -> NodeObject3D {
        self.node
    }

    open spec fn with_nview3(self, node: NodeObject3D) -> Entity {
        Entity { node, ..self }
    }

    fn get_node_obj(&self) -> (r: &NodeObject3D) {
        &self.node
    }

    fn get_node_obj_mut(&mut self) -> (r: &mut NodeObject3D) {
        &mut self.node
    }
}

impl Drawable for Entity {
    open spec fn loaded(&self) -> bool {
        self.mesh_renderer is Some
    }

    open spec fn load_req(&self, engine: &FlatEngine) -> bool {
        &&& self.wf()
        &&& engine.renderer.counters_ok()
    }

    open spec fn load_ens(&self, new_self: &Self, engine: &FlatEngine, new_engine: &FlatEngine) -> bool {
        &&& new_self.node == self.node
        &&& new_self.mesh == self.mesh
        &&& new_self.texture == self.texture
        &&& match new_self.mesh_renderer {
            Some(r) => {
                &&& r.vertices@ == self.mesh.vertices@
                &&& (r.texture.data@, r.texture.dimensions) == self.spec_upload_texture()
                &&& r.vertex_uploads == 0
                &&& r.texture_uploads == 0
                &&& r.draws == 0
                &&& r.last_draw is None
            },
            None => false,
        }
        &&& *new_engine == (FlatEngine {
            renderer: engine.renderer.spec_record_buffer_upload().spec_record_texture_upload(),
            ..*engine
        })
    }

    open spec fn render_req(&self, engine: &FlatEngine) -> bool {
        &&& engine.renderer.draw_calls < u64::MAX
        &&& engine.renderer.flushes < u64::MAX
        &&& match self.mesh_renderer {
            Some(r) => r.draws < u64::MAX,
            None => true,
        }
    }

    open spec fn render_ens(&self, new_self: &Self, engine: &FlatEngine, new_engine: &FlatEngine) -> bool {
        &&& new_self.node == self.node
        &&& new_self.mesh == self.mesh
        &&& new_self.texture == self.texture
        &&& match (self.mesh_renderer, new_self.mesh_renderer) {
            (Some(r0), Some(r1)) => {
                &&& r1.vertices == r0.vertices
                &&& r1.texture == r0.texture
                &&& r1.vertex_uploads == r0.vertex_uploads
                &&& r1.texture_uploads == r0.texture_uploads
                &&& r1.draws == r0.draws + 1
                &&& r1.last_draw == Some(
                    DrawTransforms {
                        model: self.node.trans,
                        view: engine.renderer.camera.view,
                        projection: engine.renderer.camera.projection,
                    },
                )
            },
            _ => false,
        }
        &&& *new_engine == (FlatEngine {
            renderer: engine.renderer.spec_record_draw(),
            ..*engine
        })
    }

    open spec fn destroy_ens(&self, new_self: &Self, engine: &FlatEngine, new_engine: &FlatEngine) -> bool {
        &&& *new_self == (Entity { mesh_renderer: None, ..*self })
        &&& *new_engine == *engine
    }

    /// Uploads the mesh with its texture, or with the placeholder pixel
    /// when the entity has none.
    fn load(&mut self, engine: &mut FlatEngine) {
        let created: MeshRenderer = match &self.texture {
            Some(t) => MeshRenderer::create(&self.mesh.vertices, t, &mut engine.renderer),
            None => {
                let placeholder: Texture = Texture::new();
                MeshRenderer::create(&self.mesh.vertices, &placeholder, &mut engine.renderer)
            },
        };
        self.mesh_renderer = Some(created);
    }

    /// Draws the mesh with the node transform under the engine's camera.
    fn render(&mut self, engine: &mut FlatEngine) {
        let model: Mat4 = self.node.get_trans();
        let view: Mat4 = engine.renderer.camera.view;
        let projection: Mat4 = engine.renderer.camera.projection;
        match &mut self.mesh_renderer {
            Some(r) => r.render(model, view, projection, engine),
            None => {},
        }
    }

    /// Releases the GPU objects.
    fn destroy(&mut self, engine: &mut FlatEngine) {
        self.mesh_renderer = None;
    }
}

} // verus!
