//! Flat coloured geometry: the geometry renderer and the triangle
//! drawable.
//!
//! A triangle's vertices are fixed at creation (a unit triangle centred
//! on the origin, coloured uniformly); its position and scale enter the
//! draw through the node transform, so rendering never re-uploads the
//! vertex buffer.

use vstd::prelude::*;

use crate::engine::DrawTransforms;
use crate::engine::Drawable;
use crate::engine::FlatEngine;
use crate::node::Node2D;
use crate::node::NodeObject2D;
use crate::scalar::Scalar;
use crate::types::Color;
use crate::types::Mat4;
use crate::types::Vector2;

verus! {

/// A vertex of flat geometry: plane position plus colour.
#[derive(Clone, Copy, Debug, PartialEq, Eq, Structural)]
pub struct Vertex {
    pub pos: Vector2,
    pub color: Color,
}

/// The resource-binding renderer of one flat-geometry drawable: the
/// vertex data the GPU holds, and counters for the recorded commands.
#[derive(Clone, Debug)]
pub struct GeometryRenderer {
    /// The vertex data the GPU currently holds.
    pub vertices: [Vertex; 3],
    /// Draw calls issued since creation.
    pub draws: u64,
    /// The transforms of the most recent draw call.
    pub last_draw: Option<DrawTransforms>,
}

impl GeometryRenderer {
    pub fn new(vertices: [Vertex; 3]) -> (r: GeometryRenderer)
        ensures
            r.vertices@ == vertices@,
            r.draws == 0,
            r.last_draw is None,
    {
        GeometryRenderer { vertices, draws: 0, last_draw: None }
    }

    /// Allocates the GPU objects for a fixed vertex list: uploads the
    /// vertex data and records that upload on the device.
    pub fn from_vertices(vertices: [Vertex; 3], engine: &mut FlatEngine) -> (r: GeometryRenderer)
        requires
            old(engine).renderer.buffer_uploads < u64::MAX,
        ensures
            r.vertices@ == vertices@,
            r.draws == 0,
            r.last_draw is None,
            *final(engine) == (FlatEngine {
                renderer: old(engine).renderer.spec_record_buffer_upload(),
                ..*old(engine)
            }),
    {
        engine.renderer.buffer_uploads = engine.renderer.buffer_uploads + 1;
        GeometryRenderer::new(vertices)
    }

    /// Issues one draw call with the given transforms and flushes the
    /// command stream.
    pub fn render(&mut self, model_trans: Mat4, view_trans: Mat4, projection_trans: Mat4, engine: &mut FlatEngine)
        requires
            old(self).draws < u64::MAX,
            old(engine).renderer.draw_calls < u64::MAX,
            old(engine).renderer.flushes < u64::MAX,
        ensures
            *final(self) == (GeometryRenderer {
                draws: (old(self).draws + 1) as u64,
                last_draw: Some(
                    DrawTransforms {
                        model: model_trans,
                        view: view_trans,
                        projection: projection_trans,
                    },
                ),
                ..*old(self)
            }),
            *final(engine) == (FlatEngine {
                renderer: old(engine).renderer.spec_record_draw(),
                ..*old(engine)
            }),
    {
        self.draws = self.draws + 1;
        self.last_draw = Some(
            DrawTransforms { model: model_trans, view: view_trans, projection: projection_trans },
        );
        engine.renderer.draw_calls = engine.renderer.draw_calls + 1;
        engine.renderer.flushes = engine.renderer.flushes + 1;
    }
}

/// The unit triangle's three vertices, coloured uniformly: corners at
/// `(-1/2, -1/2)`, `(1/2, -1/2)` and `(0, 1/2)`.
pub open spec fn spec_triangle_vertices(color: Color) -> Seq<Vertex> {
    seq![
        Vertex {
            pos: Vector2 {
                x: Scalar { num: -1 as i64, den: 2 },
                y: Scalar { num: -1 as i64, den: 2 },
            },
            color,
        },
        Vertex {
            pos: Vector2 { x: Scalar { num: 1, den: 2 }, y: Scalar { num: -1 as i64, den: 2 } },
            color,
        },
        Vertex {
            pos: Vector2 { x: Scalar { num: 0, den: 1 }, y: Scalar { num: 1, den: 2 } },
            color,
        },
    ]
}

/// A uniformly coloured unit triangle drawable.
#[derive(Clone, Debug)]
pub struct Triangle {
    pub node: NodeObject2D,
    pub vertices: [Vertex; 3],
    pub color: Color,
    pub geometry_renderer: Option<GeometryRenderer>,
}

impl Triangle {
    pub open spec fn wf(self) -> bool {
        self.node.wf()
    }

    pub fn new(color: Color) -> (r: Triangle)
        ensures
            r.node == (NodeObject2D { trans: Mat4::spec_identity(), values_changed: false }),
            r.vertices@ == spec_triangle_vertices(color),
            r.color == color,
            r.geometry_renderer is None,
            r.wf(),
    {
        let half: Scalar = Scalar { num: 1, den: 2 };
        let neg_half: Scalar = Scalar { num: -1, den: 2 };
        let r = Triangle {
            node: NodeObject2D::new(),
            vertices: [
                Vertex { pos: Vector2 { x: neg_half, y: neg_half }, color },
                Vertex { pos: Vector2 { x: half, y: neg_half }, color },
                Vertex { pos: Vector2 { x: Scalar::zero(), y: half }, color },
            ],
            color,
            geometry_renderer: None,
        };
        proof {
            assert(r.vertices@ =~= spec_triangle_vertices(color));
        }
        r
    }
}

impl Node2D for Triangle {
    open spec fn nview(&self) -> NodeObject2D {
        self.node
    }

    open spec fn with_nview(self, node: NodeObject2D) -> Triangle {
        Triangle { node, ..self }
    }

    fn get_node_obj(&self) -> (r: &NodeObject2D) {
        &self.node
    }

    fn get_node_obj_mut(&mut self) -> (r: &mut NodeObject2D) {
        &mut self.node
    }

    fn set_pos(&mut self, pos: Vector2) {
        self.node.set_pos(pos);
    }

    fn get_pos(&self) -> (r: Vector2) {
        self.node.get_pos()
    }

    fn set_scale(&mut self, scale: Vector2) {
        self.node.set_scale(scale);
    }

    fn get_scale(&self) -> (r: Vector2) {
        self.node.get_scale()
    }

    fn set_trans(&mut self, trans: Mat4) {
        self.node.set_trans(trans);
    }

    fn get_trans(&self) -> (r: Mat4) {
        self.node.get_trans()
    }
}

impl Drawable for Triangle {
    open spec fn loaded(&self) -> bool {
        self.geometry_renderer is Some
    }

    open spec fn load_req(&self, engine: &FlatEngine) -> bool {
        engine.renderer.buffer_uploads < u64::MAX
    }

    open spec fn load_ens(&self, new_self: &Self, engine: &FlatEngine, new_engine: &FlatEngine) -> bool {
        &&& new_self.node == self.node
        &&& new_self.vertices == self.vertices
        &&& new_self.color == self.color
        &&& match new_self.geometry_renderer {
            Some(r) => r.vertices@ == self.vertices@ && r.draws == 0 && r.last_draw is None,
            None => false,
        }
        &&& *new_engine == (FlatEngine {
            renderer: engine.renderer.spec_record_buffer_upload(),
            ..*engine
        })
    }

    open spec fn render_req(&self, engine: &FlatEngine) -> bool {
        &&& engine.renderer.draw_calls < u64::MAX
        &&& engine.renderer.flushes < u64::MAX
        &&& match self.geometry_renderer {
            Some(r) => r.draws < u64::MAX,
            None => true,
        }
    }

    open spec fn render_ens(&self, new_self: &Self, engine: &FlatEngine, new_engine: &FlatEngine) -> bool {
        &&& new_self.node == self.node
        &&& new_self.vertices == self.vertices
        &&& new_self.color == self.color
        &&& match (self.geometry_renderer, new_self.geometry_renderer) {
            (Some(r0), Some(r1)) => r1 == (GeometryRenderer {
                draws: (r0.draws + 1) as u64,
                last_draw: Some(
                    DrawTransforms {
                        model: self.node.trans,
                        view: engine.renderer.camera.view,
                        projection: engine.renderer.camera.projection,
                    },
                ),
                ..r0
            }),
            _ => false,
        }
        &&& *new_engine == (FlatEngine {
            renderer: engine.renderer.spec_record_draw(),
            ..*engine
        })
    }

    open spec fn destroy_ens(&self, new_self: &Self, engine: &FlatEngine, new_engine: &FlatEngine) -> bool {
        &&& *new_self == (Triangle { geometry_renderer: None, ..*self })
        &&& *new_engine == *engine
    }

    /// Allocates the GPU objects for the fixed triangle vertices.
    fn load(&mut self, engine: &mut FlatEngine) {
        let created: GeometryRenderer = GeometryRenderer::from_vertices(self.vertices, engine);
        self.geometry_renderer = Some(created);
    }

    /// Draws the triangle with the node transform under the engine's
    /// camera; the vertex data is fixed, so nothing is re-uploaded.
    fn render(&mut self, engine: &mut FlatEngine) {
        let model: Mat4 = self.node.get_trans();
        let view: Mat4 = engine.renderer.camera.view;
        let projection: Mat4 = engine.renderer.camera.projection;
        match &mut self.geometry_renderer {
            Some(r) => r.render(model, view, projection, engine),
            None => {},
        }
    }

    /// Releases the GPU objects.
    fn destroy(&mut self, engine: &mut FlatEngine) {
        self.geometry_renderer = None;
    }
}

} // verus!
