//! The engine context: camera, command-stream bookkeeping and the
//! drawable lifecycle.
//!
//! The engine owns the camera (an orthographic projection over the window
//! plus a view transform) and a model of the GPU command stream: counters
//! for draw calls, flushes and buffer uploads, and the last requested
//! clear colour.  The host application mirrors this state onto the real
//! device and window, which live outside the library.

use vstd::prelude::*;

use crate::node::SizedNode2D;
use crate::scalar::Scalar;
use crate::types::Color;
use crate::types::Mat4;
use crate::types::Translatable;
use crate::types::Vector2;
use crate::types::Vector3;
use crate::types::Vector4;

verus! {

/// The three transforms a draw call binds into its constant buffer.
#[derive(Clone, Copy, Debug, PartialEq, Eq, Structural)]
pub struct DrawTransforms {
    pub model: Mat4,
    pub view: Mat4,
    pub projection: Mat4,
}

/// View and projection transforms shared by every draw call.
#[derive(Clone, Copy, Debug, PartialEq, Eq, Structural)]
pub struct Camera {
    pub projection: Mat4,
    pub view: Mat4,
}

impl Camera {
    pub open spec fn wf(self) -> bool {
        self.projection.wf() && self.view.wf()
    }

    /// The scale cells `2 / extent` of the projection are representable.
    pub open spec fn ortho_ok(size: Vector2) -> bool {
        &&& (Scalar { num: 2, den: 1 }).div_ok(size.x)
        &&& (Scalar { num: 2, den: 1 }).div_ok(size.y)
    }

    /// The orthographic projection over `[0, w] x [0, h]` with the near
    /// plane at 100 and the far plane at -100: the diagonal carries
    /// `2/w`, `2/h` and `-2/(far - near) = 1/100`, and the last column
    /// maps the lower-left corner to clip-space `(-1, -1)`.
    pub open spec fn spec_ortho_projection(size: Vector2) -> Mat4 {
        Mat4 {
            x: Vector4 {
                x: (Scalar { num: 2, den: 1 }).spec_div(size.x),
                y: Scalar::spec_zero(),
                z: Scalar::spec_zero(),
                w: Scalar::spec_zero(),
            },
            y: Vector4 {
                x: Scalar::spec_zero(),
                y: (Scalar { num: 2, den: 1 }).spec_div(size.y),
                z: Scalar::spec_zero(),
                w: Scalar::spec_zero(),
            },
            z: Vector4 {
                x: Scalar::spec_zero(),
                y: Scalar::spec_zero(),
                z: Scalar { num: 1, den: 100 },
                w: Scalar::spec_zero(),
            },
            w: Vector4 {
                x: Scalar { num: -1 as i64, den: 1 },
                y: Scalar { num: -1 as i64, den: 1 },
                z: Scalar::spec_zero(),
                w: Scalar::spec_one(),
            },
        }
    }

    /// An orthographic camera over a window of the given extent, with the
    /// identity view.
    pub fn ortho(size: Vector2) -> (r: Camera)
        requires
            size.wf(),
            size.x.num != 0,
            size.y.num != 0,
            Self::ortho_ok(size),
        ensures
            r.projection == Self::spec_ortho_projection(size),
            r.view == Mat4::spec_identity(),
    {
        let two: Scalar = Scalar::from_int(2);
        let sx: Scalar = two.div(size.x);
        let sy: Scalar = two.div(size.y);
        Camera {
            projection: Mat4 {
                x: Vector4 { x: sx, y: Scalar::zero(), z: Scalar::zero(), w: Scalar::zero() },
                y: Vector4 { x: Scalar::zero(), y: sy, z: Scalar::zero(), w: Scalar::zero() },
                z: Vector4 {
                    x: Scalar::zero(),
                    y: Scalar::zero(),
                    z: Scalar { num: 1, den: 100 },
                    w: Scalar::zero(),
                },
                w: Vector4 {
                    x: Scalar { num: -1, den: 1 },
                    y: Scalar { num: -1, den: 1 },
                    z: Scalar::zero(),
                    w: Scalar::one(),
                },
            },
            view: Mat4::identity(),
        }
    }

    /// Places the camera by storing the negated position in the view
    /// transform's translation column.
    pub fn set_pos(&mut self, pos: Vector3)
        requires
            pos.wf(),
            pos.x.neg_ok(),
            pos.y.neg_ok(),
            pos.z.neg_ok(),
        ensures
            final(self).view == old(self).view.spec_with_translation(
                Vector3 { x: pos.x.spec_neg(), y: pos.y.spec_neg(), z: pos.z.spec_neg() },
            ),
            final(self).projection == old(self).projection,
    {
        self.view.w.x = pos.x.neg();
        self.view.w.y = pos.y.neg();
        self.view.w.z = pos.z.neg();
    }

    /// The camera position: the negation of the view translation.
    pub fn get_pos(&self) -> (r: Vector3)
        requires
            self.view.w.x.wf(),
            self.view.w.y.wf(),
            self.view.w.z.wf(),
            self.view.w.x.neg_ok(),
            self.view.w.y.neg_ok(),
            self.view.w.z.neg_ok(),
        ensures
            r == (Vector3 {
                x: self.view.w.x.spec_neg(),
                y: self.view.w.y.spec_neg(),
                z: self.view.w.z.spec_neg(),
            }),
    {
        Vector3 { x: self.view.w.x.neg(), y: self.view.w.y.neg(), z: self.view.w.z.neg() }
    }
}

/// The engine's model of the GPU device and command stream: the camera
/// plus counters for the commands the host must mirror onto the device.
#[derive(Clone, Debug)]
pub struct Renderer {
    pub camera: Camera,
    /// Draw commands recorded since startup.
    pub draw_calls: u64,
    /// Command-stream flushes since startup.
    pub flushes: u64,
    /// Vertex or constant buffer uploads since startup.
    pub buffer_uploads: u64,
    /// Texture uploads since startup.
    pub texture_uploads: u64,
    /// The colour of the most recent clear request, if any.
    pub last_clear: Option<Color>,
}

impl Renderer {
    pub open spec fn wf(self) -> bool {
        self.camera.wf()
    }

    /// The renderer after recording one draw command and its flush.
    pub open spec fn spec_record_draw(self) -> Renderer {
        Renderer { draw_calls: (self.draw_calls + 1) as u64, flushes: (self.flushes + 1) as u64, ..self }
    }

    /// The renderer after one more vertex-buffer upload.
    pub open spec fn spec_record_buffer_upload(self) -> Renderer {
        Renderer { buffer_uploads: (self.buffer_uploads + 1) as u64, ..self }
    }

    /// The renderer after one more texture upload.
    pub open spec fn spec_record_texture_upload(self) -> Renderer {
        Renderer { texture_uploads: (self.texture_uploads + 1) as u64, ..self }
    }

    /// Room to record one more of every command kind.
    pub open spec fn counters_ok(self) -> bool {
        &&& self.draw_calls < u64::MAX
        &&& self.flushes < u64::MAX
        &&& self.buffer_uploads < u64::MAX
        &&& self.texture_uploads < u64::MAX
    }
}

/// The engine: the renderer model plus the window dimensions the host
/// reported last, and the frame counter advanced by buffer swaps.
#[derive(Clone, Debug)]
pub struct FlatEngine {
    pub renderer: Renderer,
    pub dimensions: Vector2,
    pub frames: u64,
}

impl FlatEngine {
    pub open spec fn wf(self) -> bool {
        self.renderer.wf() && self.dimensions.wf()
    }

    /// Starts an engine for a window of the given dimensions: orthographic
    /// camera, no commands recorded yet.
    pub fn init(dimensions: Vector2) -> (r: FlatEngine)
        requires
            dimensions.wf(),
            dimensions.x.num != 0,
            dimensions.y.num != 0,
            Camera::ortho_ok(dimensions),
        ensures
            r.renderer.camera.projection == Camera::spec_ortho_projection(dimensions),
            r.renderer.camera.view == Mat4::spec_identity(),
            r.renderer.draw_calls == 0,
            r.renderer.flushes == 0,
            r.renderer.buffer_uploads == 0,
            r.renderer.texture_uploads == 0,
            r.renderer.last_clear is None,
            r.dimensions == dimensions,
            r.frames == 0,
    {
        FlatEngine {
            renderer: Renderer {
                camera: Camera::ortho(dimensions),
                draw_calls: 0,
                flushes: 0,
                buffer_uploads: 0,
                texture_uploads: 0,
                last_clear: None,
            },
            dimensions,
            frames: 0,
        }
    }

    /// Requests a clear of the frame buffer with the given colour.
    pub fn clear(&mut self, color: Color)
        ensures
            final(self).renderer == (Renderer { last_clear: Some(color), ..old(self).renderer }),
            final(self).dimensions == old(self).dimensions,
            final(self).frames == old(self).frames,
    {
        self.renderer.last_clear = Some(color);
    }

    /// Finishes a frame; the host swaps the window's buffers.
    pub fn swap_buffers(&mut self)
        requires
            old(self).frames < u64::MAX,
        ensures
            *final(self) == (FlatEngine { frames: (old(self).frames + 1) as u64, ..*old(self) }),
    {
        self.frames = self.frames + 1;
    }

    /// Flushes the recorded command stream to the device.
    pub fn flush(&mut self)
        requires
            old(self).renderer.flushes < u64::MAX,
        ensures
            *final(self) == (FlatEngine {
                renderer: Renderer {
                    flushes: (old(self).renderer.flushes + 1) as u64,
                    ..old(self).renderer
                },
                ..*old(self)
            }),
    {
        self.renderer.flushes = self.renderer.flushes + 1;
    }

    /// Takes a window resize: stores the new dimensions and regenerates
    /// the orthographic projection over them; the view is kept.
    pub fn update_size(&mut self, dimensions: Vector2)
        requires
            dimensions.wf(),
            dimensions.x.num != 0,
            dimensions.y.num != 0,
            Camera::ortho_ok(dimensions),
        ensures
            *final(self) == (FlatEngine {
                renderer: Renderer {
                    camera: Camera {
                        projection: Camera::spec_ortho_projection(dimensions),
                        view: old(self).renderer.camera.view,
                    },
                    ..old(self).renderer
                },
                dimensions,
                frames: old(self).frames,
            }),
    {
        self.dimensions = dimensions;
        let fresh: Camera = Camera::ortho(dimensions);
        self.renderer.camera.projection = fresh.projection;
    }

    pub fn get_dimensions(&self) -> (r: Vector2)
        ensures
            r == self.dimensions,
    {
        self.dimensions
    }

    /// Scales a normalized extent by the window dimensions.
    pub fn scale(&self, scale: Vector2) -> (r: Vector2)
        requires
            self.dimensions.wf(),
            scale.wf(),
            self.dimensions.x.mul_ok(scale.x),
            self.dimensions.y.mul_ok(scale.y),
        ensures
            r == (Vector2 {
                x: self.dimensions.x.spec_mul(scale.x),
                y: self.dimensions.y.spec_mul(scale.y),
            }),
    {
        let d: Vector2 = self.get_dimensions();
        Vector2 { x: d.x.mul(scale.x), y: d.y.mul(scale.y) }
    }
}

/// The displayed size of a sized node: intrinsic size times scale.
pub open spec fn spec_node_size(fixed: Vector2, scale: Vector2) -> Vector2 {
    Vector2 { x: fixed.x.spec_mul(scale.x), y: fixed.y.spec_mul(scale.y) }
}

/// Where `layout_sized_from_center` puts a node: the normalized position
/// scaled to the window, shifted left and down by half the node's size,
/// so the node's centre lands on the requested point.
pub open spec fn spec_centered_pos(
    dimensions: Vector2,
    normalized_pos: Vector2,
    fixed: Vector2,
    scale: Vector2,
) -> Vector2 {
    Vector2 {
        x: dimensions.x.spec_mul(normalized_pos.x).spec_sub(
            spec_node_size(fixed, scale).x.spec_div(Scalar { num: 2, den: 1 }),
        ),
        y: dimensions.y.spec_mul(normalized_pos.y).spec_sub(
            spec_node_size(fixed, scale).y.spec_div(Scalar { num: 2, den: 1 }),
        ),
    }
}

/// All intermediate values of the centred layout are representable.
pub open spec fn centered_layout_ok(
    dimensions: Vector2,
    normalized_pos: Vector2,
    fixed: Vector2,
    scale: Vector2,
) -> bool {
    &&& dimensions.x.mul_ok(normalized_pos.x)
    &&& dimensions.y.mul_ok(normalized_pos.y)
    &&& fixed.x.mul_ok(scale.x)
    &&& fixed.y.mul_ok(scale.y)
    &&& spec_node_size(fixed, scale).x.div_ok(Scalar { num: 2, den: 1 })
    &&& spec_node_size(fixed, scale).y.div_ok(Scalar { num: 2, den: 1 })
    &&& dimensions.x.spec_mul(normalized_pos.x).sub_ok(
        spec_node_size(fixed, scale).x.spec_div(Scalar { num: 2, den: 1 }),
    )
    &&& dimensions.y.spec_mul(normalized_pos.y).sub_ok(
        spec_node_size(fixed, scale).y.spec_div(Scalar { num: 2, den: 1 }),
    )
}

impl FlatEngine {
    /// Positions a sized node so its centre sits at the given normalized
    /// window position.
    pub fn layout_sized_from_center<N: SizedNode2D>(&self, node: &mut N, normalized_pos: Vector2)
        requires
            self.dimensions.wf(),
            normalized_pos.wf(),
            old(node).fixed_size_of().wf(),
            old(node).nview().spec_scale().wf(),
            centered_layout_ok(
                self.dimensions,
                normalized_pos,
                old(node).fixed_size_of(),
                old(node).nview().spec_scale(),
            ),
        ensures
            *final(node) == old(node).with_nview(
                old(node).nview().spec_set_pos(
                    spec_centered_pos(
                        self.dimensions,
                        normalized_pos,
                        old(node).fixed_size_of(),
                        old(node).nview().spec_scale(),
                    ),
                ),
            ),
    {
        let d: Vector2 = self.get_dimensions();
        let size: Vector2 = node.get_size();
        let two: Scalar = Scalar::from_int(2);
        let x: Scalar = d.x.mul(normalized_pos.x).sub(size.x.div(two));
        let y: Scalar = d.y.mul(normalized_pos.y).sub(size.y.div(two));
        node.set_pos(Vector2 { x, y });
    }
}

/// The lifecycle every visual entity implements.  A drawable starts
/// unloaded, acquires its GPU-side resources exactly once in `load`, may
/// then be rendered any number of times, and gives its resources back in
/// `destroy`.  Rendering an unloaded drawable is a host bug and is ruled
/// out by contract.
pub trait Drawable: Sized {
    /// Whether this drawable currently holds its GPU-side resources.
    spec fn loaded(&self) -> bool;

    /// What `load` asks of the drawable and engine states.
    spec fn load_req(&self, engine: &FlatEngine) -> bool;

    /// How `load` relates the old and new drawable and engine states.
    spec fn load_ens(&self, new_self: &Self, engine: &FlatEngine, new_engine: &FlatEngine) -> bool;

    /// What `render` asks of the drawable and engine states.
    spec fn render_req(&self, engine: &FlatEngine) -> bool;

    /// How `render` relates the old and new drawable and engine states.
    spec fn render_ens(&self, new_self: &Self, engine: &FlatEngine, new_engine: &FlatEngine) -> bool;

    /// How `destroy` relates the old and new drawable and engine states.
    spec fn destroy_ens(&self, new_self: &Self, engine: &FlatEngine, new_engine: &FlatEngine) -> bool;

    fn load(&mut self, engine: &mut FlatEngine)
        requires
            old(self).load_req(old(engine)),
        ensures
            final(self).loaded(),
            old(self).load_ens(final(self), old(engine), final(engine)),
    ;

    fn render(&mut self, engine: &mut FlatEngine)
        requires
            old(self).loaded(),
            old(self).render_req(old(engine)),
        ensures
            final(self).loaded(),
            old(self).render_ens(final(self), old(engine), final(engine)),
    ;

    fn destroy(&mut self, engine: &mut FlatEngine)
        ensures
            !final(self).loaded(),
            old(self).destroy_ens(final(self), old(engine), final(engine)),
    ;
}

impl FlatEngine {
    /// Loads a drawable: it allocates its GPU-side resources against this
    /// engine.
    pub fn load<D: Drawable>(&mut self, drawable: &mut D)
        requires
            old(drawable).load_req(old(self)),
        ensures
            final(drawable).loaded(),
            old(drawable).load_ens(final(drawable), old(self), final(self)),
    {
        drawable.load(self)
    }

    /// Renders a loaded drawable once.
    pub fn render<D: Drawable>(&mut self, drawable: &mut D)
        requires
            old(drawable).loaded(),
            old(drawable).render_req(old(self)),
        ensures
            final(drawable).loaded(),
            old(drawable).render_ens(final(drawable), old(self), final(self)),
    {
        drawable.render(self);
    }

    /// Destroys a drawable, releasing its GPU-side resources.
    pub fn destroy<D: Drawable>(&mut self, drawable: &mut D)
        ensures
            !final(drawable).loaded(),
            old(drawable).destroy_ens(final(drawable), old(self), final(self)),
    {
        drawable.destroy(self);
    }
}

} // verus!
