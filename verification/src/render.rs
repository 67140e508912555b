//! Textured rendering: UV vertices, quad layout, textures, the
//! resource-binding texture renderer and the sprite drawable.
//!
//! The texture renderer owns one drawable's GPU-side state: the vertex
//! data and texture currently uploaded, and counters for every upload and
//! draw it has recorded.  The sprite decides *when* those uploads happen:
//! geometry is re-uploaded only after its node reports a change, and the
//! texture only after it was swapped, so an unchanged sprite renders
//! without touching either resource.

use vstd::prelude::*;

use crate::engine::DrawTransforms;
use crate::engine::Drawable;
use crate::engine::FlatEngine;
use crate::engine::Renderer;
use crate::node::Node2D;
use crate::node::NodeObject2D;
use crate::node::SizedNode2D;
use crate::scalar::Scalar;
use crate::types::Rect;
use crate::types::Vector2;

verus! {

/// A vertex of a textured quad: plane position plus UV coordinates.
#[derive(Clone, Copy, Debug, PartialEq, Eq, Structural)]
pub struct UvVertex2f {
    pub pos: Vector2,
    pub uv: Vector2,
}

impl UvVertex2f {
    pub open spec fn spec_zero() -> UvVertex2f {
        UvVertex2f {
            pos: Vector2 { x: Scalar::spec_zero(), y: Scalar::spec_zero() },
            uv: Vector2 { x: Scalar::spec_zero(), y: Scalar::spec_zero() },
        }
    }

    pub fn zero() -> (r: UvVertex2f)
        ensures
            r == Self::spec_zero(),
    {
        UvVertex2f { pos: Vector2::zero(), uv: Vector2::zero() }
    }
}

/// The six vertices of the two-triangle quad covering `rect`.  UVs follow
/// the flipped-image convention: the texture's top row (`v = 0`) lands on
/// the quad's upper edge, so corners carry `(0,1) (1,1) (0,0)` for the
/// first triangle and `(1,0) (1,1) (0,0)` for the second.
pub open spec fn spec_quad(rect: Rect) -> Seq<UvVertex2f> {
    let right = rect.x.spec_add(rect.width);
    let top = rect.y.spec_add(rect.height);
    seq![
        UvVertex2f {
            pos: Vector2 { x: rect.x, y: rect.y },
            uv: Vector2 { x: Scalar::spec_zero(), y: Scalar::spec_one() },
        },
        UvVertex2f {
            pos: Vector2 { x: right, y: rect.y },
            uv: Vector2 { x: Scalar::spec_one(), y: Scalar::spec_one() },
        },
        UvVertex2f {
            pos: Vector2 { x: rect.x, y: top },
            uv: Vector2 { x: Scalar::spec_zero(), y: Scalar::spec_zero() },
        },
        UvVertex2f {
            pos: Vector2 { x: right, y: top },
            uv: Vector2 { x: Scalar::spec_one(), y: Scalar::spec_zero() },
        },
        UvVertex2f {
            pos: Vector2 { x: right, y: rect.y },
            uv: Vector2 { x: Scalar::spec_one(), y: Scalar::spec_one() },
        },
        UvVertex2f {
            pos: Vector2 { x: rect.x, y: top },
            uv: Vector2 { x: Scalar::spec_zero(), y: Scalar::spec_zero() },
        },
    ]
}

/// The vertex data of one textured quad.
#[derive(Clone, Copy, Debug)]
pub struct UvVertexArray {
    pub data: [UvVertex2f; 6],
}

impl UvVertexArray {
    pub fn zero() -> (r: UvVertexArray)
        ensures
            r.data@ == Seq::new(6, |i: int| UvVertex2f::spec_zero()),
    {
        let z: UvVertex2f = UvVertex2f::zero();
        let r = UvVertexArray { data: [z, z, z, z, z, z] };
        proof {
            assert(r.data@ =~= Seq::new(6, |i: int| UvVertex2f::spec_zero()));
        }
        r
    }

    /// Lays the rectangle out as two triangles with the fixed UV corners.
    pub fn from_rect(rect: &Rect) -> (r: UvVertexArray)
        requires
            rect.wf(),
            rect.edges_ok(),
        ensures
            r.data@ == spec_quad(*rect),
    {
        let right: Scalar = rect.x.add(rect.width);
        let top: Scalar = rect.y.add(rect.height);
        let r = UvVertexArray {
            data: [
                UvVertex2f {
                    pos: Vector2 { x: rect.x, y: rect.y },
                    uv: Vector2 { x: Scalar::zero(), y: Scalar::one() },
                },
                UvVertex2f {
                    pos: Vector2 { x: right, y: rect.y },
                    uv: Vector2 { x: Scalar::one(), y: Scalar::one() },
                },
                UvVertex2f {
                    pos: Vector2 { x: rect.x, y: top },
                    uv: Vector2 { x: Scalar::zero(), y: Scalar::zero() },
                },
                UvVertex2f {
                    pos: Vector2 { x: right, y: top },
                    uv: Vector2 { x: Scalar::one(), y: Scalar::zero() },
                },
                UvVertex2f {
                    pos: Vector2 { x: right, y: rect.y },
                    uv: Vector2 { x: Scalar::one(), y: Scalar::one() },
                },
                UvVertex2f {
                    pos: Vector2 { x: rect.x, y: top },
                    uv: Vector2 { x: Scalar::zero(), y: Scalar::zero() },
                },
            ],
        };
        proof {
            assert(r.data@ =~= spec_quad(*rect));
        }
        r
    }
}

/// Pixel dimensions of a texture.
#[derive(Clone, Copy, Debug, PartialEq, Eq, Structural)]
pub struct TexDimensions {
    pub x: u16,
    pub y: u16,
}

/// An owned RGBA8 byte buffer, tightly packed, four bytes per pixel.
#[derive(Clone, Debug)]
pub struct Texture {
    pub data: Vec<u8>,
    pub dimensions: TexDimensions,
}

/// Copies a byte slice into an owned vector.
fn copy_bytes(data: &[u8]) -> (r: Vec<u8>)
    ensures
        r@ == data@,
{
    let mut out: Vec<u8> = Vec::new();
    let mut i: usize = 0;
    while i < data.len()
        invariant
            i <= data@.len(),
            out@ == data@.take(i as int),
        decreases data@.len() - i,
    {
        out.push(data[i]);
        proof {
            assert(data@.take(i + 1 as int) =~= data@.take(i as int).push(data@[i as int]));
        }
        i = i + 1;
    }
    proof {
        assert(data@.take(data@.len() as int) =~= data@);
    }
    out
}

impl Texture {
    /// The byte buffer holds exactly four bytes per pixel.
    pub open spec fn wf(self) -> bool {
        self.data@.len() == 4 * self.dimensions.x * self.dimensions.y
    }

    /// The placeholder texture: one transparent pixel.
    pub fn new() -> (r: Texture)
        ensures
            r.data@ == seq![0u8, 0u8, 0u8, 0u8],
            r.dimensions == (TexDimensions { x: 1, y: 1 }),
            r.wf(),
    {
        let mut data: Vec<u8> = Vec::new();
        data.push(0);
        data.push(0);
        data.push(0);
        data.push(0);
        proof {
            assert(data@ =~= seq![0u8, 0u8, 0u8, 0u8]);
        }
        Texture { data, dimensions: TexDimensions { x: 1, y: 1 } }
    }

    pub fn from_data(data: &[u8], width: u16, height: u16) -> (r: Texture)
        requires
            data@.len() == 4 * width * height,
        ensures
            r.data@ == data@,
            r.dimensions == (TexDimensions { x: width, y: height }),
            r.wf(),
    {
        Texture { data: copy_bytes(data), dimensions: TexDimensions { x: width, y: height } }
    }

    /// An exact copy of this texture.
    pub fn duplicate(&self) -> (r: Texture)
        ensures
            r.data@ == self.data@,
            r.dimensions == self.dimensions,
    {
        Texture { data: copy_bytes(self.data.as_slice()), dimensions: self.dimensions }
    }
}

/// Why a texture could not be built from encoded image bytes.
#[derive(Debug)]
pub enum TextureError {
    /// The bytes are not a decodable image; carries the codec's message.
    Decode(String),
    /// The decoded image does not fit the engine's 16-bit texture extents.
    TooLarge { width: u32, height: u32 },
    /// The decoded image has a zero extent and cannot size a sprite.
    EmptyImage,
}

/// What decoding an encoded image to tightly packed RGBA8 yields: the
/// bytes, width and height on success, nothing when undecodable.  The
/// image codec computes this as a pure function of the input bytes.
pub uninterp spec fn spec_decode_rgba(bytes: Seq<u8>) -> Option<(Seq<u8>, u32, u32)>;

/// Relies on `image::load_from_memory`, `DynamicImage::to_rgba8`,
/// `ImageBuffer::dimensions` and `ImageBuffer::into_raw`: decoding is a
/// pure function of the input bytes, and the RGBA8 buffer of a
/// `width x height` image holds exactly `4 * width * height` bytes.
#[verifier::external_body]
fn decode_rgba(bytes: &[u8]) -> (r: Result<(Vec<u8>, u32, u32), String>)
    ensures
        match r {
            Ok(decoded) => spec_decode_rgba(bytes@) == Some((decoded.0@, decoded.1, decoded.2))
                && decoded.0@.len() == 4 * decoded.1 * decoded.2,
            Err(_) => spec_decode_rgba(bytes@) is None,
        },
{
    match image::load_from_memory(bytes) {
        Ok(img) => {
            let buf = img.to_rgba8();
            let (width, height) = buf.dimensions();
            Ok((buf.into_raw(), width, height))
        },
        Err(e) => Err(format!("{}", e)),
    }
}

impl Texture {
    /// Decodes encoded image bytes (PNG, JPEG, ...) into a texture.
    pub fn load_from_image(bytes: &[u8]) -> (r: Result<Texture, TextureError>)
        ensures
            match r {
                Ok(t) => {
                    &&& t.wf()
                    &&& spec_decode_rgba(bytes@) matches Some(d)
                        && t.data@ == d.0
                        && t.dimensions.x == d.1
                        && t.dimensions.y == d.2
                },
                Err(TextureError::Decode(_)) => spec_decode_rgba(bytes@) is None,
                Err(TextureError::TooLarge { width, height }) => {
                    spec_decode_rgba(bytes@) matches Some(d)
                        && d.1 == width
                        && d.2 == height
                        && (width > u16::MAX || height > u16::MAX)
                },
                Err(TextureError::EmptyImage) => false,
            },
    {
        match decode_rgba(bytes) {
            Err(message) => Err(TextureError::Decode(message)),
            Ok((data, width, height)) => {
                if width > u16::MAX as u32 || height > u16::MAX as u32 {
                    Err(TextureError::TooLarge { width, height })
                } else {
                    Ok(Texture {
                        data,
                        dimensions: TexDimensions { x: width as u16, y: height as u16 },
                    })
                }
            },
        }
    }
}

/// The resource-binding renderer of one textured drawable.  It owns the
/// model of that drawable's GPU state: the vertex and texture data
/// currently uploaded, and counters for every command it recorded.
#[derive(Clone, Debug)]
pub struct TextureRenderer {
    /// The vertex data the GPU currently holds.
    pub vertices: UvVertexArray,
    /// The texture the GPU currently holds.
    pub texture: Texture,
    /// Vertex-buffer re-uploads since creation.
    pub vertex_uploads: u64,
    /// Texture re-uploads since creation.
    pub texture_uploads: u64,
    /// Draw calls issued since creation.
    pub draws: u64,
    /// The transforms of the most recent draw call.
    pub last_draw: Option<DrawTransforms>,
}

impl TextureRenderer {
    pub open spec fn wf(self) -> bool {
        self.texture.wf()
    }

    /// Room for one more recorded command of each kind.
    pub open spec fn counters_ok(self) -> bool {
        &&& self.vertex_uploads < u64::MAX
        &&& self.texture_uploads < u64::MAX
        &&& self.draws < u64::MAX
    }

    pub fn new(vertices: UvVertexArray, texture: Texture) -> (r: TextureRenderer)
        ensures
            r == (TextureRenderer {
                vertices,
                texture,
                vertex_uploads: 0,
                texture_uploads: 0,
                draws: 0,
                last_draw: None::<DrawTransforms>,
            }),
    {
        TextureRenderer {
            vertices,
            texture,
            vertex_uploads: 0,
            texture_uploads: 0,
            draws: 0,
            last_draw: None,
        }
    }

    /// Allocates the GPU objects for one drawable: uploads the initial
    /// vertex and texture data and records both uploads on the device.
    pub fn create(texture: &Texture, vertices: &UvVertexArray, renderer: &mut Renderer) -> (r:
        TextureRenderer)
        requires
            old(renderer).counters_ok(),
        ensures
            r.vertices == *vertices,
            r.texture.data@ == texture.data@,
            r.texture.dimensions == texture.dimensions,
            r.vertex_uploads == 0,
            r.texture_uploads == 0,
            r.draws == 0,
            r.last_draw is None,
            *final(renderer) == old(renderer).spec_record_buffer_upload().spec_record_texture_upload(),
    {
        renderer.buffer_uploads = renderer.buffer_uploads + 1;
        renderer.texture_uploads = renderer.texture_uploads + 1;
        TextureRenderer::new(*vertices, texture.duplicate())
    }

    /// Issues one draw call with the given model, view and projection
    /// transforms, and flushes the command stream.
    pub fn render(
        &mut self,
        model_trans: crate::types::Mat4,
        view_trans: crate::types::Mat4,
        projection_trans: crate::types::Mat4,
        engine: &mut FlatEngine,
    )
        requires
            old(self).draws < u64::MAX,
            old(engine).renderer.draw_calls < u64::MAX,
            old(engine).renderer.flushes < u64::MAX,
        ensures
            *final(self) == (TextureRenderer {
                draws: (old(self).draws + 1) as u64,
                last_draw: Some(
                    DrawTransforms {
                        model: model_trans,
                        view: view_trans,
                        projection: projection_trans,
                    },
                ),
                ..*old(self)
            }),
            *final(engine) == (FlatEngine {
                renderer: old(engine).renderer.spec_record_draw(),
                ..*old(engine)
            }),
    {
        self.draws = self.draws + 1;
        self.last_draw = Some(
            DrawTransforms { model: model_trans, view: view_trans, projection: projection_trans },
        );
        engine.renderer.draw_calls = engine.renderer.draw_calls + 1;
        engine.renderer.flushes = engine.renderer.flushes + 1;
    }

    /// Replaces the uploaded vertex data and records the upload.
    pub fn update_vertices(&mut self, vertices: &UvVertexArray, renderer: &mut Renderer)
        requires
            old(self).vertex_uploads < u64::MAX,
            old(renderer).buffer_uploads < u64::MAX,
        ensures
            *final(self) == (TextureRenderer {
                vertices: *vertices,
                vertex_uploads: (old(self).vertex_uploads + 1) as u64,
                ..*old(self)
            }),
            *final(renderer) == old(renderer).spec_record_buffer_upload(),
    {
        self.vertices = *vertices;
        self.vertex_uploads = self.vertex_uploads + 1;
        renderer.buffer_uploads = renderer.buffer_uploads + 1;
    }

    /// Replaces the uploaded texture and records the upload.
    pub fn update_texture(&mut self, texture: &Texture, renderer: &mut Renderer)
        requires
            old(self).texture_uploads < u64::MAX,
            old(renderer).texture_uploads < u64::MAX,
        ensures
            final(self).texture.data@ == texture.data@,
            final(self).texture.dimensions == texture.dimensions,
            *final(self) == (TextureRenderer {
                texture: final(self).texture,
                texture_uploads: (old(self).texture_uploads + 1) as u64,
                ..*old(self)
            }),
            *final(renderer) == old(renderer).spec_record_texture_upload(),
    {
        self.texture = texture.duplicate();
        self.texture_uploads = self.texture_uploads + 1;
        renderer.texture_uploads = renderer.texture_uploads + 1;
    }
}

/// A textured quad drawable.
#[derive(Clone, Debug)]
pub struct Sprite {
    pub node: NodeObject2D,
    pub texture: Texture,
    pub vertices: UvVertexArray,
    pub texture_renderer: Option<TextureRenderer>,
    pub update_texture: bool,
    pub has_loaded: bool,
}

impl Sprite {
    pub open spec fn wf(self) -> bool {
        &&& self.node.wf()
        &&& self.texture.wf()
        &&& (self.has_loaded <==> self.texture_renderer is Some)
        &&& match self.texture_renderer {
            Some(r) => r.wf(),
            None => true,
        }
    }

    /// The intrinsic size: the texture's pixel dimensions.
    pub open spec fn spec_fixed_size(self) -> Vector2 {
        Vector2 {
            x: Scalar { num: self.texture.dimensions.x as i64, den: 1 },
            y: Scalar { num: self.texture.dimensions.y as i64, den: 1 },
        }
    }

    /// The rectangle the sprite covers: node position and displayed size.
    pub open spec fn spec_rect(self) -> Rect {
        Rect {
            x: self.node.spec_pos().x,
            y: self.node.spec_pos().y,
            width: self.spec_fixed_size().x.spec_mul(self.node.spec_scale().x),
            height: self.spec_fixed_size().y.spec_mul(self.node.spec_scale().y),
        }
    }

    /// The displayed rectangle and its quad are representable.
    pub open spec fn rect_ok(self) -> bool {
        &&& self.spec_fixed_size().x.mul_ok(self.node.spec_scale().x)
        &&& self.spec_fixed_size().y.mul_ok(self.node.spec_scale().y)
        &&& self.spec_rect().edges_ok()
    }

    pub fn new() -> (r: Sprite)
        ensures
            r.node == (NodeObject2D {
                trans: crate::types::Mat4::spec_identity(),
                values_changed: false,
            }),
            r.texture.data@ == seq![0u8, 0u8, 0u8, 0u8],
            r.texture.dimensions == (TexDimensions { x: 1, y: 1 }),
            r.vertices.data@ == Seq::new(6, |i: int| UvVertex2f::spec_zero()),
            r.texture_renderer is None,
            !r.update_texture,
            !r.has_loaded,
            r.wf(),
    {
        Sprite {
            node: NodeObject2D::new(),
            texture: Texture::new(),
            vertices: UvVertexArray::zero(),
            texture_renderer: None,
            update_texture: false,
            has_loaded: false,
        }
    }

    pub fn from_texture(texture: Texture) -> (r: Sprite)
        requires
            texture.wf(),
        ensures
            r.node == (NodeObject2D {
                trans: crate::types::Mat4::spec_identity(),
                values_changed: false,
            }),
            r.texture == texture,
            r.vertices.data@ == Seq::new(6, |i: int| UvVertex2f::spec_zero()),
            r.texture_renderer is None,
            !r.update_texture,
            !r.has_loaded,
            r.wf(),
    {
        Sprite {
            node: NodeObject2D::new(),
            texture,
            vertices: UvVertexArray::zero(),
            texture_renderer: None,
            update_texture: false,
            has_loaded: false,
        }
    }

    /// Decodes image bytes and builds a sprite sized to the image's
    /// native pixel dimensions (so its scale is one).
    pub fn from_image_bytes(bytes: &[u8]) -> (r: Result<Sprite, TextureError>)
        ensures
            match r {
                Ok(s) => {
                    &&& s.wf()
                    &&& !s.has_loaded
                    &&& spec_decode_rgba(bytes@) matches Some(d)
                        && s.texture.data@ == d.0
                        && s.texture.dimensions.x == d.1
                        && s.texture.dimensions.y == d.2
                        && d.1 > 0
                        && d.2 > 0
                    &&& s.node.spec_scale().x.eq_val(Scalar::spec_one())
                    &&& s.node.spec_scale().y.eq_val(Scalar::spec_one())
                    &&& !s.node.values_changed
                },
                Err(TextureError::Decode(_)) => spec_decode_rgba(bytes@) is None,
                Err(TextureError::TooLarge { width, height }) => {
                    spec_decode_rgba(bytes@) matches Some(d)
                        && d.1 == width
                        && d.2 == height
                        && (width > u16::MAX || height > u16::MAX)
                },
                Err(TextureError::EmptyImage) => {
                    spec_decode_rgba(bytes@) matches Some(d) && (d.1 == 0 || d.2 == 0)
                },
            },
    {
        let texture: Texture = match Texture::load_from_image(bytes) {
            Ok(t) => t,
            Err(e) => {
                return Err(e);
            },
        };
        if texture.dimensions.x == 0 || texture.dimensions.y == 0 {
            return Err(TextureError::EmptyImage);
        }
        let size: Vector2 = Vector2 {
            x: Scalar::from_int(texture.dimensions.x as i64),
            y: Scalar::from_int(texture.dimensions.y as i64),
        };
        let mut sprite: Sprite = Sprite::from_texture(texture);
        sprite.set_size(size);
        sprite.node.values_changed = false;
        Ok(sprite)
    }

    /// Swaps the sprite's texture.  On a loaded sprite the texture upload
    /// is deferred to the next render; if the new texture's dimensions
    /// differ, the node is marked changed so that render also lays the
    /// quad out again.
    pub fn set_texture(&mut self, texture: Texture)
        requires
            texture.wf(),
        ensures
            final(self).texture == texture,
            final(self).vertices == old(self).vertices,
            final(self).texture_renderer == old(self).texture_renderer,
            final(self).has_loaded == old(self).has_loaded,
            final(self).update_texture == (old(self).has_loaded || old(self).update_texture),
            old(self).has_loaded && texture.dimensions != old(self).texture.dimensions
                ==> final(self).node == (NodeObject2D { values_changed: true, ..old(self).node }),
            !(old(self).has_loaded && texture.dimensions != old(self).texture.dimensions)
                ==> final(self).node == old(self).node,
    {
        let dims_changed: bool = texture.dimensions.x != self.texture.dimensions.x
            || texture.dimensions.y != self.texture.dimensions.y;
        self.texture = texture;
        if self.has_loaded {
            self.update_texture = true;
            if dims_changed {
                self.node.values_changed = true;
            }
        }
    }
}

impl Node2D for Sprite {
    open spec fn nview(&self) -> NodeObject2D {
        self.node
    }

    open spec fn with_nview(self, node: NodeObject2D) -> Sprite {
        Sprite { node, ..self }
    }

    fn get_node_obj(&self) -> (r: &NodeObject2D) {
        &self.node
    }

    fn get_node_obj_mut(&mut self) -> (r: &mut NodeObject2D) {
        &mut self.node
    }

    fn set_pos(&mut self, pos: Vector2) {
        self.node.set_pos(pos);
    }

    fn get_pos(&self) -> (r: Vector2) {
        self.node.get_pos()
    }

    fn set_scale(&mut self, scale: Vector2) {
        self.node.set_scale(scale);
    }

    fn get_scale(&self) -> (r: Vector2) {
        self.node.get_scale()
    }

    fn set_trans(&mut self, trans: crate::types::Mat4) {
        self.node.set_trans(trans);
    }

    fn get_trans(&self) -> (r: crate::types::Mat4) {
        self.node.get_trans()
    }
}

impl SizedNode2D for Sprite {
    open spec fn fixed_size_of(&self) -> Vector2 {
        self.spec_fixed_size()
    }

    fn get_fixed_size(&self) -> (r: Vector2) {
        Vector2 {
            x: Scalar::from_int(self.texture.dimensions.x as i64),
            y: Scalar::from_int(self.texture.dimensions.y as i64),
        }
    }
}

impl Drawable for Sprite {
    open spec fn loaded(&self) -> bool {
        self.has_loaded
    }

    open spec fn load_req(&self, engine: &FlatEngine) -> bool {
        &&& self.wf()
        &&& engine.renderer.counters_ok()
    }

    open spec fn load_ens(&self, new_self: &Self, engine: &FlatEngine, new_engine: &FlatEngine) -> bool {
        &&& new_self.node == self.node
        &&& new_self.texture == self.texture
        &&& new_self.update_texture == self.update_texture
        &&& new_self.has_loaded
        &&& new_self.vertices.data@ == spec_quad(
            Rect {
                x: Scalar::spec_zero(),
                y: Scalar::spec_zero(),
                width: self.spec_fixed_size().x,
                height: self.spec_fixed_size().y,
            },
        )
        &&& match new_self.texture_renderer {
            Some(r) => {
                &&& r.vertices == new_self.vertices
                &&& r.texture.data@ == self.texture.data@
                &&& r.texture.dimensions == self.texture.dimensions
                &&& r.vertex_uploads == 0
                &&& r.texture_uploads == 0
                &&& r.draws == 0
                &&& r.last_draw is None
            },
            None => false,
        }
        &&& *new_engine == (FlatEngine {
            renderer: engine.renderer.spec_record_buffer_upload().spec_record_texture_upload(),
            ..*engine
        })
        &&& new_self.wf()
    }

    open spec fn render_req(&self, engine: &FlatEngine) -> bool {
        &&& self.wf()
        &&& self.rect_ok()
        &&& engine.renderer.counters_ok()
        &&& match self.texture_renderer {
            Some(r) => r.counters_ok(),
            None => true,
        }
    }

    open spec fn render_ens(&self, new_self: &Self, engine: &FlatEngine, new_engine: &FlatEngine) -> bool {
        let geometry_changed = self.node.values_changed;
        let texture_changed = self.update_texture;
        &&& new_self.node == self.node.spec_acknowledged()
        &&& new_self.texture == self.texture
        &&& new_self.has_loaded
        &&& !new_self.update_texture
        &&& (geometry_changed ==> new_self.vertices.data@ == spec_quad(self.spec_rect()))
        &&& (!geometry_changed ==> new_self.vertices == self.vertices)
        &&& match (self.texture_renderer, new_self.texture_renderer) {
            (Some(r0), Some(r1)) => {
                &&& r1.vertices == (if geometry_changed {
                    new_self.vertices
                } else {
                    r0.vertices
                })
                &&& (texture_changed ==> r1.texture.data@ == self.texture.data@
                    && r1.texture.dimensions == self.texture.dimensions)
                &&& (!texture_changed ==> r1.texture == r0.texture)
                &&& r1.vertex_uploads == r0.vertex_uploads + (if geometry_changed {
                    1int
                } else {
                    0int
                })
                &&& r1.texture_uploads == r0.texture_uploads + (if texture_changed {
                    1int
                } else {
                    0int
                })
                &&& r1.draws == r0.draws + 1
                &&& r1.last_draw == Some(
                    DrawTransforms {
                        model: self.node.trans,
                        view: engine.renderer.camera.view,
                        projection: engine.renderer.camera.projection,
                    },
                )
            },
            _ => false,
        }
        &&& *new_engine == (FlatEngine {
            renderer: Renderer {
                draw_calls: (engine.renderer.draw_calls + 1) as u64,
                flushes: (engine.renderer.flushes + 1) as u64,
                buffer_uploads: (engine.renderer.buffer_uploads + (if geometry_changed {
                    1int
                } else {
                    0int
                })) as u64,
                texture_uploads: (engine.renderer.texture_uploads + (if texture_changed {
                    1int
                } else {
                    0int
                })) as u64,
                ..engine.renderer
            },
            ..*engine
        })
        &&& new_self.wf()
    }

    open spec fn destroy_ens(&self, new_self: &Self, engine: &FlatEngine, new_engine: &FlatEngine) -> bool {
        &&& *new_self == (Sprite { texture_renderer: None, has_loaded: false, ..*self })
        &&& *new_engine == *engine
    }

    /// Lays out the quad over the intrinsic rectangle at the origin and
    /// allocates the GPU objects.
    fn load(&mut self, engine: &mut FlatEngine) {
        let fixed: Vector2 = self.get_fixed_size();
        let rect: Rect = Rect {
            x: Scalar::zero(),
            y: Scalar::zero(),
            width: fixed.x,
            height: fixed.y,
        };
        proof {
            assert(rect.x.add_ok(rect.width));
            assert(rect.y.add_ok(rect.height));
        }
        self.vertices = UvVertexArray::from_rect(&rect);
        let created: TextureRenderer = TextureRenderer::create(
            &self.texture,
            &self.vertices,
            &mut engine.renderer,
        );
        self.texture_renderer = Some(created);
        self.has_loaded = true;
    }

    /// Re-uploads exactly what is stale: the quad if the node changed,
    /// the texture if it was swapped; then draws with the node transform
    /// under the engine's camera.
    fn render(&mut self, engine: &mut FlatEngine) {
        let geometry_changed: bool = self.node.acknowledge_changed();
        if geometry_changed {
            let rect: Rect = self.get_rect();
            self.vertices = UvVertexArray::from_rect(&rect);
            match &mut self.texture_renderer {
                Some(r) => r.update_vertices(&self.vertices, &mut engine.renderer),
                None => {},
            }
        }
        if self.update_texture {
            match &mut self.texture_renderer {
                Some(r) => r.update_texture(&self.texture, &mut engine.renderer),
                None => {},
            }
            self.update_texture = false;
        }
        let model: crate::types::Mat4 = self.node.get_trans();
        let view: crate::types::Mat4 = engine.renderer.camera.view;
        let projection: crate::types::Mat4 = engine.renderer.camera.projection;
        match &mut self.texture_renderer {
            Some(r) => r.render(model, view, projection, engine),
            None => {},
        }
    }

    /// Releases the GPU objects; the sprite must be loaded again before
    /// its next render.
    fn destroy(&mut self, engine: &mut FlatEngine) {
        self.texture_renderer = None;
        self.has_loaded = false;
    }
}

} // verus!
