//! Text rendering: glyph-atlas compositing and the text drawable.
//!
//! The font collaborator rasterizes each glyph of a laid-out line into a
//! coverage bitmap with an integer bounding box.  This module composites
//! those bitmaps into one RGBA texture: every pixel inside a glyph's box
//! takes the text colour with the glyph's coverage as alpha, later glyphs
//! overwrite earlier ones, and untouched pixels stay fully transparent.
//!
//! The text drawable keeps its node size on the texture's aspect ratio:
//! after every text change the node is resized to
//! `(size * width / height, size)` for point size `size`.

use vstd::prelude::*;

use crate::engine::DrawTransforms;
use crate::engine::Drawable;
use crate::engine::FlatEngine;
use crate::engine::Renderer;
use crate::node::Node2D;
use crate::node::NodeObject2D;
use crate::node::SizedNode2D;
use crate::render::spec_quad;
use crate::render::TexDimensions;
use crate::render::Texture;
use crate::render::TextureRenderer;
use crate::render::UvVertexArray;
use crate::scalar::Scalar;
use crate::types::Color;
use crate::types::Mat4;
use crate::types::Rect;
use crate::types::Vector2;

verus! {

/// One rasterized glyph: its bounding box within the atlas and its
/// row-major coverage bitmap, one byte per pixel.
#[derive(Clone, Debug)]
pub struct GlyphBitmap {
    pub min_x: u16,
    pub min_y: u16,
    pub width: u16,
    pub height: u16,
    pub coverage: Vec<u8>,
}

impl GlyphBitmap {
    /// The bitmap holds one byte for each pixel of the bounding box.
    pub open spec fn wf(self) -> bool {
        self.coverage@.len() == self.width * self.height
    }

    /// Whether the bounding box contains the atlas pixel `(x, y)`.
    pub open spec fn covers(self, x: int, y: int) -> bool {
        &&& self.min_x <= x < self.min_x + self.width
        &&& self.min_y <= y < self.min_y + self.height
    }

    /// The coverage this glyph writes at atlas pixel `(x, y)`.
    pub open spec fn cov_at(self, x: int, y: int) -> u8 {
        self.coverage@[(y - self.min_y) * self.width + (x - self.min_x)]
    }

    /// The bounding box lies inside an atlas of the given extent.
    pub open spec fn fits(self, width: u16, height: u16) -> bool {
        self.min_x + self.width <= width && self.min_y + self.height <= height
    }
}

/// The coverage written at atlas pixel `(x, y)` by the last glyph whose
/// box contains it, if any: glyphs are drawn in order and overwrite.
pub open spec fn spec_last_coverage(glyphs: Seq<GlyphBitmap>, x: int, y: int) -> Option<u8>
    decreases glyphs.len(),
{
    if glyphs.len() == 0 {
        None
    } else if glyphs.last().covers(x, y) {
        Some(glyphs.last().cov_at(x, y))
    } else {
        spec_last_coverage(glyphs.drop_last(), x, y)
    }
}

/// Finds the coverage of the last glyph containing `(x, y)` by walking
/// the glyph list backwards.
fn last_coverage(glyphs: &Vec<GlyphBitmap>, x: u16, y: u16) -> (r: Option<u8>)
    requires
        forall|k: int| 0 <= k < glyphs@.len() ==> (#[trigger] glyphs@[k]).wf(),
    ensures
        r == spec_last_coverage(glyphs@, x as int, y as int),
{
    proof {
        assert(glyphs@.take(glyphs@.len() as int) =~= glyphs@);
    }
    let mut i: usize = glyphs.len();
    while i > 0
        invariant
            i <= glyphs@.len(),
            forall|k: int| 0 <= k < glyphs@.len() ==> (#[trigger] glyphs@[k]).wf(),
            spec_last_coverage(glyphs@, x as int, y as int) == spec_last_coverage(
                glyphs@.take(i as int),
                x as int,
                y as int,
            ),
        decreases i,
    {
        i = i - 1;
        let g: &GlyphBitmap = &glyphs[i];
        proof {
            assert(glyphs@.take(i + 1 as int).drop_last() =~= glyphs@.take(i as int));
            assert(glyphs@.take(i + 1 as int).last() == glyphs@[i as int]);
        }
        if x >= g.min_x && (x as u32) < g.min_x as u32 + g.width as u32 && y >= g.min_y && (
        y as u32) < g.min_y as u32 + g.height as u32 {
            let row: u32 = (y - g.min_y) as u32;
            let col: u32 = (x - g.min_x) as u32;
            proof {
                assert(row * g.width + col < g.width * g.height <= u32::MAX) by (nonlinear_arith)
                    requires
                        0 <= row < g.height,
                        0 <= col < g.width,
                        g.width <= u16::MAX,
                        g.height <= u16::MAX,
                ;
            }
            let idx: u32 = row * (g.width as u32) + col;
            return Some(g.coverage[idx as usize]);
        }
    }
    proof {
        assert(glyphs@.take(0) =~= Seq::<GlyphBitmap>::empty());
    }
    None
}

/// The four bytes of atlas pixel `(x, y)` are correct in `data`: the
/// text colour with the last covering glyph's coverage as alpha, or a
/// fully transparent zero pixel where no glyph reaches.
pub open spec fn pixel_ok(
    data: Seq<u8>,
    glyphs: Seq<GlyphBitmap>,
    color: Color,
    width: int,
    x: int,
    y: int,
) -> bool {
    let base = 4 * (y * width + x);
    match spec_last_coverage(glyphs, x, y) {
        Some(c) => {
            &&& data[base] == color.r.spec_unit_byte()
            &&& data[base + 1] == color.g.spec_unit_byte()
            &&& data[base + 2] == color.b.spec_unit_byte()
            &&& data[base + 3] == c
        },
        None => {
            &&& data[base] == 0
            &&& data[base + 1] == 0
            &&& data[base + 2] == 0
            &&& data[base + 3] == 0
        },
    }
}

/// Pixels drawn earlier in row-major order have smaller indices.
proof fn lemma_pixel_order(xx: int, yy: int, x: int, y: int, width: int)
    requires
        0 <= xx < width,
        0 <= x,
        yy < y || (yy == y && xx < x),
        0 <= yy,
    ensures
        yy * width + xx < y * width + x,
{
    if yy < y {
        assert(yy * width + width <= y * width) by (nonlinear_arith)
            requires
                yy < y,
                0 <= width,
        ;
    }
}

impl Texture {
    /// Composites rasterized glyphs into one RGBA atlas of the given
    /// extent.  Every pixel inside a glyph's bounding box takes the text
    /// colour, with the glyph's coverage as its alpha; where boxes
    /// overlap the later glyph wins; all other pixels stay zero.
    pub fn from_glyphs(glyphs: &Vec<GlyphBitmap>, width: u16, height: u16, color: &Color) -> (r:
        Texture)
        requires
            forall|k: int| 0 <= k < glyphs@.len() ==> (#[trigger] glyphs@[k]).wf(),
            forall|k: int|
                0 <= k < glyphs@.len() ==> (#[trigger] glyphs@[k]).fits(width, height),
            color.wf(),
            color.in_unit_range(),
            4 * width * height <= usize::MAX,
        ensures
            r.dimensions == (TexDimensions { x: width, y: height }),
            r.wf(),
            forall|x: int, y: int|
                0 <= x < width && 0 <= y < height ==> #[trigger] pixel_ok(
                    r.data@,
                    glyphs@,
                    *color,
                    width as int,
                    x,
                    y,
                ),
    {
        let rbyte: u8 = color.r.unit_byte();
        let gbyte: u8 = color.g.unit_byte();
        let bbyte: u8 = color.b.unit_byte();
        let mut data: Vec<u8> = Vec::new();
        let mut y: u16 = 0;
        while y < height
            invariant
                forall|k: int| 0 <= k < glyphs@.len() ==> (#[trigger] glyphs@[k]).wf(),
                color.wf(),
                color.in_unit_range(),
                4 * width * height <= usize::MAX,
                rbyte == color.r.spec_unit_byte(),
                gbyte == color.g.spec_unit_byte(),
                bbyte == color.b.spec_unit_byte(),
                y <= height,
                data@.len() == 4 * (y * width),
                forall|xx: int, yy: int|
                    0 <= xx < width && 0 <= yy < y ==> #[trigger] pixel_ok(
                        data@,
                        glyphs@,
                        *color,
                        width as int,
                        xx,
                        yy,
                    ),
            decreases height - y,
        {
            let mut x: u16 = 0;
            while x < width
                invariant
                    forall|k: int| 0 <= k < glyphs@.len() ==> (#[trigger] glyphs@[k]).wf(),
                    color.wf(),
                    color.in_unit_range(),
                    4 * width * height <= usize::MAX,
                    rbyte == color.r.spec_unit_byte(),
                    gbyte == color.g.spec_unit_byte(),
                    bbyte == color.b.spec_unit_byte(),
                    y < height,
                    x <= width,
                    data@.len() == 4 * (y * width + x),
                    forall|xx: int, yy: int|
                        0 <= xx < width && 0 <= yy < y ==> #[trigger] pixel_ok(
                            data@,
                            glyphs@,
                            *color,
                            width as int,
                            xx,
                            yy,
                        ),
                    forall|xx: int|
                        0 <= xx < x ==> #[trigger] pixel_ok(
                            data@,
                            glyphs@,
                            *color,
                            width as int,
                            xx,
                            y as int,
                        ),
                decreases width - x,
            {
                proof {
                    assert(y * width + x < width * height) by (nonlinear_arith)
                        requires
                            0 <= y < height,
                            0 <= x < width,
                    ;
                }
                let ghost old_data = data@;
                let cov: Option<u8> = last_coverage(glyphs, x, y);
                let bytes: (u8, u8, u8, u8) = match cov {
                    Some(c) => (rbyte, gbyte, bbyte, c),
                    None => (0, 0, 0, 0),
                };
                data.push(bytes.0);
                data.push(bytes.1);
                data.push(bytes.2);
                data.push(bytes.3);
                proof {
                    assert(data@.len() == old_data.len() + 4);
                    assert(forall|j: int| 0 <= j < old_data.len() ==> data@[j] == old_data[j]);
                    assert(pixel_ok(data@, glyphs@, *color, width as int, x as int, y as int));
                    assert forall|xx: int, yy: int| 0 <= xx < width && 0 <= yy < y implies
                        #[trigger] pixel_ok(data@, glyphs@, *color, width as int, xx, yy) by {
                        assert(pixel_ok(old_data, glyphs@, *color, width as int, xx, yy));
                        lemma_pixel_order(xx, yy, x as int, y as int, width as int);
                    }
                    assert forall|xx: int| 0 <= xx < x implies #[trigger] pixel_ok(
                        data@,
                        glyphs@,
                        *color,
                        width as int,
                        xx,
                        y as int,
                    ) by {
                        assert(pixel_ok(old_data, glyphs@, *color, width as int, xx, y as int));
                        lemma_pixel_order(xx, y as int, x as int, y as int, width as int);
                    }
                }
                x = x + 1;
            }
            proof {
                assert(4 * (y * width + width) == 4 * ((y + 1) * width)) by (nonlinear_arith);
            }
            y = y + 1;
        }
        proof {
            assert(data@.len() == 4 * width * height) by (nonlinear_arith)
                requires
                    data@.len() == 4 * (height * width),
            ;
        }
        Texture { data, dimensions: TexDimensions { x: width, y: height } }
    }
}

/// The atlas extent around a laid-out line of glyphs: the glyph span
/// plus the fixed 20 pixel padding on every side.  Yields nothing when
/// the padded extent exceeds the 16-bit texture limit.
pub fn text_atlas_dims(glyphs_width: u32, glyphs_height: u32) -> (r: Option<(u16, u16)>)
    ensures
        match r {
            Some(d) => {
                &&& glyphs_width + 40 <= u16::MAX
                &&& glyphs_height + 40 <= u16::MAX
                &&& d.0 == glyphs_width + 40
                &&& d.1 == glyphs_height + 40
            },
            None => glyphs_width + 40 > u16::MAX || glyphs_height + 40 > u16::MAX,
        },
{
    if glyphs_width <= u16::MAX as u32 - 40 && glyphs_height <= u16::MAX as u32 - 40 {
        Some(((glyphs_width + 40) as u16, (glyphs_height + 40) as u16))
    } else {
        None
    }
}

/// The scale a text node takes so that its displayed size becomes
/// `(size * width / height, size)` for a texture of the given pixel
/// dimensions: `size * w / h / w = size / h` on the x axis and
/// `size / h` on the y axis, computed exactly as written below.
pub open spec fn spec_aspect_scale(size: Scalar, dims: TexDimensions) -> Vector2 {
    let w = Scalar { num: dims.x as i64, den: 1 };
    let h = Scalar { num: dims.y as i64, den: 1 };
    Vector2 { x: size.spec_mul(w).spec_div(h).spec_div(w), y: size.spec_div(h) }
}

/// The displayed size a text node takes: width from the texture's
/// aspect ratio, height the requested point size.
pub open spec fn spec_aspect_size(size: Scalar, dims: TexDimensions) -> Vector2 {
    let w = Scalar { num: dims.x as i64, den: 1 };
    let h = Scalar { num: dims.y as i64, den: 1 };
    Vector2 { x: size.spec_mul(w).spec_div(h), y: size }
}

/// The aspect-size arithmetic of a text node is representable.
pub open spec fn aspect_ok(size: Scalar, dims: TexDimensions) -> bool {
    let w = Scalar { num: dims.x as i64, den: 1 };
    let h = Scalar { num: dims.y as i64, den: 1 };
    &&& size.mul_ok(w)
    &&& size.spec_mul(w).div_ok(h)
    &&& size.spec_mul(w).spec_div(h).div_ok(w)
    &&& size.div_ok(h)
}

/// A drawable line of text: its string, point size and colour, and the
/// texture the font collaborator rasterized for them.  The rasterizer
/// hands a fresh texture to `new`, `set_text` and `set_color`; the
/// drawable defers the GPU upload to the next render.
#[derive(Clone, Debug)]
pub struct Text {
    pub node: NodeObject2D,
    pub vertices: UvVertexArray,
    pub text: String,
    pub texture: Texture,
    pub texture_renderer: Option<TextureRenderer>,
    pub size: Scalar,
    pub color: Color,
    pub update_text: bool,
    pub has_loaded: bool,
}

impl Text {
    pub open spec fn wf(self) -> bool {
        &&& self.node.wf()
        &&& self.texture.wf()
        &&& self.size.wf()
        &&& (self.has_loaded <==> self.texture_renderer is Some)
        &&& match self.texture_renderer {
            Some(r) => r.wf(),
            None => true,
        }
    }

    /// The intrinsic size: the backing texture's pixel dimensions.
    pub open spec fn spec_fixed_size(self) -> Vector2 {
        Vector2 {
            x: Scalar { num: self.texture.dimensions.x as i64, den: 1 },
            y: Scalar { num: self.texture.dimensions.y as i64, den: 1 },
        }
    }

    /// The rectangle the text covers: node position and displayed size.
    pub open spec fn spec_rect(self) -> Rect {
        Rect {
            x: self.node.spec_pos().x,
            y: self.node.spec_pos().y,
            width: self.spec_fixed_size().x.spec_mul(self.node.spec_scale().x),
            height: self.spec_fixed_size().y.spec_mul(self.node.spec_scale().y),
        }
    }

    /// The displayed rectangle and its quad are representable.
    pub open spec fn rect_ok(self) -> bool {
        &&& self.spec_fixed_size().x.mul_ok(self.node.spec_scale().x)
        &&& self.spec_fixed_size().y.mul_ok(self.node.spec_scale().y)
        &&& self.spec_rect().edges_ok()
    }

    /// Builds a text drawable around the rasterized texture and sizes
    /// its node by the aspect-ratio law.
    pub fn new(text: &str, size: Scalar, color: Color, texture: Texture) -> (r: Text)
        requires
            texture.wf(),
            texture.dimensions.x > 0,
            texture.dimensions.y > 0,
            size.wf(),
            aspect_ok(size, texture.dimensions),
        ensures
            r.text@ == text@,
            r.texture == texture,
            r.size == size,
            r.color == color,
            !r.update_text,
            !r.has_loaded,
            r.texture_renderer is None,
            r.node == (NodeObject2D {
                trans: Mat4::spec_identity(),
                values_changed: false,
            }).spec_set_scale(spec_aspect_scale(size, texture.dimensions)).spec_acknowledged(),
            r.wf(),
    {
        let mut r = Text {
            node: NodeObject2D::new(),
            vertices: UvVertexArray::zero(),
            text: text.to_string(),
            texture,
            texture_renderer: None,
            size,
            color,
            update_text: false,
            has_loaded: false,
        };
        r.apply_aspect_size();
        r.node.values_changed = false;
        r
    }

    /// Resizes the node so the displayed size follows the aspect law
    /// `(size * width / height, size)`.
    fn apply_aspect_size(&mut self)
        requires
            old(self).node.wf(),
            old(self).texture.dimensions.x > 0,
            old(self).texture.dimensions.y > 0,
            old(self).size.wf(),
            aspect_ok(old(self).size, old(self).texture.dimensions),
        ensures
            *final(self) == (Text {
                node: old(self).node.spec_set_scale(
                    spec_aspect_scale(old(self).size, old(self).texture.dimensions),
                ),
                ..*old(self)
            }),
            final(self).node.wf(),
    {
        let w: Scalar = Scalar::from_int(self.texture.dimensions.x as i64);
        let h: Scalar = Scalar::from_int(self.texture.dimensions.y as i64);
        let target: Vector2 = Vector2 { x: self.size.mul(w).div(h), y: self.size };
        self.set_size(target);
        proof {
            let sw = old(self).size.spec_mul(w);
            old(self).size.lemma_spec_mul_wf(w);
            sw.lemma_spec_div_wf(h);
            sw.spec_div(h).lemma_spec_div_wf(w);
            old(self).size.lemma_spec_div_wf(h);
        }
    }

    /// Replaces the string and its rasterized texture; resizes the node
    /// by the aspect law and, once loaded, defers the texture upload to
    /// the next render.
    pub fn set_text(&mut self, text: String, texture: Texture)
        requires
            texture.wf(),
            texture.dimensions.x > 0,
            texture.dimensions.y > 0,
            old(self).node.wf(),
            old(self).size.wf(),
            aspect_ok(old(self).size, texture.dimensions),
        ensures
            final(self).node.wf(),
            *final(self) == (Text {
                text,
                texture,
                node: old(self).node.spec_set_scale(
                    spec_aspect_scale(old(self).size, texture.dimensions),
                ),
                update_text: old(self).has_loaded || old(self).update_text,
                ..*old(self)
            }),
    {
        self.text = text;
        self.texture = texture;
        self.apply_aspect_size();
        if self.has_loaded {
            self.update_text = true;
        }
    }

    /// Replaces the colour and its rasterized texture; the node keeps
    /// its size, and the texture upload is deferred to the next render.
    pub fn set_color(&mut self, color: Color, texture: Texture)
        requires
            texture.wf(),
        ensures
            *final(self) == (Text { color, texture, update_text: true, ..*old(self) }),
    {
        self.color = color;
        self.texture = texture;
        self.update_text = true;
    }
}

impl Node2D for Text {
    open spec fn nview(&self) -> NodeObject2D {
        self.node
    }

    open spec fn with_nview(self, node: NodeObject2D) -> Text {
        Text { node, ..self }
    }

    fn get_node_obj(&self) -> (r: &NodeObject2D) {
        &self.node
    }

    fn get_node_obj_mut(&mut self) -> (r: &mut NodeObject2D) {
        &mut self.node
    }

    fn set_pos(&mut self, pos: Vector2) {
        self.node.set_pos(pos);
    }

    fn get_pos(&self) -> (r: Vector2) {
        self.node.get_pos()
    }

    fn set_scale(&mut self, scale: Vector2) {
        self.node.set_scale(scale);
    }

    fn get_scale(&self) -> (r: Vector2) {
        self.node.get_scale()
    }

    fn set_trans(&mut self, trans: Mat4) {
        self.node.set_trans(trans);
    }

    fn get_trans(&self) -> (r: Mat4) {
        self.node.get_trans()
    }
}

impl SizedNode2D for Text {
    open spec fn fixed_size_of(&self) -> Vector2 {
        self.spec_fixed_size()
    }

    fn get_fixed_size(&self) -> (r: Vector2) {
        Vector2 {
            x: Scalar::from_int(self.texture.dimensions.x as i64),
            y: Scalar::from_int(self.texture.dimensions.y as i64),
        }
    }
}

impl Drawable for Text {
    open spec fn loaded(&self) -> bool {
        self.has_loaded
    }

    open spec fn load_req(&self, engine: &FlatEngine) -> bool {
        &&& self.wf()
        &&& engine.renderer.counters_ok()
    }

    open spec fn load_ens(&self, new_self: &Self, engine: &FlatEngine, new_engine: &FlatEngine) -> bool {
        &&& new_self.node == self.node
        &&& new_self.text == self.text
        &&& new_self.texture == self.texture
        &&& new_self.size == self.size
        &&& new_self.color == self.color
        &&& new_self.update_text == self.update_text
        &&& new_self.has_loaded
        &&& new_self.vertices.data@ == spec_quad(
            Rect {
                x: Scalar::spec_zero(),
                y: Scalar::spec_zero(),
                width: self.spec_fixed_size().x,
                height: self.spec_fixed_size().y,
            },
        )
        &&& match new_self.texture_renderer {
            Some(r) => {
                &&& r.vertices == new_self.vertices
                &&& r.texture.data@ == self.texture.data@
                &&& r.texture.dimensions == self.texture.dimensions
                &&& r.vertex_uploads == 0
                &&& r.texture_uploads == 0
                &&& r.draws == 0
                &&& r.last_draw is None
            },
            None => false,
        }
        &&& *new_engine == (FlatEngine {
            renderer: engine.renderer.spec_record_buffer_upload().spec_record_texture_upload(),
            ..*engine
        })
        &&& new_self.wf()
    }

    open spec fn render_req(&self, engine: &FlatEngine) -> bool {
        &&& self.wf()
        &&& self.rect_ok()
        &&& engine.renderer.counters_ok()
        &&& match self.texture_renderer {
            Some(r) => r.counters_ok(),
            None => true,
        }
    }

    open spec fn render_ens(&self, new_self: &Self, engine: &FlatEngine, new_engine: &FlatEngine) -> bool {
        let geometry_stale = self.node.values_changed || self.update_text;
        let texture_changed = self.update_text;
        &&& new_self.node == self.node.spec_acknowledged()
        &&& new_self.text == self.text
        &&& new_self.texture == self.texture
        &&& new_self.size == self.size
        &&& new_self.color == self.color
        &&& new_self.has_loaded
        &&& !new_self.update_text
        &&& (geometry_stale ==> new_self.vertices.data@ == spec_quad(self.spec_rect()))
        &&& (!geometry_stale ==> new_self.vertices == self.vertices)
        &&& match (self.texture_renderer, new_self.texture_renderer) {
            (Some(r0), Some(r1)) => {
                &&& r1.vertices == (if geometry_stale {
                    new_self.vertices
                } else {
                    r0.vertices
                })
                &&& (texture_changed ==> r1.texture.data@ == self.texture.data@
                    && r1.texture.dimensions == self.texture.dimensions)
                &&& (!texture_changed ==> r1.texture == r0.texture)
                &&& r1.vertex_uploads == r0.vertex_uploads + (if geometry_stale {
                    1int
                } else {
                    0int
                })
                &&& r1.texture_uploads == r0.texture_uploads + (if texture_changed {
                    1int
                } else {
                    0int
                })
                &&& r1.draws == r0.draws + 1
                &&& r1.last_draw == Some(
                    DrawTransforms {
                        model: self.node.trans,
                        view: engine.renderer.camera.view,
                        projection: engine.renderer.camera.projection,
                    },
                )
            },
            _ => false,
        }
        &&& *new_engine == (FlatEngine {
            renderer: Renderer {
                draw_calls: (engine.renderer.draw_calls + 1) as u64,
                flushes: (engine.renderer.flushes + 1) as u64,
                buffer_uploads: (engine.renderer.buffer_uploads + (if geometry_stale {
                    1int
                } else {
                    0int
                })) as u64,
                texture_uploads: (engine.renderer.texture_uploads + (if texture_changed {
                    1int
                } else {
                    0int
                })) as u64,
                ..engine.renderer
            },
            ..*engine
        })
        &&& new_self.wf()
    }

    open spec fn destroy_ens(&self, new_self: &Self, engine: &FlatEngine, new_engine: &FlatEngine) -> bool {
        &&& *new_self == (Text { texture_renderer: None, has_loaded: false, ..*self })
        &&& *new_engine == *engine
    }

    /// Lays out the quad over the intrinsic rectangle at the origin and
    /// allocates the GPU objects.
    fn load(&mut self, engine: &mut FlatEngine) {
        let fixed: Vector2 = self.get_fixed_size();
        let rect: Rect = Rect {
            x: Scalar::zero(),
            y: Scalar::zero(),
            width: fixed.x,
            height: fixed.y,
        };
        proof {
            assert(rect.x.add_ok(rect.width));
            assert(rect.y.add_ok(rect.height));
        }
        self.vertices = UvVertexArray::from_rect(&rect);
        let created: TextureRenderer = TextureRenderer::create(
            &self.texture,
            &self.vertices,
            &mut engine.renderer,
        );
        self.texture_renderer = Some(created);
        self.has_loaded = true;
    }

    /// Re-uploads exactly what is stale: the regenerated texture if the
    /// text, colour or size changed, and the quad if either the node
    /// moved or the texture (and with it the intrinsic size) changed;
    /// then draws with the node transform under the engine's camera.
    fn render(&mut self, engine: &mut FlatEngine) {
        let geometry_changed: bool = self.node.acknowledge_changed();
        let text_changed: bool = self.update_text;
        if text_changed {
            match &mut self.texture_renderer {
                Some(r) => r.update_texture(&self.texture, &mut engine.renderer),
                None => {},
            }
            self.update_text = false;
        }
        if geometry_changed || text_changed {
            let rect: Rect = self.get_rect();
            self.vertices = UvVertexArray::from_rect(&rect);
            match &mut self.texture_renderer {
                Some(r) => r.update_vertices(&self.vertices, &mut engine.renderer),
                None => {},
            }
        }
        let model: Mat4 = self.node.get_trans();
        let view: Mat4 = engine.renderer.camera.view;
        let projection: Mat4 = engine.renderer.camera.projection;
        match &mut self.texture_renderer {
            Some(r) => r.render(model, view, projection, engine),
            None => {},
        }
    }

    /// Releases the GPU objects.
    fn destroy(&mut self, engine: &mut FlatEngine) {
        self.texture_renderer = None;
        self.has_loaded = false;
    }
}

/// The aspect-size law: for a texture of pixel dimensions `(w, h)` and
/// point size `s`, the displayed size a text node takes after a text
/// change equals `(s * w / h, s)` as a value: the scale stored by the
/// aspect law times the intrinsic size gives back exactly that size.
pub proof fn lemma_text_aspect_size(size: Scalar, dims: TexDimensions)
    requires
        size.wf(),
        dims.x > 0,
        dims.y > 0,
        aspect_ok(size, dims),
        (Scalar { num: dims.x as i64, den: 1 }).mul_ok(spec_aspect_scale(size, dims).x),
        (Scalar { num: dims.y as i64, den: 1 }).mul_ok(spec_aspect_scale(size, dims).y),
    ensures
        (Scalar { num: dims.x as i64, den: 1 }).spec_mul(spec_aspect_scale(size, dims).x).eq_val(
            spec_aspect_size(size, dims).x,
        ),
        (Scalar { num: dims.y as i64, den: 1 }).spec_mul(spec_aspect_scale(size, dims).y).eq_val(
            spec_aspect_size(size, dims).y,
        ),
{
    let w = Scalar { num: dims.x as i64, den: 1 };
    let h = Scalar { num: dims.y as i64, den: 1 };
    size.lemma_spec_mul_wf(w);
    size.spec_mul(w).lemma_spec_div_wf(h);
    crate::node::lemma_set_size_get_size(
        Vector2 { x: w, y: h },
        spec_aspect_size(size, dims),
    );
}

} // verus!
