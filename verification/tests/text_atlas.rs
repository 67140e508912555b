use flat_engine::engine::Drawable;
use flat_engine::engine::FlatEngine;
use flat_engine::node::Node2D;
use flat_engine::node::SizedNode2D;
use flat_engine::render::Texture;
use flat_engine::scalar::Scalar;
use flat_engine::text::text_atlas_dims;
use flat_engine::text::GlyphBitmap;
use flat_engine::text::Text;
use flat_engine::types::Color;
use flat_engine::types::Vector2;

fn pixel(texture: &Texture, x: usize, y: usize) -> (u8, u8, u8, u8) {
    let base = 4 * (y * texture.dimensions.x as usize + x);
    (
        texture.data[base],
        texture.data[base + 1],
        texture.data[base + 2],
        texture.data[base + 3],
    )
}

fn opaque_texture(width: u16, height: u16) -> Texture {
    let data = vec![255u8; 4 * width as usize * height as usize];
    Texture::from_data(&data, width, height)
}

#[test]
fn from_glyphs_single_glyph_coverage() {
    let glyph = GlyphBitmap {
        min_x: 1,
        min_y: 1,
        width: 2,
        height: 2,
        coverage: vec![10, 20, 30, 40],
    };
    let atlas = Texture::from_glyphs(&vec![glyph], 4, 4, &Color::white());
    assert_eq!(atlas.dimensions.x, 4);
    assert_eq!(atlas.dimensions.y, 4);
    assert_eq!(atlas.data.len(), 64);
    assert_eq!(pixel(&atlas, 1, 1), (255, 255, 255, 10));
    assert_eq!(pixel(&atlas, 2, 1), (255, 255, 255, 20));
    assert_eq!(pixel(&atlas, 1, 2), (255, 255, 255, 30));
    assert_eq!(pixel(&atlas, 2, 2), (255, 255, 255, 40));
    // Every pixel outside the glyph box stays fully transparent zero.
    assert_eq!(pixel(&atlas, 0, 0), (0, 0, 0, 0));
    assert_eq!(pixel(&atlas, 3, 1), (0, 0, 0, 0));
    assert_eq!(pixel(&atlas, 1, 3), (0, 0, 0, 0));
}

#[test]
fn from_glyphs_later_glyph_overwrites() {
    let first = GlyphBitmap {
        min_x: 0,
        min_y: 0,
        width: 2,
        height: 1,
        coverage: vec![100, 101],
    };
    let second = GlyphBitmap {
        min_x: 1,
        min_y: 0,
        width: 2,
        height: 1,
        coverage: vec![200, 201],
    };
    let atlas = Texture::from_glyphs(&vec![first, second], 3, 1, &Color::white());
    assert_eq!(pixel(&atlas, 0, 0).3, 100);
    // The overlapping pixel takes the later glyph's coverage, even though
    // the earlier glyph also wrote it.
    assert_eq!(pixel(&atlas, 1, 0).3, 200);
    assert_eq!(pixel(&atlas, 2, 0).3, 201);
}

#[test]
fn from_glyphs_colour_channels_scale() {
    let glyph = GlyphBitmap {
        min_x: 0,
        min_y: 0,
        width: 1,
        height: 1,
        coverage: vec![255],
    };
    let color = Color {
        r: Scalar { num: 1, den: 2 },
        g: Scalar { num: 1, den: 4 },
        b: Scalar { num: 1, den: 5 },
        a: Scalar { num: 1, den: 1 },
    };
    let atlas = Texture::from_glyphs(&vec![glyph], 1, 1, &color);
    assert_eq!(pixel(&atlas, 0, 0), (127, 63, 51, 255));
}

#[test]
fn from_glyphs_empty_list_is_transparent() {
    let atlas = Texture::from_glyphs(&Vec::new(), 2, 2, &Color::white());
    for y in 0..2 {
        for x in 0..2 {
            assert_eq!(pixel(&atlas, x, y), (0, 0, 0, 0));
        }
    }
}

#[test]
fn from_glyphs_glyph_filling_whole_atlas() {
    let glyph = GlyphBitmap {
        min_x: 0,
        min_y: 0,
        width: 2,
        height: 2,
        coverage: vec![1, 2, 3, 4],
    };
    let atlas = Texture::from_glyphs(&vec![glyph], 2, 2, &Color::white());
    assert_eq!(pixel(&atlas, 0, 0).3, 1);
    assert_eq!(pixel(&atlas, 1, 0).3, 2);
    assert_eq!(pixel(&atlas, 0, 1).3, 3);
    assert_eq!(pixel(&atlas, 1, 1).3, 4);
}

#[test]
fn atlas_dims_add_the_fixed_padding() {
    assert_eq!(text_atlas_dims(160, 60), Some((200, 100)));
    assert_eq!(text_atlas_dims(0, 0), Some((40, 40)));
    assert_eq!(text_atlas_dims(u16::MAX as u32 - 40, 0), Some((u16::MAX, 40)));
    assert_eq!(text_atlas_dims(u16::MAX as u32 - 39, 0), None);
    assert_eq!(text_atlas_dims(0, 70000), None);
}

#[test]
fn text_aspect_size_law() {
    // A 200 x 100 backing texture at point size 40 must display as
    // (40 * 200/100, 40) = (80, 40).
    let texture = opaque_texture(200, 100);
    let text = Text::new("hello", Scalar::from_int(40), Color::white(), texture);
    let size = text.get_size();
    assert!(size.x.equals(&Scalar { num: 80, den: 1 }));
    assert!(size.y.equals(&Scalar { num: 40, den: 1 }));
}

#[test]
fn text_aspect_size_fractional() {
    let texture = opaque_texture(30, 40);
    let text = Text::new("hi", Scalar::from_int(10), Color::white(), texture);
    let size = text.get_size();
    // 10 * 30/40 = 15/2.
    assert!(size.x.equals(&Scalar { num: 15, den: 2 }));
    assert!(size.y.equals(&Scalar { num: 10, den: 1 }));
}

#[test]
fn text_starts_clean_and_unloaded() {
    let text = Text::new("abc", Scalar::from_int(12), Color::black(), opaque_texture(10, 10));
    assert_eq!(text.text, "abc");
    assert!(!text.update_text);
    assert!(!text.has_loaded);
    assert!(text.texture_renderer.is_none());
}

#[test]
fn text_set_text_before_load_keeps_flag_clear() {
    let mut text = Text::new("abc", Scalar::from_int(12), Color::black(), opaque_texture(10, 10));
    text.set_text(String::from("def"), opaque_texture(20, 10));
    assert_eq!(text.text, "def");
    assert!(!text.update_text);
    // The node size follows the new texture's aspect ratio.
    let size = text.get_size();
    assert!(size.x.equals(&Scalar { num: 24, den: 1 }));
    assert!(size.y.equals(&Scalar { num: 12, den: 1 }));
}

#[test]
fn text_set_text_after_load_reuploads_once() {
    let mut engine = FlatEngine::init(Vector2::from_ints(800, 600));
    let mut text = Text::new("abc", Scalar::from_int(12), Color::black(), opaque_texture(10, 10));
    text.load(&mut engine);
    text.render(&mut engine);
    {
        let renderer = text.texture_renderer.as_ref().unwrap();
        assert_eq!(renderer.texture_uploads, 0);
        assert_eq!(renderer.vertex_uploads, 0);
        assert_eq!(renderer.draws, 1);
    }
    text.set_text(String::from("defg"), opaque_texture(20, 10));
    assert!(text.update_text);
    text.render(&mut engine);
    let renderer = text.texture_renderer.as_ref().unwrap();
    assert_eq!(renderer.texture_uploads, 1);
    assert_eq!(renderer.vertex_uploads, 1);
    assert_eq!(renderer.draws, 2);
    assert!(!text.update_text);
    assert_eq!(renderer.texture.dimensions.x, 20);
}

#[test]
fn text_set_color_defers_one_texture_upload() {
    let mut engine = FlatEngine::init(Vector2::from_ints(800, 600));
    let mut text = Text::new("abc", Scalar::from_int(12), Color::black(), opaque_texture(10, 10));
    text.load(&mut engine);
    text.render(&mut engine);
    text.set_color(Color::red(), opaque_texture(10, 10));
    assert!(text.update_text);
    text.render(&mut engine);
    let renderer = text.texture_renderer.as_ref().unwrap();
    assert_eq!(renderer.texture_uploads, 1);
    assert!(!text.update_text);
}

#[test]
fn text_move_reuploads_quad() {
    let mut engine = FlatEngine::init(Vector2::from_ints(800, 600));
    let mut text = Text::new("abc", Scalar::from_int(12), Color::black(), opaque_texture(10, 10));
    text.load(&mut engine);
    text.render(&mut engine);
    let uploads_after_first = text.texture_renderer.as_ref().unwrap().vertex_uploads;
    text.set_pos(Vector2::from_ints(3, 4));
    text.render(&mut engine);
    let renderer = text.texture_renderer.as_ref().unwrap();
    assert_eq!(renderer.vertex_uploads, uploads_after_first + 1);
    assert_eq!(renderer.texture_uploads, 0);
    // The re-laid quad starts at the new position.
    assert!(renderer.vertices.data[0].pos.x.equals(&Scalar { num: 3, den: 1 }));
    assert!(renderer.vertices.data[0].pos.y.equals(&Scalar { num: 4, den: 1 }));
}

#[test]
fn text_destroy_releases_resources() {
    let mut engine = FlatEngine::init(Vector2::from_ints(800, 600));
    let mut text = Text::new("abc", Scalar::from_int(12), Color::black(), opaque_texture(10, 10));
    text.load(&mut engine);
    text.destroy(&mut engine);
    assert!(!text.has_loaded);
    assert!(text.texture_renderer.is_none());
}
