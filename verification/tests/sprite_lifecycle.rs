use flat_engine::engine::Drawable;
use flat_engine::engine::FlatEngine;
use flat_engine::node::Node2D;
use flat_engine::render::Sprite;
use flat_engine::render::Texture;
use flat_engine::render::UvVertexArray;
use flat_engine::scalar::Scalar;
use flat_engine::types::Rect;
use flat_engine::types::Vector2;

fn test_engine() -> FlatEngine {
    FlatEngine::init(Vector2::from_ints(800, 600))
}

fn opaque_texture(width: u16, height: u16) -> Texture {
    let data = vec![255u8; 4 * width as usize * height as usize];
    Texture::from_data(&data, width, height)
}

#[test]
fn sprite_starts_unloaded() {
    let sprite = Sprite::new();
    assert!(!sprite.has_loaded);
    assert!(sprite.texture_renderer.is_none());
    assert!(!sprite.update_texture);
}

#[test]
fn sprite_load_allocates_and_uploads_once() {
    let mut engine = test_engine();
    let mut sprite = Sprite::from_texture(opaque_texture(64, 64));
    sprite.load(&mut engine);
    assert!(sprite.has_loaded);
    let renderer = sprite.texture_renderer.as_ref().unwrap();
    assert_eq!(renderer.vertex_uploads, 0);
    assert_eq!(renderer.texture_uploads, 0);
    assert_eq!(renderer.draws, 0);
    assert_eq!(engine.renderer.buffer_uploads, 1);
    assert_eq!(engine.renderer.texture_uploads, 1);
    // The quad covers the intrinsic rectangle at the origin.
    assert_eq!(renderer.vertices.data[0].pos.x.num, 0);
    assert!(renderer.vertices.data[3].pos.x.equals(&Scalar { num: 64, den: 1 }));
    assert!(renderer.vertices.data[3].pos.y.equals(&Scalar { num: 64, den: 1 }));
}

#[test]
fn sprite_render_without_mutation_never_reuploads() {
    let mut engine = test_engine();
    let mut sprite = Sprite::from_texture(opaque_texture(64, 64));
    sprite.load(&mut engine);
    sprite.render(&mut engine);
    sprite.render(&mut engine);
    sprite.render(&mut engine);
    let renderer = sprite.texture_renderer.as_ref().unwrap();
    assert_eq!(renderer.vertex_uploads, 0);
    assert_eq!(renderer.texture_uploads, 0);
    assert_eq!(renderer.draws, 3);
    assert_eq!(engine.renderer.draw_calls, 3);
    assert_eq!(engine.renderer.flushes, 3);
    // Still only the initial uploads from load.
    assert_eq!(engine.renderer.buffer_uploads, 1);
    assert_eq!(engine.renderer.texture_uploads, 1);
}

#[test]
fn sprite_move_triggers_exactly_one_vertex_reupload() {
    let mut engine = test_engine();
    let mut sprite = Sprite::from_texture(opaque_texture(64, 64));
    sprite.set_pos(Vector2::from_ints(0, 0));
    sprite.load(&mut engine);
    sprite.render(&mut engine);
    let before = {
        let renderer = sprite.texture_renderer.as_ref().unwrap();
        let quad = renderer.vertices;
        assert_eq!(renderer.vertex_uploads, 1);
        quad
    };
    sprite.set_pos(Vector2::from_ints(5, 5));
    sprite.render(&mut engine);
    let renderer = sprite.texture_renderer.as_ref().unwrap();
    assert_eq!(renderer.vertex_uploads, 2);
    assert_eq!(renderer.texture_uploads, 0);
    // Each vertex moved by exactly (5, 5) relative to the pre-move layout.
    for i in 0..6 {
        let old_v = before.data[i];
        let new_v = renderer.vertices.data[i];
        let moved_x = old_v.pos.x.add(Scalar::from_int(5));
        let moved_y = old_v.pos.y.add(Scalar::from_int(5));
        assert!(new_v.pos.x.equals(&moved_x));
        assert!(new_v.pos.y.equals(&moved_y));
        assert!(new_v.uv.x.equals(&old_v.uv.x));
        assert!(new_v.uv.y.equals(&old_v.uv.y));
    }
    // A further render with no mutation uploads nothing more.
    sprite.render(&mut engine);
    let renderer = sprite.texture_renderer.as_ref().unwrap();
    assert_eq!(renderer.vertex_uploads, 2);
}

#[test]
fn sprite_set_texture_defers_upload_to_render() {
    let mut engine = test_engine();
    let mut sprite = Sprite::from_texture(opaque_texture(8, 8));
    sprite.load(&mut engine);
    sprite.render(&mut engine);
    sprite.set_texture(opaque_texture(8, 8));
    assert!(sprite.update_texture);
    {
        let renderer = sprite.texture_renderer.as_ref().unwrap();
        assert_eq!(renderer.texture_uploads, 0);
    }
    sprite.render(&mut engine);
    let renderer = sprite.texture_renderer.as_ref().unwrap();
    assert_eq!(renderer.texture_uploads, 1);
    // Same dimensions: the quad was not re-laid-out.
    assert_eq!(renderer.vertex_uploads, 0);
    assert!(!sprite.update_texture);
}

#[test]
fn sprite_set_texture_new_dimensions_relayouts_quad() {
    let mut engine = test_engine();
    let mut sprite = Sprite::from_texture(opaque_texture(8, 8));
    sprite.load(&mut engine);
    sprite.render(&mut engine);
    sprite.set_texture(opaque_texture(16, 4));
    sprite.render(&mut engine);
    let renderer = sprite.texture_renderer.as_ref().unwrap();
    assert_eq!(renderer.texture_uploads, 1);
    assert_eq!(renderer.vertex_uploads, 1);
    assert!(renderer.vertices.data[3].pos.x.equals(&Scalar { num: 16, den: 1 }));
    assert!(renderer.vertices.data[3].pos.y.equals(&Scalar { num: 4, den: 1 }));
}

#[test]
fn sprite_set_texture_before_load_is_silent() {
    let mut sprite = Sprite::new();
    sprite.set_texture(opaque_texture(8, 8));
    assert!(!sprite.update_texture);
    assert_eq!(sprite.texture.dimensions.x, 8);
}

#[test]
fn sprite_destroy_releases_resources() {
    let mut engine = test_engine();
    let mut sprite = Sprite::from_texture(opaque_texture(8, 8));
    sprite.load(&mut engine);
    sprite.destroy(&mut engine);
    assert!(!sprite.has_loaded);
    assert!(sprite.texture_renderer.is_none());
}

#[test]
fn sprite_render_records_camera_transforms() {
    let mut engine = test_engine();
    let mut sprite = Sprite::from_texture(opaque_texture(8, 8));
    sprite.load(&mut engine);
    sprite.render(&mut engine);
    let renderer = sprite.texture_renderer.as_ref().unwrap();
    let draw = renderer.last_draw.as_ref().unwrap();
    // Model transform is the node transform; view and projection come
    // from the engine camera.
    assert_eq!(draw.model.w.x.num, 0);
    assert!(draw.projection.x.x.equals(&Scalar { num: 1, den: 400 }));
    assert!(draw.view.x.x.equals(&Scalar { num: 1, den: 1 }));
}

#[test]
fn quad_from_rect_positions_and_uvs() {
    let rect = Rect::new(
        Scalar::from_int(0),
        Scalar::from_int(0),
        Scalar::from_int(10),
        Scalar::from_int(20),
    );
    let quad = UvVertexArray::from_rect(&rect);
    let expected_pos = [(0, 0), (10, 0), (0, 20), (10, 20), (10, 0), (0, 20)];
    let expected_uv = [(0, 1), (1, 1), (0, 0), (1, 0), (1, 1), (0, 0)];
    for i in 0..6 {
        assert!(quad.data[i].pos.x.equals(&Scalar::from_int(expected_pos[i].0)));
        assert!(quad.data[i].pos.y.equals(&Scalar::from_int(expected_pos[i].1)));
        assert!(quad.data[i].uv.x.equals(&Scalar::from_int(expected_uv[i].0)));
        assert!(quad.data[i].uv.y.equals(&Scalar::from_int(expected_uv[i].1)));
    }
}

#[test]
fn quad_zero_is_all_zero() {
    let quad = UvVertexArray::zero();
    for i in 0..6 {
        assert_eq!(quad.data[i].pos.x.num, 0);
        assert_eq!(quad.data[i].pos.y.num, 0);
        assert_eq!(quad.data[i].uv.x.num, 0);
        assert_eq!(quad.data[i].uv.y.num, 0);
    }
}

#[test]
fn texture_from_data_and_duplicate() {
    let bytes: Vec<u8> = (0u8..16u8).collect();
    let t = Texture::from_data(&bytes, 2, 2);
    assert_eq!(t.dimensions.x, 2);
    assert_eq!(t.dimensions.y, 2);
    assert_eq!(t.data, bytes);
    let copy = t.duplicate();
    assert_eq!(copy.data, t.data);
    assert_eq!(copy.dimensions, t.dimensions);
}

#[test]
fn texture_new_is_single_transparent_pixel() {
    let t = Texture::new();
    assert_eq!(t.dimensions.x, 1);
    assert_eq!(t.dimensions.y, 1);
    assert_eq!(t.data, vec![0, 0, 0, 0]);
}
