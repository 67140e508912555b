use flat_engine::engine::Camera;
use flat_engine::engine::FlatEngine;
use flat_engine::node::Node2D;
use flat_engine::node::SizedNode2D;
use flat_engine::render::Sprite;
use flat_engine::render::Texture;
use flat_engine::scalar::Scalar;
use flat_engine::types::Color;
use flat_engine::types::Vector2;
use flat_engine::types::Vector3;

fn opaque_texture(width: u16, height: u16) -> Texture {
    let data = vec![255u8; 4 * width as usize * height as usize];
    Texture::from_data(&data, width, height)
}

#[test]
fn ortho_projection_cells() {
    let cam = Camera::ortho(Vector2::from_ints(800, 600));
    // Diagonal: 2/width, 2/height, -2/(far - near) = 1/100.
    assert!(cam.projection.x.x.equals(&Scalar { num: 1, den: 400 }));
    assert!(cam.projection.y.y.equals(&Scalar { num: 1, den: 300 }));
    assert!(cam.projection.z.z.equals(&Scalar { num: 1, den: 100 }));
    // Last column maps the lower-left corner to clip space (-1, -1).
    assert!(cam.projection.w.x.equals(&Scalar { num: -1, den: 1 }));
    assert!(cam.projection.w.y.equals(&Scalar { num: -1, den: 1 }));
    assert!(cam.projection.w.z.equals(&Scalar { num: 0, den: 1 }));
    assert!(cam.projection.w.w.equals(&Scalar { num: 1, den: 1 }));
    // Off-diagonal scale cells are zero; the view starts as identity.
    assert_eq!(cam.projection.x.y.num, 0);
    assert_eq!(cam.projection.y.x.num, 0);
    assert_eq!(cam.view.x.x.num, 1);
    assert_eq!(cam.view.w.x.num, 0);
}

#[test]
fn camera_position_roundtrip() {
    let mut cam = Camera::ortho(Vector2::from_ints(800, 600));
    cam.set_pos(Vector3::from_ints(10, 20, 30));
    // The view carries the negated position.
    assert_eq!(cam.view.w.x.num, -10);
    assert_eq!(cam.view.w.y.num, -20);
    assert_eq!(cam.view.w.z.num, -30);
    let p = cam.get_pos();
    assert_eq!(p.x.num, 10);
    assert_eq!(p.y.num, 20);
    assert_eq!(p.z.num, 30);
}

#[test]
fn engine_init_state() {
    let engine = FlatEngine::init(Vector2::from_ints(640, 480));
    assert_eq!(engine.renderer.draw_calls, 0);
    assert_eq!(engine.renderer.flushes, 0);
    assert_eq!(engine.renderer.buffer_uploads, 0);
    assert_eq!(engine.renderer.texture_uploads, 0);
    assert!(engine.renderer.last_clear.is_none());
    assert_eq!(engine.frames, 0);
    let dims = engine.get_dimensions();
    assert_eq!(dims.x.num, 640);
    assert_eq!(dims.y.num, 480);
    assert!(engine.renderer.camera.projection.x.x.equals(&Scalar { num: 1, den: 320 }));
}

#[test]
fn engine_clear_records_colour() {
    let mut engine = FlatEngine::init(Vector2::from_ints(640, 480));
    engine.clear(Color::black());
    let cleared = engine.renderer.last_clear.as_ref().unwrap();
    assert_eq!(cleared.r.num, 0);
    assert_eq!(cleared.a.num, 1);
    engine.clear(Color::white());
    assert_eq!(engine.renderer.last_clear.as_ref().unwrap().r.num, 1);
}

#[test]
fn engine_swap_buffers_counts_frames() {
    let mut engine = FlatEngine::init(Vector2::from_ints(640, 480));
    engine.swap_buffers();
    engine.swap_buffers();
    assert_eq!(engine.frames, 2);
}

#[test]
fn engine_flush_counts() {
    let mut engine = FlatEngine::init(Vector2::from_ints(640, 480));
    engine.flush();
    assert_eq!(engine.renderer.flushes, 1);
}

#[test]
fn engine_update_size_regenerates_projection_keeps_view() {
    let mut engine = FlatEngine::init(Vector2::from_ints(640, 480));
    engine.renderer.camera.set_pos(Vector3::from_ints(5, 6, 7));
    engine.update_size(Vector2::from_ints(1000, 500));
    let dims = engine.get_dimensions();
    assert_eq!(dims.x.num, 1000);
    assert!(engine.renderer.camera.projection.x.x.equals(&Scalar { num: 1, den: 500 }));
    assert!(engine.renderer.camera.projection.y.y.equals(&Scalar { num: 1, den: 250 }));
    // The view transform survives the resize.
    assert_eq!(engine.renderer.camera.view.w.x.num, -5);
}

#[test]
fn engine_scale_multiplies_dimensions() {
    let engine = FlatEngine::init(Vector2::from_ints(640, 480));
    let scaled = engine.scale(Vector2 {
        x: Scalar { num: 1, den: 2 },
        y: Scalar { num: 1, den: 4 },
    });
    assert!(scaled.x.equals(&Scalar { num: 320, den: 1 }));
    assert!(scaled.y.equals(&Scalar { num: 120, den: 1 }));
}

#[test]
fn layout_sized_from_center_centres_the_node() {
    let engine = FlatEngine::init(Vector2::from_ints(800, 600));
    let mut sprite = Sprite::from_texture(opaque_texture(64, 64));
    let half = Scalar { num: 1, den: 2 };
    engine.layout_sized_from_center(&mut sprite, Vector2 { x: half, y: half });
    let p = sprite.get_pos();
    // 800 * 1/2 - 64/2 = 368; 600 * 1/2 - 64/2 = 268.
    assert!(p.x.equals(&Scalar { num: 368, den: 1 }));
    assert!(p.y.equals(&Scalar { num: 268, den: 1 }));
}

#[test]
fn engine_drives_drawables_through_the_lifecycle() {
    let mut engine = FlatEngine::init(Vector2::from_ints(800, 600));
    let mut sprite = Sprite::from_texture(opaque_texture(32, 32));
    engine.load(&mut sprite);
    assert!(sprite.has_loaded);
    engine.render(&mut sprite);
    engine.render(&mut sprite);
    assert_eq!(engine.renderer.draw_calls, 2);
    assert_eq!(sprite.texture_renderer.as_ref().unwrap().draws, 2);
    engine.destroy(&mut sprite);
    assert!(!sprite.has_loaded);
}
