use g_engine::command::{quad_vertices, Command, ShaderKind, Surface};
use g_engine::engine::{Engine, EngineError, Event, Rect};
use g_engine::layer::Layer;
use g_engine::letterbox::{letterbox_scale, Scale, Size};
use g_engine::staticlayer::{Mat, StaticLayer, BAKE_CLEAR_COLOR};
use g_engine::tile::{atlas_cell, AtlasCell, AtlasTexel, TileMap, TILES_PER_ATLAS};

fn rect(w: i32, h: i32) -> Rect {
    Rect { x: 50, y: 50, w, h }
}

fn engine(w: i32, h: i32) -> Engine {
    match Engine::new(7, rect(w, h), Size { w: 320, h: 180 }) {
        Ok(e) => e,
        Err(_) => panic!("engine"),
    }
}

fn layers(e: &Engine, handles: &[u64]) -> Vec<StaticLayer> {
    let image = Mat { width: 1, height: 1, pixels: vec![0xFF12_3456] };
    handles
        .iter()
        .map(|h| StaticLayer::new_from_mat(e, &image, *h, *h + 1000).unwrap().0)
        .collect()
}

fn layer_block(handle: u64) -> Vec<Command> {
    vec![
        Command::BindTexture(0, Surface::Layer(handle)),
        Command::BindShader(ShaderKind::LayerBlit),
        Command::SetTextureSlot(0),
        Command::BindQuad,
        Command::DrawTriangleFan(4),
    ]
}

fn final_block(id: u64, scale: Scale) -> Vec<Command> {
    vec![
        Command::BindTarget(Surface::Window(id)),
        Command::BindTexture(0, Surface::Virtual),
        Command::SetScale(scale),
        Command::BindShader(ShaderKind::FinalBlit),
        Command::SetTextureSlot(0),
        Command::BindQuad,
        Command::DrawTriangleFan(4),
    ]
}

#[test]
fn letterbox_wide_virtual_in_four_by_three_window() {
    let s = letterbox_scale(Size { w: 1920, h: 1080 }, 800, 600).unwrap();
    assert_eq!(s.x_num, s.x_den);
    assert_eq!(s.y_num as f64 / s.y_den as f64, 0.75);
    assert_eq!(s, Scale { x_num: 1, x_den: 1, y_num: 864000, y_den: 1152000 });
}

#[test]
fn letterbox_wider_window_pillarboxes() {
    let s = letterbox_scale(Size { w: 320, h: 180 }, 1000, 100).unwrap();
    assert_eq!(s.y_num, s.y_den);
    assert_eq!(s, Scale { x_num: 32000, x_den: 180000, y_num: 1, y_den: 1 });
    assert!(s.x_num < s.x_den);
}

#[test]
fn letterbox_same_aspect_is_identity() {
    let s = letterbox_scale(Size { w: 320, h: 180 }, 640, 360).unwrap();
    assert_eq!(s.x_num, s.x_den);
    assert_eq!(s.y_num, s.y_den);
}

#[test]
fn letterbox_keeps_virtual_aspect() {
    let s = letterbox_scale(Size { w: 16, h: 9 }, 1000, 1000).unwrap();
    let shown_w = s.x_num as f64 / s.x_den as f64 * 1000.0;
    let shown_h = s.y_num as f64 / s.y_den as f64 * 1000.0;
    assert!((shown_w / shown_h - 16.0 / 9.0).abs() < 1e-9);
    assert!(s.x_num <= s.x_den && s.y_num <= s.y_den);
}

#[test]
fn letterbox_zero_or_negative_window_has_no_scale() {
    let fb = Size { w: 320, h: 180 };
    assert_eq!(letterbox_scale(fb, 0, 100), None);
    assert_eq!(letterbox_scale(fb, 100, 0), None);
    assert_eq!(letterbox_scale(fb, -5, 100), None);
    assert_eq!(letterbox_scale(Size { w: 0, h: 180 }, 100, 100), None);
}

#[test]
fn atlas_cell_row_major() {
    assert_eq!(TILES_PER_ATLAS, 32);
    assert_eq!(atlas_cell(0), Some(AtlasCell { row: 0, col: 0 }));
    assert_eq!(atlas_cell(33), Some(AtlasCell { row: 1, col: 1 }));
    assert_eq!(atlas_cell(1023), Some(AtlasCell { row: 31, col: 31 }));
    assert_eq!(atlas_cell(31), Some(AtlasCell { row: 0, col: 31 }));
    assert_eq!(atlas_cell(32), Some(AtlasCell { row: 1, col: 0 }));
}

#[test]
fn atlas_cell_rejects_index_outside_atlas() {
    assert_eq!(atlas_cell(1024), None);
    assert_eq!(atlas_cell(u32::MAX), None);
}

#[test]
fn tile_map_new_checks_shape() {
    assert!(TileMap::new(2, 2, vec![0, 1, 2, 3]).is_some());
    assert!(TileMap::new(2, 2, vec![0, 1, 2]).is_none());
    assert!(TileMap::new(0, 2, vec![]).is_none());
    assert!(TileMap::new(2, 0, vec![]).is_none());
}

#[test]
fn tile_map_tile_at_is_row_major() {
    let m = TileMap::new(3, 2, vec![10, 11, 12, 20, 21, 22]).unwrap();
    assert_eq!(m.tile_at(0, 0), 10);
    assert_eq!(m.tile_at(2, 0), 12);
    assert_eq!(m.tile_at(1, 1), 21);
}

#[test]
fn resolve_maps_pixel_into_atlas_cell() {
    // 2x2 map, tiles of 8 pixels: cell (1,0) holds tile 33 (row 1, col 1).
    let m = TileMap::new(2, 2, vec![0, 33, 1023, 5]).unwrap();
    assert_eq!(m.resolve(8, 0, 0, 3, 4), Some(AtlasTexel { x: 3, y: 4 }));
    assert_eq!(m.resolve(8, 0, 0, 10, 6), Some(AtlasTexel { x: 8 + 2, y: 8 + 6 }));
    assert_eq!(m.resolve(8, 0, 0, 1, 9), Some(AtlasTexel { x: 31 * 8 + 1, y: 31 * 8 + 1 }));
}

#[test]
fn resolve_applies_offset_and_repeats_map() {
    let m = TileMap::new(2, 2, vec![0, 33, 1023, 5]).unwrap();
    // Offset of one tile right: pixel 0 lands in cell (1,0).
    assert_eq!(m.resolve(8, 8, 0, 0, 0), Some(AtlasTexel { x: 8, y: 8 }));
    // Pixel 17 is in cell 2, which repeats to cell 0.
    assert_eq!(m.resolve(8, 0, 0, 17, 0), Some(AtlasTexel { x: 1, y: 0 }));
}

#[test]
fn resolve_rejects_index_outside_atlas() {
    let m = TileMap::new(1, 1, vec![1024]).unwrap();
    assert_eq!(m.resolve(8, 0, 0, 0, 0), None);
}

#[test]
fn engine_new_rejects_empty_framebuffer() {
    assert!(matches!(Engine::new(1, rect(10, 10), Size { w: 0, h: 10 }), Err(EngineError::Generic)));
    assert!(matches!(Engine::new(1, rect(10, 10), Size { w: 10, h: 0 }), Err(EngineError::Generic)));
}

#[test]
fn engine_new_starts_running() {
    let e = engine(640, 480);
    assert!(e.is_running());
    assert_eq!(e.id(), 7);
    assert_eq!(e.rect(), rect(640, 480));
    assert_eq!(e.framebuffer_size(), Size { w: 320, h: 180 });
}

#[test]
fn close_stops_engine_for_good() {
    let mut e = engine(640, 480);
    e.handle(Event::Other);
    assert!(e.is_running());
    e.handle(Event::Close);
    assert!(!e.is_running());
    e.handle(Event::Other);
    e.handle(Event::Configure(rect(100, 100)));
    assert!(!e.is_running());
    e.update(&vec![Event::Other, Event::Other]);
    assert!(!e.is_running());
}

#[test]
fn update_handles_events_in_order() {
    let mut e = engine(640, 480);
    e.update(&vec![Event::Configure(rect(100, 200)), Event::Other, Event::Configure(rect(300, 400))]);
    assert_eq!(e.rect(), rect(300, 400));
    assert!(e.is_running());
    e.update(&vec![Event::Close]);
    assert!(!e.is_running());
}

#[test]
fn set_rect_replaces_window_rect() {
    let mut e = engine(640, 480);
    e.set_rect(Rect { x: 1, y: 2, w: 3, h: 4 });
    assert_eq!(e.rect(), Rect { x: 1, y: 2, w: 3, h: 4 });
}

#[test]
fn render_composites_layers_in_order_then_blits() {
    let e = engine(640, 480);
    let frame = e.render(&layers(&e, &[11, 22]));
    let mut expected = vec![Command::BindTarget(Surface::Virtual)];
    expected.extend(layer_block(11));
    expected.extend(layer_block(22));
    let scale = Scale { x_num: 1, x_den: 1, y_num: 640 * 180, y_den: 480 * 320 };
    expected.extend(final_block(7, scale));
    assert_eq!(frame, expected);
}

#[test]
fn render_later_layer_drawn_last() {
    let e = engine(640, 480);
    let frame = e.render(&layers(&e, &[1, 2]));
    let first = frame.iter().position(|c| *c == Command::BindTexture(0, Surface::Layer(1))).unwrap();
    let second = frame.iter().position(|c| *c == Command::BindTexture(0, Surface::Layer(2))).unwrap();
    assert!(first < second);
    let swapped = e.render(&layers(&e, &[2, 1]));
    assert_ne!(frame, swapped);
}

#[test]
fn render_twice_gives_same_frame() {
    let e = engine(800, 600);
    let stack = layers(&e, &[3, 4, 5]);
    assert_eq!(e.render(&stack), e.render(&stack));
}

#[test]
fn render_zero_window_skips_blit() {
    for (w, h) in [(0, 480), (640, 0), (0, 0)] {
        let e = engine(w, h);
        let frame = e.render(&layers(&e, &[9]));
        let mut expected = vec![Command::BindTarget(Surface::Virtual)];
        expected.extend(layer_block(9));
        assert_eq!(frame, expected);
    }
}

#[test]
fn render_without_layers_still_blits() {
    let e = engine(320, 180);
    let none: Vec<StaticLayer> = vec![];
    let frame = e.render(&none);
    let mut expected = vec![Command::BindTarget(Surface::Virtual)];
    expected.extend(final_block(7, Scale { x_num: 1, x_den: 1, y_num: 320 * 180, y_den: 180 * 320 }));
    assert_eq!(frame, expected);
}

#[test]
fn present_names_window() {
    let e = engine(320, 180);
    assert_eq!(e.present(), Command::Present(7));
}

#[test]
fn static_layer_bakes_image_once() {
    let e = engine(640, 480);
    let image = Mat { width: 2, height: 1, pixels: vec![0xFF00_0000, 0xFFFF_FFFF] };
    let (layer, bake) = StaticLayer::new_from_mat(&e, &image, 40, 41).unwrap();
    assert_eq!(bake, layer.bake_commands());
    assert_eq!(layer.framebuffer(), 40);
    assert_eq!(layer.size(), Size { w: 320, h: 180 });
    assert_eq!(
        layer.bake_commands(),
        vec![
            Command::BindTarget(Surface::Layer(40)),
            Command::Clear(BAKE_CLEAR_COLOR),
            Command::BindTexture(0, Surface::Image(41)),
            Command::BindShader(ShaderKind::StaticBake),
            Command::SetTextureSlot(0),
            Command::BindQuad,
            Command::DrawTriangleFan(4),
        ]
    );
    assert_eq!(BAKE_CLEAR_COLOR, 0xFFFFFF00);
    assert!(layer.render().is_empty());
}

#[test]
fn static_layer_rejects_bad_image() {
    let e = engine(640, 480);
    let empty = Mat { width: 0, height: 0, pixels: vec![] };
    assert!(matches!(StaticLayer::new_from_mat(&e, &empty, 1, 2), Err(EngineError::Generic)));
    let short = Mat { width: 2, height: 2, pixels: vec![0, 0, 0] };
    assert!(matches!(StaticLayer::new_from_mat(&e, &short, 1, 2), Err(EngineError::Generic)));
}

#[test]
fn run_frame_composites_then_presents() {
    let e = engine(320, 180);
    let stack = layers(&e, &[5]);
    let mut expected = e.render(&stack);
    expected.push(Command::Present(7));
    assert_eq!(e.run_frame(&stack), expected);
    assert_eq!(expected.len(), 1 + 5 + 7 + 1);
}

#[test]
fn run_frame_after_close_issues_nothing() {
    let mut e = engine(320, 180);
    let stack = layers(&e, &[5, 6]);
    e.handle(Event::Close);
    assert!(e.run_frame(&stack).is_empty());
}

#[test]
fn handle_ignores_everything_but_close() {
    let mut e = engine(640, 480);
    e.handle(Event::Configure(rect(100, 100)));
    assert_eq!(e.rect(), rect(640, 480));
    e.handle(Event::Other);
    assert_eq!(e.rect(), rect(640, 480));
    assert!(e.is_running());
}

#[test]
fn engine_quad_is_unit_square() {
    let e = engine(640, 480);
    assert_eq!(*e.quad(), vec![(0, 0), (1, 0), (1, 1), (0, 1)]);
    assert_eq!(quad_vertices(), vec![(0, 0), (1, 0), (1, 1), (0, 1)]);
}
