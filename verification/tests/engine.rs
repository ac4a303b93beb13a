//! Tests of the volumetric view: axis cycling, cursor scrolling, pan,
//! zoom, windowing defaults, and the per-frame uniform derivation.

use voxview::slab::DEFAULT_IMAGE_WINDOW_LEVEL;
use voxview::slab::DEFAULT_IMAGE_WINDOW_WIDTH;
use voxview::slab::DEFAULT_MASK_WINDOW_LEVEL;
use voxview::slab::DEFAULT_MASK_WINDOW_WIDTH;
use voxview::transform::Transform2D;
use voxview::view::ElementState;
use voxview::view::KeyCode;
use voxview::view::MouseButton;
use voxview::view::MouseScrollDelta;
use voxview::view::simple3d::Simple3DView;
use voxview::volume::Image3D;

fn ct_volume() -> Image3D {
    Image3D::new((256, 256, 180), (900, 900, 1000), false)
}

fn mask_volume() -> Image3D {
    Image3D::new((128, 128, 90), (1800, 1800, 2000), true)
}

fn loaded_view() -> Simple3DView {
    let mut v = Simple3DView::new(800, 600);
    v.set_image(ct_volume());
    v
}

fn cycle(v: &mut Simple3DView) {
    v.handle_keyboard_input(ElementState::Released, KeyCode::KeyX);
}

#[test]
fn end_to_end_scenario() {
    let mut v = Simple3DView::new(800, 600);
    v.set_image(ct_volume());
    assert_eq!(v.axis, 2);
    assert_eq!(v.current_pos, (128, 128, 90));
    assert_eq!(v.image.window_width, 600_000);
    assert_eq!(v.image.window_level, 200_000);
    v.handle_mouse_wheel(MouseScrollDelta::LineDelta(-1000));
    assert_eq!(v.current_pos, (128, 128, 89));
    v.handle_window_resized(800, 600);
    assert_eq!(
        v.perspective_matrix,
        Transform2D { sx: 750, sy: 1000, tx: 0, ty: 0 }
    );
}

#[test]
fn axis_cycle_closure_from_every_axis() {
    for start in 0..3u32 {
        let mut v = loaded_view();
        for _ in 0..start {
            cycle(&mut v);
        }
        let axis0 = v.axis;
        let cursor0 = v.current_pos;
        cycle(&mut v);
        cycle(&mut v);
        cycle(&mut v);
        assert_eq!(v.axis, axis0);
        assert_eq!(v.current_pos, cursor0);
    }
}

#[test]
fn axis_cycle_steps() {
    let mut v = loaded_view();
    assert_eq!(v.axis, 2);
    cycle(&mut v);
    assert_eq!(v.axis, 0);
    cycle(&mut v);
    assert_eq!(v.axis, 1);
    cycle(&mut v);
    assert_eq!(v.axis, 2);
}

#[test]
fn axis_cycle_recomputes_model_matrices() {
    let mut v = loaded_view();
    // axis 2: horizontal = sy, vertical = sx
    assert_eq!(v.image.model_matrix, Transform2D { sx: 900, sy: 900, tx: 0, ty: 0 });
    cycle(&mut v);
    // axis 0: horizontal = sz, vertical = sy
    assert_eq!(v.image.model_matrix, Transform2D { sx: 1000, sy: 900, tx: 0, ty: 0 });
    cycle(&mut v);
    // axis 1: horizontal = sz, vertical = sx
    assert_eq!(v.image.model_matrix, Transform2D { sx: 1000, sy: 900, tx: 0, ty: 0 });
}

#[test]
fn key_press_and_other_keys_ignored() {
    let mut v = loaded_view();
    v.handle_keyboard_input(ElementState::Pressed, KeyCode::KeyX);
    assert_eq!(v.axis, 2);
    v.handle_keyboard_input(ElementState::Released, KeyCode::Other);
    assert_eq!(v.axis, 2);
}

#[test]
fn model_matrix_aspect_correctness() {
    let v = loaded_view();
    // spacing (0.9, 0.9, 1.0), axis 2: diagonal (0.9, 0.9, 1, 1)
    assert_eq!(v.image.model_matrix.sx, 900);
    assert_eq!(v.image.model_matrix.sy, 900);
    assert_eq!(v.image.model_matrix.tx, 0);
    assert_eq!(v.image.model_matrix.ty, 0);
}

#[test]
fn cursor_bounds_under_arbitrary_wheel_sequences() {
    let mut v = loaded_view();
    let deltas: [i64; 10] = [
        5_000_000_000,
        -9_000_000_000_000,
        1000,
        -1000,
        i64::MAX,
        i64::MIN,
        2500,
        -700,
        0,
        -123_456_789,
    ];
    for d in deltas {
        v.handle_mouse_wheel(MouseScrollDelta::LineDelta(d));
        let k = v.current_pos.2;
        assert!(k <= 179, "cursor {} left the volume", k);
    }
}

#[test]
fn wheel_scroll_rounds_away_from_zero() {
    let mut v = loaded_view();
    v.handle_mouse_wheel(MouseScrollDelta::LineDelta(500));
    assert_eq!(v.current_pos.2, 91); // +0.5 lines moves one slice
    v.handle_mouse_wheel(MouseScrollDelta::LineDelta(-1500));
    assert_eq!(v.current_pos.2, 89); // -1.5 lines moves two slices back
}

#[test]
fn wheel_pixel_delta_is_noop() {
    let mut v = loaded_view();
    let before = v.current_pos;
    v.handle_mouse_wheel(MouseScrollDelta::PixelDelta);
    assert_eq!(v.current_pos, before);
    v.handle_modifiers_changed(true);
    let view_before = v.view_matrix;
    v.handle_mouse_wheel(MouseScrollDelta::PixelDelta);
    assert_eq!(v.view_matrix, view_before);
}

#[test]
fn wheel_without_volume_pins_cursor_to_zero() {
    let mut v = Simple3DView::new(800, 600);
    v.handle_mouse_wheel(MouseScrollDelta::LineDelta(5000));
    assert_eq!(v.current_pos, (0, 0, 0));
}

#[test]
fn first_load_only_windowing_default() {
    let mut v = Simple3DView::new(800, 600);
    v.set_image(ct_volume());
    assert_eq!(v.image.window_width, DEFAULT_IMAGE_WINDOW_WIDTH);
    assert_eq!(v.image.window_level, DEFAULT_IMAGE_WINDOW_LEVEL);
    // a second intensity volume, different extents and spacing
    v.set_image(Image3D::new((64, 64, 30), (2000, 2000, 5000), false));
    assert_eq!(v.image.window_width, DEFAULT_IMAGE_WINDOW_WIDTH);
    assert_eq!(v.image.window_level, DEFAULT_IMAGE_WINDOW_LEVEL);
}

#[test]
fn user_windowing_survives_reload() {
    let mut v = loaded_view();
    v.image.window_width = 123_000;
    v.image.window_level = 45_000;
    v.set_image(Image3D::new((64, 64, 30), (2000, 2000, 5000), false));
    assert_eq!(v.image.window_width, 123_000);
    assert_eq!(v.image.window_level, 45_000);
}

#[test]
fn mask_default_windowing() {
    let mut v = Simple3DView::new(800, 600);
    v.set_image(mask_volume());
    assert_eq!(v.mask.window_width, DEFAULT_MASK_WINDOW_WIDTH);
    assert_eq!(v.mask.window_level, DEFAULT_MASK_WINDOW_LEVEL);
    // the image slab is untouched by a mask load
    assert!(v.image.image.is_none());
}

#[test]
fn mask_load_does_not_recenter() {
    let mut v = loaded_view();
    let cursor = v.current_pos;
    let axis = v.axis;
    v.set_image(mask_volume());
    assert_eq!(v.current_pos, cursor);
    assert_eq!(v.axis, axis);
}

#[test]
fn first_image_after_mask_does_not_recenter() {
    let mut v = Simple3DView::new(800, 600);
    v.set_image(mask_volume());
    v.handle_mouse_wheel(MouseScrollDelta::LineDelta(0));
    v.set_image(ct_volume());
    // the mask slab was already populated, so no centering happens
    assert_eq!(v.current_pos, (0, 0, 0));
}

#[test]
fn reload_clamps_cursor_into_new_extents() {
    let mut v = loaded_view();
    assert_eq!(v.current_pos, (128, 128, 90));
    v.set_image(Image3D::new((100, 300, 10), (900, 900, 1000), false));
    assert_eq!(v.current_pos, (99, 128, 9));
}

#[test]
fn pan_accumulates_and_release_clears_memo() {
    let mut v = loaded_view();
    v.handle_mouse_input(ElementState::Pressed, MouseButton::Left);
    // no previous position: first move only records it
    v.handle_cursor_moved(100_000, 100_000);
    assert_eq!(v.view_matrix, Transform2D { sx: 1000, sy: 1000, tx: 0, ty: 0 });
    // dx = 2 * 60 / 600 = 0.2, dy = -2 * (-60) / 600 = 0.2
    v.handle_cursor_moved(160_000, 40_000);
    assert_eq!(v.view_matrix, Transform2D { sx: 1000, sy: 1000, tx: 200, ty: 200 });
    // releasing the button clears the memo: the next press pans from fresh
    v.handle_mouse_input(ElementState::Released, MouseButton::Left);
    assert_eq!(v.prev_mouse_pos, None);
    v.handle_mouse_input(ElementState::Pressed, MouseButton::Left);
    v.handle_cursor_moved(500_000, 500_000);
    assert_eq!(v.view_matrix, Transform2D { sx: 1000, sy: 1000, tx: 200, ty: 200 });
}

#[test]
fn pan_needs_left_button() {
    let mut v = loaded_view();
    v.handle_cursor_moved(100_000, 100_000);
    v.handle_cursor_moved(160_000, 40_000);
    assert_eq!(v.view_matrix, Transform2D { sx: 1000, sy: 1000, tx: 0, ty: 0 });
}

#[test]
fn zoom_about_cursor_exact_values() {
    let mut v = loaded_view();
    v.handle_cursor_moved(200_000, 150_000);
    v.handle_modifiers_changed(true);
    // +5 lines: scale 1.5
    v.handle_mouse_wheel(MouseScrollDelta::LineDelta(5000));
    // plane point under the pointer: cx = (2*200/800 - 1)/0.75 = -0.666,
    // cy = (1 - 2*150/600)/1.0 = 0.5
    assert_eq!(v.view_matrix, Transform2D { sx: 1500, sy: 1500, tx: 333, ty: -250 });
}

#[test]
fn zoom_fixed_point_at_cursor() {
    let mut v = loaded_view();
    v.handle_cursor_moved(200_000, 150_000);
    v.handle_modifiers_changed(true);
    let old = v.view_matrix;
    // the quad coordinates the old view sends exactly to the plane point
    // under the pointer (identity view: u equals the plane coordinate)
    let (cx, cy): (i64, i64) = (-666, 500);
    let (ux, uy) = (cx, cy);
    assert_eq!(old.sx * ux + 1000 * old.tx, 1000 * cx);
    assert_eq!(old.sy * uy + 1000 * old.ty, 1000 * cy);
    v.handle_mouse_wheel(MouseScrollDelta::LineDelta(5000));
    let new = v.view_matrix;
    // the same quad point lands on the same plane coordinate, within the
    // fixed-point tolerance |u| + 1000 (in millionths of a unit)
    let ex = new.sx * ux + 1000 * new.tx - 1000 * cx;
    let ey = new.sy * uy + 1000 * new.ty - 1000 * cy;
    assert!(ex.abs() < ux.abs() + 1000, "x error {}", ex);
    assert!(ey.abs() < uy.abs() + 1000, "y error {}", ey);
}

#[test]
fn zoom_without_pointer_scales_about_origin() {
    let mut v = loaded_view();
    v.view_matrix.tx = 400;
    v.handle_modifiers_changed(true);
    v.handle_mouse_wheel(MouseScrollDelta::LineDelta(5000));
    // scale 1.5: diagonal scaled, translation adjusted by (1-k)*t
    assert_eq!(v.view_matrix, Transform2D { sx: 1500, sy: 1500, tx: 200, ty: 0 });
}

#[test]
fn zoom_needs_shift() {
    let mut v = loaded_view();
    v.handle_cursor_moved(200_000, 150_000);
    v.handle_mouse_wheel(MouseScrollDelta::LineDelta(5000));
    assert_eq!(v.view_matrix, Transform2D { sx: 1000, sy: 1000, tx: 0, ty: 0 });
    assert_eq!(v.current_pos.2, 95); // it scrolled instead
}

#[test]
fn resize_both_orientations() {
    let mut v = loaded_view();
    v.handle_window_resized(600, 800);
    assert_eq!(
        v.perspective_matrix,
        Transform2D { sx: 1000, sy: 750, tx: 0, ty: 0 }
    );
    v.handle_window_resized(512, 512);
    assert_eq!(
        v.perspective_matrix,
        Transform2D { sx: 1000, sy: 1000, tx: 0, ty: 0 }
    );
}

#[test]
fn resize_ignores_degenerate_extents() {
    let mut v = loaded_view();
    let p = v.perspective_matrix;
    v.handle_window_resized(0, 600);
    assert_eq!(v.perspective_matrix, p);
    assert_eq!(v.viewport_width, 800);
    v.handle_window_resized(800, 0);
    assert_eq!(v.perspective_matrix, p);
}

#[test]
fn compositor_idempotence() {
    let mut v = loaded_view();
    v.set_image(mask_volume());
    v.handle_modifiers_changed(true);
    v.handle_cursor_moved(300_000, 200_000);
    v.handle_mouse_wheel(MouseScrollDelta::LineDelta(2000));
    let u1 = v.frame_uniforms();
    let u2 = v.frame_uniforms();
    assert_eq!(u1, u2);
}

#[test]
fn compositor_values() {
    let mut v = loaded_view();
    let u = v.frame_uniforms();
    assert_eq!(u.axis, 2);
    // 128/256, 128/256, 90/180
    assert_eq!((u.pos_x, u.pos_y, u.pos_z), (500, 500, 500));
    assert_eq!(u.model, Transform2D { sx: 900, sy: 900, tx: 0, ty: 0 });
    // no mask: identity mask model, so the transform is the image model
    assert_eq!(u.mask_texture_transform, Transform2D { sx: 900, sy: 900, tx: 0, ty: 0 });
    assert_eq!(u.window_width, 600_000);
    assert_eq!(u.window_level, 200_000);
    assert_eq!(u.view, Transform2D { sx: 1000, sy: 1000, tx: 0, ty: 0 });
    // with a mask of twice the spacing, the registration ratio is 0.5
    v.set_image(mask_volume());
    let u = v.frame_uniforms();
    assert_eq!(u.mask_texture_transform, Transform2D { sx: 500, sy: 500, tx: 0, ty: 0 });
}

#[test]
fn compositor_without_volume() {
    let v = Simple3DView::new(800, 600);
    let u = v.frame_uniforms();
    assert_eq!((u.pos_x, u.pos_y, u.pos_z), (0, 0, 0));
    assert_eq!(u.model, Transform2D { sx: 1000, sy: 1000, tx: 0, ty: 0 });
    assert_eq!(u.mask_texture_transform, Transform2D { sx: 1000, sy: 1000, tx: 0, ty: 0 });
}

#[test]
fn right_button_tracked_other_ignored() {
    let mut v = loaded_view();
    v.handle_mouse_input(ElementState::Pressed, MouseButton::Right);
    assert!(v.is_right_button_pressed);
    v.handle_mouse_input(ElementState::Released, MouseButton::Right);
    assert!(!v.is_right_button_pressed);
    v.handle_mouse_input(ElementState::Pressed, MouseButton::Other);
    assert!(!v.is_left_button_pressed && !v.is_right_button_pressed);
}
