//! Tests of the load-request rules, the view dispatcher, and the planar
//! view.

use voxview::shader::ShaderSrc;
use voxview::transform::Transform2D;
use voxview::view::ElementState;
use voxview::view::KeyCode;
use voxview::view::MouseButton;
use voxview::view::MouseScrollDelta;
use voxview::view::ViewMode;
use voxview::view::is_planar_image_ext;
use voxview::view::simple::Simple2DView;
use voxview::volume::Image3D;
use voxview::volume::LoadError;
use voxview::volume::classify_datatype;
use voxview::volume::supported_scan_name;
use voxview::volume::validate_scan;

fn bytes(s: &str) -> Vec<u8> {
    s.as_bytes().to_vec()
}

#[test]
fn recognized_scan_names() {
    assert!(supported_scan_name(&bytes("brain.nii")));
    assert!(supported_scan_name(&bytes("brain.nii.gz")));
    assert!(supported_scan_name(&bytes("brain.hdr.gz")));
    // deliberately a plain suffix test, not an extension match
    assert!(supported_scan_name(&bytes("xnii.gz")));
}

#[test]
fn rejected_scan_names() {
    assert!(!supported_scan_name(&bytes("picture.png")));
    assert!(!supported_scan_name(&bytes("brain.nii.bz2")));
    assert!(!supported_scan_name(&bytes("nii")));
    assert!(!supported_scan_name(&bytes("")));
    assert!(!supported_scan_name(&bytes("brain.NII")));
}

#[test]
fn datatype_classification() {
    assert_eq!(classify_datatype(4), Ok(false));
    assert_eq!(classify_datatype(64), Ok(true));
    assert_eq!(classify_datatype(16), Err(LoadError::UnsupportedSampleType));
    assert_eq!(classify_datatype(0), Err(LoadError::UnsupportedSampleType));
    assert_eq!(classify_datatype(-1), Err(LoadError::UnsupportedSampleType));
}

#[test]
fn validate_scan_decides_both_errors() {
    assert_eq!(validate_scan(&bytes("a.nii"), 4), Ok(false));
    assert_eq!(validate_scan(&bytes("a.nii.gz"), 64), Ok(true));
    assert_eq!(
        validate_scan(&bytes("a.txt"), 4),
        Err(LoadError::UnsupportedFormat)
    );
    // an unsupported name wins over an unsupported datatype
    assert_eq!(
        validate_scan(&bytes("a.txt"), 7),
        Err(LoadError::UnsupportedFormat)
    );
    assert_eq!(
        validate_scan(&bytes("a.nii"), 7),
        Err(LoadError::UnsupportedSampleType)
    );
}

#[test]
fn volume_accessors() {
    let v = Image3D::new((10, 20, 30), (900, 1100, 1500), false);
    assert_eq!(v.dim(0), 10);
    assert_eq!(v.dim(1), 20);
    assert_eq!(v.dim(2), 30);
    assert_eq!(v.spacing, (900, 1100, 1500));
    assert!(!v.is_mask);
}

#[test]
fn planar_extension_dispatch() {
    assert!(is_planar_image_ext(&bytes("png")));
    assert!(is_planar_image_ext(&bytes("PNG")));
    assert!(is_planar_image_ext(&bytes("jpg")));
    assert!(is_planar_image_ext(&bytes("Jpeg")));
    assert!(!is_planar_image_ext(&bytes("gz")));
    assert!(!is_planar_image_ext(&bytes("nii")));
    assert!(!is_planar_image_ext(&bytes("pngx")));
    assert!(!is_planar_image_ext(&bytes("")));
}

#[test]
fn view_mode_selection() {
    let mut vm = ViewMode::new(800, 600);
    assert_eq!(vm.current_view, 0);
    vm.select_view_for_file(Some(&bytes("png")));
    assert_eq!(vm.current_view, 1);
    vm.select_view_for_file(Some(&bytes("nii")));
    assert_eq!(vm.current_view, 0);
    vm.set_2d_view();
    assert_eq!(vm.current_view, 1);
    // no extension: keep the current view
    vm.select_view_for_file(None);
    assert_eq!(vm.current_view, 1);
    vm.set_3d_view();
    assert_eq!(vm.current_view, 0);
}

#[test]
fn view_mode_routes_to_active_view_only() {
    let mut vm = ViewMode::new(800, 600);
    vm.view3d.set_image(Image3D::new((256, 256, 180), (900, 900, 1000), false));
    vm.set_2d_view();
    // with the planar view active, wheel and keys leave the 3D view alone
    vm.handle_modifiers_changed(true);
    vm.handle_mouse_wheel(MouseScrollDelta::LineDelta(5000));
    vm.handle_keyboard_input(ElementState::Released, KeyCode::KeyX);
    assert_eq!(vm.view3d.axis, 2);
    assert_eq!(vm.view3d.view_matrix, Transform2D { sx: 1000, sy: 1000, tx: 0, ty: 0 });
    assert!(!vm.view3d.is_shift_button_pressed);
    // the planar matrix took the zoom instead
    assert_eq!(vm.view2d.matrix.sx, 1500);
    vm.set_3d_view();
    vm.handle_keyboard_input(ElementState::Released, KeyCode::KeyX);
    assert_eq!(vm.view3d.axis, 0);
}

#[test]
fn planar_pan_and_memo() {
    let mut v = Simple2DView::new(800, 600);
    v.handle_mouse_input(ElementState::Pressed, MouseButton::Left);
    v.handle_cursor_moved(100_000, 100_000);
    v.handle_cursor_moved(160_000, 40_000);
    assert_eq!(v.matrix, Transform2D { sx: 1000, sy: 1000, tx: 200, ty: 200 });
    // without the button held, the memo is cleared on every move
    v.handle_mouse_input(ElementState::Released, MouseButton::Left);
    v.handle_cursor_moved(999_000, 999_000);
    assert_eq!(v.prev_mouse_pos, None);
    assert_eq!(v.matrix, Transform2D { sx: 1000, sy: 1000, tx: 200, ty: 200 });
}

#[test]
fn planar_zoom_scales_diagonal_only() {
    let mut v = Simple2DView::new(800, 600);
    v.handle_mouse_wheel(MouseScrollDelta::LineDelta(5000));
    assert_eq!(v.matrix.sx, 1000); // shift not held: ignored
    v.handle_modifiers_changed(true);
    v.handle_mouse_wheel(MouseScrollDelta::LineDelta(5000));
    assert_eq!(v.matrix, Transform2D { sx: 1500, sy: 1500, tx: 0, ty: 0 });
    v.handle_mouse_wheel(MouseScrollDelta::PixelDelta);
    assert_eq!(v.matrix.sx, 1500);
}

#[test]
fn planar_uniforms_aspect() {
    let mut v = Simple2DView::new(800, 600);
    let u = v.frame_uniforms();
    assert_eq!(u.perspective, Transform2D { sx: 750, sy: 1000, tx: 0, ty: 0 });
    assert_eq!(u.model, Transform2D { sx: 1000, sy: 1000, tx: 0, ty: 0 });
    v.handle_window_resized(400, 600);
    let u = v.frame_uniforms();
    assert_eq!(u.perspective, Transform2D { sx: 1500, sy: 1000, tx: 0, ty: 0 });
}

#[test]
fn shader_src_carries_stages() {
    let s = ShaderSrc::new("simple3d", "vertex source", "fragment source", None);
    assert_eq!(s.stem, "simple3d");
    assert_eq!(s.vertex, "vertex source");
    assert_eq!(s.fragment, "fragment source");
    assert!(!s.has_geometry());
    let g = ShaderSrc::new("outline", "v", "f", Some("g"));
    assert!(g.has_geometry());
}
