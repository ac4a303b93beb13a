//! The volumetric view: one 2D slice of a voxel volume, with an optional
//! aligned segmentation mask overlaid on it.
//!
//! This is the stateful heart of the viewer.  It owns the two slabs, the
//! slicing axis and per-axis cursor, the pan/zoom view matrix, the
//! aspect-correcting projection matrix, and the raw input tracking, and
//! it derives the per-frame uniform bundle the renderer consumes.

use vstd::prelude::*;

verus! {

use crate::fixed::SCALE;
use crate::fixed::clamp_index;
use crate::fixed::clamp_index_spec;
use crate::fixed::lemma_tdiv_close;
use crate::fixed::round_away;
use crate::fixed::round_away_spec;
use crate::fixed::s_add;
use crate::fixed::sat_add64;
use crate::fixed::tdiv;
use crate::fixed::tdiv64;
use crate::slab::Texture;
use crate::slab::loaded_spec;
use crate::slab::model_of;
use crate::transform::Transform2D;
use crate::transform::identity_spec;
use crate::transform::imax;
use crate::transform::mask_transform;
use crate::transform::mask_transform_spec;
use crate::transform::pan_delta;
use crate::transform::pan_delta_spec;
use crate::transform::plane_x;
use crate::transform::plane_x_spec;
use crate::transform::plane_y;
use crate::transform::plane_y_spec;
use crate::transform::projection_for;
use crate::transform::projection_spec;
use crate::transform::zoomed_about;
use crate::transform::zoomed_about_spec;
use crate::transform::zoomed_origin;
use crate::transform::zoomed_origin_spec;
use crate::view::ElementState;
use crate::view::KeyCode;
use crate::view::MouseButton;
use crate::view::MouseScrollDelta;
use crate::volume::Image3D;
use crate::volume::dim_spec;
use vstd::arithmetic::div_mod::lemma_multiply_divide_lt;

/// The volumetric slice view: two slabs and the whole interactive state.
#[derive(Clone, Copy, Debug)]
pub struct Simple3DView {
    pub image: Texture,
    pub mask: Texture,
    pub view_matrix: Transform2D,
    pub perspective_matrix: Transform2D,
    pub axis: u32,
    pub current_pos: (u32, u32, u32),
    pub is_left_button_pressed: bool,
    pub is_right_button_pressed: bool,
    pub is_shift_button_pressed: bool,
    pub prev_mouse_pos: Option<(i64, i64)>,
    pub viewport_width: u32,
    pub viewport_height: u32,
}

/// The cursor component along `axis`.
pub open spec fn cursor_spec(c: (u32, u32, u32), axis: int) -> int {
    if axis == 0 {
        c.0 as int
    } else if axis == 1 {
        c.1 as int
    } else {
        c.2 as int
    }
}

/// The cursor with the component along `axis` replaced by `v`.
pub open spec fn with_cursor(c: (u32, u32, u32), axis: int, v: u32) -> (u32, u32, u32) {
    if axis == 0 {
        (v, c.1, c.2)
    } else if axis == 1 {
        (c.0, v, c.2)
    } else {
        (c.0, c.1, v)
    }
}

/// The voxel extent the cursor is clamped against along `axis`: the image
/// volume's, or zero while none is loaded.
pub open spec fn extent_spec(v: Simple3DView, axis: int) -> int {
    match v.image.image {
        Option::Some(img) => dim_spec(img, axis),
        Option::None => 0,
    }
}

impl Simple3DView {
    /// Every cursor component stays inside the loaded image volume:
    /// `0 <= cursor[a] <= dim(a) - 1` (and 0 where an extent is empty).
    pub open spec fn cursor_in_bounds(self) -> bool {
        match self.image.image {
            Option::Some(img) => {
                &&& self.current_pos.0 as int <= imax(dim_spec(img, 0) - 1, 0)
                &&& self.current_pos.1 as int <= imax(dim_spec(img, 1) - 1, 0)
                &&& self.current_pos.2 as int <= imax(dim_spec(img, 2) - 1, 0)
            },
            Option::None => true,
        }
    }

    /// The view's invariant: a valid axis, a live viewport, a positive
    /// bounded projection, well-formed slabs whose model matrices agree
    /// with the current axis, and a cursor inside the image volume.
    pub open spec fn wf(self) -> bool {
        &&& self.axis < 3
        &&& self.viewport_width >= 1
        &&& self.viewport_height >= 1
        &&& 1 <= self.perspective_matrix.sx <= SCALE
        &&& 1 <= self.perspective_matrix.sy <= SCALE
        &&& self.perspective_matrix.tx == 0
        &&& self.perspective_matrix.ty == 0
        &&& self.image.wf()
        &&& self.mask.wf()
        &&& self.image.model_matrix == model_of(self.image.image, self.axis as int)
        &&& self.mask.model_matrix == model_of(self.mask.image, self.axis as int)
        &&& self.cursor_in_bounds()
    }

    /// The state [`Simple3DView::new`] builds: empty slabs, identity
    /// view, axial slicing, cursor at the origin.
    pub open spec fn new_spec(width: u32, height: u32) -> Simple3DView {
        Simple3DView {
            image: Texture::empty_spec(),
            mask: Texture::empty_spec(),
            view_matrix: identity_spec(),
            perspective_matrix: projection_spec(width as int, height as int),
            axis: 2,
            current_pos: (0, 0, 0),
            is_left_button_pressed: false,
            is_right_button_pressed: false,
            is_shift_button_pressed: false,
            prev_mouse_pos: None,
            viewport_width: width,
            viewport_height: height,
        }
    }

    pub fn new(width: u32, height: u32) -> (r: Simple3DView)
        requires
            width >= 1,
            height >= 1,
        ensures
            r == Simple3DView::new_spec(width, height),
            r.wf(),
    {
        Simple3DView {
            image: Texture::empty(),
            mask: Texture::empty(),
            view_matrix: Transform2D::identity(),
            perspective_matrix: projection_for(width, height),
            axis: 2,
            current_pos: (0, 0, 0),
            is_left_button_pressed: false,
            is_right_button_pressed: false,
            is_shift_button_pressed: false,
            prev_mouse_pos: None,
            viewport_width: width,
            viewport_height: height,
        }
    }

    /// Cycle the slicing axis and recompute both model matrices; the
    /// cursor is left alone.
    pub fn handle_keyboard_input(&mut self, state: ElementState, key: KeyCode)
        requires
            old(self).wf(),
        ensures
            *final(self) == keyboard_spec(*old(self), state, key),
            final(self).wf(),
    {
        if state == ElementState::Released && key == KeyCode::KeyX {
            self.axis = (self.axis + 1) % 3;
            self.image.set_model_matrix(self.axis);
            self.mask.set_model_matrix(self.axis);
        }
    }

    pub fn handle_modifiers_changed(&mut self, shift_held: bool)
        requires
            old(self).wf(),
        ensures
            *final(self) == (Simple3DView { is_shift_button_pressed: shift_held, ..*old(self) }),
            final(self).wf(),
    {
        self.is_shift_button_pressed = shift_held;
    }

    /// Track the left and right button states; releasing the left button
    /// also clears the previous-position memo, so the next drag starts a
    /// fresh delta instead of jumping.
    pub fn handle_mouse_input(&mut self, state: ElementState, button: MouseButton)
        requires
            old(self).wf(),
        ensures
            *final(self) == mouse_input_spec(*old(self), state, button),
            final(self).wf(),
    {
        let pressed = state == ElementState::Pressed;
        match button {
            MouseButton::Left => {
                self.is_left_button_pressed = pressed;
                if !pressed {
                    self.prev_mouse_pos = None;
                }
            },
            MouseButton::Right => {
                self.is_right_button_pressed = pressed;
            },
            MouseButton::Other => {},
        }
    }

    /// Pan while the left button is held and a previous position exists,
    /// then remember the position.  Both axes are normalized by the
    /// viewport height, and y is inverted to match y-up coordinates.
    pub fn handle_cursor_moved(&mut self, x: i64, y: i64)
        requires
            old(self).wf(),
        ensures
            *final(self) == cursor_moved_spec(*old(self), x as int, y as int),
            final(self).wf(),
    {
        if self.is_left_button_pressed {
            if let Some(prev) = self.prev_mouse_pos {
                let (px, py) = prev;
                let dx = pan_delta(x, px, self.viewport_height);
                let dy = pan_delta(py, y, self.viewport_height);
                self.view_matrix.tx = sat_add64(self.view_matrix.tx, dx);
                self.view_matrix.ty = sat_add64(self.view_matrix.ty, dy);
            }
        }
        self.prev_mouse_pos = Some((x, y));
    }

    /// A wheel event.  With shift held it zooms: about the point under
    /// the pointer when a previous position is known, else about the view
    /// origin.  Without shift it scrolls the slice cursor along the
    /// active axis, clamped into the volume.  Pixel-based deltas are a
    /// deliberate no-op in both modes.
    pub fn handle_mouse_wheel(&mut self, delta: MouseScrollDelta)
        requires
            old(self).wf(),
        ensures
            *final(self) == wheel_spec(*old(self), delta),
            final(self).wf(),
    {
        match delta {
            MouseScrollDelta::LineDelta(dy) => {
                if self.is_shift_button_pressed {
                    let k = sat_add64(SCALE, tdiv64(dy, 10));
                    match self.prev_mouse_pos {
                        Some(p) => {
                            let cx = plane_x(p.0, self.viewport_width, self.perspective_matrix.sx);
                            let cy = plane_y(p.1, self.viewport_height, self.perspective_matrix.sy);
                            self.view_matrix = zoomed_about(self.view_matrix, k, cx, cy);
                        },
                        None => {
                            self.view_matrix = zoomed_origin(self.view_matrix, k);
                        },
                    }
                } else {
                    let n = round_away(dy);
                    let dim: u32 = match &self.image.image {
                        Some(img) => img.dim(self.axis),
                        None => 0,
                    };
                    let cur: u32 = match self.axis {
                        0 => self.current_pos.0,
                        1 => self.current_pos.1,
                        _ => self.current_pos.2,
                    };
                    let c = clamp_index(cur, n, dim);
                    match self.axis {
                        0 => self.current_pos.0 = c,
                        1 => self.current_pos.1 = c,
                        _ => self.current_pos.2 = c,
                    }
                }
            },
            MouseScrollDelta::PixelDelta => {},
        }
    }

    /// Install a volume arriving from the decoder: a mask goes to the
    /// mask slab; an intensity image goes to the image slab, resetting to
    /// axial slicing centred in the volume when it is the very first
    /// load, and otherwise clamping the cursor into the new extents.  A
    /// failed load never reaches this function, so previous state
    /// survives it untouched.
    pub fn set_image(&mut self, image: Image3D)
        requires
            old(self).wf(),
            image.wf(),
        ensures
            *final(self) == load_spec(*old(self), image),
            final(self).wf(),
    {
        if image.is_mask {
            self.mask.set_image(image, self.axis);
        } else if self.image.image.is_none() && self.mask.image.is_none() {
            self.axis = 2;
            self.current_pos = (image.shape.0 / 2, image.shape.1 / 2, image.shape.2 / 2);
            self.image.set_image(image, self.axis);
        } else {
            self.current_pos = (
                clamp_index(self.current_pos.0, 0, image.shape.0),
                clamp_index(self.current_pos.1, 0, image.shape.1),
                clamp_index(self.current_pos.2, 0, image.shape.2),
            );
            self.image.set_image(image, self.axis);
        }
    }

    /// Derive the per-frame uniform bundle: a pure function of the
    /// current state, safe to call any number of times per frame.  The
    /// sampling coordinates come out normalized into `[0, 1)`.
    pub fn frame_uniforms(&self) -> (u: FrameUniforms)
        requires
            self.wf(),
        ensures
            u == frame_uniforms_spec(*self),
            0 <= u.pos_x < SCALE,
            0 <= u.pos_y < SCALE,
            0 <= u.pos_z < SCALE,
    {
        let (d0, d1, d2): (u32, u32, u32) = match &self.image.image {
            Some(img) => (img.shape.0, img.shape.1, img.shape.2),
            None => (0, 0, 0),
        };
        let mt = mask_transform(self.image.model_matrix, self.mask.model_matrix);
        FrameUniforms {
            axis: self.axis,
            pos_x: norm_coord(self.current_pos.0, d0),
            pos_y: norm_coord(self.current_pos.1, d1),
            pos_z: norm_coord(self.current_pos.2, d2),
            perspective: self.perspective_matrix,
            view: self.view_matrix,
            model: self.image.model_matrix,
            mask_texture_transform: mt,
            window_width: self.image.window_width,
            window_level: self.image.window_level,
        }
    }

    /// Recompute the projection so the visible quad keeps a 1:1 physical
    /// aspect ratio; degenerate extents are ignored.
    pub fn handle_window_resized(&mut self, width: u32, height: u32)
        requires
            old(self).wf(),
        ensures
            *final(self) == resized_spec(*old(self), width, height),
            final(self).wf(),
    {
        if width >= 1 && height >= 1 {
            self.perspective_matrix = projection_for(width, height);
            self.viewport_width = width;
            self.viewport_height = height;
        }
    }
}

/// The state after a key release: the axis-cycle key rotates the slicing
/// axis by one and refreshes both model matrices; everything else is
/// ignored.
pub open spec fn keyboard_spec(v: Simple3DView, state: ElementState, key: KeyCode) -> Simple3DView {
    if state is Released && key is KeyX {
        cycled_spec(v)
    } else {
        v
    }
}

/// One axis cycle: `axis <- (axis + 1) % 3`, model matrices refreshed,
/// cursor untouched.
pub open spec fn cycled_spec(v: Simple3DView) -> Simple3DView {
    let a = (((v.axis as int) + 1) % 3) as u32;
    Simple3DView {
        axis: a,
        image: Texture { model_matrix: model_of(v.image.image, a as int), ..v.image },
        mask: Texture { model_matrix: model_of(v.mask.image, a as int), ..v.mask },
        ..v
    }
}

/// The state after a button event.
pub open spec fn mouse_input_spec(
    v: Simple3DView,
    state: ElementState,
    button: MouseButton,
) -> Simple3DView {
    let pressed = state is Pressed;
    match button {
        MouseButton::Left => Simple3DView {
            is_left_button_pressed: pressed,
            prev_mouse_pos: if pressed {
                v.prev_mouse_pos
            } else {
                None
            },
            ..v
        },
        MouseButton::Right => Simple3DView { is_right_button_pressed: pressed, ..v },
        MouseButton::Other => v,
    }
}

/// The state after a pointer move: a pan when dragging with a known
/// previous position, and the position remembered either way.
pub open spec fn cursor_moved_spec(v: Simple3DView, x: int, y: int) -> Simple3DView {
    let m = if v.is_left_button_pressed {
        match v.prev_mouse_pos {
            Option::Some(p) => Transform2D {
                tx: s_add(
                    v.view_matrix.tx as int,
                    pan_delta_spec(x, p.0 as int, v.viewport_height as int),
                ) as i64,
                ty: s_add(
                    v.view_matrix.ty as int,
                    pan_delta_spec(p.1 as int, y, v.viewport_height as int),
                ) as i64,
                ..v.view_matrix
            },
            Option::None => v.view_matrix,
        }
    } else {
        v.view_matrix
    };
    Simple3DView { view_matrix: m, prev_mouse_pos: Some((x as i64, y as i64)), ..v }
}

/// The state after a resize.
pub open spec fn resized_spec(v: Simple3DView, width: u32, height: u32) -> Simple3DView {
    if width >= 1 && height >= 1 {
        Simple3DView {
            perspective_matrix: projection_spec(width as int, height as int),
            viewport_width: width,
            viewport_height: height,
            ..v
        }
    } else {
        v
    }
}

/// The state after a wheel event.  A line delta either zooms (shift
/// held) or scrolls the slice cursor by the line count rounded away from
/// zero; a pixel delta changes nothing.
pub open spec fn wheel_spec(v: Simple3DView, delta: MouseScrollDelta) -> Simple3DView {
    match delta {
        MouseScrollDelta::LineDelta(dy) => if v.is_shift_button_pressed {
            let k = s_add(SCALE as int, tdiv(dy as int, 10));
            match v.prev_mouse_pos {
                Option::Some(p) => {
                    let cx = plane_x_spec(
                        p.0 as int,
                        v.viewport_width as int,
                        v.perspective_matrix.sx as int,
                    );
                    let cy = plane_y_spec(
                        p.1 as int,
                        v.viewport_height as int,
                        v.perspective_matrix.sy as int,
                    );
                    Simple3DView { view_matrix: zoomed_about_spec(v.view_matrix, k, cx, cy), ..v }
                },
                Option::None => Simple3DView {
                    view_matrix: zoomed_origin_spec(v.view_matrix, k),
                    ..v
                },
            }
        } else {
            let c = clamp_index_spec(
                cursor_spec(v.current_pos, v.axis as int),
                round_away_spec(dy as int),
                extent_spec(v, v.axis as int),
            );
            Simple3DView { current_pos: with_cursor(v.current_pos, v.axis as int, c as u32), ..v }
        },
        MouseScrollDelta::PixelDelta => v,
    }
}

/// The state after a volume arrives from the decoder.
pub open spec fn load_spec(v: Simple3DView, img: Image3D) -> Simple3DView {
    if img.is_mask {
        Simple3DView { mask: loaded_spec(v.mask, img, v.axis as int), ..v }
    } else if v.image.image is None && v.mask.image is None {
        Simple3DView {
            axis: 2,
            current_pos: (
                ((img.shape.0 as int) / 2) as u32,
                ((img.shape.1 as int) / 2) as u32,
                ((img.shape.2 as int) / 2) as u32,
            ),
            image: loaded_spec(v.image, img, 2),
            ..v
        }
    } else {
        Simple3DView {
            image: loaded_spec(v.image, img, v.axis as int),
            current_pos: (
                clamp_index_spec(v.current_pos.0 as int, 0, img.shape.0 as int) as u32,
                clamp_index_spec(v.current_pos.1 as int, 0, img.shape.1 as int) as u32,
                clamp_index_spec(v.current_pos.2 as int, 0, img.shape.2 as int) as u32,
            ),
            ..v
        }
    }
}

/// The per-frame uniform bundle the renderer consumes, all in
/// fixed-point milliunits.
#[derive(Clone, Copy, Debug, PartialEq, Eq, Structural)]
pub struct FrameUniforms {
    pub axis: u32,
    /// The slice cursor normalized to `[0, 1)` per axis:
    /// `cursor[a] / dim(a)`.
    pub pos_x: i64,
    pub pos_y: i64,
    pub pos_z: i64,
    pub perspective: Transform2D,
    pub view: Transform2D,
    pub model: Transform2D,
    /// Maps image texture coordinates into mask texture coordinates.
    pub mask_texture_transform: Transform2D,
    pub window_width: i64,
    pub window_level: i64,
}

/// A cursor index normalized by its extent, `cur * SCALE / dim`, or zero
/// while the extent is empty.
pub open spec fn norm_coord_spec(cur: int, dim: int) -> int {
    if dim >= 1 {
        (cur * SCALE) / dim
    } else {
        0
    }
}

fn norm_coord(cur: u32, dim: u32) -> (r: i64)
    ensures
        r as int == norm_coord_spec(cur as int, dim as int),
        cur < dim || dim == 0 ==> 0 <= r < SCALE,
{
    if dim >= 1 {
        proof {
            lemma_tdiv_close(cur as int * SCALE, dim as int);
            if cur < dim {
                assert(cur as int * SCALE < dim as int * SCALE) by (nonlinear_arith)
                    requires
                        (cur as int) < (dim as int),
                        SCALE >= 1,
                {}
                lemma_multiply_divide_lt(cur as int * SCALE, dim as int, SCALE as int);
            }
        }
        (((cur as u64) * 1000) / (dim as u64)) as i64
    } else {
        0
    }
}

/// The uniform bundle as a function of the view state.
pub open spec fn frame_uniforms_spec(v: Simple3DView) -> FrameUniforms {
    FrameUniforms {
        axis: v.axis,
        pos_x: norm_coord_spec(v.current_pos.0 as int, extent_spec(v, 0)) as i64,
        pos_y: norm_coord_spec(v.current_pos.1 as int, extent_spec(v, 1)) as i64,
        pos_z: norm_coord_spec(v.current_pos.2 as int, extent_spec(v, 2)) as i64,
        perspective: v.perspective_matrix,
        view: v.view_matrix,
        model: v.image.model_matrix,
        mask_texture_transform: mask_transform_spec(v.image.model_matrix, v.mask.model_matrix),
        window_width: v.image.window_width,
        window_level: v.image.window_level,
    }
}

/// Axis cycling closure (law): three axis cycles restore the starting
/// axis and leave the cursor untouched.
pub proof fn lemma_axis_cycle_closure(v: Simple3DView)
    requires
        v.wf(),
    ensures
        cycled_spec(cycled_spec(cycled_spec(v))).axis == v.axis,
        cycled_spec(cycled_spec(cycled_spec(v))).current_pos == v.current_pos,
{
}

/// Cursor bounds (law): a wheel event never moves the cursor outside the
/// loaded volume, whatever the signed delta; and since the whole
/// invariant is preserved, the bound holds after every call of any
/// sequence of wheel events.
pub proof fn lemma_wheel_keeps_cursor_in_bounds(v: Simple3DView, delta: MouseScrollDelta)
    requires
        v.wf(),
    ensures
        wheel_spec(v, delta).wf(),
        wheel_spec(v, delta).cursor_in_bounds(),
{
}

/// The state after a whole sequence of wheel events, applied in order.
pub open spec fn wheel_seq_spec(v: Simple3DView, ds: Seq<MouseScrollDelta>) -> Simple3DView
    decreases ds.len(),
{
    if ds.len() == 0 {
        v
    } else {
        wheel_seq_spec(wheel_spec(v, ds[0]), ds.skip(1))
    }
}

/// Cursor bounds over sequences (law): after any sequence of wheel
/// events with arbitrary signed deltas, the cursor is still inside the
/// loaded volume.
pub proof fn lemma_cursor_bounds_all_wheel_sequences(v: Simple3DView, ds: Seq<MouseScrollDelta>)
    requires
        v.wf(),
    ensures
        wheel_seq_spec(v, ds).wf(),
        wheel_seq_spec(v, ds).cursor_in_bounds(),
    decreases ds.len(),
{
    if ds.len() > 0 {
        lemma_wheel_keeps_cursor_in_bounds(v, ds[0]);
        lemma_cursor_bounds_all_wheel_sequences(wheel_spec(v, ds[0]), ds.skip(1));
    }
}

/// Compositor idempotence (law): deriving the per-frame uniforms twice
/// from one state yields identical bundles.
pub proof fn lemma_compositor_idempotent(v: Simple3DView, u1: FrameUniforms, u2: FrameUniforms)
    requires
        u1 == frame_uniforms_spec(v),
        u2 == frame_uniforms_spec(v),
    ensures
        u1 == u2,
{
}

/// A shift-held line-delta wheel event with a known pointer position
/// updates the view matrix exactly by [`zoomed_about_spec`] about the
/// plane point under the pointer — the transform for which
/// [`crate::transform::lemma_zoom_fixed_point`] proves that the point
/// stays fixed.
pub proof fn lemma_wheel_zooms_about_pointer(v: Simple3DView, dy: i64, px: i64, py: i64)
    requires
        v.is_shift_button_pressed,
        v.prev_mouse_pos == Some((px, py)),
    ensures
        wheel_spec(v, MouseScrollDelta::LineDelta(dy)).view_matrix == zoomed_about_spec(
            v.view_matrix,
            s_add(SCALE as int, tdiv(dy as int, 10)),
            plane_x_spec(px as int, v.viewport_width as int, v.perspective_matrix.sx as int),
            plane_y_spec(py as int, v.viewport_height as int, v.perspective_matrix.sy as int),
        ),
{
}

} // verus!
