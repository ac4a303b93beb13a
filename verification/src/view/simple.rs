//! The planar view: a single 2D picture on a quad, with pan and zoom but
//! no slicing.  It shares the input surface of the volumetric view; the
//! picture itself is decoded and uploaded by the shell.

use vstd::prelude::*;

verus! {

use crate::fixed::SCALE;
use crate::fixed::s_mul;
use crate::fixed::mul_milli;
use crate::fixed::s_add;
use crate::fixed::sat_add64;
use crate::fixed::tdiv;
use crate::fixed::tdiv64;
use crate::fixed::lemma_tdiv_close;
use crate::transform::Transform2D;
use crate::transform::identity_spec;
use crate::transform::pan_delta;
use crate::transform::pan_delta_spec;
use crate::view::ElementState;
use crate::view::KeyCode;
use crate::view::MouseButton;
use crate::view::MouseScrollDelta;

/// The planar picture view: one pannable, zoomable model matrix and the
/// raw input tracking.
#[derive(Clone, Copy, Debug)]
pub struct Simple2DView {
    pub matrix: Transform2D,
    pub is_left_button_pressed: bool,
    pub is_right_button_pressed: bool,
    pub is_shift_button_pressed: bool,
    pub prev_mouse_pos: Option<(i64, i64)>,
    pub viewport_width: u32,
    pub viewport_height: u32,
}

/// The per-frame values the renderer needs from the planar view: its
/// model matrix and an aspect-correcting projection.
#[derive(Clone, Copy, Debug, PartialEq, Eq, Structural)]
pub struct PlanarUniforms {
    pub perspective: Transform2D,
    pub model: Transform2D,
}

/// The planar projection: the unscaled aspect ratio `height / width` on
/// x, one on y.
pub open spec fn planar_projection_spec(w: int, h: int) -> Transform2D {
    Transform2D { sx: ((h * SCALE) / w) as i64, sy: SCALE, tx: 0, ty: 0 }
}

impl Simple2DView {
    pub open spec fn wf(self) -> bool {
        &&& self.viewport_width >= 1
        &&& self.viewport_height >= 1
    }

    pub open spec fn new_spec(width: u32, height: u32) -> Simple2DView {
        Simple2DView {
            matrix: identity_spec(),
            is_left_button_pressed: false,
            is_right_button_pressed: false,
            is_shift_button_pressed: false,
            prev_mouse_pos: None,
            viewport_width: width,
            viewport_height: height,
        }
    }

    pub fn new(width: u32, height: u32) -> (r: Simple2DView)
        requires
            width >= 1,
            height >= 1,
        ensures
            r == Simple2DView::new_spec(width, height),
            r.wf(),
    {
        Simple2DView {
            matrix: Transform2D::identity(),
            is_left_button_pressed: false,
            is_right_button_pressed: false,
            is_shift_button_pressed: false,
            prev_mouse_pos: None,
            viewport_width: width,
            viewport_height: height,
        }
    }

    /// The planar view binds no keys; every key event leaves it unchanged.
    pub fn handle_keyboard_input(&mut self, _state: ElementState, _key: KeyCode)
        ensures
            *final(self) == *old(self),
    {
    }

    pub fn handle_modifiers_changed(&mut self, shift_held: bool)
        ensures
            *final(self) == (Simple2DView { is_shift_button_pressed: shift_held, ..*old(self) }),
    {
        self.is_shift_button_pressed = shift_held;
    }

    /// Track the pressed state of the left and right buttons; other
    /// buttons are ignored.
    pub fn handle_mouse_input(&mut self, state: ElementState, button: MouseButton)
        ensures
            *final(self) == mouse_input_2d_spec(*old(self), state, button),
    {
        let pressed = state == ElementState::Pressed;
        match button {
            MouseButton::Left => {
                self.is_left_button_pressed = pressed;
            },
            MouseButton::Right => {
                self.is_right_button_pressed = pressed;
            },
            MouseButton::Other => {},
        }
    }

    /// Pan while the left button is held and a previous position exists;
    /// the memo is cleared whenever the button is up, so the next drag
    /// starts a fresh delta.
    pub fn handle_cursor_moved(&mut self, x: i64, y: i64)
        requires
            old(self).wf(),
        ensures
            *final(self) == cursor_moved_2d_spec(*old(self), x as int, y as int),
            final(self).wf(),
    {
        if self.is_left_button_pressed {
            if let Some(prev) = self.prev_mouse_pos {
                let (px, py) = prev;
                let dx = pan_delta(x, px, self.viewport_height);
                let dy = pan_delta(py, y, self.viewport_height);
                self.matrix.tx = sat_add64(self.matrix.tx, dx);
                self.matrix.ty = sat_add64(self.matrix.ty, dy);
            }
            self.prev_mouse_pos = Some((x, y));
        } else {
            self.prev_mouse_pos = None;
        }
    }

    /// Zoom while shift is held: scale the model matrix diagonal by
    /// `1 + lines / 10`.  Pixel deltas are a no-op.
    pub fn handle_mouse_wheel(&mut self, delta: MouseScrollDelta)
        ensures
            *final(self) == wheel_2d_spec(*old(self), delta),
    {
        if self.is_shift_button_pressed {
            match delta {
                MouseScrollDelta::LineDelta(dy) => {
                    let k = sat_add64(SCALE, tdiv64(dy, 10));
                    self.matrix.sx = mul_milli(self.matrix.sx, k);
                    self.matrix.sy = mul_milli(self.matrix.sy, k);
                },
                MouseScrollDelta::PixelDelta => {},
            }
        }
    }

    /// Remember the viewport extents; degenerate extents are ignored.
    pub fn handle_window_resized(&mut self, width: u32, height: u32)
        ensures
            *final(self) == resized_2d_spec(*old(self), width, height),
            old(self).wf() ==> final(self).wf(),
    {
        if width >= 1 && height >= 1 {
            self.viewport_width = width;
            self.viewport_height = height;
        }
    }

    /// The per-frame uniform values: a pure function of the state.
    pub fn frame_uniforms(&self) -> (u: PlanarUniforms)
        requires
            self.wf(),
        ensures
            u == planar_uniforms_spec(*self),
    {
        proof {
            lemma_tdiv_close(self.viewport_height as int * SCALE, self.viewport_width as int);
        }
        let a: u64 = ((self.viewport_height as u64) * 1000) / (self.viewport_width as u64);
        PlanarUniforms {
            perspective: Transform2D { sx: a as i64, sy: SCALE, tx: 0, ty: 0 },
            model: self.matrix,
        }
    }
}

pub open spec fn mouse_input_2d_spec(
    v: Simple2DView,
    state: ElementState,
    button: MouseButton,
) -> Simple2DView {
    let pressed = state is Pressed;
    match button {
        MouseButton::Left => Simple2DView { is_left_button_pressed: pressed, ..v },
        MouseButton::Right => Simple2DView { is_right_button_pressed: pressed, ..v },
        MouseButton::Other => v,
    }
}

pub open spec fn cursor_moved_2d_spec(v: Simple2DView, x: int, y: int) -> Simple2DView {
    if v.is_left_button_pressed {
        let m = match v.prev_mouse_pos {
            Option::Some(p) => Transform2D {
                tx: s_add(
                    v.matrix.tx as int,
                    pan_delta_spec(x, p.0 as int, v.viewport_height as int),
                ) as i64,
                ty: s_add(
                    v.matrix.ty as int,
                    pan_delta_spec(p.1 as int, y, v.viewport_height as int),
                ) as i64,
                ..v.matrix
            },
            Option::None => v.matrix,
        };
        Simple2DView { matrix: m, prev_mouse_pos: Some((x as i64, y as i64)), ..v }
    } else {
        Simple2DView { prev_mouse_pos: None, ..v }
    }
}

pub open spec fn wheel_2d_spec(v: Simple2DView, delta: MouseScrollDelta) -> Simple2DView {
    if v.is_shift_button_pressed {
        match delta {
            MouseScrollDelta::LineDelta(dy) => {
                let k = s_add(SCALE as int, tdiv(dy as int, 10));
                Simple2DView {
                    matrix: Transform2D {
                        sx: s_mul(v.matrix.sx as int, k) as i64,
                        sy: s_mul(v.matrix.sy as int, k) as i64,
                        ..v.matrix
                    },
                    ..v
                }
            },
            MouseScrollDelta::PixelDelta => v,
        }
    } else {
        v
    }
}

pub open spec fn resized_2d_spec(v: Simple2DView, width: u32, height: u32) -> Simple2DView {
    if width >= 1 && height >= 1 {
        Simple2DView { viewport_width: width, viewport_height: height, ..v }
    } else {
        v
    }
}

pub open spec fn planar_uniforms_spec(v: Simple2DView) -> PlanarUniforms {
    PlanarUniforms {
        perspective: planar_projection_spec(v.viewport_width as int, v.viewport_height as int),
        model: v.matrix,
    }
}

} // verus!
