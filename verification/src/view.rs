//! The interactive views and the dispatcher that routes input to the
//! active one.
//!
//! Input events arrive as plain values: the window shell translates its
//! event types into the ones here, and every handler applies one event
//! fully before the next is considered.  Invalid or irrelevant input is
//! ignored or clamped, never an error.

use vstd::prelude::*;

pub mod simple;
pub mod simple3d;

verus! {

use crate::view::simple::Simple2DView;
use crate::view::simple::cursor_moved_2d_spec;
use crate::view::simple::mouse_input_2d_spec;
use crate::view::simple::resized_2d_spec;
use crate::view::simple::wheel_2d_spec;
use crate::view::simple3d::Simple3DView;
use crate::view::simple3d::cursor_moved_spec;
use crate::view::simple3d::keyboard_spec;
use crate::view::simple3d::mouse_input_spec;
use crate::view::simple3d::resized_spec;
use crate::view::simple3d::wheel_spec;

/// The keys the views react to.
#[derive(Clone, Copy, Debug, PartialEq, Eq, Structural)]
pub enum KeyCode {
    /// Cycles the slicing axis.
    KeyX,
    /// Any other key; ignored.
    Other,
}

/// Whether a key or button went down or up.
#[derive(Clone, Copy, Debug, PartialEq, Eq, Structural)]
pub enum ElementState {
    Pressed,
    Released,
}

/// The pointer buttons the views react to.
#[derive(Clone, Copy, Debug, PartialEq, Eq, Structural)]
pub enum MouseButton {
    Left,
    Right,
    /// Any other button; ignored.
    Other,
}

/// One wheel event.  Line-based deltas carry the signed vertical line
/// count in fixed-point milliunits; pixel-based deltas are deliberately
/// treated as a no-op by every consumer.
#[derive(Clone, Copy, Debug, PartialEq, Eq, Structural)]
pub enum MouseScrollDelta {
    LineDelta(i64),
    PixelDelta,
}

/// An ASCII letter folded to lower case; other bytes pass through.
pub open spec fn lower_byte(b: u8) -> u8 {
    if 65 <= b <= 90 {
        (b + 32) as u8
    } else {
        b
    }
}

pub open spec fn lower_seq(s: Seq<u8>) -> Seq<u8> {
    s.map_values(|b: u8| lower_byte(b))
}

pub open spec fn png_ext() -> Seq<u8> {
    seq![112u8, 110u8, 103u8]
}

pub open spec fn jpg_ext() -> Seq<u8> {
    seq![106u8, 112u8, 103u8]
}

pub open spec fn jpeg_ext() -> Seq<u8> {
    seq![106u8, 112u8, 101u8, 103u8]
}

/// The file extension (as bytes), ignoring ASCII case, names a flat
/// picture rather than a volume.
pub open spec fn planar_ext_spec(s: Seq<u8>) -> bool {
    ||| lower_seq(s) == png_ext()
    ||| lower_seq(s) == jpg_ext()
    ||| lower_seq(s) == jpeg_ext()
}

fn eq_lower_bytes(s: &Vec<u8>, target: &Vec<u8>) -> (r: bool)
    ensures
        r == (lower_seq(s@) == target@),
{
    if s.len() != target.len() {
        assert(lower_seq(s@).len() == s@.len());
        return false;
    }
    let mut i: usize = 0;
    while i < s.len()
        invariant
            0 <= i <= s@.len(),
            s@.len() == target@.len(),
            forall|j: int| 0 <= j < i ==> lower_seq(s@)[j] == target@[j],
        decreases s@.len() - i,
    {
        let b = s[i];
        let low: u8 = if b >= 65 && b <= 90 {
            b + 32
        } else {
            b
        };
        assert(lower_seq(s@)[i as int] == lower_byte(s@[i as int]));
        if low != target[i] {
            return false;
        }
        i += 1;
    }
    proof {
        assert(lower_seq(s@) =~= target@);
    }
    true
}

/// The extension (as bytes) names a flat picture, ignoring ASCII case:
/// `png`, `jpg` or `jpeg`.
pub fn is_planar_image_ext(ext: &Vec<u8>) -> (r: bool)
    ensures
        r == planar_ext_spec(ext@),
{
    let mut png: Vec<u8> = Vec::new();
    png.push(112);
    png.push(110);
    png.push(103);
    let mut jpg: Vec<u8> = Vec::new();
    jpg.push(106);
    jpg.push(112);
    jpg.push(103);
    let mut jpeg: Vec<u8> = Vec::new();
    jpeg.push(106);
    jpeg.push(112);
    jpeg.push(101);
    jpeg.push(103);
    proof {
        assert(png@ =~= png_ext());
        assert(jpg@ =~= jpg_ext());
        assert(jpeg@ =~= jpeg_ext());
    }
    eq_lower_bytes(ext, &png) || eq_lower_bytes(ext, &jpg) || eq_lower_bytes(ext, &jpeg)
}

/// The dispatcher: both views and the index of the active one.  Every
/// input event is routed to the active view; the inactive view keeps its
/// state untouched.
pub struct ViewMode {
    /// `0` for the volumetric view, `1` for the planar view.
    pub current_view: usize,
    pub view3d: Simple3DView,
    pub view2d: Simple2DView,
}

impl ViewMode {
    pub open spec fn wf(self) -> bool {
        &&& self.current_view <= 1
        &&& self.view3d.wf()
        &&& self.view2d.wf()
    }

    /// Whether events currently go to the volumetric view.
    pub open spec fn is_3d_active(self) -> bool {
        self.current_view == 0
    }

    /// Both views fresh, the volumetric one active.
    pub fn new(width: u32, height: u32) -> (r: ViewMode)
        requires
            width >= 1,
            height >= 1,
        ensures
            r.current_view == 0,
            r.view3d == Simple3DView::new_spec(width, height),
            r.view2d == Simple2DView::new_spec(width, height),
            r.wf(),
    {
        ViewMode {
            current_view: 0,
            view3d: Simple3DView::new(width, height),
            view2d: Simple2DView::new(width, height),
        }
    }

    pub fn set_2d_view(&mut self)
        ensures
            *final(self) == (ViewMode { current_view: 1, ..*old(self) }),
    {
        self.current_view = 1;
    }

    pub fn set_3d_view(&mut self)
        ensures
            *final(self) == (ViewMode { current_view: 0, ..*old(self) }),
    {
        self.current_view = 0;
    }

    /// Pick the view a dropped file belongs to from its extension:
    /// pictures go to the planar view, everything else to the volumetric
    /// one; a file without an extension keeps the current view.
    pub fn select_view_for_file(&mut self, ext: Option<&Vec<u8>>)
        ensures
            ext is None ==> *final(self) == *old(self),
            ext matches Some(e) && planar_ext_spec(e@) ==> *final(self) == (ViewMode {
                current_view: 1,
                ..*old(self)
            }),
            ext matches Some(e) && !planar_ext_spec(e@) ==> *final(self) == (ViewMode {
                current_view: 0,
                ..*old(self)
            }),
    {
        match ext {
            Some(e) => {
                if is_planar_image_ext(e) {
                    self.set_2d_view();
                } else {
                    self.set_3d_view();
                }
            },
            None => {},
        }
    }

    pub fn handle_keyboard_input(&mut self, state: ElementState, key: KeyCode)
        requires
            old(self).wf(),
        ensures
            old(self).is_3d_active() ==> *final(self) == (ViewMode {
                view3d: keyboard_spec(old(self).view3d, state, key),
                ..*old(self)
            }),
            !old(self).is_3d_active() ==> *final(self) == *old(self),
            final(self).wf(),
    {
        if self.current_view == 0 {
            self.view3d.handle_keyboard_input(state, key);
        } else {
            self.view2d.handle_keyboard_input(state, key);
        }
    }

    pub fn handle_modifiers_changed(&mut self, shift_held: bool)
        requires
            old(self).wf(),
        ensures
            old(self).is_3d_active() ==> *final(self) == (ViewMode {
                view3d: Simple3DView {
                    is_shift_button_pressed: shift_held,
                    ..old(self).view3d
                },
                ..*old(self)
            }),
            !old(self).is_3d_active() ==> *final(self) == (ViewMode {
                view2d: Simple2DView {
                    is_shift_button_pressed: shift_held,
                    ..old(self).view2d
                },
                ..*old(self)
            }),
            final(self).wf(),
    {
        if self.current_view == 0 {
            self.view3d.handle_modifiers_changed(shift_held);
        } else {
            self.view2d.handle_modifiers_changed(shift_held);
        }
    }

    pub fn handle_mouse_input(&mut self, state: ElementState, button: MouseButton)
        requires
            old(self).wf(),
        ensures
            old(self).is_3d_active() ==> *final(self) == (ViewMode {
                view3d: mouse_input_spec(old(self).view3d, state, button),
                ..*old(self)
            }),
            !old(self).is_3d_active() ==> *final(self) == (ViewMode {
                view2d: mouse_input_2d_spec(old(self).view2d, state, button),
                ..*old(self)
            }),
            final(self).wf(),
    {
        if self.current_view == 0 {
            self.view3d.handle_mouse_input(state, button);
        } else {
            self.view2d.handle_mouse_input(state, button);
        }
    }

    pub fn handle_cursor_moved(&mut self, x: i64, y: i64)
        requires
            old(self).wf(),
        ensures
            old(self).is_3d_active() ==> *final(self) == (ViewMode {
                view3d: cursor_moved_spec(old(self).view3d, x as int, y as int),
                ..*old(self)
            }),
            !old(self).is_3d_active() ==> *final(self) == (ViewMode {
                view2d: cursor_moved_2d_spec(old(self).view2d, x as int, y as int),
                ..*old(self)
            }),
            final(self).wf(),
    {
        if self.current_view == 0 {
            self.view3d.handle_cursor_moved(x, y);
        } else {
            self.view2d.handle_cursor_moved(x, y);
        }
    }

    pub fn handle_mouse_wheel(&mut self, delta: MouseScrollDelta)
        requires
            old(self).wf(),
        ensures
            old(self).is_3d_active() ==> *final(self) == (ViewMode {
                view3d: wheel_spec(old(self).view3d, delta),
                ..*old(self)
            }),
            !old(self).is_3d_active() ==> *final(self) == (ViewMode {
                view2d: wheel_2d_spec(old(self).view2d, delta),
                ..*old(self)
            }),
            final(self).wf(),
    {
        if self.current_view == 0 {
            self.view3d.handle_mouse_wheel(delta);
        } else {
            self.view2d.handle_mouse_wheel(delta);
        }
    }

    pub fn handle_window_resized(&mut self, width: u32, height: u32)
        requires
            old(self).wf(),
        ensures
            old(self).is_3d_active() ==> *final(self) == (ViewMode {
                view3d: resized_spec(old(self).view3d, width, height),
                ..*old(self)
            }),
            !old(self).is_3d_active() ==> *final(self) == (ViewMode {
                view2d: resized_2d_spec(old(self).view2d, width, height),
                ..*old(self)
            }),
            final(self).wf(),
    {
        if self.current_view == 0 {
            self.view3d.handle_window_resized(width, height);
        } else {
            self.view2d.handle_window_resized(width, height);
        }
    }
}

} // verus!
