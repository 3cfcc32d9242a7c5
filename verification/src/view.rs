//! The camera's zoom control: edge-triggered scale stepping. Continuous
//! panning is camera math and stays with the renderer.

use vstd::prelude::*;
use crate::input::KeyState;

verus! {

/// The camera's zoom latches: each zoom key steps the scale once per
/// key-down edge. Panning is continuous camera math and stays with the
/// renderer.
pub struct View {
    pub do_zoom_in: bool,
    pub do_zoom_out: bool,
}

impl View {
    pub fn new() -> (r: View)
        ensures
            !r.do_zoom_in,
            !r.do_zoom_out,
    {
        View { do_zoom_in: false, do_zoom_out: false }
    }

    /// One frame of the zoom keys: a fresh Up keypress doubles the scale, a
    /// fresh Down keypress halves it (never below one); a held key steps
    /// only once, re-armed by its release.
    pub fn move_zoom(&mut self, scale: i32, up: KeyState, down: KeyState) -> (r: i32)
        requires
            1 <= scale <= 0x2000_0000,
        ensures
            ({
                let out_fire = up is Pressed && old(self).do_zoom_out;
                let mid = if out_fire { 2 * scale } else { scale as int };
                let in_fire = down is Pressed && mid > 1 && old(self).do_zoom_in;
                &&& r == if in_fire { mid / 2 } else { mid }
                &&& final(self).do_zoom_out == if out_fire {
                    false
                } else if up is Released {
                    true
                } else {
                    old(self).do_zoom_out
                }
                &&& final(self).do_zoom_in == if in_fire {
                    false
                } else if down is Released {
                    true
                } else {
                    old(self).do_zoom_in
                }
                &&& 1 <= r <= 0x4000_0000
            }),
    {
        let mut scale = scale;
        if up.is_pressed() && self.do_zoom_out {
            scale = scale * 2;
            self.do_zoom_out = false;
        } else if up.is_released() {
            self.do_zoom_out = true;
        }
        if down.is_pressed() && scale > 1 && self.do_zoom_in {
            scale = scale / 2;
            self.do_zoom_in = false;
        } else if down.is_released() {
            self.do_zoom_in = true;
        }
        scale
    }
}

} // verus!
