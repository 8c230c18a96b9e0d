//! State of the display that shows the SPICE framebuffer: its dimensions and
//! whether something changed since the last frame was uploaded. The pixels
//! stay in the SPICE framebuffer and are read once per uploaded frame.

use vstd::prelude::*;

use crate::spice::{spec_byte_len, Framebuffer};

verus! {

/// The dimensions of the display and its dirty flag.
#[derive(Clone, Copy, Debug, PartialEq, Eq, Structural)]
pub struct DisplayModel {
    pub width: i32,
    pub height: i32,
    pub stride: i32,
    pub dirty: bool,
}

/// Display state — tracks dimensions and dirty flag.
pub struct GpuDisplay {
    width: i32,
    height: i32,
    stride: i32,
    dirty: bool,
}

impl View for GpuDisplay {
    type V = DisplayModel;

    closed spec fn view(&self) -> DisplayModel {
        DisplayModel {
            width: self.width,
            height: self.height,
            stride: self.stride,
            dirty: self.dirty,
        }
    }
}

impl GpuDisplay {
    /// A display of the given geometry, with a first frame to draw.
    pub fn new(width: i32, height: i32, stride: i32) -> (display: Self)
        ensures
            display@ == (DisplayModel { width, height, stride, dirty: true }),
    {
        GpuDisplay { width, height, stride, dirty: true }
    }

    /// Mark the display as dirty (called on SPICE invalidate).
    pub fn mark_dirty(&mut self)
        ensures
            final(self)@ == (DisplayModel { dirty: true, ..old(self)@ }),
    {
        self.dirty = true;
    }

    /// One render tick. When the display is dirty the flag is cleared, and
    /// when the SPICE framebuffer is also there the result is the number of
    /// bytes of the frame to upload, sized from the geometry SPICE reported
    /// with it; otherwise nothing is drawn.
    pub fn render_if_dirty(&mut self, framebuffer: Option<Framebuffer>) -> (frame_bytes: Option<
        usize,
    >)
        ensures
            final(self)@ == (DisplayModel { dirty: false, ..old(self)@ }),
            frame_bytes == (match framebuffer {
                Some(fb) => if old(self)@.dirty {
                    Some(spec_byte_len(fb))
                } else {
                    None
                },
                None => None,
            }),
    {
        if !self.dirty {
            return None;
        }
        self.dirty = false;
        match framebuffer {
            Some(fb) => Some(fb.byte_len()),
            None => None,
        }
    }

    /// Resize for a new VM display resolution; the next tick draws.
    pub fn resize(&mut self, width: i32, height: i32, stride: i32)
        ensures
            final(self)@ == (DisplayModel { width, height, stride, dirty: true }),
    {
        self.width = width;
        self.height = height;
        self.stride = stride;
        self.dirty = true;
    }

    pub fn width(&self) -> (width: i32)
        ensures
            width == self@.width,
    {
        self.width
    }

    pub fn height(&self) -> (height: i32)
        ensures
            height == self@.height,
    {
        self.height
    }
}

/// The SPICE display reported a primary surface of `width` × `height`: the
/// display takes that size with 4 bytes per pixel, and is created on the
/// first report.
pub fn on_display_ready(display: &mut Option<GpuDisplay>, width: i32, height: i32)
    requires
        i32::MIN <= width * 4 <= i32::MAX,
    ensures
        *final(display) matches Some(d) && d@ == (DisplayModel {
            width,
            height,
            stride: (width * 4) as i32,
            dirty: true,
        }),
{
    let stride = width * 4;
    match display {
        Some(existing) => existing.resize(width, height, stride),
        None => {
            *display = Some(GpuDisplay::new(width, height, stride));
        },
    }
}

} // verus!
