use vstd::prelude::*;

verus! {

/// Frames the event loop aims to draw per second.
pub const FRAME_RATE: u32 = 40;

/// The framebuffer as a run of RGB565 pixels: its length and the pixels
/// from one line to the next.
#[derive(Debug, Clone, Copy, PartialEq, Eq, Structural)]
pub struct FramebufferLayout {
    pub len: usize,
    pub stride: usize,
}

impl FramebufferLayout {
    /// The layout of a plane of `fblen` bytes whose lines are `stride`
    /// bytes apart; a pixel takes the bytes of one `u16`.
    pub fn from_plane(fblen: usize, stride: u16) -> (l: FramebufferLayout)
        ensures
            l.len == fblen / 2,
            l.stride == stride / 2,
    {
        let pixel: usize = core::mem::size_of::<u16>();
        proof {
            broadcast use vstd::layout::layout_of_primitives;
        }
        FramebufferLayout { len: fblen / pixel, stride: stride as usize / pixel }
    }

    /// The pixels `start..end` of line `line`, as a range of the whole
    /// framebuffer; `None` where the line starts past the end of the
    /// framebuffer, or the range is reversed or runs past its end.
    pub fn line_span(&self, line: usize, start: usize, end: usize) -> (r: Option<(usize, usize)>)
        ensures
            ({
                let base = line * self.stride;
                let fits = base <= self.len && start <= end && end <= self.len - base;
                &&& fits ==> r == Some(((base + start) as usize, (base + end) as usize))
                &&& !fits ==> r is None
            }),
    {
        let base: usize = match line.checked_mul(self.stride) {
            Some(b) => b,
            None => return None,
        };
        if base > self.len || start > end || end > self.len - base {
            return None;
        }
        Some((base + start, base + end))
    }
}

/// How long the event loop sleeps, in microseconds, after a frame: not at
/// all while animations run, else a thousand divided by the frame rate.
pub fn idle_delay(has_active_animations: bool) -> (d: Option<u32>)
    ensures
        has_active_animations ==> d is None,
        !has_active_animations ==> d == Some(1000u32 / FRAME_RATE),
{
    if has_active_animations {
        None
    } else {
        Some(1000 / FRAME_RATE)
    }
}

} // verus!
