//! The pixel buffer a frame is drawn into: 256 x 240 pixels, three bytes of
//! RGB each.

use vstd::prelude::*;

verus! {

pub const FRAME_WIDTH: usize = 256;
pub const FRAME_HEIGHT: usize = 240;
pub const PIXEL_SIZE: usize = 3;
pub const FRAME_BYTES: usize = 184320;

/// The RGB byte buffer.
pub struct Frame {
    pub data: Vec<u8>,
}

impl Frame {
    /// The buffer always holds exactly one frame of pixels.
    pub open spec fn wf(&self) -> bool {
        self.data@.len() == FRAME_BYTES
    }

    pub fn new() -> (r: Self)
        ensures
            r.wf(),
            forall|i: int| 0 <= i < FRAME_BYTES ==> r.data@[i] == 0,
    {
        let mut data: Vec<u8> = Vec::new();
        let mut i: usize = 0;
        while i < FRAME_BYTES
            invariant
                i == data@.len() <= FRAME_BYTES,
                forall|j: int| 0 <= j < i ==> data@[j] == 0,
            decreases FRAME_BYTES - i,
        {
            data.push(0);
            i += 1;
        }
        Frame { data }
    }

    /// Writes one pixel's three bytes; coordinates outside the frame are
    /// ignored.
    pub fn set_pixel(&mut self, x: usize, y: usize, rgb: (u8, u8, u8))
        requires
            old(self).wf(),
        ensures
            final(self).wf(),
            x < FRAME_WIDTH && y < FRAME_HEIGHT ==> {
                let base = y * PIXEL_SIZE * FRAME_WIDTH + x * PIXEL_SIZE;
                final(self).data@ == old(self).data@.update(base as int, rgb.0).update(
                    base as int + 1,
                    rgb.1,
                ).update(base as int + 2, rgb.2)
            },
            !(x < FRAME_WIDTH && y < FRAME_HEIGHT) ==> final(self).data@ == old(self).data@,
    {
        if x < FRAME_WIDTH && y < FRAME_HEIGHT {
            let base = y * PIXEL_SIZE * FRAME_WIDTH + x * PIXEL_SIZE;
            let (r, g, b) = rgb;
            self.data.set(base, r);
            self.data.set(base + 1, g);
            self.data.set(base + 2, b);
        }
    }
}

} // verus!
