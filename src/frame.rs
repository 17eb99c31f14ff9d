use vstd::prelude::*;

verus! {

/// `width * height` pixels of value 0.
pub open spec fn blank(width: u32, height: u32) -> Seq<u32> {
    Seq::new((width * height) as nat, |k: int| 0u32)
}

/// A pixel buffer for a window: one packed color per pixel, row by row.
pub struct Frame {
    pub width: u32,
    pub height: u32,
    pub pixels: Vec<u32>,
}

impl Frame {
    pub open spec fn wf(&self) -> bool {
        self.pixels@.len() == self.width * self.height
    }

    /// An empty frame of size 0 by 0.
    pub fn new() -> (f: Frame)
        ensures
            f.wf(),
            f.width == 0 && f.height == 0,
            f.pixels@ == blank(0, 0),
    {
        let f = Frame { width: 0, height: 0, pixels: Vec::new() };
        assert(f.pixels@ =~= blank(0, 0));
        f
    }

    /// Sets the size to `width` by `height` and clears every pixel, whatever
    /// size and contents the frame had before.
    pub fn resize(&mut self, width: u32, height: u32)
        requires
            width * height <= usize::MAX,
        ensures
            final(self).wf(),
            final(self).width == width && final(self).height == height,
            final(self).pixels@ == blank(width, height),
    {
        let n: usize = (width as u64 * height as u64) as usize;
        let mut pixels: Vec<u32> = Vec::with_capacity(n);
        let mut k: usize = 0;
        while k < n
            invariant
                k <= n,
                n == width * height,
                pixels@ =~= blank(width, height).take(k as int),
            decreases n - k,
        {
            pixels.push(0);
            k = k + 1;
            assert(pixels@ =~= blank(width, height).take(k as int));
        }
        assert(pixels@ =~= blank(width, height));
        self.width = width;
        self.height = height;
        self.pixels = pixels;
    }
}

/// A resize leaves exactly `width * height` pixels, all of them cleared, so
/// nothing of an earlier size or frame survives it.
pub proof fn lemma_resize_leaves_blank(width: u32, height: u32)
    ensures
        blank(width, height).len() == width * height,
        forall|k: int| 0 <= k < width * height ==> #[trigger] blank(width, height)[k] == 0,
{
}

} // verus!
