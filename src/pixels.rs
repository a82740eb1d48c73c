use vstd::prelude::*;

verus! {

/// A dense RGBA grid, row by row, four bytes per pixel.
#[derive(Clone, Debug)]
pub struct PixelBuffer {
    pub width: u32,
    pub height: u32,
    pub data: Vec<u8>,
}

impl View for PixelBuffer {
    type V = (u32, u32, Seq<u8>);

    open spec fn view(&self) -> (u32, u32, Seq<u8>) {
        (self.width, self.height, self.data@)
    }
}

impl PixelBuffer {
    /// Number of pixels of the grid.
    pub open spec fn pixel_count(&self) -> int {
        self.width as int * self.height as int
    }

    /// The byte vector holds exactly four bytes for each pixel.
    pub open spec fn wf(&self) -> bool {
        self.data@.len() == 4 * self.pixel_count()
    }

    /// Red channel of pixel `i`.
    pub open spec fn red(&self, i: int) -> u8 {
        self.data@[4 * i]
    }

    /// Green channel of pixel `i`.
    pub open spec fn green(&self, i: int) -> u8 {
        self.data@[4 * i + 1]
    }

    /// Blue channel of pixel `i`.
    pub open spec fn blue(&self, i: int) -> u8 {
        self.data@[4 * i + 2]
    }

    /// Wraps raw RGBA bytes; `None` when their length does not match the dimensions.
    pub fn from_raw(width: u32, height: u32, data: Vec<u8>) -> (r: Option<PixelBuffer>)
        ensures
            r matches Some(p) ==> p.wf() && p.width == width && p.height == height && p.data@
                == data@,
            r is None <==> data@.len() != 4 * (width as int * height as int),
    {
        assert(width as u64 * height as u64 <= u64::MAX) by (nonlinear_arith);
        let n: u64 = width as u64 * height as u64;
        let len = data.len();
        if n <= (usize::MAX / 4) as u64 && len == (n as usize) * 4 {
            Some(PixelBuffer { width, height, data })
        } else {
            None
        }
    }

    /// A copy of this buffer.
    pub fn duplicate(&self) -> (r: PixelBuffer)
        ensures
            r@ == self@,
    {
        PixelBuffer { width: self.width, height: self.height, data: self.data.clone() }
    }

    /// Number of pixels, as a machine integer.
    pub fn len(&self) -> (n: usize)
        requires
            self.wf(),
        ensures
            n == self.pixel_count(),
    {
        self.data.len() / 4
    }
}

} // verus!
