use vstd::prelude::*;

verus! {

/// An icon with its dimensions and its pixel data.
#[derive(Debug)]
pub struct Icon {
    /// The width of the icon in pixels.
    pub width: u32,
    /// The height of the icon in pixels.
    pub height: u32,
    /// The pixel data of the icon in RGBA order, row after row.
    pub pixels: Vec<u8>,
}

impl Icon {
    /// Four bytes for each pixel.
    pub open spec fn is_well_formed(&self) -> bool {
        self.pixels@.len() == self.width as int * self.height as int * 4
    }

    /// Whether the pixel buffer holds exactly four bytes for each pixel.
    pub fn has_rgba_layout(&self) -> (r: bool)
        ensures
            r == self.is_well_formed(),
    {
        let w = self.width as u128;
        let h = self.height as u128;
        assert(w * h <= 0xffff_ffff_ffff_ffff) by (nonlinear_arith)
            requires
                w <= 0xffff_ffff,
                h <= 0xffff_ffff,
        ;
        let expected: u128 = w * h * 4;
        self.pixels.len() as u128 == expected
    }
}

/// Where the byte at `i` of a converted buffer of `len` bytes comes from: the
/// first and third byte of each whole group of four trade places, and bytes
/// after the last whole group stay.
pub open spec fn rgba_source(i: int, len: int) -> int {
    if i < len - len % 4 {
        if i % 4 == 0 {
            i + 2
        } else if i % 4 == 2 {
            i - 2
        } else {
            i
        }
    } else {
        i
    }
}

/// Turns BGRA pixels into RGBA pixels, in place, by swapping the blue and
/// red byte of each pixel.
pub fn bgra_to_rgba(pixels: &mut Vec<u8>)
    ensures
        final(pixels)@.len() == old(pixels)@.len(),
        forall|i: int|
            0 <= i < old(pixels)@.len() ==> #[trigger] final(pixels)@[i] == old(pixels)@[rgba_source(
                i,
                old(pixels)@.len() as int,
            )],
{
    let len = pixels.len();
    let whole: usize = len - len % 4;
    let mut i: usize = 0;
    while i < whole
        invariant
            len == pixels@.len() == old(pixels)@.len(),
            whole == len - len % 4,
            i % 4 == 0,
            i <= whole,
            forall|j: int| 0 <= j < i ==> #[trigger] pixels@[j] == old(pixels)@[rgba_source(j, len as int)],
            forall|j: int| i <= j < len ==> #[trigger] pixels@[j] == old(pixels)@[j],
        decreases len - i,
    {
        let blue = pixels[i];
        let red = pixels[i + 2];
        pixels.set(i, red);
        pixels.set(i + 2, blue);
        assert forall|j: int| i <= j < i + 4 implies #[trigger] pixels@[j] == old(pixels)@[rgba_source(j, len as int)] by {
            assert(j < whole);
            assert(j % 4 == j - i);
        }
        i = i + 4;
    }
    assert(i == whole);
}

} // verus!
