use vstd::prelude::*;

verus! {

/// One RGBA pixel, eight bits per channel: red, green, blue, alpha.
#[derive(Clone, Copy, Debug, PartialEq, Eq, Structural)]
pub struct Pixel(pub u8, pub u8, pub u8, pub u8);

impl Pixel {
    /// Opaque white.
    pub fn white() -> (r: Pixel)
        ensures
            r == Pixel(255, 255, 255, 255),
    {
        Pixel(255, 255, 255, 255)
    }

    /// Opaque black.
    pub fn black() -> (r: Pixel)
        ensures
            r == Pixel(0, 0, 0, 255),
    {
        Pixel(0, 0, 0, 255)
    }

    /// Opaque blue, the default background.
    pub fn blue() -> (r: Pixel)
        ensures
            r == Pixel(0, 0, 255, 255),
    {
        Pixel(0, 0, 255, 255)
    }

    /// An opaque gray whose three color channels are all `level`.
    pub fn gray_level(level: u8) -> (r: Pixel)
        ensures
            r == Pixel(level, level, level, 255),
    {
        Pixel(level, level, level, 255)
    }
}

/// The bytes of pixel `i` stand at `4 * i .. 4 * i + 4` of `bytes`, in the
/// order red, green, blue, alpha.
pub open spec fn packed_at(bytes: Seq<u8>, i: int, p: Pixel) -> bool {
    &&& bytes[4 * i] == p.0
    &&& bytes[4 * i + 1] == p.1
    &&& bytes[4 * i + 2] == p.2
    &&& bytes[4 * i + 3] == p.3
}

/// The raw RGBA8 buffer of an image: four bytes per pixel, pixels in order.
pub fn to_rgba_bytes(pixels: &Vec<Pixel>) -> (r: Vec<u8>)
    requires
        4 * pixels@.len() <= usize::MAX,
    ensures
        r@.len() == 4 * pixels@.len(),
        forall|i: int| 0 <= i < pixels@.len() ==> packed_at(r@, i, #[trigger] pixels@[i]),
{
    let mut out: Vec<u8> = Vec::new();
    let mut i: usize = 0;
    while i < pixels.len()
        invariant
            i <= pixels@.len(),
            4 * pixels@.len() <= usize::MAX,
            out@.len() == 4 * i,
            forall|j: int| 0 <= j < i ==> packed_at(out@, j, #[trigger] pixels@[j]),
        decreases pixels@.len() - i,
    {
        let p = pixels[i];
        out.push(p.0);
        out.push(p.1);
        out.push(p.2);
        out.push(p.3);
        i += 1;
    }
    out
}

} // verus!
