use vstd::prelude::*;
use crate::pixel::Pixel;

verus! {

/// The color of one pixel: the shade of the nearest triangle that its ray
/// hits, or the background where it hits none.
pub open spec fn pixel_for(nearest: Option<usize>, shades: Seq<Pixel>, background: Pixel) -> Pixel {
    match nearest {
        Some(t) => shades[t as int],
        None => background,
    }
}

/// Every triangle that `nearest` names has a shade.
pub open spec fn shaded(nearest: Seq<Option<usize>>, triangle_count: nat) -> bool {
    forall|k: int|
        0 <= k < nearest.len() ==> match #[trigger] nearest[k] {
            Some(t) => t < triangle_count,
            None => true,
        }
}

/// The image that a render produces, pixel by pixel.
pub open spec fn frame_of(nearest: Seq<Option<usize>>, shades: Seq<Pixel>, background: Pixel) -> Seq<
    Pixel,
> {
    Seq::new(nearest.len(), |k: int| pixel_for(nearest[k], shades, background))
}

/// Builds the pixel buffer of a render. `nearest[k]` is the index of the
/// nearest triangle hit by the ray of pixel `k`, if any, and `shades[t]` the
/// color of triangle `t`.
pub fn compose_frame(nearest: &Vec<Option<usize>>, shades: &Vec<Pixel>, background: Pixel) -> (r:
    Vec<Pixel>)
    requires
        shaded(nearest@, shades@.len()),
    ensures
        r@ == frame_of(nearest@, shades@, background),
{
    let mut out: Vec<Pixel> = Vec::new();
    let mut k: usize = 0;
    while k < nearest.len()
        invariant
            k <= nearest@.len(),
            shaded(nearest@, shades@.len()),
            out@ =~= frame_of(nearest@.subrange(0, k as int), shades@, background),
        decreases nearest@.len() - k,
    {
        let p = match nearest[k] {
            Some(t) => {
                assert(match nearest@[k as int] {
                    Some(t) => t < shades@.len(),
                    None => true,
                });
                shades[t]
            },
            None => background,
        };
        out.push(p);
        k += 1;
    }
    proof {
        assert(nearest@.subrange(0, nearest@.len() as int) =~= nearest@);
    }
    out
}

} // verus!
