//! The icon a compositor shows for a toplevel: which icons are accepted, the
//! buffer they need, and how their pixels are laid out for it.

use vstd::prelude::*;

verus! {

/// What setting a toplevel icon comes to.
#[derive(Debug, Clone, Copy, PartialEq, Eq, Structural)]
pub enum IconUpdate {
    /// No icon was given: the compositor's icon is cleared.
    Clear,
    /// The icon is empty or not square: nothing changes.
    Rejected,
    /// A buffer of `side` by `side` pixels, `stride` bytes a row, carries it.
    Install { side: i32, stride: i32 },
}

/// What an icon of the given size comes to, for a size that fits the
/// buffer's signed dimensions.
pub open spec fn icon_update_spec(icon: Option<(u32, u32)>) -> IconUpdate {
    match icon {
        None => IconUpdate::Clear,
        Some((width, height)) => if width != height || width == 0 {
            IconUpdate::Rejected
        } else {
            IconUpdate::Install { side: width as i32, stride: (width * 4) as i32 }
        },
    }
}

/// Whether an icon of this size has a buffer whose row length in bytes fits
/// a signed 32-bit integer.
pub open spec fn icon_size_fits(icon: Option<(u32, u32)>) -> bool {
    match icon {
        None => true,
        Some((width, height)) => width != height || width == 0 || width * 4 <= i32::MAX,
    }
}

/// Decide what setting an icon of `(width, height)` pixels does. Only a
/// non-empty square icon is accepted; `None` clears the icon.
pub fn icon_update(icon: Option<(u32, u32)>) -> (update: IconUpdate)
    requires
        icon_size_fits(icon),
    ensures
        update == icon_update_spec(icon),
{
    match icon {
        None => IconUpdate::Clear,
        Some((width, height)) => {
            if width != height || width == 0 {
                IconUpdate::Rejected
            } else {
                let side: i32 = width as i32;
                let stride: i32 = side * 4;
                IconUpdate::Install { side, stride }
            }
        },
    }
}

/// Whether the first `pixels` four-byte pixels of `canvas` hold those of
/// `rgba` with red and blue swapped (RGBA to little-endian ARGB, i.e. the
/// bytes B, G, R, A).
pub open spec fn swizzled_upto(canvas: Seq<u8>, rgba: Seq<u8>, pixels: int) -> bool {
    forall|p: int|
        0 <= p < pixels ==> {
            &&& #[trigger] canvas[4 * p] == rgba[4 * p + 2]
            &&& canvas[4 * p + 1] == rgba[4 * p + 1]
            &&& canvas[4 * p + 2] == rgba[4 * p]
            &&& canvas[4 * p + 3] == rgba[4 * p + 3]
        }
}

/// The number of whole pixels both buffers hold.
pub open spec fn common_pixels(canvas_len: int, rgba_len: int) -> int {
    if canvas_len / 4 <= rgba_len / 4 {
        canvas_len / 4
    } else {
        rgba_len / 4
    }
}

/// Write the RGBA pixels of `rgba` into `canvas` as ARGB8888, pixel by pixel,
/// as far as both hold whole pixels. Bytes past that are left as they were.
pub fn write_argb8888(canvas: &mut [u8], rgba: &[u8])
    ensures
        final(canvas)@.len() == old(canvas)@.len(),
        swizzled_upto(
            final(canvas)@,
            rgba@,
            common_pixels(old(canvas)@.len() as int, rgba@.len() as int),
        ),
        forall|i: int|
            4 * common_pixels(old(canvas)@.len() as int, rgba@.len() as int) <= i < old(
                canvas,
            )@.len() ==> #[trigger] final(canvas)@[i] == old(canvas)@[i],
{
    let canvas_len: usize = canvas.len();
    let canvas_pixels: usize = canvas_len / 4;
    let rgba_pixels: usize = rgba.len() / 4;
    let pixels: usize = if canvas_pixels <= rgba_pixels {
        canvas_pixels
    } else {
        rgba_pixels
    };
    let ghost original: Seq<u8> = canvas@;
    let mut p: usize = 0;
    while p < pixels
        invariant
            pixels == common_pixels(original.len() as int, rgba@.len() as int),
            canvas_len == original.len(),
            4 * pixels <= original.len(),
            4 * pixels <= rgba@.len(),
            p <= pixels,
            canvas@.len() == original.len(),
            swizzled_upto(canvas@, rgba@, p as int),
            forall|i: int| 4 * p <= i < original.len() ==> #[trigger] canvas@[i] == original[i],
        decreases pixels - p,
    {
        let ghost before: Seq<u8> = canvas@;
        let at: usize = 4 * p;
        let red: u8 = rgba[at];
        let green: u8 = rgba[at + 1];
        let blue: u8 = rgba[at + 2];
        let alpha: u8 = rgba[at + 3];
        canvas[at] = blue;
        canvas[at + 1] = green;
        canvas[at + 2] = red;
        canvas[at + 3] = alpha;
        proof {
            assert forall|q: int| 0 <= q < p + 1 implies {
                &&& #[trigger] canvas@[4 * q] == rgba@[4 * q + 2]
                &&& canvas@[4 * q + 1] == rgba@[4 * q + 1]
                &&& canvas@[4 * q + 2] == rgba@[4 * q]
                &&& canvas@[4 * q + 3] == rgba@[4 * q + 3]
            } by {
                if q < p {
                    assert(swizzled_upto(before, rgba@, p as int));
                    assert(before[4 * q] == rgba@[4 * q + 2]);
                    assert(4 * q + 3 < at);
                    assert(canvas@[4 * q + 1] == before[4 * q + 1]);
                }
            }
        }
        p = p + 1;
    }
}

} // verus!
