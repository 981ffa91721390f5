//! QR images of the address and session key that peers share: the code's
//! grey levels, expanded to the RGBA pixels that the front end displays.
use vstd::prelude::*;

use crate::bindings::{qr_luma, qr_render};

verus! {

/// Grey levels as opaque RGBA: each level becomes three equal colour bytes
/// followed by an alpha of 255.
pub open spec fn rgba_of(px: Seq<u8>) -> Seq<u8> {
    Seq::new(
        (4 * px.len()) as nat,
        |j: int|
            if j % 4 == 3 {
                255u8
            } else {
                px[j / 4]
            },
    )
}

/// Expands grey levels to opaque RGBA pixels.
pub fn luma_to_rgba(px: &[u8]) -> (rgba: Vec<u8>)
    ensures
        rgba@ == rgba_of(px@),
{
    let mut out: Vec<u8> = Vec::new();
    let mut i: usize = 0;
    while i < px.len()
        invariant
            i <= px@.len(),
            out@.len() == 4 * i,
            forall|j: int|
                0 <= j < 4 * i ==> #[trigger] out@[j] == (if j % 4 == 3 {
                    255u8
                } else {
                    px@[j / 4]
                }),
        decreases px@.len() - i,
    {
        let v = px[i];
        out.push(v);
        out.push(v);
        out.push(v);
        out.push(255);
        i += 1;
    }
    assert(out@ =~= rgba_of(px@));
    out
}

/// The QR image of `payload` as RGBA pixels, with its width in pixels; `None`
/// where the payload does not fit a QR code.
pub fn qr_rgba(payload: &[u8]) -> (res: Option<(usize, Vec<u8>)>)
    ensures
        res is None <==> qr_luma(payload@) is None,
        res matches Some((w, rgba)) ==> (qr_luma(payload@) matches Some((lw, px)) && lw == w
            && rgba@ == rgba_of(px) && rgba@.len() == 4 * w * w),
{
    match qr_render(payload) {
        None => None,
        Some((w, px)) => {
            let rgba = luma_to_rgba(&px);
            assert(4 * (w * w) == 4 * w * w) by (nonlinear_arith);
            Some((w, rgba))
        },
    }
}

} // verus!
