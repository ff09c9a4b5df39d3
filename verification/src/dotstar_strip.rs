//! The strip's wire protocol: a frame of colors becomes a fixed all-zero
//! start frame, one four-byte LED frame per light with gamma-corrected
//! channels in reversed order behind a full-brightness prefix, and enough
//! zero end-frame bytes to clock every LED frame out of the shift register.
use vstd::prelude::*;

use crate::color::ColorRgb;
use crate::color_constants::GAMMA_CORRECTION;

verus! {

/// The four bytes of one LED frame: a full-brightness prefix, then the
/// gamma-corrected blue, green and red channels.
pub open spec fn led_frame_spec(c: ColorRgb) -> Seq<u8> {
    seq![
        255u8,
        GAMMA_CORRECTION@[c.b as int],
        GAMMA_CORRECTION@[c.g as int],
        GAMMA_CORRECTION@[c.r as int],
    ]
}

/// The LED frames of the first `n` lights, in order.
pub open spec fn led_frames_spec(lights: Seq<ColorRgb>, n: int) -> Seq<u8>
    decreases n,
{
    if n <= 0 {
        Seq::empty()
    } else {
        led_frames_spec(lights, n - 1) + led_frame_spec(lights[n - 1])
    }
}

/// The whole wire message: four zero start bytes, the LED frames, and one
/// zero end byte per started group of eight lights.
pub open spec fn wire_frame_spec(lights: Seq<ColorRgb>) -> Seq<u8> {
    seq![0u8, 0u8, 0u8, 0u8] + led_frames_spec(lights, lights.len() as int) + Seq::new(
        ((lights.len() + 7) / 8) as nat,
        |i: int| 0u8,
    )
}

/// Serialize a frame of colors into the strip's wire protocol.
pub fn encode_frame(lights: &Vec<ColorRgb>) -> (out: Vec<u8>)
    requires
        lights@.len() <= usize::MAX - 7,
    ensures
        out@ == wire_frame_spec(lights@),
{
    let mut out: Vec<u8> = Vec::new();
    out.push(0);
    out.push(0);
    out.push(0);
    out.push(0);
    let n = lights.len();
    for i in 0..n
        invariant
            n == lights@.len() <= usize::MAX - 7,
            out@ == seq![0u8, 0u8, 0u8, 0u8] + led_frames_spec(lights@, i as int),
    {
        let c = lights[i].correct_gamma();
        out.push(255);
        out.push(c.b);
        out.push(c.g);
        out.push(c.r);
        proof {
            assert(out@ == seq![0u8, 0u8, 0u8, 0u8] + led_frames_spec(lights@, i + 1)) by {
                assert(led_frames_spec(lights@, i + 1) == led_frames_spec(lights@, i as int)
                    + led_frame_spec(lights@[i as int]));
                assert(out@ =~= seq![0u8, 0u8, 0u8, 0u8] + (led_frames_spec(lights@, i as int)
                    + led_frame_spec(lights@[i as int])));
            }
        }
    }
    let end_bytes = (n + 7) / 8;
    proof {
        assert(out@ =~= wire_frame_spec(lights@).take(
            wire_frame_spec(lights@).len() - end_bytes,
        ));
    }
    let mut j: usize = 0;
    while j < end_bytes
        invariant
            end_bytes == (n + 7) / 8,
            n == lights@.len() <= usize::MAX - 7,
            0 <= j <= end_bytes,
            out@ == wire_frame_spec(lights@).take(
                wire_frame_spec(lights@).len() - (end_bytes - j),
            ),
        decreases end_bytes - j,
    {
        out.push(0);
        proof {
            assert(out@ =~= wire_frame_spec(lights@).take(
                wire_frame_spec(lights@).len() - (end_bytes - j - 1),
            ));
        }
        j = j + 1;
    }
    proof {
        assert(out@ =~= wire_frame_spec(lights@));
    }
    out
}

} // verus!
