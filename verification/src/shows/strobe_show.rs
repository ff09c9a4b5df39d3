//! A strobing light show: every tick flips between a configured color and
//! its opposite-hue counterpart, broadcast to the whole strip.
use vstd::prelude::*;

use crate::color::ColorLab;
use crate::color::ColorRgb;
use crate::color::to_srgb_clamped_spec;
use crate::int_math::inc;
use crate::int_math::inc_i32;
use crate::int_math::inc_spec;
use crate::int_math::inc_i32_spec;
use crate::int_math::sin;
use crate::int_math::cos;
use crate::int_math::sin_spec;
use crate::lights::Duration;
use crate::lights::LightShow;
use crate::shows::fill_frame;

verus! {

/// A flasher: the brightness and hue of one of the two colors (the other is
/// bright with the opposite hue), the per-stage delay, and which of the two
/// stages is showing.
pub struct StrobeShow {
    pub brightness: i8,
    pub hue: i32,
    pub delay: i32,
    pub state: bool,
}

/// Field domains that the operations keep: hue folded into a full turn,
/// delay within its knob range, brightness a percentage.
pub open spec fn strobe_inv(s: StrobeShow) -> bool {
    &&& -180 <= s.hue <= 180
    &&& 5 <= s.delay <= 1000
    &&& 0 <= s.brightness <= 99
}

/// The color a strobe state shows: the configured brightness and hue in one
/// stage, full brightness and the opposite hue in the other, at a fixed
/// chroma distance of 40.
pub open spec fn strobe_color_spec(s: StrobeShow) -> ColorLab {
    if s.state {
        ColorLab {
            l: s.brightness,
            a: sin_spec(s.hue as int, 40) as i8,
            b: sin_spec(90 - s.hue as int, 40) as i8,
        }
    } else {
        ColorLab {
            l: 70i8,
            a: sin_spec(180 + s.hue as int, 40) as i8,
            b: sin_spec(90 - (180 + s.hue as int), 40) as i8,
        }
    }
}

/// Every element of the frame holds the strobe's current color.
pub open spec fn strobe_frame(
    s: StrobeShow,
    lights_pre: Seq<ColorRgb>,
    lights_post: Seq<ColorRgb>,
) -> bool {
    &&& lights_post.len() == lights_pre.len()
    &&& forall|i: int|
        0 <= i < lights_post.len() ==> lights_post[i] == to_srgb_clamped_spec(
            strobe_color_spec(s),
        )
}

impl StrobeShow {
    /// Reset to the slow white flasher preset.
    pub fn preset1(&mut self)
        ensures
            *final(self) == (StrobeShow {
                brightness: 70i8,
                hue: 0i32,
                delay: 40i32,
                state: old(self).state,
            }),
    {
        self.brightness = 70;
        self.hue = 0;
        self.delay = 40;
    }

    /// Reset to the shifted-hue preset.
    pub fn preset2(&mut self)
        ensures
            *final(self) == (StrobeShow {
                brightness: 70i8,
                hue: 90i32,
                delay: 40i32,
                state: old(self).state,
            }),
    {
        self.brightness = 70;
        self.hue = 90;
        self.delay = 40;
    }

    /// Reset to the dark-stage preset.
    pub fn preset3(&mut self)
        ensures
            *final(self) == (StrobeShow {
                brightness: 0i8,
                hue: 0i32,
                delay: 40i32,
                state: old(self).state,
            }),
    {
        self.brightness = 0;
        self.hue = 0;
        self.delay = 40;
    }

    /// Brighten or dim the configured stage, clamped to a percentage.
    pub fn change_brightness(&mut self, delta: i8)
        ensures
            *final(self) == (StrobeShow {
                brightness: inc_spec(old(self).brightness, delta, 0i8, 99i8),
                ..*old(self)
            }),
    {
        inc(&mut self.brightness, delta, 0, 99);
    }

    /// Rotate the configured stage's hue, clamped to a full turn.
    pub fn change_hue(&mut self, delta: i32)
        ensures
            *final(self) == (StrobeShow {
                hue: inc_i32_spec(old(self).hue, delta, -180i32, 180i32),
                ..*old(self)
            }),
    {
        inc_i32(&mut self.hue, delta, -180, 180);
    }

    /// Make the stages longer or shorter, within the supported range.
    pub fn change_delay(&mut self, delta: i32)
        ensures
            *final(self) == (StrobeShow {
                delay: inc_i32_spec(old(self).delay, delta, 5i32, 1000i32),
                ..*old(self)
            }),
    {
        inc_i32(&mut self.delay, delta, 5, 1000);
    }
}

impl LightShow for StrobeShow {
    open spec fn inv(&self) -> bool {
        strobe_inv(*self)
    }

    open spec fn new_ens(&self) -> bool {
        *self == (StrobeShow { brightness: 70i8, hue: 0i32, delay: 40i32, state: false })
    }

    open spec fn next_ens(
        pre: StrobeShow,
        post: StrobeShow,
        lights_pre: Seq<ColorRgb>,
        lights_post: Seq<ColorRgb>,
        d: Duration,
    ) -> bool {
        &&& post == (StrobeShow { state: !pre.state, ..pre })
        &&& strobe_frame(post, lights_pre, lights_post)
        &&& d == Duration::Millis(post.delay as u32)
    }

    open spec fn update_ens(
        pre: StrobeShow,
        post: StrobeShow,
        lights_pre: Seq<ColorRgb>,
        lights_post: Seq<ColorRgb>,
    ) -> bool {
        &&& post == pre
        &&& strobe_frame(pre, lights_pre, lights_post)
    }

    fn new() -> (s: StrobeShow) {
        StrobeShow { brightness: 70, hue: 0, delay: 40, state: false }
    }

    fn next(&mut self, lights: &mut Vec<ColorRgb>) -> (d: Duration) {
        self.state = !self.state;
        self.update(lights);
        Duration::Millis(self.delay as u32)
    }

    fn update(&mut self, lights: &mut Vec<ColorRgb>) {
        let color = if self.state {
            let a = sin(self.hue as isize, 40) as i8;
            let b = cos(self.hue as isize, 40) as i8;
            ColorLab { l: self.brightness, a, b }.to_srgb_clamped()
        } else {
            let a = sin(180 + self.hue as isize, 40) as i8;
            let b = cos(180 + self.hue as isize, 40) as i8;
            ColorLab { l: 70, a, b }.to_srgb_clamped()
        };
        fill_frame(lights, color);
    }
}

} // verus!
