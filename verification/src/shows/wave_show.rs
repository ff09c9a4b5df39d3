//! A light show whose hues cycle in a traveling wave: a phase advances each
//! tick, and each light's hue is offset from its neighbor's by a
//! configurable curvature in degrees.
use vstd::prelude::*;

use crate::color::ColorLab;
use crate::color::ColorRgb;
use crate::color::max_radius_spec;
use crate::color::to_srgb_clamped_spec;
use crate::int_math::cos;
use crate::int_math::inc;
use crate::int_math::inc_i32;
use crate::int_math::inc_i32_spec;
use crate::int_math::inc_spec;
use crate::int_math::rem_trunc;
use crate::int_math::sin;
use crate::int_math::sin_spec;
use crate::int_math::tmod;
use crate::lights::Duration;
use crate::lights::LightShow;

verus! {

/// A traveling hue wave: the average color with its cached gamut radius, the
/// delay between ticks, the hue curvature between adjacent lights, and the
/// tick counter folded into a full turn.
pub struct WaveShow {
    pub center: ColorLab,
    pub delay: i32,
    pub curvature: i32,
    pub state: i32,
    pub radius: i8,
}

/// Field domains that the operations keep, and the cached radius matching
/// the center color.
pub open spec fn wave_inv(s: WaveShow) -> bool {
    &&& 50 <= s.delay <= 4000
    &&& -180 <= s.curvature <= 180
    &&& 0 <= s.state < 360
    &&& 0 <= s.center.l <= 99
    &&& -20 <= s.center.a <= 20
    &&& -20 <= s.center.b <= 20
    &&& s.radius as int == max_radius_spec(s.center)
    &&& 0 <= s.radius <= 100
}

/// The hue angle at light `i`: the phase of the whole wave advanced by the
/// curvature once per light, folded by full turns.
pub open spec fn wave_deg(s: WaveShow, i: int) -> int
    decreases i + 1,
{
    if i < 0 {
        tmod(s.state * s.curvature, 360)
    } else {
        tmod(wave_deg(s, i - 1) + s.curvature, 360)
    }
}

/// The LAB color at light `i`: the center shifted along a hue circle of the
/// cached radius.
pub open spec fn wave_color(s: WaveShow, i: int) -> ColorLab {
    ColorLab {
        l: s.center.l,
        a: (s.center.a + sin_spec(wave_deg(s, i), s.radius as int)) as i8,
        b: (s.center.b + sin_spec(90 - wave_deg(s, i), s.radius as int)) as i8,
    }
}

/// Every element of the frame holds its light's wave color, converted with
/// clamping.
pub open spec fn wave_frame(s: WaveShow, lights_pre: Seq<ColorRgb>, lights_post: Seq<ColorRgb>) -> bool {
    &&& lights_post.len() == lights_pre.len()
    &&& forall|i: int|
        0 <= i < lights_post.len() ==> lights_post[i] == to_srgb_clamped_spec(wave_color(s, i))
}

impl WaveShow {
    /// Reset to the slow, gentle preset.
    pub fn preset_slow(&mut self)
        ensures
            *final(self) == (WaveShow {
                center: ColorLab { l: 70i8, a: 0i8, b: 0i8 },
                radius: final(self).radius,
                delay: 50i32,
                curvature: 1i32,
                state: old(self).state,
            }),
            final(self).radius as int == max_radius_spec(final(self).center),
            0 <= final(self).radius <= 100,
    {
        self.center = ColorLab { l: 70, a: 0, b: 0 };
        self.radius = self.center.max_radius();
        self.delay = 50;
        self.curvature = 1;
    }

    /// Reset to the fast preset.
    pub fn preset_fast(&mut self)
        ensures
            *final(self) == (WaveShow {
                center: ColorLab { l: 70i8, a: 0i8, b: 10i8 },
                radius: final(self).radius,
                delay: 50i32,
                curvature: 17i32,
                state: old(self).state,
            }),
            final(self).radius as int == max_radius_spec(final(self).center),
            0 <= final(self).radius <= 100,
    {
        self.center = ColorLab { l: 70, a: 0, b: 10 };
        self.radius = self.center.max_radius();
        self.delay = 50;
        self.curvature = 17;
    }

    /// Reset to the slow preset with a golden-angle curvature.
    pub fn preset_golden(&mut self)
        ensures
            *final(self) == (WaveShow {
                center: ColorLab { l: 70i8, a: 0i8, b: 10i8 },
                radius: final(self).radius,
                delay: 400i32,
                curvature: 137i32,
                state: old(self).state,
            }),
            final(self).radius as int == max_radius_spec(final(self).center),
            0 <= final(self).radius <= 100,
    {
        self.center = ColorLab { l: 70, a: 0, b: 10 };
        self.radius = self.center.max_radius();
        self.delay = 400;
        self.curvature = 137;
    }

    /// Brighten or dim the wave, clamped to the lightness range.
    pub fn change_brightness(&mut self, delta: i8)
        ensures
            final(self).center.l == inc_spec(old(self).center.l, delta, 0i8, 99i8),
            final(self).center.a == old(self).center.a,
            final(self).center.b == old(self).center.b,
            final(self).radius as int == max_radius_spec(final(self).center),
            0 <= final(self).radius <= 100,
            final(self).delay == old(self).delay,
            final(self).curvature == old(self).curvature,
            final(self).state == old(self).state,
    {
        inc(&mut self.center.l, delta, 0, 99);
        self.radius = self.center.max_radius();
    }

    /// Make the wave travel slower or faster, within the supported range.
    pub fn change_delay(&mut self, delta: i32)
        ensures
            *final(self) == (WaveShow {
                delay: inc_i32_spec(old(self).delay, delta, 50i32, 4000i32),
                ..*old(self)
            }),
    {
        inc_i32(&mut self.delay, delta, 50, 4000);
    }

    /// Bend the wave more or less, within a half turn either way.
    pub fn change_curvature(&mut self, delta: i32)
        ensures
            *final(self) == (WaveShow {
                curvature: inc_i32_spec(old(self).curvature, delta, -180i32, 180i32),
                ..*old(self)
            }),
    {
        inc_i32(&mut self.curvature, delta, -180, 180);
    }
}

impl LightShow for WaveShow {
    open spec fn inv(&self) -> bool {
        wave_inv(*self)
    }

    open spec fn new_ens(&self) -> bool {
        &&& self.center == (ColorLab { l: 70i8, a: 0i8, b: 0i8 })
        &&& self.radius as int == max_radius_spec(self.center)
        &&& self.delay == 50
        &&& self.curvature == 1
        &&& self.state == 0
    }

    open spec fn next_ens(
        pre: WaveShow,
        post: WaveShow,
        lights_pre: Seq<ColorRgb>,
        lights_post: Seq<ColorRgb>,
        d: Duration,
    ) -> bool {
        &&& post == (WaveShow { state: ((pre.state + 1) % 360) as i32, ..pre })
        &&& wave_frame(post, lights_pre, lights_post)
        &&& d == Duration::Millis(post.delay as u32)
    }

    open spec fn update_ens(
        pre: WaveShow,
        post: WaveShow,
        lights_pre: Seq<ColorRgb>,
        lights_post: Seq<ColorRgb>,
    ) -> bool {
        &&& post == pre
        &&& wave_frame(pre, lights_pre, lights_post)
    }

    fn new() -> (s: WaveShow) {
        let mut show = WaveShow {
            center: ColorLab { l: 70, a: 0, b: 0 },
            radius: 0,
            delay: 50,
            curvature: 1,
            state: 0,
        };
        show.radius = show.center.max_radius();
        show
    }

    fn next(&mut self, lights: &mut Vec<ColorRgb>) -> (d: Duration) {
        self.state = if self.state >= 359 {
            0
        } else {
            self.state + 1
        };
        proof {
            if old(self).state == 359 {
                vstd::arithmetic::div_mod::lemma_mod_self_0(360);
            } else {
                vstd::arithmetic::div_mod::lemma_small_mod(
                    (old(self).state + 1) as nat,
                    360nat,
                );
            }
        }
        self.update(lights);
        Duration::Millis(self.delay as u32)
    }

    fn update(&mut self, lights: &mut Vec<ColorRgb>) {
        proof {
            let st = self.state as int;
            let cu = self.curvature as int;
            assert(-64620 <= st * cu <= 64620) by (nonlinear_arith)
                requires
                    0 <= st < 360,
                    -180 <= cu <= 180,
            ;
        }
        let mut deg: i32 = rem_trunc(self.state * self.curvature, 360);
        let n = lights.len();
        for i in 0..n
            invariant
                wave_inv(*self),
                lights@.len() == n,
                deg as int == wave_deg(*self, i as int - 1),
                -360 < deg < 360,
                forall|j: int|
                    0 <= j < i ==> lights@[j] == to_srgb_clamped_spec(wave_color(*self, j)),
        {
            deg = rem_trunc(deg + self.curvature, 360);
            let a = sin(deg as isize, self.radius as isize) as i8;
            let b = cos(deg as isize, self.radius as isize) as i8;
            lights[i] = ColorLab {
                l: self.center.l,
                a: self.center.a + a,
                b: self.center.b + b,
            }.to_srgb_clamped();
        }
    }
}

} // verus!
