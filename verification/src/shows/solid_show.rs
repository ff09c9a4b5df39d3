//! A light show that simply shows a single solid color, adjustable through
//! presets and per-component deltas.
use vstd::prelude::*;

use crate::color::ColorLab;
use crate::color::ColorRgb;
use crate::color::max_radius_spec;
use crate::color::to_srgb_clamped_spec;
use crate::int_math::inc;
use crate::int_math::inc_spec;
use crate::lights::Duration;
use crate::lights::LightShow;

verus! {

/// A solid-color show: the color itself and its cached gamut radius.
pub struct SolidShow {
    pub color: ColorLab,
    pub radius: i8,
}

/// The cached radius always matches the color.
pub open spec fn solid_radius_cached(s: SolidShow) -> bool {
    s.radius as int == max_radius_spec(s.color)
}

/// Every element of the frame holds the show's color, converted with
/// clamping; nothing else about the frame changes.
pub open spec fn solid_frame(s: SolidShow, lights_pre: Seq<ColorRgb>, lights_post: Seq<ColorRgb>) -> bool {
    &&& lights_post.len() == lights_pre.len()
    &&& forall|i: int|
        0 <= i < lights_post.len() ==> lights_post[i] == to_srgb_clamped_spec(s.color)
}

impl SolidShow {
    /// Reset to the bright preset.
    pub fn preset_bright(&mut self)
        ensures
            final(self).color == (ColorLab { l: 70i8, a: 0i8, b: 0i8 }),
            solid_radius_cached(*final(self)),
    {
        self.color = ColorLab { l: 70, a: 0, b: 0 };
        self.radius = self.color.max_radius();
    }

    /// Reset to the red preset.
    pub fn preset_red(&mut self)
        ensures
            final(self).color == (ColorLab { l: 70i8, a: 30i8, b: 0i8 }),
            solid_radius_cached(*final(self)),
    {
        self.color = ColorLab { l: 70, a: 30, b: 0 };
        self.radius = self.color.max_radius();
    }

    /// Reset to the yellow preset.
    pub fn preset_yellow(&mut self)
        ensures
            final(self).color == (ColorLab { l: 70i8, a: 0i8, b: 30i8 }),
            solid_radius_cached(*final(self)),
    {
        self.color = ColorLab { l: 70, a: 0, b: 30 };
        self.radius = self.color.max_radius();
    }

    /// Brighten or dim the color, clamped to the lightness range.
    pub fn change_brightness(&mut self, delta: i8)
        ensures
            final(self).color.l == inc_spec(old(self).color.l, delta, 0i8, 99i8),
            final(self).color.a == old(self).color.a,
            final(self).color.b == old(self).color.b,
            solid_radius_cached(*final(self)),
    {
        inc(&mut self.color.l, delta, 0, 99);
        self.radius = self.color.max_radius();
    }

    /// Shift the color along the green-red axis.
    pub fn change_red(&mut self, delta: i8)
        ensures
            final(self).color.a == inc_spec(old(self).color.a, delta, -60i8, 60i8),
            final(self).color.l == old(self).color.l,
            final(self).color.b == old(self).color.b,
            solid_radius_cached(*final(self)),
    {
        inc(&mut self.color.a, delta, -60, 60);
        self.radius = self.color.max_radius();
    }

    /// Shift the color along the blue-yellow axis.
    pub fn change_yellow(&mut self, delta: i8)
        ensures
            final(self).color.b == inc_spec(old(self).color.b, delta, -60i8, 60i8),
            final(self).color.l == old(self).color.l,
            final(self).color.a == old(self).color.a,
            solid_radius_cached(*final(self)),
    {
        inc(&mut self.color.b, delta, -60, 60);
        self.radius = self.color.max_radius();
    }
}

impl LightShow for SolidShow {
    open spec fn inv(&self) -> bool {
        true
    }

    open spec fn new_ens(&self) -> bool {
        &&& self.color == (ColorLab { l: 70i8, a: 0i8, b: 0i8 })
        &&& solid_radius_cached(*self)
    }

    open spec fn next_ens(
        pre: SolidShow,
        post: SolidShow,
        lights_pre: Seq<ColorRgb>,
        lights_post: Seq<ColorRgb>,
        d: Duration,
    ) -> bool {
        &&& post == pre
        &&& solid_frame(pre, lights_pre, lights_post)
        &&& d == Duration::Forever
    }

    open spec fn update_ens(
        pre: SolidShow,
        post: SolidShow,
        lights_pre: Seq<ColorRgb>,
        lights_post: Seq<ColorRgb>,
    ) -> bool {
        &&& post == pre
        &&& solid_frame(pre, lights_pre, lights_post)
    }

    fn new() -> (s: SolidShow) {
        let mut show = SolidShow { color: ColorLab { l: 70, a: 0, b: 0 }, radius: 0 };
        show.radius = show.color.max_radius();
        show
    }

    fn next(&mut self, lights: &mut Vec<ColorRgb>) -> (d: Duration) {
        self.update(lights);
        Duration::Forever
    }

    fn update(&mut self, lights: &mut Vec<ColorRgb>) {
        let color = self.color.to_srgb_clamped();
        let n = lights.len();
        for i in 0..n
            invariant
                lights@.len() == n,
                color == to_srgb_clamped_spec(self.color),
                forall|j: int| 0 <= j < i ==> lights@[j] == color,
        {
            lights[i] = color;
        }
    }
}

} // verus!
