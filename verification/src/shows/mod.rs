//! The standard set of light shows and the aggregator that owns one of each
//! and routes control events to the active one.
use vstd::prelude::*;

use crate::color::ColorLab;
use crate::color::ColorRgb;
use crate::color::max_radius_spec;
use crate::int_math::inc_spec;
use crate::int_math::inc_i32_spec;
use crate::lights::Duration;
use crate::lights::LightShow;
use crate::shows::solid_show::solid_frame;
use crate::shows::strobe_show::strobe_frame;
use crate::shows::strobe_show::strobe_inv;
use crate::shows::wave_show::wave_frame;
use crate::shows::wave_show::wave_inv;
use crate::shows::circle_show::circle_frame;
use crate::shows::circle_show::circle_inv;

mod circle_show;
mod solid_show;
mod strobe_show;
mod wave_show;

pub use circle_show::CircleShow;
pub use circle_show::rate_of_speed_mode;
pub use circle_show::center_of_color_mode;
pub use solid_show::SolidShow;
pub use strobe_show::StrobeShow;
pub use wave_show::WaveShow;

verus! {

/// Write one color into every element of the frame, leaving its length
/// unchanged.
pub(crate) fn fill_frame(lights: &mut Vec<ColorRgb>, color: ColorRgb)
    ensures
        final(lights)@.len() == old(lights)@.len(),
        forall|i: int| 0 <= i < final(lights)@.len() ==> final(lights)@[i] == color,
{
    let n = lights.len();
    for i in 0..n
        invariant
            lights@.len() == n,
            forall|j: int| 0 <= j < i ==> lights@[j] == color,
    {
        lights[i] = color;
    }
}

} // verus!

verus! {

/// Which show the aggregator is running; Off renders black and ignores
/// control events.
#[derive(Clone, Copy, PartialEq, Eq, Structural, Debug)]
pub enum Mode {
    Off,
    Solid,
    Circle,
    Wave,
    Strobe,
}

/// The mode a numeric selector picks; anything unknown turns the strip off.
pub open spec fn mode_from_spec(num: u8) -> Mode {
    if num == 1 {
        Mode::Solid
    } else if num == 2 {
        Mode::Circle
    } else if num == 3 {
        Mode::Wave
    } else if num == 4 {
        Mode::Strobe
    } else {
        Mode::Off
    }
}

/// A standard set of light shows: one instance of each, plus the mode tag
/// that selects which one receives events and renders frames. Inactive
/// shows keep their state.
pub struct DemoLightShows {
    pub mode: Mode,
    pub solid_show: SolidShow,
    pub circle_show: CircleShow,
    pub wave_show: WaveShow,
    pub strobe_show: StrobeShow,
}

/// Every owned show is well formed.
pub open spec fn dls_inv(d: DemoLightShows) -> bool {
    &&& circle_inv(d.circle_show)
    &&& wave_inv(d.wave_show)
    &&& strobe_inv(d.strobe_show)
}

/// The frame the aggregator renders for a state: black when off, otherwise
/// the active show's frame.
pub open spec fn dls_frame(d: DemoLightShows, lp: Seq<ColorRgb>, ln: Seq<ColorRgb>) -> bool {
    match d.mode {
        Mode::Off => ln.len() == lp.len() && forall|i: int|
            0 <= i < ln.len() ==> ln[i] == (ColorRgb { r: 0u8, g: 0u8, b: 0u8 }),
        Mode::Solid => solid_frame(d.solid_show, lp, ln),
        Mode::Circle => circle_frame(d.circle_show, lp, ln),
        Mode::Wave => wave_frame(d.wave_show, lp, ln),
        Mode::Strobe => strobe_frame(d.strobe_show, lp, ln),
    }
}

/// The solid show after one of its three preset buttons.
pub open spec fn solid_after_button(s: SolidShow, which: usize) -> SolidShow {
    let color = if which == 0 {
        ColorLab { l: 70i8, a: 0i8, b: 0i8 }
    } else if which == 1 {
        ColorLab { l: 70i8, a: 30i8, b: 0i8 }
    } else {
        ColorLab { l: 70i8, a: 0i8, b: 30i8 }
    };
    SolidShow { color, radius: max_radius_spec(color) as i8 }
}

/// The circle show after one of its buttons: toggle speed, toggle color, or
/// brighten by ten.
pub open spec fn circle_after_button(s: CircleShow, which: usize) -> CircleShow {
    if which == 0 {
        CircleShow {
            speed_mode: ((s.speed_mode + 1) % 3) as i8,
            hue_change_rate: crate::shows::circle_show::rate_of_speed_mode(
                ((s.speed_mode + 1) % 3) as i8,
            ),
            ..s
        }
    } else if which == 1 {
        let center = crate::shows::circle_show::center_of_color_mode(((s.color_mode + 1) % 3) as i8);
        CircleShow {
            color_mode: ((s.color_mode + 1) % 3) as i8,
            center,
            radius: max_radius_spec(center) as i32,
            ..s
        }
    } else {
        let l = inc_spec(s.center.l, 10i8, 0i8, 99i8);
        let center = ColorLab { l, ..s.center };
        CircleShow { center, radius: max_radius_spec(center) as i32, ..s }
    }
}

/// The wave show after one of its preset buttons.
pub open spec fn wave_after_button(s: WaveShow, which: usize) -> WaveShow {
    let center = if which == 0 {
        ColorLab { l: 70i8, a: 0i8, b: 0i8 }
    } else {
        ColorLab { l: 70i8, a: 0i8, b: 10i8 }
    };
    let delay: i32 = if which == 2 {
        400i32
    } else {
        50i32
    };
    let curvature: i32 = if which == 0 {
        1i32
    } else if which == 1 {
        17i32
    } else {
        137i32
    };
    WaveShow {
        center,
        radius: max_radius_spec(center) as i8,
        delay,
        curvature,
        state: s.state,
    }
}

/// The strobe show after one of its preset buttons.
pub open spec fn strobe_after_button(s: StrobeShow, which: usize) -> StrobeShow {
    StrobeShow {
        brightness: if which == 2 {
            0i8
        } else {
            70i8
        },
        hue: if which == 1 {
            90i32
        } else {
            0i32
        },
        delay: 40i32,
        state: s.state,
    }
}

/// The solid or circle-style color adjustments a knob makes: brightness,
/// green-red shift, or blue-yellow shift, ten units per click.
pub open spec fn solid_after_knob(s: SolidShow, which: usize, clicks: i8) -> SolidShow {
    let color = if which == 0 {
        ColorLab { l: inc_spec(s.color.l, (10 * clicks) as i8, 0i8, 99i8), ..s.color }
    } else if which == 1 {
        ColorLab { a: inc_spec(s.color.a, (10 * clicks) as i8, -60i8, 60i8), ..s.color }
    } else {
        ColorLab { b: inc_spec(s.color.b, (10 * clicks) as i8, -60i8, 60i8), ..s.color }
    };
    SolidShow { color, radius: max_radius_spec(color) as i8 }
}

/// The circle show after a knob turn: the same three color adjustments as
/// the solid show, with the brightness ceiling one lower.
pub open spec fn circle_after_knob(s: CircleShow, which: usize, clicks: i8) -> CircleShow {
    let center = if which == 0 {
        ColorLab { l: inc_spec(s.center.l, (10 * clicks) as i8, 0i8, 99i8), ..s.center }
    } else if which == 1 {
        ColorLab { a: inc_spec(s.center.a, (10 * clicks) as i8, -60i8, 60i8), ..s.center }
    } else {
        ColorLab { b: inc_spec(s.center.b, (10 * clicks) as i8, -60i8, 60i8), ..s.center }
    };
    CircleShow { center, radius: max_radius_spec(center) as i32, ..s }
}

/// The wave show after a knob turn: brightness, delay, or curvature.
pub open spec fn wave_after_knob(s: WaveShow, which: usize, clicks: i8) -> WaveShow {
    if which == 0 {
        let l = inc_spec(s.center.l, (10 * clicks) as i8, 0i8, 99i8);
        let center = ColorLab { l, ..s.center };
        WaveShow { center, radius: max_radius_spec(center) as i8, ..s }
    } else if which == 1 {
        WaveShow { delay: inc_i32_spec(s.delay, (50 * clicks) as i32, 50i32, 4000i32), ..s }
    } else {
        WaveShow { curvature: inc_i32_spec(s.curvature, clicks as i32, -180i32, 180i32), ..s }
    }
}

/// The strobe show after a knob turn: fixed nudges to brightness, hue, or
/// delay.
pub open spec fn strobe_after_knob(s: StrobeShow, which: usize) -> StrobeShow {
    if which == 0 {
        StrobeShow { brightness: inc_spec(s.brightness, 10i8, 0i8, 99i8), ..s }
    } else if which == 1 {
        StrobeShow { hue: inc_i32_spec(s.hue, 10i32, -180i32, 180i32), ..s }
    } else {
        StrobeShow { delay: inc_i32_spec(s.delay, 5i32, 5i32, 1000i32), ..s }
    }
}

/// The aggregator state after a knob turn: off ignores it, every other mode
/// routes it to the active show.
pub open spec fn dls_after_knob(
    d: DemoLightShows,
    which: usize,
    clicks: i8,
) -> DemoLightShows {
    match d.mode {
        Mode::Off => d,
        Mode::Solid => DemoLightShows {
            solid_show: solid_after_knob(d.solid_show, which, clicks),
            ..d
        },
        Mode::Circle => DemoLightShows {
            circle_show: circle_after_knob(d.circle_show, which, clicks),
            ..d
        },
        Mode::Wave => DemoLightShows { wave_show: wave_after_knob(d.wave_show, which, clicks), ..d },
        Mode::Strobe => DemoLightShows { strobe_show: strobe_after_knob(d.strobe_show, which), ..d },
    }
}

/// The aggregator state after a button press: off ignores it, every other
/// mode routes it to the active show.
pub open spec fn dls_after_button(d: DemoLightShows, which: usize) -> DemoLightShows {
    match d.mode {
        Mode::Off => d,
        Mode::Solid => DemoLightShows { solid_show: solid_after_button(d.solid_show, which), ..d },
        Mode::Circle => DemoLightShows {
            circle_show: circle_after_button(d.circle_show, which),
            ..d
        },
        Mode::Wave => DemoLightShows { wave_show: wave_after_button(d.wave_show, which), ..d },
        Mode::Strobe => DemoLightShows {
            strobe_show: strobe_after_button(d.strobe_show, which),
            ..d
        },
    }
}

impl DemoLightShows {
    /// Build the standard set, starting in solid mode with every show in
    /// its fresh state.
    pub fn new() -> (d: DemoLightShows)
        ensures
            d.mode == Mode::Solid,
            d.solid_show.new_ens(),
            d.circle_show.new_ens(),
            d.wave_show.new_ens(),
            d.strobe_show.new_ens(),
            dls_inv(d),
    {
        DemoLightShows {
            mode: Mode::Solid,
            solid_show: LightShow::new(),
            circle_show: LightShow::new(),
            wave_show: LightShow::new(),
            strobe_show: LightShow::new(),
        }
    }

    /// Select a mode by number; reports whether the mode changed. The shows
    /// themselves are never touched, so each keeps its state across mode
    /// switches.
    pub fn set_mode(&mut self, mode_num: u8) -> (changed: bool)
        ensures
            *final(self) == (DemoLightShows { mode: final(self).mode, ..*old(self) }),
            final(self).mode == (if mode_from_spec(mode_num) == old(self).mode {
                old(self).mode
            } else {
                mode_from_spec(mode_num)
            }),
            changed == (mode_from_spec(mode_num) != old(self).mode),
    {
        let mode = match mode_num {
            1 => Mode::Solid,
            2 => Mode::Circle,
            3 => Mode::Wave,
            4 => Mode::Strobe,
            _ => Mode::Off,
        };
        if mode != self.mode {
            self.mode = mode;
            return true;
        }
        false
    }

    /// Route a button press to the active show and re-render the frame at
    /// once; in off mode nothing happens at all.
    pub fn button_pressed(&mut self, lights: &mut Vec<ColorRgb>, which_button: usize)
        requires
            dls_inv(*old(self)),
            old(self).mode is Off || which_button < 3,
        ensures
            dls_inv(*final(self)),
            *final(self) == dls_after_button(*old(self), which_button),
            old(self).mode is Off ==> final(lights)@ == old(lights)@,
            !(old(self).mode is Off) ==> dls_frame(*final(self), old(lights)@, final(lights)@),
    {
        match self.mode {
            Mode::Off => {
                return ;
            },
            Mode::Solid => {
                let show = &mut self.solid_show;
                match which_button {
                    0 => show.preset_bright(),
                    1 => show.preset_red(),
                    _ => show.preset_yellow(),
                }
            },
            Mode::Circle => {
                let show = &mut self.circle_show;
                match which_button {
                    0 => show.toggle_speed(),
                    1 => show.toggle_color(),
                    _ => show.change_brightness(10),
                }
                proof {
                    vstd::arithmetic::div_mod::lemma_mod_bound(
                        old(self).circle_show.speed_mode + 1,
                        3,
                    );
                    vstd::arithmetic::div_mod::lemma_mod_bound(
                        old(self).circle_show.color_mode + 1,
                        3,
                    );
                }
            },
            Mode::Wave => {
                let show = &mut self.wave_show;
                match which_button {
                    0 => show.preset_slow(),
                    1 => show.preset_fast(),
                    _ => show.preset_golden(),
                }
            },
            Mode::Strobe => {
                let show = &mut self.strobe_show;
                match which_button {
                    0 => show.preset1(),
                    1 => show.preset2(),
                    _ => show.preset3(),
                }
            },
        }
        self.update(lights);
    }

    /// Route a knob turn to the active show and re-render the frame at
    /// once; in off mode nothing happens at all.
    pub fn knob_turned(&mut self, lights: &mut Vec<ColorRgb>, which_knob: usize, clicks: i16)
        requires
            dls_inv(*old(self)),
            old(self).mode is Off || which_knob < 3,
            old(self).mode is Solid || old(self).mode is Circle || old(self).mode is Wave
                ==> -12 <= clicks <= 12,
        ensures
            dls_inv(*final(self)),
            *final(self) == dls_after_knob(*old(self), which_knob, clicks as i8),
            old(self).mode is Off ==> final(lights)@ == old(lights)@,
            !(old(self).mode is Off) ==> dls_frame(*final(self), old(lights)@, final(lights)@),
    {
        match self.mode {
            Mode::Off => {
                return ;
            },
            Mode::Solid => {
                let clicks = clicks as i8;
                let show = &mut self.solid_show;
                match which_knob {
                    0 => show.change_brightness(10 * clicks),
                    1 => show.change_red(10 * clicks),
                    _ => show.change_yellow(10 * clicks),
                }
            },
            Mode::Circle => {
                let clicks = clicks as i8;
                let show = &mut self.circle_show;
                match which_knob {
                    0 => show.change_brightness(10 * clicks),
                    1 => show.change_red(10 * clicks),
                    _ => show.change_yellow(10 * clicks),
                }
            },
            Mode::Wave => {
                let clicks = clicks as i8;
                let show = &mut self.wave_show;
                match which_knob {
                    0 => show.change_brightness(10 * clicks),
                    1 => show.change_delay(50 * clicks as i32),
                    _ => show.change_curvature(clicks as i32),
                }
            },
            Mode::Strobe => {
                let show = &mut self.strobe_show;
                match which_knob {
                    0 => show.change_brightness(10),
                    1 => show.change_hue(10),
                    _ => show.change_delay(5),
                }
            },
        }
        self.update(lights);
    }

    /// Advance the active show by one tick into the frame and report how
    /// long to wait; off mode renders black and never needs another tick.
    pub fn next_lights(&mut self, lights: &mut Vec<ColorRgb>) -> (d: Duration)
        requires
            dls_inv(*old(self)),
        ensures
            dls_inv(*final(self)),
            final(self).mode == old(self).mode,
            match old(self).mode {
                Mode::Off => *final(self) == *old(self) && dls_frame(
                    *final(self),
                    old(lights)@,
                    final(lights)@,
                ) && d == Duration::Forever,
                Mode::Solid => *final(self) == (DemoLightShows {
                    solid_show: final(self).solid_show,
                    ..*old(self)
                }) && SolidShow::next_ens(
                    old(self).solid_show,
                    final(self).solid_show,
                    old(lights)@,
                    final(lights)@,
                    d,
                ),
                Mode::Circle => *final(self) == (DemoLightShows {
                    circle_show: final(self).circle_show,
                    ..*old(self)
                }) && CircleShow::next_ens(
                    old(self).circle_show,
                    final(self).circle_show,
                    old(lights)@,
                    final(lights)@,
                    d,
                ),
                Mode::Wave => *final(self) == (DemoLightShows {
                    wave_show: final(self).wave_show,
                    ..*old(self)
                }) && WaveShow::next_ens(
                    old(self).wave_show,
                    final(self).wave_show,
                    old(lights)@,
                    final(lights)@,
                    d,
                ),
                Mode::Strobe => *final(self) == (DemoLightShows {
                    strobe_show: final(self).strobe_show,
                    ..*old(self)
                }) && StrobeShow::next_ens(
                    old(self).strobe_show,
                    final(self).strobe_show,
                    old(lights)@,
                    final(lights)@,
                    d,
                ),
            },
    {
        match self.mode {
            Mode::Off => {
                fill_frame(lights, ColorRgb::black());
                Duration::Forever
            },
            Mode::Solid => self.solid_show.next(lights),
            Mode::Circle => self.circle_show.next(lights),
            Mode::Wave => self.wave_show.next(lights),
            Mode::Strobe => self.strobe_show.next(lights),
        }
    }

    /// Re-render the active show's current state into the frame without
    /// advancing the animation.
    pub fn update(&mut self, lights: &mut Vec<ColorRgb>)
        requires
            dls_inv(*old(self)),
        ensures
            dls_inv(*final(self)),
            *final(self) == *old(self),
            dls_frame(*old(self), old(lights)@, final(lights)@),
    {
        match self.mode {
            Mode::Off => {
                fill_frame(lights, ColorRgb::black());
            },
            Mode::Solid => self.solid_show.update(lights),
            Mode::Circle => self.circle_show.update(lights),
            Mode::Wave => self.wave_show.update(lights),
            Mode::Strobe => self.strobe_show.update(lights),
        }
    }
}

/// Selecting another mode and then coming back leaves every show exactly as
/// it was: mode changes never reset the inactive shows.
pub proof fn lemma_mode_switch_preserves_shows(
    d1: DemoLightShows,
    d2: DemoLightShows,
    d3: DemoLightShows,
)
    requires
        d2 == (DemoLightShows { mode: d2.mode, ..d1 }),
        d3 == (DemoLightShows { mode: d3.mode, ..d2 }),
    ensures
        d3.solid_show == d1.solid_show,
        d3.circle_show == d1.circle_show,
        d3.wave_show == d1.wave_show,
        d3.strobe_show == d1.strobe_show,
{
}

} // verus!
