//! A light show of many independent hue oscillators: each light's hue angle
//! takes a bounded random walk around a controllable center color, so the
//! strip shimmers while averaging to that color.
use vstd::prelude::*;

use crate::color::ColorLab;
use crate::color::ColorRgb;
use crate::color::max_radius_spec;
use crate::color::to_srgb_clamped_spec;
use crate::int_math::cos;
use crate::int_math::inc;
use crate::int_math::inc_spec;
use crate::int_math::rem_euclid_i32;
use crate::int_math::sin;
use crate::int_math::sin_spec;
use crate::lights::Duration;
use crate::lights::LightShow;
use crate::rng::Rng;
use crate::rng::rng_next_spec;

verus! {

/// Number of hue oscillators held in state; a longer strip cycles them.
pub const CIRCLE_SIZE: usize = 64;

/// How long to wait between ticks, in milliseconds.
pub const CIRCLE_DURATION: u32 = 50;

/// A shimmering show: the average color with its cached gamut radius, the
/// random stream, one (hue angle, velocity) pair per oscillator, and the
/// speed and color preset selectors.
pub struct CircleShow {
    pub center: ColorLab,
    pub radius: i32,
    pub rng: Rng,
    pub state: Vec<(i32, i32)>,
    pub hue_change_rate: i32,
    pub speed_mode: i8,
    pub color_mode: i8,
}

/// The state of the random stream after `n` draws from `s0`.
pub open spec fn rng_iter(s0: u32, n: nat) -> u32
    decreases n,
{
    if n == 0 {
        s0
    } else {
        rng_next_spec(rng_iter(s0, (n - 1) as nat))
    }
}

/// The value of the `j`-th ranged draw from a stream seeded at `s0`.
pub open spec fn draw(s0: u32, j: nat, low: int, high: int) -> int {
    low + rng_iter(s0, j) as int % (high - low)
}

/// The hue-change rate that a speed mode selects.
pub open spec fn rate_of_speed_mode(m: i8) -> i32 {
    if m == 0 {
        3i32
    } else if m == 1 {
        9i32
    } else {
        27i32
    }
}

/// The center color that a color mode selects.
pub open spec fn center_of_color_mode(m: i8) -> ColorLab {
    if m == 1 {
        ColorLab { l: 50i8, a: 35i8, b: 5i8 }
    } else if m == 2 {
        ColorLab { l: 70i8, a: 0i8, b: 30i8 }
    } else {
        ColorLab { l: 70i8, a: 0i8, b: 0i8 }
    }
}

/// Field domains that the operations keep: 64 oscillators with folded angles
/// and bounded velocities, a rate from the speed table, modes in range, and
/// the cached radius matching the center.
pub open spec fn circle_inv(s: CircleShow) -> bool {
    &&& s.state.len() == 64
    &&& forall|k: int|
        0 <= k < 64 ==> 0 <= (#[trigger] s.state[k]).0 < 360 && -27 <= s.state[k].1 <= 28
    &&& (s.hue_change_rate == 3 || s.hue_change_rate == 9 || s.hue_change_rate == 27)
    &&& 0 <= s.speed_mode < 3
    &&& 0 <= s.color_mode < 3
    &&& s.radius as int == max_radius_spec(s.center)
    &&& 0 <= s.radius <= 100
    &&& 0 <= s.center.l <= 99
    &&& -60 <= s.center.a <= 60
    &&& -60 <= s.center.b <= 60
}

/// Signed 8-bit wrap-around addition, the behaviour of `wrapping_add`.
pub open spec fn wrap_add_i8(x: i8, y: i8) -> i8 {
    if x + y > 127 {
        (x + y - 256) as i8
    } else if x + y < -128 {
        (x + y + 256) as i8
    } else {
        (x + y) as i8
    }
}

/// The LAB color of light `i`: its oscillator's angle turned into a chroma
/// offset around the center, with wrap-around addition.
pub open spec fn circle_color(s: CircleShow, i: int) -> ColorLab {
    let deg = s.state[i % 64].0 as int;
    ColorLab {
        l: s.center.l,
        a: wrap_add_i8(sin_spec(deg, s.radius as int) as i8, s.center.a),
        b: wrap_add_i8(sin_spec(90 - deg, s.radius as int) as i8, s.center.b),
    }
}

/// Every element of the frame holds its light's color, converted with
/// clamping.
pub open spec fn circle_frame(
    s: CircleShow,
    lights_pre: Seq<ColorRgb>,
    lights_post: Seq<ColorRgb>,
) -> bool {
    &&& lights_post.len() == lights_pre.len()
    &&& forall|i: int|
        0 <= i < lights_post.len() ==> lights_post[i] == to_srgb_clamped_spec(circle_color(s, i))
}

/// One oscillator's step from a given stream state: the velocity moves by
/// the product of three trinary draws, is clamped to the rate window, and is
/// integrated into the angle modulo a full turn.
pub open spec fn step_entry_of(s0: u32, e: (i32, i32), var: int) -> (i32, i32) {
    let d1 = draw(s0, 1, -1, 2);
    let d2 = draw(s0, 2, -1, 2);
    let d3 = draw(s0, 3, -1, 2);
    let dv = d1 * d2 * d3;
    let nv0 = e.1 + dv;
    let maxed = if nv0 >= -var {
        nv0
    } else {
        -var
    };
    let nv = if maxed <= var + 1 {
        maxed
    } else {
        var + 1
    };
    let np = (e.0 + nv) % 360;
    (np as i32, nv as i32)
}

/// Oscillator `k`'s state after a tick: its step taken where the stream
/// stands after the preceding oscillators' draws.
#[verifier::opaque]
pub open spec fn circle_step_entry(s: CircleShow, k: int) -> (i32, i32) {
    step_entry_of(rng_iter(s.rng.state, (3 * k) as nat), s.state[k], s.hue_change_rate as int)
}

/// Drawing `a + b` times is drawing `a` times and then `b` more.
proof fn lemma_rng_iter_add(s0: u32, a: nat, b: nat)
    ensures
        rng_iter(s0, a + b) == rng_iter(rng_iter(s0, a), b),
    decreases b,
{
    if b > 0 {
        lemma_rng_iter_add(s0, a, (b - 1) as nat);
    }
}

/// Advance one oscillator: three trinary draws move its velocity, the
/// velocity is clamped to the rate window, and the angle absorbs it modulo a
/// full turn.
#[verifier::rlimit(100)]
fn step_oscillator(rng: &mut Rng, e: (i32, i32), var: i32) -> (r: (i32, i32))
    requires
        var == 3 || var == 9 || var == 27,
        0 <= e.0 < 360,
        -27 <= e.1 <= 28,
    ensures
        r == step_entry_of(old(rng).state, e, var as int),
        final(rng).state == rng_iter(old(rng).state, 3),
        0 <= r.0 < 360,
        -var <= r.1 <= var + 1,
        -27 <= r.1 <= 28,
{
    let d1 = rng.next_in_range(-1, 2);
    let d2 = rng.next_in_range(-1, 2);
    let d3 = rng.next_in_range(-1, 2);
    proof {
        let ghost s0 = old(rng).state;
        assert(rng_iter(s0, 0) == s0);
        assert(rng_iter(s0, 1) == rng_next_spec(s0));
        assert(rng_iter(s0, 2) == rng_next_spec(rng_iter(s0, 1)));
        assert(rng_iter(s0, 3) == rng_next_spec(rng_iter(s0, 2)));
        assert(-1 <= d1 as int * d2 as int && d1 as int * d2 as int <= 1 && -1 <= d1 as int
            * d2 as int * d3 as int && d1 as int * d2 as int * d3 as int <= 1)
            by (nonlinear_arith)
            requires
                -1 <= d1 as int <= 1,
                -1 <= d2 as int <= 1,
                -1 <= d3 as int <= 1,
        ;
    }
    let delta_velocity = d1 * d2 * d3;
    let new_velocity = e.1 + delta_velocity;
    let maxed = if new_velocity >= -var {
        new_velocity
    } else {
        -var
    };
    let clamped = if maxed <= var + 1 {
        maxed
    } else {
        var + 1
    };
    let new_pos = rem_euclid_i32(e.0 + clamped, 360);
    (new_pos, clamped)
}

impl CircleShow {
    /// Cycle the hue-change speed through its three settings.
    pub fn toggle_speed(&mut self)
        requires
            0 <= old(self).speed_mode < 3,
        ensures
            *final(self) == (CircleShow {
                speed_mode: ((old(self).speed_mode + 1) % 3) as i8,
                hue_change_rate: rate_of_speed_mode(((old(self).speed_mode + 1) % 3) as i8),
                ..*old(self)
            }),
    {
        self.speed_mode = if self.speed_mode >= 2 {
            0
        } else {
            self.speed_mode + 1
        };
        proof {
            if old(self).speed_mode == 2 {
                vstd::arithmetic::div_mod::lemma_mod_self_0(3);
            } else {
                vstd::arithmetic::div_mod::lemma_small_mod((old(self).speed_mode + 1) as nat, 3nat);
            }
        }
        match self.speed_mode {
            0 => self.hue_change_rate = 3,
            1 => self.hue_change_rate = 9,
            _ => self.hue_change_rate = 27,
        }
    }

    /// Cycle the center color through its three presets.
    pub fn toggle_color(&mut self)
        requires
            0 <= old(self).color_mode < 3,
        ensures
            *final(self) == (CircleShow {
                color_mode: ((old(self).color_mode + 1) % 3) as i8,
                center: center_of_color_mode(((old(self).color_mode + 1) % 3) as i8),
                radius: final(self).radius,
                ..*old(self)
            }),
            final(self).radius as int == max_radius_spec(final(self).center),
            0 <= final(self).radius <= 100,
    {
        self.color_mode = if self.color_mode >= 2 {
            0
        } else {
            self.color_mode + 1
        };
        proof {
            if old(self).color_mode == 2 {
                vstd::arithmetic::div_mod::lemma_mod_self_0(3);
            } else {
                vstd::arithmetic::div_mod::lemma_small_mod((old(self).color_mode + 1) as nat, 3nat);
            }
        }
        match self.color_mode {
            1 => self.center = ColorLab { l: 50, a: 35, b: 5 },
            2 => self.center = ColorLab { l: 70, a: 0, b: 30 },
            _ => self.center = ColorLab { l: 70, a: 0, b: 0 },
        }
        self.calculate_radius();
    }

    /// Shift the center along the green-red axis.
    pub fn change_red(&mut self, delta: i8)
        ensures
            final(self).center.a == inc_spec(old(self).center.a, delta, -60i8, 60i8),
            final(self).center.l == old(self).center.l,
            final(self).center.b == old(self).center.b,
            final(self).radius as int == max_radius_spec(final(self).center),
            0 <= final(self).radius <= 100,
            *final(self) == (CircleShow {
                center: final(self).center,
                radius: final(self).radius,
                ..*old(self)
            }),
    {
        inc(&mut self.center.a, delta, -60, 60);
        self.calculate_radius();
    }

    /// Shift the center along the blue-yellow axis.
    pub fn change_yellow(&mut self, delta: i8)
        ensures
            final(self).center.b == inc_spec(old(self).center.b, delta, -60i8, 60i8),
            final(self).center.l == old(self).center.l,
            final(self).center.a == old(self).center.a,
            final(self).radius as int == max_radius_spec(final(self).center),
            0 <= final(self).radius <= 100,
            *final(self) == (CircleShow {
                center: final(self).center,
                radius: final(self).radius,
                ..*old(self)
            }),
    {
        inc(&mut self.center.b, delta, -60, 60);
        self.calculate_radius();
    }

    /// Brighten or dim the center, clamped to the displayable range.
    pub fn change_brightness(&mut self, delta: i8)
        ensures
            final(self).center.l == inc_spec(old(self).center.l, delta, 0i8, 99i8),
            final(self).center.a == old(self).center.a,
            final(self).center.b == old(self).center.b,
            final(self).radius as int == max_radius_spec(final(self).center),
            0 <= final(self).radius <= 100,
            *final(self) == (CircleShow {
                center: final(self).center,
                radius: final(self).radius,
                ..*old(self)
            }),
    {
        inc(&mut self.center.l, delta, 0, 99);
        self.calculate_radius();
    }

    /// Refresh the cached gamut radius from the center color.
    fn calculate_radius(&mut self)
        ensures
            *final(self) == (CircleShow { radius: final(self).radius, ..*old(self) }),
            final(self).radius as int == max_radius_spec(final(self).center),
            0 <= final(self).radius <= 100,
    {
        self.radius = self.center.max_radius() as i32;
    }
}

impl LightShow for CircleShow {
    open spec fn inv(&self) -> bool {
        circle_inv(*self)
    }

    open spec fn new_ens(&self) -> bool {
        &&& self.center == (ColorLab { l: 70i8, a: 0i8, b: 0i8 })
        &&& self.radius as int == max_radius_spec(self.center)
        &&& self.hue_change_rate == 3
        &&& self.speed_mode == 0
        &&& self.color_mode == 0
        &&& self.state.len() == 64
        &&& forall|k: int|
            0 <= k < 64 ==> (#[trigger] self.state[k]).0 as int == draw(
                161051,
                (2 * k + 1) as nat,
                0,
                360,
            ) && self.state[k].1 as int == draw(161051, (2 * k + 2) as nat, -3, 4)
        &&& self.rng.state == rng_iter(161051, 128)
    }

    open spec fn next_ens(
        pre: CircleShow,
        post: CircleShow,
        lights_pre: Seq<ColorRgb>,
        lights_post: Seq<ColorRgb>,
        d: Duration,
    ) -> bool {
        &&& post.center == pre.center
        &&& post.radius == pre.radius
        &&& post.hue_change_rate == pre.hue_change_rate
        &&& post.speed_mode == pre.speed_mode
        &&& post.color_mode == pre.color_mode
        &&& post.rng.state == rng_iter(pre.rng.state, 192)
        &&& post.state.len() == 64
        &&& forall|k: int| 0 <= k < 64 ==> #[trigger] post.state[k] == circle_step_entry(pre, k)
        &&& circle_frame(post, lights_pre, lights_post)
        &&& d == Duration::Millis(CIRCLE_DURATION)
    }

    open spec fn update_ens(
        pre: CircleShow,
        post: CircleShow,
        lights_pre: Seq<ColorRgb>,
        lights_post: Seq<ColorRgb>,
    ) -> bool {
        &&& post == pre
        &&& circle_frame(pre, lights_pre, lights_post)
    }

    #[verifier::rlimit(100)]
    fn new() -> (s: CircleShow) {
        let mut rng = Rng::new(161051);
        let mut state: Vec<(i32, i32)> = Vec::new();
        let ghost s0: u32 = rng.state;
        for k in 0..CIRCLE_SIZE
            invariant
                rng.state == rng_iter(s0, (2 * k) as nat),
                state.len() == k,
                s0 == 161051,
                forall|j: int|
                    0 <= j < k ==> (#[trigger] state[j]).0 as int == draw(
                        s0,
                        (2 * j + 1) as nat,
                        0,
                        360,
                    ) && state[j].1 as int == draw(s0, (2 * j + 2) as nat, -3, 4) && 0
                        <= state[j].0 < 360 && -3 <= state[j].1 <= 3,
        {
            proof {
                assert(rng_iter(s0, (2 * k + 1) as nat) == rng_next_spec(
                    rng_iter(s0, (2 * k) as nat),
                ));
                assert(rng_iter(s0, (2 * k + 2) as nat) == rng_next_spec(
                    rng_iter(s0, (2 * k + 1) as nat),
                ));
            }
            let angle = rng.next_in_range(0, 360);
            let vel = rng.next_in_range(-3, 4);
            state.push((angle, vel));
        }
        let mut show = CircleShow {
            radius: 0,
            center: ColorLab { l: 70, a: 0, b: 0 },
            rng,
            state,
            hue_change_rate: 3,
            color_mode: 0,
            speed_mode: 0,
        };
        show.calculate_radius();
        show
    }

    #[verifier::rlimit(100)]
    fn next(&mut self, lights: &mut Vec<ColorRgb>) -> (d: Duration) {
        let ghost pre: CircleShow = *self;
        for k in 0..CIRCLE_SIZE
            invariant
                self.center == pre.center,
                self.radius == pre.radius,
                self.hue_change_rate == pre.hue_change_rate,
                self.speed_mode == pre.speed_mode,
                self.color_mode == pre.color_mode,
                self.rng.state == rng_iter(pre.rng.state, (3 * k) as nat),
                self.state.len() == 64,
                pre.state.len() == 64,
                self.hue_change_rate == 3 || self.hue_change_rate == 9 || self.hue_change_rate
                    == 27,
                forall|j: int| 0 <= j < k ==> #[trigger] self.state[j] == circle_step_entry(pre, j),
                forall|j: int| k <= j < 64 ==> #[trigger] self.state[j] == pre.state[j],
                forall|j: int|
                    0 <= j < 64 ==> 0 <= (#[trigger] self.state[j]).0 < 360 && -27 <= self.state[j].1
                        <= 28,
        {
            let var = self.hue_change_rate;
            let entry = self.state[k];
            let stepped = step_oscillator(&mut self.rng, entry, var);
            self.state[k] = stepped;
            proof {
                lemma_rng_iter_add(pre.rng.state, (3 * k) as nat, 3);
                reveal(circle_step_entry);
                assert(self.state[k as int] == circle_step_entry(pre, k as int));
            }
        }
        self.update(lights);
        Duration::Millis(CIRCLE_DURATION)
    }

    fn update(&mut self, lights: &mut Vec<ColorRgb>) {
        let n = lights.len();
        for i in 0..n
            invariant
                circle_inv(*self),
                *self == *old(self),
                lights@.len() == n,
                forall|j: int|
                    0 <= j < i ==> lights@[j] == to_srgb_clamped_spec(circle_color(*self, j)),
        {
            let deg = self.state[i % CIRCLE_SIZE].0;
            let a = (sin(deg as isize, self.radius as isize) as i8).wrapping_add(self.center.a);
            let b = (cos(deg as isize, self.radius as isize) as i8).wrapping_add(self.center.b);
            let color = ColorLab { l: self.center.l, a, b }.to_srgb_clamped();
            lights[i] = color;
        }
    }
}

} // verus!
