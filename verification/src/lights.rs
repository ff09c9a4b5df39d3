//! The common contracts around a light show: how long to wait before the
//! next frame, the per-frame animation interface, and the output strip that
//! frames are pushed to.
use vstd::prelude::*;

use crate::color::ColorRgb;

verus! {

/// How long the driver loop should wait before asking for the next frame:
/// a number of milliseconds, or forever (nothing changes until an external
/// event arrives).
#[derive(Clone, Copy, PartialEq, Eq, Structural, Debug)]
pub enum Duration {
    Millis(u32),
    Forever,
}

/// Taking `millis` off a wait: milliseconds shrink toward zero, saturating;
/// a forever wait stays forever.
pub open spec fn duration_subtract_spec(d: Duration, millis: u32) -> Duration {
    match d {
        Duration::Millis(ms) => Duration::Millis(
            if ms >= millis {
                (ms - millis) as u32
            } else {
                0u32
            },
        ),
        Duration::Forever => Duration::Forever,
    }
}

/// Whether a wait is over: true only for zero milliseconds.
pub open spec fn duration_is_zero_spec(d: Duration) -> bool {
    match d {
        Duration::Millis(ms) => ms == 0,
        Duration::Forever => false,
    }
}

impl Duration {
    /// Shorten a wait by `millis` milliseconds, saturating at zero; waiting
    /// forever is unaffected.
    pub fn subtract(&mut self, millis: u32)
        ensures
            *final(self) == duration_subtract_spec(*old(self), millis),
    {
        match *self {
            Duration::Millis(ms) => {
                *self = Duration::Millis(
                    if ms >= millis {
                        ms - millis
                    } else {
                        0
                    },
                );
            },
            Duration::Forever => {},
        }
    }

    /// Whether the wait is over.
    pub fn is_zero(&self) -> (r: bool)
        ensures
            r == duration_is_zero_spec(*self),
    {
        match self {
            Duration::Millis(ms) => *ms == 0,
            Duration::Forever => false,
        }
    }
}

/// A per-frame animation: construct a fresh instance, advance the animation
/// by one tick while rendering into a frame, or re-render the current state
/// without advancing (after a parameter change). Each implementor supplies
/// the exact meaning of its three operations as spec functions, and the
/// methods are bound to them.
pub trait LightShow: Sized {
    /// The show's well-formedness: every constructor establishes it and
    /// every operation preserves it.
    spec fn inv(&self) -> bool;

    /// What a freshly constructed instance looks like.
    spec fn new_ens(&self) -> bool;

    /// How one tick changes the show and the frame, and which wait it
    /// reports.
    spec fn next_ens(
        pre: Self,
        post: Self,
        lights_pre: Seq<ColorRgb>,
        lights_post: Seq<ColorRgb>,
        d: Duration,
    ) -> bool;

    /// How re-rendering fills the frame from the current state.
    spec fn update_ens(
        pre: Self,
        post: Self,
        lights_pre: Seq<ColorRgb>,
        lights_post: Seq<ColorRgb>,
    ) -> bool;

    fn new() -> (s: Self)
        ensures
            s.new_ens(),
            s.inv(),
    ;

    fn next(&mut self, lights: &mut Vec<ColorRgb>) -> (d: Duration)
        requires
            old(self).inv(),
        ensures
            final(self).inv(),
            Self::next_ens(*old(self), *final(self), old(lights)@, final(lights)@, d),
    ;

    fn update(&mut self, lights: &mut Vec<ColorRgb>)
        requires
            old(self).inv(),
        ensures
            final(self).inv(),
            Self::update_ens(*old(self), *final(self), old(lights)@, final(lights)@),
    ;
}

/// An output device that accepts a finite frame of device colors and reports
/// success or a device-specific error.
pub trait LightStrip {
    type Error;

    fn show(&mut self, lights: &Vec<ColorRgb>) -> Result<(), Self::Error>;
}

} // verus!
