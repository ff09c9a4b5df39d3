//! Settings for the original single-show demo: brightness, hue variation
//! speed, and saturation, each stepped within its own percentage range.
use vstd::prelude::*;

verus! {

/// Knob-adjustable parameters of the demo show.
#[derive(Clone, Copy, Debug, PartialEq, Eq, Structural)]
pub struct DemoSettings {
    pub brightness: i8,
    pub variation: i8,
    pub saturation: i8,
}

impl DemoSettings {
    /// Make it 10% brighter, stopping at full brightness.
    pub fn inc(&mut self)
        ensures
            *final(self) == (DemoSettings {
                brightness: if old(self).brightness < 100 {
                    (old(self).brightness + 10) as i8
                } else {
                    old(self).brightness
                },
                ..*old(self)
            }),
    {
        if self.brightness < 100 {
            self.brightness = self.brightness + 10;
        }
    }

    /// Make it 10% dimmer, stopping at dark.
    pub fn dec(&mut self)
        ensures
            *final(self) == (DemoSettings {
                brightness: if old(self).brightness >= 10 {
                    (old(self).brightness - 10) as i8
                } else {
                    old(self).brightness
                },
                ..*old(self)
            }),
    {
        if self.brightness >= 10 {
            self.brightness = self.brightness - 10;
        }
    }

    /// Make it vary faster.
    pub fn inc_variation(&mut self)
        ensures
            *final(self) == (DemoSettings {
                variation: if old(self).variation < 100 {
                    (old(self).variation + 1) as i8
                } else {
                    old(self).variation
                },
                ..*old(self)
            }),
    {
        if self.variation < 100 {
            self.variation = self.variation + 1;
        }
    }

    /// Make it vary slower.
    pub fn dec_variation(&mut self)
        ensures
            *final(self) == (DemoSettings {
                variation: if old(self).variation >= 1 {
                    (old(self).variation - 1) as i8
                } else {
                    old(self).variation
                },
                ..*old(self)
            }),
    {
        if self.variation >= 1 {
            self.variation = self.variation - 1;
        }
    }

    /// Make it more saturated.
    pub fn inc_saturation(&mut self)
        ensures
            *final(self) == (DemoSettings {
                saturation: if old(self).saturation < 100 {
                    (old(self).saturation + 10) as i8
                } else {
                    old(self).saturation
                },
                ..*old(self)
            }),
    {
        if self.saturation < 100 {
            self.saturation = self.saturation + 10;
        }
    }

    /// Make it less saturated.
    pub fn dec_saturation(&mut self)
        ensures
            *final(self) == (DemoSettings {
                saturation: if old(self).saturation >= 10 {
                    (old(self).saturation - 10) as i8
                } else {
                    old(self).saturation
                },
                ..*old(self)
            }),
    {
        if self.saturation >= 10 {
            self.saturation = self.saturation - 10;
        }
    }
}

impl Default for DemoSettings {
    /// The demo starts fairly bright, gently varying, fully saturated.
    fn default() -> (d: DemoSettings)
        ensures
            d == (DemoSettings { brightness: 70i8, variation: 2i8, saturation: 100i8 }),
    {
        DemoSettings { brightness: 70, variation: 2, saturation: 100 }
    }
}

} // verus!
