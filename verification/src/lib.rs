//! Integer-only engine for driving an addressable RGB LED strip: a CIE-LAB to
//! sRGB color pipeline built on lookup tables, a family of animated light
//! shows with live parameter controls, and the strip's wire-frame encoder.
mod int_math;

pub use self::int_math::sqrt;
pub use self::int_math::sin;
pub use self::int_math::cos;
pub use self::int_math::inc;
pub use self::int_math::inc_i32;
mod color_constants;
mod color;
mod demo_light_show;
mod dotstar_strip;
mod rng;
mod lights;
mod shows;

pub use self::color::ColorLab;
pub use self::color::ColorRgb;
pub use self::rng::Rng;
pub use self::lights::Duration;
pub use self::lights::LightShow;
pub use self::lights::LightStrip;
pub use self::shows::SolidShow;
pub use self::shows::CircleShow;
pub use self::shows::StrobeShow;
pub use self::shows::WaveShow;
pub use self::shows::DemoLightShows;
pub use self::shows::Mode;
pub use self::dotstar_strip::encode_frame;
pub use self::dotstar_strip::wire_frame_spec;
pub use self::dotstar_strip::led_frame_spec;
pub use self::demo_light_show::DemoSettings;
