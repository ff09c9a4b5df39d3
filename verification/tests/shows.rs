use dotstar::{
    ColorRgb, DemoLightShows, DemoSettings, Duration, LightShow, Rng, SolidShow, StrobeShow,
    WaveShow, CircleShow, cos, inc, inc_i32, sin, sqrt,
};

fn frame(n: usize) -> Vec<ColorRgb> {
    let mut v = Vec::new();
    for _ in 0..n {
        v.push(ColorRgb { r: 0, g: 0, b: 0 });
    }
    v
}

#[test]
fn test_inc() {
    let mut x: i8 = 0;
    inc(&mut x, 100, -10, 10);
    assert_eq!(x, 10);
    inc(&mut x, -21, -10, 10);
    assert_eq!(x, -10);
    x = 0;
    inc(&mut x, -10, -10, 10);
    assert_eq!(x, -10);
}

#[test]
fn test_inc_i32_saturates_and_clamps() {
    let mut x: i32 = 0;
    inc_i32(&mut x, 5000, 50, 4000);
    assert_eq!(x, 4000);
    inc_i32(&mut x, -10000, 50, 4000);
    assert_eq!(x, 50);
    let mut y: i32 = i32::MAX;
    inc_i32(&mut y, i32::MAX, 0, i32::MAX);
    assert_eq!(y, i32::MAX);
}

#[test]
fn test_sqrt_values() {
    assert_eq!(sqrt(0), 0);
    assert_eq!(sqrt(1), 1);
    assert_eq!(sqrt(2), 2);
    assert_eq!(sqrt(4), 2);
    assert_eq!(sqrt(5), 3);
    assert_eq!(sqrt(16129), 127);
    assert_eq!(sqrt(20000), 127);
    assert_eq!(sqrt(-5), 0);
}

#[test]
fn test_sin_cos_landmarks() {
    assert_eq!(sin(0, 100), 0);
    assert_eq!(sin(90, 100), 100);
    assert_eq!(sin(180, 100), 0);
    assert_eq!(sin(270, 100), -100);
    assert_eq!(sin(-90, 100), -100);
    assert_eq!(sin(450, 100), 100);
    assert_eq!(cos(0, 100), 100);
    assert_eq!(cos(180, 100), -100);
}

#[test]
fn test_rng_golden_sequence() {
    // A fixed seed must reproduce exactly this stream.
    let mut rng = Rng::new(1);
    let got: Vec<u32> = (0..5).map(|_| rng.next()).collect();
    assert_eq!(
        got,
        vec![1015568748, 1586005467, 2165703038, 3027450565, 217083232]
    );
    let mut rng = Rng::new(161051);
    assert_eq!(rng.next(), 2799347646);
    assert_eq!(rng.next(), 904735749);
}

#[test]
fn test_rng_range_bounds() {
    let mut rng = Rng::new(7);
    for _ in 0..100 {
        let v = rng.next_in_range(-3, 4);
        assert!(v >= -3 && v < 4);
    }
}

#[test]
fn test_solid_show_renders_constant_frame() {
    let mut show: SolidShow = LightShow::new();
    let mut lights = frame(5);
    let d = show.next(&mut lights);
    assert!(matches!(d, Duration::Forever));
    for c in &lights {
        assert_eq!((c.r, c.g, c.b), (169, 171, 170));
    }
}

#[test]
fn test_strobe_golden_frames() {
    let mut show: StrobeShow = LightShow::new();
    let mut lights = frame(3);
    let d = show.next(&mut lights);
    assert!(matches!(d, Duration::Millis(40)));
    for c in &lights {
        assert_eq!((c.r, c.g, c.b), (195, 168, 97));
    }
    show.next(&mut lights);
    for c in &lights {
        assert_eq!((c.r, c.g, c.b), (109, 175, 242));
    }
}

#[test]
fn test_wave_golden_frame() {
    let mut show: WaveShow = LightShow::new();
    let mut lights = frame(3);
    let d = show.next(&mut lights);
    assert!(matches!(d, Duration::Millis(50)));
    let got: Vec<(u8, u8, u8)> = lights.iter().map(|c| (c.r, c.g, c.b)).collect();
    assert_eq!(got, vec![(195, 168, 101), (197, 167, 101), (197, 167, 101)]);
}

#[test]
fn test_circle_deterministic_under_fixed_seed() {
    let mut a: CircleShow = LightShow::new();
    let mut b: CircleShow = LightShow::new();
    let mut fa = frame(8);
    let mut fb = frame(8);
    for _ in 0..5 {
        a.next(&mut fa);
        b.next(&mut fb);
    }
    let va: Vec<(u8, u8, u8)> = fa.iter().map(|c| (c.r, c.g, c.b)).collect();
    let vb: Vec<(u8, u8, u8)> = fb.iter().map(|c| (c.r, c.g, c.b)).collect();
    assert_eq!(va, vb);
    assert_eq!(a.state, b.state);
}

#[test]
fn test_circle_initial_oscillator() {
    let show: CircleShow = LightShow::new();
    assert_eq!(show.state.len(), 64);
    assert_eq!(show.state[0], (246, -2));
}

#[test]
fn test_aggregator_off_ignores_buttons() {
    let mut shows = DemoLightShows::new();
    shows.set_mode(0);
    let mut lights = frame(4);
    let d = shows.next_lights(&mut lights);
    assert!(matches!(d, Duration::Forever));
    for c in &lights {
        assert_eq!((c.r, c.g, c.b), (0, 0, 0));
    }
    let before_color = shows.solid_show.color;
    shows.button_pressed(&mut lights, 1);
    shows.knob_turned(&mut lights, 0, 1);
    for c in &lights {
        assert_eq!((c.r, c.g, c.b), (0, 0, 0));
    }
    assert_eq!(shows.solid_show.color, before_color);
}

#[test]
fn test_aggregator_mode_switch_preserves_state() {
    let mut shows = DemoLightShows::new();
    let mut lights = frame(4);
    // adjust the strobe, switch away, switch back: settings must survive
    shows.set_mode(4);
    shows.knob_turned(&mut lights, 1, 1);
    let hue = shows.strobe_show.hue;
    assert_eq!(hue, 10);
    shows.set_mode(2);
    shows.next_lights(&mut lights);
    shows.set_mode(4);
    assert_eq!(shows.strobe_show.hue, hue);
    // the circle show's oscillators also survived the visit
    let circle_state = shows.circle_show.state.clone();
    shows.set_mode(1);
    shows.set_mode(2);
    assert_eq!(shows.circle_show.state, circle_state);
}

#[test]
fn test_aggregator_button_routes_to_active_show() {
    let mut shows = DemoLightShows::new();
    let mut lights = frame(4);
    shows.set_mode(1);
    shows.button_pressed(&mut lights, 1);
    assert_eq!(shows.solid_show.color.a, 30);
    shows.knob_turned(&mut lights, 0, -2);
    assert_eq!(shows.solid_show.color.l, 50);
}

#[test]
fn test_duration_subtract_saturates() {
    let mut d = Duration::Millis(30);
    d.subtract(10);
    assert!(matches!(d, Duration::Millis(20)));
    d.subtract(100);
    assert!(matches!(d, Duration::Millis(0)));
    assert!(d.is_zero());
    let mut f = Duration::Forever;
    f.subtract(10);
    assert!(!f.is_zero());
    assert!(matches!(f, Duration::Forever));
}

#[test]
fn test_demo_settings_steps() {
    let mut s = DemoSettings::default();
    assert_eq!(s.brightness, 70);
    s.inc();
    s.inc();
    s.inc();
    s.inc();
    assert_eq!(s.brightness, 100);
    s.inc();
    assert_eq!(s.brightness, 100);
    s.dec();
    assert_eq!(s.brightness, 90);
    s.dec_variation();
    s.dec_variation();
    s.dec_variation();
    assert_eq!(s.variation, 0);
    s.inc_variation();
    assert_eq!(s.variation, 1);
    s.dec_saturation();
    assert_eq!(s.saturation, 90);
    s.inc_saturation();
    s.inc_saturation();
    assert_eq!(s.saturation, 100);
}
