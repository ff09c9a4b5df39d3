use dotstar::{ColorLab, ColorRgb};

fn convert(l: i8, a: i8, b: i8) -> (u8, u8, u8) {
    let ColorRgb { r, g, b } = ColorLab { l, a, b }.to_srgb().unwrap();
    (r, g, b)
}

fn clamp(l: i8, a: i8, b: i8) -> (u8, u8, u8) {
    let ColorRgb { r, g, b } = ColorLab { l, a, b }.to_srgb().unwrap_err();
    (r, g, b)
}

fn radius(l: i8, a: i8, b: i8) -> i8 {
    ColorLab { l, a, b }.max_radius()
}

#[test]
fn test_grayscale() {
    assert_eq!(convert(0, 0, 0), (0, 0, 0));
    assert_eq!(convert(1, 0, 0), (2, 3, 2));
    assert_eq!(convert(2, 0, 0), (5, 6, 6));
    assert_eq!(convert(3, 0, 0), (10, 10, 10));
    assert_eq!(convert(4, 0, 0), (13, 13, 13));
    assert_eq!(convert(10, 0, 0), (26, 27, 27));
    assert_eq!(convert(25, 0, 0), (59, 59, 59));
    assert_eq!(convert(50, 0, 0), (119, 119, 119));
    assert_eq!(convert(75, 0, 0), (185, 185, 185));
    assert_eq!(convert(90, 0, 0), (226, 227, 227));
    assert_eq!(convert(97, 0, 0), (247, 247, 247));
    assert_eq!(convert(98, 0, 0), (249, 250, 250));
    assert_eq!(convert(99, 0, 0), (252, 253, 253));
}

#[test]
fn test_color() {
    assert_eq!(convert(3, -3, 0), (1, 12, 10));
    assert_eq!(convert(10, 0, 10), (31, 26, 10));
    assert_eq!(convert(70, 40, 0), (239, 143, 173));
    assert_eq!(convert(70, 25, -30), (190, 158, 226));
    assert_eq!(convert(40, -40, 40), (34, 108, 18));
    assert_eq!(convert(72, 0, -42), (117, 180, 253));
}

#[test]
fn test_clamp() {
    assert_eq!(clamp(110, 0, 0), (255, 255, 255));
    assert_eq!(clamp(2, 20, 20), (42, 0, 0));
    assert_eq!(clamp(100, -100, 50), (0, 255, 151));
    // Make sure that extreme values don't cause under/overflow errors.
    clamp(-128, -128, -128);
    clamp(-128, -128, 127);
    clamp(-128, 127, -128);
    clamp(-128, 127, 127);
    clamp(127, -128, -128);
    clamp(127, -128, 127);
    clamp(127, 127, -128);
    clamp(127, 127, 127);
}

#[test]
fn test_lab_radius() {
    assert_eq!(radius(0, 0, 0), 0);
    assert_eq!(radius(20, 0, 0), 17);
    assert_eq!(radius(50, 0, 0), 30);
    assert_eq!(radius(70, 0, 0), 39);
    assert_eq!(radius(90, 0, 0), 14);
    assert_eq!(radius(100, 0, 0), 3);
    assert_eq!(radius(70, 15, 15), 30);
    assert_eq!(radius(70, -30, 0), 13);
}

#[test]
fn test_radius_shrinks_toward_extremes() {
    // The valid gamut is widest in the mid-lightness region and shrinks
    // toward black and white.
    assert!(radius(0, 0, 0) <= radius(20, 0, 0));
    assert!(radius(20, 0, 0) <= radius(50, 0, 0));
    assert!(radius(50, 0, 0) <= radius(70, 0, 0));
    assert!(radius(90, 0, 0) <= radius(70, 0, 0));
    assert!(radius(100, 0, 0) <= radius(90, 0, 0));
}

#[test]
fn test_validity_matches_conversion() {
    for l in [-10i8, 0, 2, 50, 70, 99, 110] {
        for a in [-100i8, -20, 0, 20, 100] {
            for b in [-100i8, -20, 0, 20, 100] {
                let c = ColorLab { l, a, b };
                assert_eq!(c.is_valid(), c.to_srgb().is_ok());
            }
        }
    }
}

#[test]
fn test_clamped_agrees_with_either_branch() {
    for l in [0i8, 50, 110] {
        for a in [-100i8, 0, 100] {
            let c = ColorLab { l, a, b: 0 };
            let clamped = c.to_srgb_clamped();
            match c.to_srgb() {
                Ok(v) => assert_eq!(v, clamped),
                Err(v) => assert_eq!(v, clamped),
            }
        }
    }
}

#[test]
fn test_gamma_correction_endpoints() {
    let black = ColorRgb { r: 0, g: 0, b: 0 }.correct_gamma();
    assert_eq!((black.r, black.g, black.b), (0, 0, 0));
    let white = ColorRgb { r: 255, g: 255, b: 255 }.correct_gamma();
    assert_eq!((white.r, white.g, white.b), (255, 255, 255));
    let mid = ColorRgb { r: 119, g: 119, b: 119 }.correct_gamma();
    assert_eq!((mid.r, mid.g, mid.b), (48, 48, 48));
}
