use dotstar::{encode_frame, ColorRgb};

#[test]
fn test_wire_frame_three_lights() {
    let lights = vec![
        ColorRgb { r: 255, g: 0, b: 0 },
        ColorRgb { r: 0, g: 255, b: 0 },
        ColorRgb { r: 10, g: 20, b: 30 },
    ];
    let bytes = encode_frame(&lights);
    assert_eq!(
        bytes,
        vec![
            0, 0, 0, 0, // start frame
            0xFF, 0, 0, 255, // red light: blue, green, red after gamma
            0xFF, 0, 255, 0, // green light
            0xFF, 2, 1, 0, // dim light: the gamma curve crushes low codes
            0, // one end byte clocks out three lights
        ]
    );
}

#[test]
fn test_wire_frame_empty() {
    let bytes = encode_frame(&Vec::new());
    assert_eq!(bytes, vec![0, 0, 0, 0]);
}

#[test]
fn test_wire_frame_end_byte_count() {
    for n in [1usize, 8, 9, 16, 17] {
        let mut lights = Vec::new();
        for _ in 0..n {
            lights.push(ColorRgb { r: 0, g: 0, b: 0 });
        }
        let bytes = encode_frame(&lights);
        assert_eq!(bytes.len(), 4 + 4 * n + (n + 7) / 8);
        // every byte after the LED frames is zero
        for b in &bytes[4 + 4 * n..] {
            assert_eq!(*b, 0);
        }
    }
}
