use slate_ui::color::Color;

#[test]
fn test_to_rgb() {
    let color = Color { rgba: 0xFF00AA00 }; // Red = 255, Green = 0, Blue = 170
    assert_eq!(color.to_rgb(), (0xFF, 0x00, 0xAA));

    let color = Color { rgba: 0x80008000 }; // Red = 128, Green = 0, Blue = 128
    assert_eq!(color.to_rgb(), (0x80, 0x00, 0x80));

    let color = Color { rgba: 0x004D4D00 }; // Red = 0, Green = 77, Blue = 77
    assert_eq!(color.to_rgb(), (0x00, 0x4D, 0x4D));
}

#[test]
fn test_from_rgb() {
    let color = Color::from_rgb(255, 0, 170); // Red = 255, Green = 0, Blue = 170
    assert_eq!(color.rgba, 0xFF00AAFF);

    let color = Color::from_rgb(128, 0, 128); // Red = 128, Green = 0, Blue = 128
    assert_eq!(color.rgba, 0x800080FF);

    let color = Color::from_rgb(0, 77, 77); // Red = 0, Green = 77, Blue = 77
    assert_eq!(color.rgba, 0x004D4DFF);
}

#[test]
fn test_red() {
    let color = Color { rgba: 0xFF000000 }; // Red component is 255
    assert_eq!(color.red(), 0xFF);

    let color = Color { rgba: 0x80000000 }; // Red component is 128
    assert_eq!(color.red(), 0x80);

    let color = Color { rgba: 0x4D000000 }; // Red component is 77
    assert_eq!(color.red(), 0x4D);

    let color = Color { rgba: 0x4DAAAAAA }; // Red component is 77
    assert_eq!(color.red(), 0x4D);
}

#[test]
fn test_green() {
    let color = Color { rgba: 0x00FF0000 }; // Green component is 255
    assert_eq!(color.green(), 0xFF);

    let color = Color { rgba: 0x00800000 }; // Green component is 128
    assert_eq!(color.green(), 0x80);

    let color = Color { rgba: 0x004D0000 }; // Green component is 77
    assert_eq!(color.green(), 0x4D);

    let color = Color { rgba: 0xAA4DAAAA }; // Green component is 77
    assert_eq!(color.green(), 0x4D);
}

#[test]
fn test_blue() {
    let color = Color { rgba: 0x0000FF00 }; // Blue component is 255
    assert_eq!(color.blue(), 0xFF);

    let color = Color { rgba: 0x00008000 }; // Blue component is 128
    assert_eq!(color.blue(), 0x80);

    let color = Color { rgba: 0x00004D00 }; // Blue component is 77
    assert_eq!(color.blue(), 0x4D);

    let color = Color { rgba: 0xAAAA4DAA }; // Blue component is 77
    assert_eq!(color.blue(), 0x4D);
}

#[test]
fn test_alpha() {
    let color = Color { rgba: 0x000000FF }; // Alpha component is 255
    assert_eq!(color.alpha(), 0xFF);

    let color = Color { rgba: 0x00000080 }; // Alpha component is 128
    assert_eq!(color.alpha(), 0x80);

    let color = Color { rgba: 0x0000004D }; // Alpha component is 77
    assert_eq!(color.alpha(), 0x4D);

    let color = Color { rgba: 0xAAAAAA4D }; // Alpha component is 77
    assert_eq!(color.alpha(), 0x4D);
}

#[test]
fn test_round_trip_from_rgb_to_rgb() {
    // Packing then unpacking returns the channels unchanged, and a packed
    // color is always fully opaque.
    for &(r, g, b) in &[
        (0u8, 0u8, 0u8),
        (255, 255, 255),
        (1, 2, 3),
        (170, 128, 77),
        (255, 0, 170),
        (12, 200, 99),
    ] {
        let color = Color::from_rgb(r, g, b);
        assert_eq!(color.to_rgb(), (r, g, b));
        assert_eq!(color.alpha(), 0xFF);
    }
}

#[test]
fn test_palette_packing() {
    assert_eq!(Color::black().rgba, 0x000000FF);
    assert_eq!(Color::white().rgba, 0xFFFFFFFF);
    assert_eq!(Color::gray().rgba, 0x808080FF);
    assert_eq!(Color::light_gray().rgba, 0xD3D3D3FF);
    assert_eq!(Color::dark_gray().rgba, 0xA9A9A9FF);
    assert_eq!(Color::aqua().rgba, 0x00FFFFFF);
    assert_eq!(Color::beige().rgba, 0xF5F5DCFF);
    assert_eq!(Color::gold().rgba, 0xFFD700FF);
    assert_eq!(Color::gray().to_rgb(), (0x80, 0x80, 0x80));
}
