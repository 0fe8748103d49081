use slate_ui::abstraction::Component;
use slate_ui::color::Color;
use slate_ui::components::ScrollBar;
use slate_ui::data::{Dim, Orientation, Size};
use slate_ui::visuals::Rectangle;

fn demo_bar() -> ScrollBar {
    // Lengths in tenths of a unit, so the derived geometry is exact:
    // thickness 14.0, arranged into a 100.0 by 100.0 area below.
    let mut bar = ScrollBar::new();
    bar.min_value = 0;
    bar.max_value = 100;
    bar.value = 50;
    bar.bar_value = 40;
    bar.thickness = 140;
    bar
}

#[test]
fn measure_accepts_unbounded_axes() {
    // The sizing rule holds for every `available`, including the unbounded
    // sentinel: a horizontal bar returns `available.width` verbatim and its
    // thickness as height.
    let bar = demo_bar();
    let desired = bar.measure(Size { width: Dim::Unbounded, height: Dim::Unbounded });
    assert_eq!(desired, Size { width: Dim::Unbounded, height: Dim::Finite(140) });

    let desired = bar.measure(Size { width: Dim::Finite(555), height: Dim::Unbounded });
    assert_eq!(desired, Size { width: Dim::Finite(555), height: Dim::Finite(140) });

    let mut bar = demo_bar();
    bar.mode = Orientation::Vertical;
    let desired = bar.measure(Size { width: Dim::Unbounded, height: Dim::Unbounded });
    assert_eq!(desired, Size { width: Dim::Finite(140), height: Dim::Unbounded });
}

#[test]
fn arrange_never_exceeds_given() {
    let fits = |used: Size<Dim>, given: Size<Dim>| {
        let axis = |u: Dim, g: Dim| match (u, g) {
            (_, Dim::Unbounded) => true,
            (Dim::Finite(uv), Dim::Finite(gv)) => uv <= gv,
            (Dim::Unbounded, Dim::Finite(_)) => false,
        };
        axis(used.width, given.width) && axis(used.height, given.height)
    };
    let cases = [
        Size { width: Dim::Finite(1000), height: Dim::Finite(1000) },
        Size { width: Dim::Finite(100), height: Dim::Finite(100) },
        Size { width: Dim::Finite(100), height: Dim::Finite(20) },
        // Smaller than the bar's own thickness: the bar clamps.
        Size { width: Dim::Finite(10), height: Dim::Finite(10) },
        Size { width: Dim::Finite(0), height: Dim::Finite(0) },
        Size { width: Dim::Unbounded, height: Dim::Finite(35) },
        Size { width: Dim::Unbounded, height: Dim::Unbounded },
    ];
    for &given in &cases {
        let mut bar = demo_bar();
        let used = bar.arrange(given);
        assert!(fits(used, given), "{used:?} must fit in {given:?}");

        let mut bar = demo_bar();
        bar.mode = Orientation::Vertical;
        let used = bar.arrange(given);
        assert!(fits(used, given), "{used:?} must fit in {given:?}");
    }
}

#[test]
fn arrange_horizontal_geometry() {
    // In tenths: render_thickness 14.0, track 100.0 - 2 * 14.0 = 72.0,
    // thumb 72.0 * (40 / 100) = 28.8, offset (72.0 - 28.8) * (50 / 100) = 21.6.
    let mut bar = demo_bar();
    let given = Size { width: Dim::Finite(1000), height: Dim::Finite(1000) };
    let used = bar.arrange(given);
    assert_eq!(used, Size { width: Dim::Finite(1000), height: Dim::Finite(140) });
    assert_eq!(bar.render_thickness, 140);
    assert_eq!(bar.bar_length, Dim::Finite(288));
    assert_eq!(bar.bar_offset, 216);
    assert_eq!(bar.size, used);
}

#[test]
fn render_emits_four_rectangles_in_fixed_order() {
    let mut bar = demo_bar();
    bar.arrange(Size { width: Dim::Finite(1000), height: Dim::Finite(1000) });
    let out = bar.render();
    let t = Dim::Finite(140);
    let zero = Dim::Finite(0);
    assert_eq!(
        out,
        vec![
            // Leading cap.
            Rectangle { x: zero, y: zero, width: t, height: t, fill: Color::gray() },
            // Trailing cap.
            Rectangle { x: Dim::Finite(860), y: zero, width: t, height: t, fill: Color::gray() },
            // Track background.
            Rectangle {
                x: t,
                y: zero,
                width: Dim::Finite(720),
                height: t,
                fill: Color::light_gray(),
            },
            // Thumb, at offset 21.6 past the leading cap.
            Rectangle {
                x: Dim::Finite(356),
                y: zero,
                width: Dim::Finite(288),
                height: t,
                fill: Color::dark_gray(),
            },
        ]
    );
}

#[test]
fn render_vertical_uses_vertical_axes() {
    let mut bar = demo_bar();
    bar.mode = Orientation::Vertical;
    bar.arrange(Size { width: Dim::Finite(1000), height: Dim::Finite(1000) });
    let out = bar.render();
    let t = Dim::Finite(140);
    let zero = Dim::Finite(0);
    assert_eq!(
        out,
        vec![
            Rectangle { x: zero, y: zero, width: t, height: t, fill: Color::aqua() },
            Rectangle { x: zero, y: Dim::Finite(860), width: t, height: t, fill: Color::beige() },
            Rectangle { x: zero, y: t, width: t, height: Dim::Finite(720), fill: Color::gray() },
            // The vertical thumb sits at the raw offset, not past the cap.
            Rectangle {
                x: zero,
                y: Dim::Finite(216),
                width: t,
                height: Dim::Finite(288),
                fill: Color::gold(),
            },
        ]
    );
}

#[test]
fn render_twice_emits_identical_sequences() {
    let mut bar = demo_bar();
    bar.arrange(Size { width: Dim::Finite(1000), height: Dim::Finite(1000) });
    let first = bar.render();
    let second = bar.render();
    assert_eq!(first, second);
    assert_eq!(first.len(), 4);
}

#[test]
fn collapsed_value_range_collapses_the_thumb() {
    // max_value == min_value: the normalization denominator would be zero;
    // the documented policy collapses thumb length and offset to zero.
    let mut bar = demo_bar();
    bar.min_value = 30;
    bar.max_value = 30;
    bar.value = 30;
    bar.arrange(Size { width: Dim::Finite(1000), height: Dim::Finite(1000) });
    assert_eq!(bar.bar_length, Dim::Finite(0));
    assert_eq!(bar.bar_offset, 0);
}

#[test]
fn unbounded_track_yields_unbounded_thumb() {
    let mut bar = demo_bar();
    let used = bar.arrange(Size { width: Dim::Unbounded, height: Dim::Finite(1000) });
    assert_eq!(used, Size { width: Dim::Unbounded, height: Dim::Finite(140) });
    assert_eq!(bar.bar_length, Dim::Unbounded);
    assert_eq!(bar.bar_offset, 0);
}

#[test]
fn value_past_the_maximum_is_not_clamped() {
    // The scroll position is intentionally unclamped above one: a value past
    // max_value pushes the thumb beyond the track's slack.
    let mut bar = demo_bar();
    bar.value = 200;
    bar.arrange(Size { width: Dim::Finite(1000), height: Dim::Finite(1000) });
    // slack = 720 - 288 = 432; offset = 432 * 200 / 100 = 864.
    assert_eq!(bar.bar_offset, 864);
}

#[test]
fn oversized_bar_value_fills_the_track() {
    // bar_value beyond the range is clamped, so the thumb is the full track.
    let mut bar = demo_bar();
    bar.bar_value = 5000;
    bar.arrange(Size { width: Dim::Finite(1000), height: Dim::Finite(1000) });
    assert_eq!(bar.bar_length, Dim::Finite(720));
    assert_eq!(bar.bar_offset, 0);
}
