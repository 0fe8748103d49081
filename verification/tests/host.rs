use slate_ui::abstraction::{RenderSurface, Renderer, Visual};
use slate_ui::application::AppBuilder;
use slate_ui::color::Color;
use slate_ui::data::Dim;
use slate_ui::renderers::{HeadlessRenderer, HeadlessSurface};
use slate_ui::sample::MyComponent;
use slate_ui::visuals::Rectangle;
use slate_ui::window::AppWindow;

#[test]
fn headless_renderer_applies_the_accumulated_translation() {
    let mut surface = HeadlessSurface::new(1);
    surface.start_rendering();
    surface.translate(5, 3);
    surface.renderer().draw_rectangle(
        Dim::Finite(2),
        Dim::Finite(10),
        Dim::Finite(7),
        Dim::Finite(8),
        Color::gray(),
    );
    surface.translate(0, 4);
    surface
        .renderer()
        .draw_rectangle(Dim::Unbounded, Dim::Finite(0), Dim::Unbounded, Dim::Finite(1), Color::gold());
    surface.finish_rendering();

    assert_eq!(
        surface.painter.ops,
        vec![
            Rectangle {
                x: Dim::Finite(7),
                y: Dim::Finite(13),
                width: Dim::Finite(7),
                height: Dim::Finite(8),
                fill: Color::gray(),
            },
            // An unbounded coordinate stays unbounded under translation.
            Rectangle {
                x: Dim::Unbounded,
                y: Dim::Finite(7),
                width: Dim::Unbounded,
                height: Dim::Finite(1),
                fill: Color::gold(),
            },
        ]
    );
}

#[test]
fn start_rendering_begins_an_empty_frame() {
    let mut surface = HeadlessSurface::new(9);
    assert_eq!(surface.window_id(), 9);
    surface.start_rendering();
    surface.translate(1, 1);
    surface
        .renderer()
        .draw_rectangle(Dim::Finite(0), Dim::Finite(0), Dim::Finite(1), Dim::Finite(1), Color::white());
    assert_eq!(surface.painter.ops.len(), 1);

    surface.start_rendering();
    assert_eq!(surface.painter.ops.len(), 0);
    assert_eq!(surface.painter.tx, 0);
    assert_eq!(surface.painter.ty, 0);
    assert_eq!(surface.window_id(), 9);
}

#[test]
fn window_render_pass_draws_four_scroll_bar_rows() {
    let mut window = AppWindow::new(Some(3), Some(HeadlessSurface::new(3)), 1);
    window.render();
    let frame = window.render_surface.as_ref().unwrap().painter.ops.clone();
    assert_eq!(frame.len(), 16);

    // Each row is one arranged scroll bar: thickness 14 in a 100-unit area,
    // track 72, thumb 72 * 40 / 100 = 28 (truncated), slack 44. The rows
    // sit at vertical offsets 3, 23, 43, 63; scroll positions 0, 25, 50, 75
    // put the thumb at offset 0, 11, 22, 33 past the leading cap.
    for (row, &(y, thumb_x)) in [(3u64, 14u64), (23, 25), (43, 36), (63, 47)].iter().enumerate() {
        let rects = frame[row * 4..row * 4 + 4].to_vec();
        let t = Dim::Finite(14);
        assert_eq!(
            rects,
            vec![
                Rectangle { x: Dim::Finite(0), y: Dim::Finite(y), width: t, height: t, fill: Color::gray() },
                Rectangle { x: Dim::Finite(86), y: Dim::Finite(y), width: t, height: t, fill: Color::gray() },
                Rectangle {
                    x: t,
                    y: Dim::Finite(y),
                    width: Dim::Finite(72),
                    height: t,
                    fill: Color::light_gray(),
                },
                Rectangle {
                    x: Dim::Finite(thumb_x),
                    y: Dim::Finite(y),
                    width: Dim::Finite(28),
                    height: t,
                    fill: Color::dark_gray(),
                },
            ]
        );
    }
}

#[test]
fn window_render_pass_is_idempotent() {
    let mut window = AppWindow::new(Some(3), Some(HeadlessSurface::new(3)), 1);
    window.render();
    let first = window.render_surface.as_ref().unwrap().painter.ops.clone();
    window.render();
    let second = window.render_surface.as_ref().unwrap().painter.ops.clone();
    assert_eq!(first, second);
}

#[test]
fn rectangle_visual_submits_itself() {
    let rect = Rectangle {
        x: Dim::Finite(1),
        y: Dim::Finite(2),
        width: Dim::Finite(3),
        height: Dim::Finite(4),
        fill: Color::beige(),
    };
    let mut painter = HeadlessRenderer { tx: 0, ty: 0, ops: Vec::new() };
    rect.draw(&mut painter);
    assert_eq!(painter.ops, vec![rect]);
}

#[test]
fn sample_component_counts_clicks() {
    let _builder = AppBuilder::new();
    let mut sample = MyComponent::new();
    assert_eq!(sample.my_property(), 0);
    sample.on_button_clicked();
    sample.on_button_clicked();
    assert_eq!(sample.my_property(), 2);
}
