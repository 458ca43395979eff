use elysium::theme::{Color, Container, Crosshair, Overlay, Style, Theme, Transparent};

const WHITE: Color = Color { r: 255, g: 255, b: 255, a: 255 };
const BLACK: Color = Color { r: 0, g: 0, b: 0, a: 255 };
const TRANSPARENT: Color = Color { r: 0, g: 0, b: 0, a: 0 };

fn theme() -> Theme {
    Theme {
        background: Color { r: 0x10, g: 0x12, b: 0x14, a: 0xff },
        overlay: Color { r: 0, g: 0, b: 0, a: 0x80 },
    }
}

fn plain() -> Style {
    Style {
        text_color: None,
        background: None,
        border_radius: 0,
        border_width: 0,
        border_color: TRANSPARENT,
    }
}

#[test]
fn default_style_draws_nothing() {
    assert_eq!(Style::default(), plain());
}

#[test]
fn container_has_the_background_under_white_text() {
    assert_eq!(
        Container(theme()).style(),
        Style { background: Some(theme().background), text_color: Some(WHITE), ..plain() }
    );
}

#[test]
fn overlay_has_the_overlay_color() {
    assert_eq!(
        Overlay(theme()).style(),
        Style { background: Some(theme().overlay), ..plain() }
    );
}

#[test]
fn crosshair_is_black() {
    assert_eq!(Crosshair.style(), Style { background: Some(BLACK), ..plain() });
}

#[test]
fn transparent_has_a_background_that_draws_nothing() {
    assert_eq!(Transparent.style(), Style { background: Some(TRANSPARENT), ..plain() });
}
