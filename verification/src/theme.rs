//! The styles of the overlay's containers.

use vstd::prelude::*;

verus! {

/// A color, with eight bits for each of red, green, blue and opacity.
#[derive(Clone, Copy, Debug, PartialEq, Eq, Structural)]
pub struct Color {
    pub r: u8,
    pub g: u8,
    pub b: u8,
    pub a: u8,
}

impl Color {
    /// Opaque white.
    pub open spec fn white() -> Color {
        Color { r: 255, g: 255, b: 255, a: 255 }
    }

    /// Opaque black.
    pub open spec fn black() -> Color {
        Color { r: 0, g: 0, b: 0, a: 255 }
    }

    /// Black without any opacity: nothing is drawn.
    pub open spec fn transparent() -> Color {
        Color { r: 0, g: 0, b: 0, a: 0 }
    }
}

/// The colors that the overlay is drawn in.
#[derive(Clone, Copy, Debug, PartialEq, Eq, Structural)]
pub struct Theme {
    pub background: Color,
    pub overlay: Color,
}

/// How a container is drawn.
#[derive(Clone, Copy, Debug, PartialEq, Eq, Structural)]
pub struct Style {
    pub text_color: Option<Color>,
    pub background: Option<Color>,
    pub border_radius: u16,
    pub border_width: u16,
    pub border_color: Color,
}

impl Style {
    /// A container that draws nothing of its own: no background, no border,
    /// and the color of its text left to what surrounds it.
    pub open spec fn plain() -> Style {
        Style {
            text_color: None,
            background: None,
            border_radius: 0,
            border_width: 0,
            border_color: Color::transparent(),
        }
    }
}

impl Default for Style {
    fn default() -> (style: Style)
        ensures
            style == Style::plain(),
    {
        Style {
            text_color: None,
            background: None,
            border_radius: 0,
            border_width: 0,
            border_color: Color { r: 0, g: 0, b: 0, a: 0 },
        }
    }
}

/// A container of the menu.
#[derive(Clone, Copy, Debug, PartialEq, Eq, Structural)]
pub struct Container(pub Theme);

impl Container {
    /// The theme's background under white text.
    pub fn style(&self) -> (style: Style)
        ensures
            style == (Style {
                background: Some(self.0.background),
                text_color: Some(Color::white()),
                ..Style::plain()
            }),
    {
        Style {
            background: Some(self.0.background),
            text_color: Some(Color { r: 255, g: 255, b: 255, a: 255 }),
            ..Style::default()
        }
    }
}

/// A container that lies over the host's picture.
#[derive(Clone, Copy, Debug, PartialEq, Eq, Structural)]
pub struct Overlay(pub Theme);

impl Overlay {
    /// The theme's overlay color.
    pub fn style(&self) -> (style: Style)
        ensures
            style == (Style { background: Some(self.0.overlay), ..Style::plain() }),
    {
        Style { background: Some(self.0.overlay), ..Style::default() }
    }
}

/// The container that draws the crosshair.
#[derive(Clone, Copy, Debug, PartialEq, Eq, Structural)]
pub struct Crosshair;

impl Crosshair {
    /// Black.
    pub fn style(&self) -> (style: Style)
        ensures
            style == (Style { background: Some(Color::black()), ..Style::plain() }),
    {
        Style { background: Some(Color { r: 0, g: 0, b: 0, a: 255 }), ..Style::default() }
    }
}

/// A container that only holds others.
#[derive(Clone, Copy, Debug, PartialEq, Eq, Structural)]
pub struct Transparent;

impl Transparent {
    /// A background that draws nothing.
    pub fn style(&self) -> (style: Style)
        ensures
            style == (Style { background: Some(Color::transparent()), ..Style::plain() }),
    {
        Style { background: Some(Color { r: 0, g: 0, b: 0, a: 0 }), ..Style::default() }
    }
}

} // verus!
