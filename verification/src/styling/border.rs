//! Borders and rounded corners.

use crate::styling::thickness::{push_px, push_px4, px, px4};
use crate::utils::Argb;
use vstd::prelude::*;

verus! {

/// The radius of rounded corners, in pixels: the same for all, one for
/// each, or for one corner only.
#[derive(Debug, Clone, Copy, PartialEq, Eq, Structural)]
pub enum BorderRadius {
    All(u32),
    Custom(u32, u32, u32, u32),
    TopLeft(u32),
    TopRight(u32),
    BottomLeft(u32),
    BottomRight(u32),
}

/// How a border is drawn.
#[derive(Debug, Clone, Copy, PartialEq, Eq, Structural)]
pub enum BorderStyle {
    /// No border is drawn: the keyword `none`.
    Off,
    Solid,
    Inset,
    Outset,
    Hidden,
    Dotted,
    Dashed,
    Double,
    Groove,
    Ridge,
}

impl Default for BorderStyle {
    fn default() -> (r: BorderStyle)
        ensures
            r == BorderStyle::Off,
    {
        BorderStyle::Off
    }
}

/// A border: its width in pixels, how it is drawn, and its colour.
#[derive(Debug, Clone, Copy, PartialEq, Eq, Structural)]
pub struct Border {
    pub thickness: u32,
    pub style: BorderStyle,
    pub color: Argb,
}

impl Default for Border {
    fn default() -> (r: Border)
        ensures
            r == (Border {
                thickness: 0,
                style: BorderStyle::Off,
                color: Argb { alpha: 0, red: 0, green: 0, blue: 0 },
            }),
    {
        Border {
            thickness: 0,
            style: BorderStyle::Off,
            color: Argb { alpha: 0, red: 0, green: 0, blue: 0 },
        }
    }
}

impl BorderStyle {
    /// The style's CSS keyword.
    pub open spec fn text(self) -> Seq<char> {
        match self {
            BorderStyle::Off => "none"@,
            BorderStyle::Solid => "solid"@,
            BorderStyle::Inset => "inset"@,
            BorderStyle::Outset => "outset"@,
            BorderStyle::Hidden => "hidden"@,
            BorderStyle::Dotted => "dotted"@,
            BorderStyle::Dashed => "dashed"@,
            BorderStyle::Double => "double"@,
            BorderStyle::Groove => "groove"@,
            BorderStyle::Ridge => "ridge"@,
        }
    }

    /// The style's CSS keyword.
    pub fn keyword(&self) -> (r: &'static str)
        ensures
            r@ == self.text(),
    {
        match self {
            BorderStyle::Off => "none",
            BorderStyle::Solid => "solid",
            BorderStyle::Inset => "inset",
            BorderStyle::Outset => "outset",
            BorderStyle::Hidden => "hidden",
            BorderStyle::Dotted => "dotted",
            BorderStyle::Dashed => "dashed",
            BorderStyle::Double => "double",
            BorderStyle::Groove => "groove",
            BorderStyle::Ridge => "ridge",
        }
    }
}

impl Border {
    /// The same border with another width.
    #[must_use]
    pub fn thickness(self, thickness: u32) -> (r: Border)
        ensures
            r == (Border { thickness, ..self }),
    {
        Border { thickness, ..self }
    }

    /// The same border drawn in another way.
    #[must_use]
    pub fn style(self, style: BorderStyle) -> (r: Border)
        ensures
            r == (Border { style, ..self }),
    {
        Border { style, ..self }
    }

    /// The same border in another colour.
    #[must_use]
    pub fn color(self, color: Argb) -> (r: Border)
        ensures
            r == (Border { color, ..self }),
    {
        Border { color, ..self }
    }

    /// The value of a `border` declaration: width, style and colour.
    pub open spec fn text(self) -> Seq<char> {
        px(self.thickness) + " "@ + self.style.text() + " "@ + self.color.rgba_text()
    }

    /// Writes the value of a `border` declaration.
    pub fn to_string(&self) -> (r: String)
        ensures
            r@ == self.text(),
    {
        let mut out = String::new();
        push_px(&mut out, self.thickness);
        out.append(" ");
        out.append(self.style.keyword());
        out.append(" ");
        let color = self.color.to_rgba();
        out.append(color.as_str());
        assert(out@ =~= self.text());
        out
    }
}

impl BorderRadius {
    /// The declaration that rounds the corners.
    pub open spec fn text(self) -> Seq<char> {
        match self {
            BorderRadius::All(radius) => "border-radius: "@ + px(radius) + ";"@,
            BorderRadius::Custom(a, b, c, d) => "border-radius: "@ + px4(a, b, c, d) + ";"@,
            BorderRadius::TopLeft(radius) => "border-top-left-radius: "@ + px(radius) + ";"@,
            BorderRadius::TopRight(radius) => "border-top-right-radius: "@ + px(radius) + ";"@,
            BorderRadius::BottomLeft(radius) => "border-bottom-left-radius: "@ + px(radius)
                + ";"@,
            BorderRadius::BottomRight(radius) => "border-bottom-right-radius: "@ + px(radius)
                + ";"@,
        }
    }

    /// Writes the declaration that rounds the corners.
    pub fn to_string(&self) -> (r: String)
        ensures
            r@ == self.text(),
    {
        let mut out = String::new();
        match self {
            BorderRadius::All(radius) => {
                out.append("border-radius: ");
                push_px(&mut out, *radius);
            },
            BorderRadius::Custom(a, b, c, d) => {
                out.append("border-radius: ");
                push_px4(&mut out, *a, *b, *c, *d);
            },
            BorderRadius::TopLeft(radius) => {
                out.append("border-top-left-radius: ");
                push_px(&mut out, *radius);
            },
            BorderRadius::TopRight(radius) => {
                out.append("border-top-right-radius: ");
                push_px(&mut out, *radius);
            },
            BorderRadius::BottomLeft(radius) => {
                out.append("border-bottom-left-radius: ");
                push_px(&mut out, *radius);
            },
            BorderRadius::BottomRight(radius) => {
                out.append("border-bottom-right-radius: ");
                push_px(&mut out, *radius);
            },
        }
        out.append(";");
        assert(out@ =~= self.text());
        out
    }
}

} // verus!
