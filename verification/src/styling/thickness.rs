//! Widths of margins and paddings.

use crate::text::{decimal, push_decimal};
use vstd::prelude::*;

verus! {

/// The width of a margin or padding, in pixels: the same on all sides,
/// one for each side, or on one side only.
#[derive(Debug, Clone, Copy, PartialEq, Eq, Structural)]
pub enum Thickness {
    All(u32),
    Custom(u32, u32, u32, u32),
    Left(u32),
    Top(u32),
    Right(u32),
    Bottom(u32),
}

/// A number of pixels.
pub open spec fn px(n: u32) -> Seq<char> {
    decimal(n as nat) + "px"@
}

/// Four numbers of pixels, separated by spaces.
pub open spec fn px4(a: u32, b: u32, c: u32, d: u32) -> Seq<char> {
    px(a) + " "@ + px(b) + " "@ + px(c) + " "@ + px(d)
}

/// Appends a number of pixels.
pub fn push_px(out: &mut String, n: u32)
    ensures
        final(out)@ == old(out)@ + px(n),
{
    push_decimal(out, n);
    out.append("px");
    assert(final(out)@ =~= old(out)@ + px(n));
}

/// Appends four numbers of pixels, separated by spaces.
pub fn push_px4(out: &mut String, a: u32, b: u32, c: u32, d: u32)
    ensures
        final(out)@ == old(out)@ + px4(a, b, c, d),
{
    push_px(out, a);
    out.append(" ");
    push_px(out, b);
    out.append(" ");
    push_px(out, c);
    out.append(" ");
    push_px(out, d);
    assert(final(out)@ =~= old(out)@ + px4(a, b, c, d));
}

impl Thickness {
    /// What follows the property's name in a declaration: the side, if
    /// only one is meant, then the widths.
    pub open spec fn text(self) -> Seq<char> {
        match self {
            Thickness::All(width) => ": "@ + px(width) + ";"@,
            Thickness::Custom(a, b, c, d) => ": "@ + px4(a, b, c, d) + ";"@,
            Thickness::Left(width) => "-left: "@ + px(width) + ";"@,
            Thickness::Top(width) => "-top: "@ + px(width) + ";"@,
            Thickness::Right(width) => "-right: "@ + px(width) + ";"@,
            Thickness::Bottom(width) => "-bottom: "@ + px(width) + ";"@,
        }
    }

    /// Writes what follows the property's name in a declaration.
    pub fn to_string(&self) -> (r: String)
        ensures
            r@ == self.text(),
    {
        let mut out = String::new();
        match self {
            Thickness::All(width) => {
                out.append(": ");
                push_px(&mut out, *width);
            },
            Thickness::Custom(a, b, c, d) => {
                out.append(": ");
                push_px4(&mut out, *a, *b, *c, *d);
            },
            Thickness::Left(width) => {
                out.append("-left: ");
                push_px(&mut out, *width);
            },
            Thickness::Top(width) => {
                out.append("-top: ");
                push_px(&mut out, *width);
            },
            Thickness::Right(width) => {
                out.append("-right: ");
                push_px(&mut out, *width);
            },
            Thickness::Bottom(width) => {
                out.append("-bottom: ");
                push_px(&mut out, *width);
            },
        }
        out.append(";");
        assert(out@ =~= self.text());
        out
    }
}

} // verus!
