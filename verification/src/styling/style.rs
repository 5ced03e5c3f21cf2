//! A list of CSS declarations, built up property by property.

use crate::styling::border::{Border, BorderRadius};
use crate::styling::font::FontWeight;
use crate::styling::thickness::{push_px, px, Thickness};
use crate::text::{join, joined, texts};
use crate::utils::Argb;
use vstd::prelude::*;

verus! {

/// The declarations of one rule, in the order in which they were added.
#[derive(Debug)]
pub struct Style {
    pub properties: Vec<String>,
}

impl View for Style {
    type V = Seq<Seq<char>>;

    open spec fn view(&self) -> Seq<Seq<char>> {
        texts(self.properties@)
    }
}

impl Default for Style {
    fn default() -> (r: Style)
        ensures
            r@ == Seq::<Seq<char>>::empty(),
    {
        Style::new()
    }
}

/// The declaration `name: value;`.
pub open spec fn declaration(name: Seq<char>, value: Seq<char>) -> Seq<char> {
    name + ": "@ + value + ";"@
}

/// A rule: the selector, and the declarations between braces, one to a
/// line.
pub open spec fn rule(selector: Seq<char>, properties: Seq<Seq<char>>) -> Seq<char> {
    selector + " { "@ + joined(properties, "\n"@) + " }"@
}

/// The lengths of a shadow, each in pixels, separated by spaces.
pub open spec fn lengths(length: Seq<u32>) -> Seq<char>
    decreases length.len(),
{
    if length.len() == 0 {
        Seq::empty()
    } else if length.len() == 1 {
        px(length[0])
    } else {
        lengths(length.drop_last()) + " "@ + px(length.last())
    }
}

/// The address of a local file as a CSS `url(..)` value.
pub open spec fn file_url(path: Seq<char>) -> Seq<char> {
    "url(\"file://"@ + path + "\")"@
}

/// Writes the rule of `properties` under `selector`.
pub fn write_rule(selector: &str, suffix: &str, properties: &Vec<String>) -> (r: String)
    ensures
        r@ == rule(selector@ + suffix@, texts(properties@)),
{
    let mut out = selector.to_owned();
    out.append(suffix);
    out.append(" { ");
    let body = join(properties, "\n");
    out.append(body.as_str());
    out.append(" }");
    assert(out@ =~= rule(selector@ + suffix@, texts(properties@)));
    out
}

impl Style {
    /// A style without declarations.
    #[must_use]
    pub fn new() -> (r: Style)
        ensures
            r@ == Seq::<Seq<char>>::empty(),
    {
        let r = Style { properties: Vec::new() };
        assert(r@ =~= Seq::<Seq<char>>::empty());
        r
    }

    /// Adds one declaration.
    fn with(self, declaration: String) -> (r: Style)
        ensures
            r@ == self@.push(declaration@),
    {
        let mut properties = self.properties;
        properties.push(declaration);
        let r = Style { properties };
        assert(r@ =~= self@.push(declaration@));
        r
    }

    /// Adds the declaration `name: value;`.
    fn declare(self, name: &str, value: &str) -> (r: Style)
        ensures
            r@ == self@.push(declaration(name@, value@)),
    {
        let mut out = name.to_owned();
        out.append(": ");
        out.append(value);
        out.append(";");
        assert(out@ =~= declaration(name@, value@));
        self.with(out)
    }

    /// Adds the declaration `name: <size>px;`.
    fn declare_px(self, name: &str, size: u32) -> (r: Style)
        ensures
            r@ == self@.push(declaration(name@, px(size))),
    {
        let mut value = String::new();
        push_px(&mut value, size);
        assert(value@ =~= px(size));
        self.declare(name, value.as_str())
    }

    /// The style as a rule for the widgets of class `class_name`.
    pub fn with_class_name(self, class_name: &str) -> (r: String)
        ensures
            r@ == rule(class_name@, self@),
    {
        let r = write_rule(class_name, "", &self.properties);
        proof {
            reveal_strlit("");
            assert(class_name@ + ""@ =~= class_name@);
        }
        r
    }

    /// Sets the background to the image in the local file `url`.
    #[must_use]
    pub fn background_image(self, url: &str) -> (r: Style)
        ensures
            r@ == self@.push(declaration("background-image"@, file_url(url@))),
    {
        let mut value = "url(\"file://".to_owned();
        value.append(url);
        value.append("\")");
        assert(value@ =~= file_url(url@));
        self.declare("background-image", value.as_str())
    }

    /// Sets the size of the background image.
    #[must_use]
    pub fn background_size(self, size: &str) -> (r: Style)
        ensures
            r@ == self@.push(declaration("background-size"@, size@)),
    {
        self.declare("background-size", size)
    }

    /// Sets how the background image repeats.
    #[must_use]
    pub fn background_repeat(self, repeat: &str) -> (r: Style)
        ensures
            r@ == self@.push(declaration("background-repeat"@, repeat@)),
    {
        self.declare("background-repeat", repeat)
    }

    /// Sets where the background image lies.
    #[must_use]
    pub fn background_position(self, position: &str) -> (r: Style)
        ensures
            r@ == self@.push(declaration("background-position"@, position@)),
    {
        self.declare("background-position", position)
    }

    /// Sets the colour of the background.
    #[must_use]
    pub fn background_color(self, color: Argb) -> (r: Style)
        ensures
            r@ == self@.push(declaration("background-color"@, color.rgba_text())),
    {
        let value = color.to_rgba();
        self.declare("background-color", value.as_str())
    }

    /// Sets the colour of the text.
    #[must_use]
    pub fn color(self, color: Argb) -> (r: Style)
        ensures
            r@ == self@.push(declaration("color"@, color.rgba_text())),
    {
        let value = color.to_rgba();
        self.declare("color", value.as_str())
    }

    /// Rounds the corners.
    #[must_use]
    pub fn border_radius(self, radius: &BorderRadius) -> (r: Style)
        ensures
            r@ == self@.push(radius.text()),
    {
        self.with(radius.to_string())
    }

    /// Sets the size of the font, in pixels.
    #[must_use]
    pub fn font_size(self, size: u32) -> (r: Style)
        ensures
            r@ == self@.push(declaration("font-size"@, px(size))),
    {
        self.declare_px("font-size", size)
    }

    /// Sets the least width, in pixels.
    #[must_use]
    pub fn min_width(self, width: u32) -> (r: Style)
        ensures
            r@ == self@.push(declaration("min-width"@, px(width))),
    {
        self.declare_px("min-width", width)
    }

    /// Sets the least height, in pixels.
    #[must_use]
    pub fn min_height(self, height: u32) -> (r: Style)
        ensures
            r@ == self@.push(declaration("min-height"@, px(height))),
    {
        self.declare_px("min-height", height)
    }

    /// Sets the least width and the least height to the same size.
    #[must_use]
    pub fn min_size(self, size: u32) -> (r: Style)
        ensures
            r@ == self@.push(declaration("min-width"@, px(size))).push(
                declaration("min-height"@, px(size)),
            ),
    {
        self.declare_px("min-width", size).declare_px("min-height", size)
    }

    /// Sets the margin.
    #[must_use]
    pub fn margin(self, thickness: &Thickness) -> (r: Style)
        ensures
            r@ == self@.push("margin"@ + thickness.text()),
    {
        let mut out = "margin".to_owned();
        let rest = thickness.to_string();
        out.append(rest.as_str());
        self.with(out)
    }

    /// Sets the padding.
    #[must_use]
    pub fn padding(self, thickness: &Thickness) -> (r: Style)
        ensures
            r@ == self@.push("padding"@ + thickness.text()),
    {
        let mut out = "padding".to_owned();
        let rest = thickness.to_string();
        out.append(rest.as_str());
        self.with(out)
    }

    /// Sets the border.
    #[must_use]
    pub fn border(self, border: &Border) -> (r: Style)
        ensures
            r@ == self@.push(declaration("border"@, border.text())),
    {
        let value = border.to_string();
        self.declare("border", value.as_str())
    }

    /// Sets the shadow: its lengths in pixels, then its colour.
    #[must_use]
    pub fn box_shadow(self, length: Vec<u32>, color: Argb) -> (r: Style)
        ensures
            r@ == self@.push(
                declaration("box-shadow"@, lengths(length@) + " "@ + color.rgba_text()),
            ),
    {
        let mut value = String::new();
        let mut i: usize = 0;
        while i < length.len()
            invariant
                i <= length.len(),
                value@ == lengths(length@.take(i as int)),
            decreases length.len() - i,
        {
            assert(length@.take(i + 1).drop_last() == length@.take(i as int));
            if i > 0 {
                value.append(" ");
            } else {
                assert(value@ + px(length@[0]) == px(length@[0]));
            }
            push_px(&mut value, length[i]);
            i = i + 1;
        }
        assert(length@.take(length.len() as int) == length@);
        value.append(" ");
        let rgba = color.to_rgba();
        value.append(rgba.as_str());
        assert(value@ =~= lengths(length@) + " "@ + color.rgba_text());
        self.declare("box-shadow", value.as_str())
    }

    /// Sets the family of the font.
    #[must_use]
    pub fn font_family(self, family: &str) -> (r: Style)
        ensures
            r@ == self@.push(declaration("font-family"@, family@)),
    {
        self.declare("font-family", family)
    }

    /// Sets the weight of the font.
    #[must_use]
    pub fn font_weight(self, weight: &FontWeight) -> (r: Style)
        ensures
            r@ == self@.push(declaration("font-weight"@, weight.text())),
    {
        let value = weight.to_string();
        self.declare("font-weight", value.as_str())
    }

    /// Sets which properties change gradually, and how fast.
    #[must_use]
    pub fn transition(self, transition: &str) -> (r: Style)
        ensures
            r@ == self@.push(declaration("transition"@, transition@)),
    {
        self.declare("transition", transition)
    }
}

} // verus!
