//! Font properties.

use vstd::prelude::*;

verus! {

/// How heavy a font is drawn.
#[derive(Debug, Clone, Copy, PartialEq, Eq, Structural)]
pub enum FontWeight {
    Thin,
    Normal,
    Bold,
}

impl FontWeight {
    /// The weight's CSS keyword.
    pub open spec fn text(self) -> Seq<char> {
        match self {
            FontWeight::Thin => "thin"@,
            FontWeight::Normal => "normal"@,
            FontWeight::Bold => "bold"@,
        }
    }

    /// Writes the weight's CSS keyword.
    pub fn to_string(&self) -> (r: String)
        ensures
            r@ == self.text(),
    {
        match self {
            FontWeight::Thin => "thin".to_owned(),
            FontWeight::Normal => "normal".to_owned(),
            FontWeight::Bold => "bold".to_owned(),
        }
    }
}

} // verus!
