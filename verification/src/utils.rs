//! Helpers shared by the widgets.

use crate::text::{decimal, digit_char, push_decimal};
use vstd::prelude::*;

verus! {

/// The names whose flag is set, in order.
pub open spec fn picked<'a>(class: Seq<(bool, &'a str)>) -> Seq<&'a str>
    decreases class.len(),
{
    if class.len() == 0 {
        Seq::empty()
    } else if class.last().0 {
        picked(class.drop_last()).push(class.last().1)
    } else {
        picked(class.drop_last())
    }
}

/// Keeps the class names whose flag is set.
#[must_use]
pub fn clsx<'a>(class: Vec<(bool, &'a str)>) -> (r: Vec<&'a str>)
    ensures
        r@ == picked(class@),
{
    let mut out: Vec<&'a str> = Vec::new();
    let mut i: usize = 0;
    while i < class.len()
        invariant
            i <= class.len(),
            out@ == picked(class@.take(i as int)),
        decreases class.len() - i,
    {
        assert(class@.take(i + 1).drop_last() == class@.take(i as int));
        let (on, name) = class[i];
        if on {
            out.push(name);
        }
        i = i + 1;
    }
    assert(class@.take(class.len() as int) == class@);
    out
}

/// A colour with its opacity, each channel from 0 to 255.
#[derive(Debug, Default, Clone, Copy, PartialEq, Eq, Structural)]
pub struct Argb {
    pub alpha: u8,
    pub red: u8,
    pub green: u8,
    pub blue: u8,
}

/// How many hundredths of full opacity an alpha channel comes to, rounded
/// down.
pub open spec fn hundredths(alpha: u8) -> nat {
    (alpha as nat * 100) / 255
}

/// A number of hundredths from 0 to 100 as a decimal fraction without
/// trailing zeros: "0", "0.07", "0.5", "0.49", "1".
pub open spec fn fraction_text(k: nat) -> Seq<char> {
    if k >= 100 {
        seq!['1']
    } else if k == 0 {
        seq!['0']
    } else if k % 10 == 0 {
        seq!['0', '.', digit_char(k / 10)]
    } else {
        seq!['0', '.', digit_char(k / 10), digit_char(k % 10)]
    }
}

impl Argb {
    /// The colour as a CSS `rgba(..)` value, the opacity in hundredths.
    pub open spec fn rgba_text(self) -> Seq<char> {
        "rgba("@ + decimal(self.red as nat) + ", "@ + decimal(self.green as nat) + ", "@
            + decimal(self.blue as nat) + ", "@ + fraction_text(hundredths(self.alpha)) + ")"@
    }

    /// A colour from its four channels.
    pub fn new(alpha: u8, red: u8, green: u8, blue: u8) -> (r: Argb)
        ensures
            r == (Argb { alpha, red, green, blue }),
    {
        Argb { alpha, red, green, blue }
    }

    /// Writes the colour as a CSS `rgba(..)` value.
    pub fn to_rgba(&self) -> (r: String)
        ensures
            r@ == self.rgba_text(),
    {
        let mut out = String::new();
        out.append("rgba(");
        push_decimal(&mut out, self.red as u32);
        out.append(", ");
        push_decimal(&mut out, self.green as u32);
        out.append(", ");
        push_decimal(&mut out, self.blue as u32);
        out.append(", ");
        push_fraction(&mut out, (self.alpha as u32 * 100) / 255);
        out.append(")");
        assert(out@ =~= self.rgba_text());
        out
    }
}

/// Appends a number of hundredths as a decimal fraction.
fn push_fraction(out: &mut String, k: u32)
    requires
        k <= 100,
    ensures
        final(out)@ == old(out)@ + fraction_text(k as nat),
{
    proof {
        reveal_strlit("1");
        reveal_strlit("0");
        reveal_strlit("0.");
    }
    if k >= 100 {
        out.append("1");
        assert(final(out)@ =~= old(out)@ + fraction_text(k as nat));
    } else if k == 0 {
        out.append("0");
        assert(final(out)@ =~= old(out)@ + fraction_text(k as nat));
    } else {
        out.append("0.");
        push_decimal(out, k / 10);
        if k % 10 != 0 {
            push_decimal(out, k % 10);
        }
        assert(final(out)@ =~= old(out)@ + fraction_text(k as nat));
    }
}

} // verus!
