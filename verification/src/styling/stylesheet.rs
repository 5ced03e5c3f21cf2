//! Several rules for one widget: one for the widget itself, others for
//! its states.

use crate::styling::style::{rule, write_rule, Style};
use crate::text::{join, joined, texts};
use vstd::prelude::*;

verus! {

/// The rules of a widget, each with the selector that is written behind
/// the widget's class, or with none.
#[derive(Debug)]
pub struct StyleSheet {
    pub styles: Vec<(Option<String>, Style)>,
}

/// What is written behind the class: the selector, or nothing.
pub open spec fn suffix_text(selector: Option<String>) -> Seq<char> {
    match selector {
        Some(s) => s@,
        None => Seq::empty(),
    }
}

/// The rules of a sheet for the class `class_name`, in order.
pub open spec fn rules(class_name: Seq<char>, styles: Seq<(Option<String>, Style)>) -> Seq<
    Seq<char>,
> {
    Seq::new(
        styles.len(),
        |i: int| rule(class_name + suffix_text(styles[i].0), styles[i].1@),
    )
}

impl Default for StyleSheet {
    fn default() -> (r: StyleSheet)
        ensures
            r.styles@ == Seq::<(Option<String>, Style)>::empty(),
    {
        StyleSheet::new()
    }
}

impl StyleSheet {
    /// A sheet without rules.
    #[must_use]
    pub fn new() -> (r: StyleSheet)
        ensures
            r.styles@ == Seq::<(Option<String>, Style)>::empty(),
    {
        StyleSheet { styles: Vec::new() }
    }

    /// The sheet as text for the widgets of class `class_name`: the rules
    /// in order, an empty line between neighbours.
    pub fn with_class_name(self, class_name: &str) -> (r: String)
        ensures
            r@ == joined(rules(class_name@, self.styles@), "\n\n"@),
    {
        let mut written: Vec<String> = Vec::new();
        let mut i: usize = 0;
        while i < self.styles.len()
            invariant
                i <= self.styles.len(),
                texts(written@) == rules(class_name@, self.styles@).take(i as int),
            decreases self.styles.len() - i,
        {
            let entry = &self.styles[i];
            let text = match &entry.0 {
                Some(selector) => write_rule(class_name, selector.as_str(), &entry.1.properties),
                None => {
                    proof {
                        reveal_strlit("");
                        assert(""@ =~= Seq::<char>::empty());
                    }
                    write_rule(class_name, "", &entry.1.properties)
                },
            };
            assert(text@ == rules(class_name@, self.styles@)[i as int]);
            let ghost before = texts(written@);
            written.push(text);
            assert(texts(written@) =~= before.push(text@));
            assert(texts(written@) =~= rules(class_name@, self.styles@).take(i + 1));
            i = i + 1;
        }
        assert(rules(class_name@, self.styles@).take(self.styles.len() as int) == rules(
            class_name@,
            self.styles@,
        ));
        join(&written, "\n\n")
    }

    /// Adds the rule for the widget itself.
    #[must_use]
    pub fn default_style(self, style: Style) -> (r: StyleSheet)
        ensures
            r.styles@ == self.styles@.push((None, style)),
    {
        let mut styles = self.styles;
        styles.push((None, style));
        StyleSheet { styles }
    }

    /// Adds the rule for the widget where `selector` applies.
    #[must_use]
    pub fn style_for(self, selector: &str, style: Style) -> (r: StyleSheet)
        ensures
            r.styles@.len() == self.styles@.len() + 1,
            r.styles@.drop_last() == self.styles@,
            r.styles@.last().0 is Some,
            r.styles@.last().0->0@ == selector@,
            r.styles@.last().1 == style,
    {
        let mut styles = self.styles;
        styles.push((Some(selector.to_owned()), style));
        StyleSheet { styles }
    }
}

} // verus!
