//! A painted table cell: one style and one string.
use ansiterm::Style;
use vstd::prelude::*;

verus! {

#[verifier::external_type_specification]
#[verifier::external_body]
pub struct ExStyle(Style);

/// The text of a table cell together with the style it is painted in.
#[derive(Debug, PartialEq)]
pub struct TextCell {
    pub style: Style,
    pub text: String,
}

impl TextCell {
    /// A cell showing `text` in `style`.
    pub fn paint(style: Style, text: String) -> (r: TextCell)
        ensures
            r.style == style,
            r.text@ == text@,
    {
        TextCell { style, text }
    }

    /// A cell showing a copy of `text` in `style`.
    pub fn paint_str(style: Style, text: &str) -> (r: TextCell)
        ensures
            r.style == style,
            r.text@ == text@,
    {
        broadcast use vstd::string::to_string_from_display_ensures_for_str;

        TextCell { style, text: text.to_string() }
    }

    /// A cell with no text, in `style`.
    pub fn blank(style: Style) -> (r: TextCell)
        ensures
            r.style == style,
            r.text@ == Seq::<char>::empty(),
    {
        TextCell { style, text: String::new() }
    }
}

} // verus!
