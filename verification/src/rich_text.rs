//! The building blocks of styled text.

use vstd::prelude::*;

verus! {

#[derive(Debug, Clone, PartialEq)]
pub enum TextStyle {
    Bold,
    Italic,
    Underline,
    Strikethrough,
    Superscript,
    Subscript,
    /// CSS color string.
    Color(String),
    BackgroundColor(String),
    /// E.g., "1.2em", "10px".
    FontSize(String),
    FontFamily(String),
}

#[derive(Debug, Clone, PartialEq)]
pub enum TextAlignment {
    Left,
    Center,
    Right,
    Justify,
}

#[derive(Debug, Clone, PartialEq)]
pub enum AnimationTriggerType {
    Click,
    Hover,
    Toggle,
    Sequence,
}

} // verus!
