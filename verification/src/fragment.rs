//! The unit of display output.

use vstd::prelude::*;

verus! {

/// One piece of text for the bar, with the style it is to be drawn in.
///
/// The style is whatever the bar's drawing surface uses; the widgets hand it
/// on as they were given it.
#[derive(Clone, Debug, PartialEq)]
pub struct Text<A> {
    /// Font, colours and padding.
    pub attr: A,
    /// What is displayed.
    pub text: String,
    /// Whether the piece expands to fill the space that is left.
    pub stretch: bool,
    /// Whether `text` is inline markup rather than literal characters.
    pub markup: bool,
}

} // verus!
