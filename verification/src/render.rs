//! Textual renderings of a rectangle.
//!
//! `format_debug` gives the diagnostic rendering of the record itself: the
//! type's name, then each field's name and value in declaration order. The
//! two report functions give the sentences in which a program presents a
//! rectangle's area and its diagnostic rendering. Nothing here prints: every
//! function returns the text and leaves the output to its caller.

use vstd::prelude::*;
use vstd::string::*;
use crate::decimal::{decimal, decimal_string};
use crate::rect::{area, Rect};

verus! {

/// The diagnostic rendering of `rect`: `Rect { width: W, height: H }`, with
/// both sides in decimal notation.
pub open spec fn debug_text(rect: Rect) -> Seq<char> {
    "Rect { width: "@ + decimal(rect.width as nat) + ", height: "@ + decimal(rect.height as nat)
        + " }"@
}

/// The sentence that states the area of `rect`, without a line end.
pub open spec fn area_report_text(rect: Rect) -> Seq<char> {
    "The area of the rectangle is "@ + decimal(rect.saturated_area() as nat) + "."@
}

/// The sentence that shows `rect` in its diagnostic rendering, without a
/// line end.
pub open spec fn debug_report_text(rect: Rect) -> Seq<char> {
    "Rect is "@ + debug_text(rect)
}

/// Renders `rect` for diagnostics. The text is meant for people and logs;
/// the rectangle is only borrowed.
pub fn format_debug(rect: &Rect) -> (s: String)
    ensures
        s@ == debug_text(*rect),
{
    let mut s = String::from_str("Rect { width: ");
    let width = decimal_string(rect.width);
    s.append(width.as_str());
    s.append(", height: ");
    let height = decimal_string(rect.height);
    s.append(height.as_str());
    s.append(" }");
    s
}

/// The sentence that states the area of `rect`, as `area` computes it.
pub fn area_report(rect: &Rect) -> (s: String)
    ensures
        s@ == area_report_text(*rect),
{
    let mut s = String::from_str("The area of the rectangle is ");
    let value = decimal_string(area(rect));
    s.append(value.as_str());
    s.append(".");
    s
}

/// The sentence that shows `rect` in its diagnostic rendering.
pub fn debug_report(rect: &Rect) -> (s: String)
    ensures
        s@ == debug_report_text(*rect),
{
    let mut s = String::from_str("Rect is ");
    let shown = format_debug(rect);
    s.append(shown.as_str());
    s
}

} // verus!
