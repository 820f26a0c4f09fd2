//! Default values used when JSX expressions cannot be resolved statically.

use vstd::prelude::*;

use crate::text::str_eq;

verus! {

pub const SIZE: &'static str = "24";

pub const VIEW_BOX: &'static str = "0 0 24 24";

pub const FILL: &'static str = "currentColor";

pub const STROKE: &'static str = "none";

pub const STROKE_WIDTH: &'static str = "1.5";

pub const XMLNS: &'static str = "http://www.w3.org/2000/svg";

pub const XMLNS_XLINK: &'static str = "http://www.w3.org/1999/xlink";

/// The fallback value for an attribute, by its JSX (camelCase) or SVG (kebab-case) name.
pub open spec fn spec_fallback_for(attr: Seq<char>) -> Option<Seq<char>> {
    if attr == "size"@ || attr == "width"@ || attr == "height"@ {
        Some(SIZE@)
    } else if attr == "color"@ || attr == "fill"@ {
        Some(FILL@)
    } else if attr == "stroke"@ {
        Some(STROKE@)
    } else if attr == "strokeWidth"@ || attr == "stroke-width"@ {
        Some(STROKE_WIDTH@)
    } else {
        None
    }
}

/// Returns a fallback value for a JSX attribute name (camelCase) or its SVG
/// equivalent (kebab-case), or `None` if no fallback is defined.
pub fn fallback_for(attr: &str) -> (res: Option<&'static str>)
    ensures
        match res {
            Some(v) => spec_fallback_for(attr@) == Some(v@),
            None => spec_fallback_for(attr@) is None,
        },
{
    if str_eq(attr, "size") || str_eq(attr, "width") || str_eq(attr, "height") {
        Some(SIZE)
    } else if str_eq(attr, "color") || str_eq(attr, "fill") {
        Some(FILL)
    } else if str_eq(attr, "stroke") {
        Some(STROKE)
    } else if str_eq(attr, "strokeWidth") || str_eq(attr, "stroke-width") {
        Some(STROKE_WIDTH)
    } else {
        None
    }
}

} // verus!
