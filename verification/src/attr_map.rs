//! Maps JSX camelCase attribute names to SVG attribute names (kebab-case or
//! namespaced). Attributes not in the table pass through unchanged: `viewBox`,
//! `preserveAspectRatio`, `gradientUnits`, `refX`, `attributeName`, etc., are
//! natively camelCase in SVG.

use vstd::prelude::*;

use crate::text::str_eq;

verus! {

/// What to do with a JSX attribute.
pub enum AttrAction {
    /// Use the attribute under this name.
    Use(String),
    /// Silently drop (e.g. on-handlers).
    Drop,
    /// Drop and warn the user.
    DropWarn(&'static str),
}

/// An [`AttrAction`] with its strings taken as character sequences.
pub enum AttrActionView {
    Use(Seq<char>),
    Drop,
    DropWarn(Seq<char>),
}

impl View for AttrAction {
    type V = AttrActionView;

    open spec fn view(&self) -> AttrActionView {
        match self {
            AttrAction::Use(n) => AttrActionView::Use(n@),
            AttrAction::Drop => AttrActionView::Drop,
            AttrAction::DropWarn(m) => AttrActionView::DropWarn(m@),
        }
    }
}

/// The warning given when `dangerouslySetInnerHTML` is stripped.
pub const DANGEROUS_HTML_WARNING: &'static str =
    "dangerouslySetInnerHTML stripped \u{2014} arbitrary HTML rendering is not supported";

/// Whether `name` is a React event handler: `on` followed by an ASCII capital.
pub open spec fn is_event_handler_name(name: Seq<char>) -> bool {
    name.len() > 2 && name[0] == 'o' && name[1] == 'n' && 'A' <= name[2] <= 'Z'
}

/// The SVG name of a JSX attribute that SVG spells differently (kebab-case,
/// namespaced, or `class`), if it is one of them.
pub open spec fn svg_attr_name(name: Seq<char>) -> Option<Seq<char>> {
    if name == "className"@ {
        Some("class"@)
    } else if name == "accentHeight"@ {
        Some("accent-height"@)
    } else if name == "alignmentBaseline"@ {
        Some("alignment-baseline"@)
    } else if name == "arabicForm"@ {
        Some("arabic-form"@)
    } else if name == "baselineShift"@ {
        Some("baseline-shift"@)
    } else if name == "capHeight"@ {
        Some("cap-height"@)
    } else if name == "clipPath"@ {
        Some("clip-path"@)
    } else if name == "clipRule"@ {
        Some("clip-rule"@)
    } else if name == "colorInterpolation"@ {
        Some("color-interpolation"@)
    } else if name == "colorInterpolationFilters"@ {
        Some("color-interpolation-filters"@)
    } else if name == "colorProfile"@ {
        Some("color-profile"@)
    } else if name == "colorRendering"@ {
        Some("color-rendering"@)
    } else if name == "dominantBaseline"@ {
        Some("dominant-baseline"@)
    } else if name == "enableBackground"@ {
        Some("enable-background"@)
    } else if name == "fillOpacity"@ {
        Some("fill-opacity"@)
    } else if name == "fillRule"@ {
        Some("fill-rule"@)
    } else if name == "floodColor"@ {
        Some("flood-color"@)
    } else if name == "floodOpacity"@ {
        Some("flood-opacity"@)
    } else if name == "fontFamily"@ {
        Some("font-family"@)
    } else if name == "fontSize"@ {
        Some("font-size"@)
    } else if name == "fontSizeAdjust"@ {
        Some("font-size-adjust"@)
    } else if name == "fontStretch"@ {
        Some("font-stretch"@)
    } else if name == "fontStyle"@ {
        Some("font-style"@)
    } else if name == "fontVariant"@ {
        Some("font-variant"@)
    } else if name == "fontWeight"@ {
        Some("font-weight"@)
    } else if name == "glyphName"@ {
        Some("glyph-name"@)
    } else if name == "glyphOrientationHorizontal"@ {
        Some("glyph-orientation-horizontal"@)
    } else if name == "glyphOrientationVertical"@ {
        Some("glyph-orientation-vertical"@)
    } else if name == "horizAdvX"@ {
        Some("horiz-adv-x"@)
    } else if name == "horizOriginX"@ {
        Some("horiz-origin-x"@)
    } else if name == "imageRendering"@ {
        Some("image-rendering"@)
    } else if name == "letterSpacing"@ {
        Some("letter-spacing"@)
    } else if name == "lightingColor"@ {
        Some("lighting-color"@)
    } else if name == "markerEnd"@ {
        Some("marker-end"@)
    } else if name == "markerMid"@ {
        Some("marker-mid"@)
    } else if name == "markerStart"@ {
        Some("marker-start"@)
    } else if name == "overlinePosition"@ {
        Some("overline-position"@)
    } else if name == "overlineThickness"@ {
        Some("overline-thickness"@)
    } else if name == "paintOrder"@ {
        Some("paint-order"@)
    } else if name == "panose1"@ {
        Some("panose-1"@)
    } else if name == "pointerEvents"@ {
        Some("pointer-events"@)
    } else if name == "renderingIntent"@ {
        Some("rendering-intent"@)
    } else if name == "shapeRendering"@ {
        Some("shape-rendering"@)
    } else if name == "stopColor"@ {
        Some("stop-color"@)
    } else if name == "stopOpacity"@ {
        Some("stop-opacity"@)
    } else if name == "strikethroughPosition"@ {
        Some("strikethrough-position"@)
    } else if name == "strikethroughThickness"@ {
        Some("strikethrough-thickness"@)
    } else if name == "strokeDasharray"@ {
        Some("stroke-dasharray"@)
    } else if name == "strokeDashoffset"@ {
        Some("stroke-dashoffset"@)
    } else if name == "strokeLinecap"@ {
        Some("stroke-linecap"@)
    } else if name == "strokeLinejoin"@ {
        Some("stroke-linejoin"@)
    } else if name == "strokeMiterlimit"@ {
        Some("stroke-miterlimit"@)
    } else if name == "strokeOpacity"@ {
        Some("stroke-opacity"@)
    } else if name == "strokeWidth"@ {
        Some("stroke-width"@)
    } else if name == "textAnchor"@ {
        Some("text-anchor"@)
    } else if name == "textDecoration"@ {
        Some("text-decoration"@)
    } else if name == "textRendering"@ {
        Some("text-rendering"@)
    } else if name == "transformOrigin"@ {
        Some("transform-origin"@)
    } else if name == "underlinePosition"@ {
        Some("underline-position"@)
    } else if name == "underlineThickness"@ {
        Some("underline-thickness"@)
    } else if name == "unicodeBidi"@ {
        Some("unicode-bidi"@)
    } else if name == "unicodeRange"@ {
        Some("unicode-range"@)
    } else if name == "unitsPerEm"@ {
        Some("units-per-em"@)
    } else if name == "vAlphabetic"@ {
        Some("v-alphabetic"@)
    } else if name == "vHanging"@ {
        Some("v-hanging"@)
    } else if name == "vIdeographic"@ {
        Some("v-ideographic"@)
    } else if name == "vMathematical"@ {
        Some("v-mathematical"@)
    } else if name == "vectorEffect"@ {
        Some("vector-effect"@)
    } else if name == "vertAdvY"@ {
        Some("vert-adv-y"@)
    } else if name == "vertOriginX"@ {
        Some("vert-origin-x"@)
    } else if name == "vertOriginY"@ {
        Some("vert-origin-y"@)
    } else if name == "wordSpacing"@ {
        Some("word-spacing"@)
    } else if name == "writingMode"@ {
        Some("writing-mode"@)
    } else if name == "xHeight"@ {
        Some("x-height"@)
    } else if name == "xlinkActuate"@ {
        Some("xlink:actuate"@)
    } else if name == "xlinkArcrole"@ {
        Some("xlink:arcrole"@)
    } else if name == "xlinkHref"@ {
        Some("xlink:href"@)
    } else if name == "xlinkRole"@ {
        Some("xlink:role"@)
    } else if name == "xlinkShow"@ {
        Some("xlink:show"@)
    } else if name == "xlinkTitle"@ {
        Some("xlink:title"@)
    } else if name == "xlinkType"@ {
        Some("xlink:type"@)
    } else if name == "xmlnsXlink"@ {
        Some("xmlns:xlink"@)
    } else if name == "xmlBase"@ {
        Some("xml:base"@)
    } else if name == "xmlLang"@ {
        Some("xml:lang"@)
    } else if name == "xmlSpace"@ {
        Some("xml:space"@)
    } else {
        None
    }
}

/// What [`map_attr`] does with the attribute `name`.
pub open spec fn attr_action(name: Seq<char>) -> AttrActionView {
    if is_event_handler_name(name) {
        AttrActionView::Drop
    } else if name == "htmlFor"@ {
        AttrActionView::Drop
    } else if name == "dangerouslySetInnerHTML"@ {
        AttrActionView::DropWarn(DANGEROUS_HTML_WARNING@)
    } else if name == "ref"@ || name == "key"@ {
        AttrActionView::Drop
    } else {
        match svg_attr_name(name) {
            Some(svg) => AttrActionView::Use(svg),
            None => AttrActionView::Use(name),
        }
    }
}

fn svg_name_for(name: &str) -> (res: Option<&'static str>)
    ensures
        match res {
            Some(n) => svg_attr_name(name@) == Some(n@),
            None => svg_attr_name(name@) is None,
        },
{
    if str_eq(name, "className") {
        Some("class")
    } else if str_eq(name, "accentHeight") {
        Some("accent-height")
    } else if str_eq(name, "alignmentBaseline") {
        Some("alignment-baseline")
    } else if str_eq(name, "arabicForm") {
        Some("arabic-form")
    } else if str_eq(name, "baselineShift") {
        Some("baseline-shift")
    } else if str_eq(name, "capHeight") {
        Some("cap-height")
    } else if str_eq(name, "clipPath") {
        Some("clip-path")
    } else if str_eq(name, "clipRule") {
        Some("clip-rule")
    } else if str_eq(name, "colorInterpolation") {
        Some("color-interpolation")
    } else if str_eq(name, "colorInterpolationFilters") {
        Some("color-interpolation-filters")
    } else if str_eq(name, "colorProfile") {
        Some("color-profile")
    } else if str_eq(name, "colorRendering") {
        Some("color-rendering")
    } else if str_eq(name, "dominantBaseline") {
        Some("dominant-baseline")
    } else if str_eq(name, "enableBackground") {
        Some("enable-background")
    } else if str_eq(name, "fillOpacity") {
        Some("fill-opacity")
    } else if str_eq(name, "fillRule") {
        Some("fill-rule")
    } else if str_eq(name, "floodColor") {
        Some("flood-color")
    } else if str_eq(name, "floodOpacity") {
        Some("flood-opacity")
    } else if str_eq(name, "fontFamily") {
        Some("font-family")
    } else if str_eq(name, "fontSize") {
        Some("font-size")
    } else if str_eq(name, "fontSizeAdjust") {
        Some("font-size-adjust")
    } else if str_eq(name, "fontStretch") {
        Some("font-stretch")
    } else if str_eq(name, "fontStyle") {
        Some("font-style")
    } else if str_eq(name, "fontVariant") {
        Some("font-variant")
    } else if str_eq(name, "fontWeight") {
        Some("font-weight")
    } else if str_eq(name, "glyphName") {
        Some("glyph-name")
    } else if str_eq(name, "glyphOrientationHorizontal") {
        Some("glyph-orientation-horizontal")
    } else if str_eq(name, "glyphOrientationVertical") {
        Some("glyph-orientation-vertical")
    } else if str_eq(name, "horizAdvX") {
        Some("horiz-adv-x")
    } else if str_eq(name, "horizOriginX") {
        Some("horiz-origin-x")
    } else if str_eq(name, "imageRendering") {
        Some("image-rendering")
    } else if str_eq(name, "letterSpacing") {
        Some("letter-spacing")
    } else if str_eq(name, "lightingColor") {
        Some("lighting-color")
    } else if str_eq(name, "markerEnd") {
        Some("marker-end")
    } else if str_eq(name, "markerMid") {
        Some("marker-mid")
    } else if str_eq(name, "markerStart") {
        Some("marker-start")
    } else if str_eq(name, "overlinePosition") {
        Some("overline-position")
    } else if str_eq(name, "overlineThickness") {
        Some("overline-thickness")
    } else if str_eq(name, "paintOrder") {
        Some("paint-order")
    } else if str_eq(name, "panose1") {
        Some("panose-1")
    } else if str_eq(name, "pointerEvents") {
        Some("pointer-events")
    } else if str_eq(name, "renderingIntent") {
        Some("rendering-intent")
    } else if str_eq(name, "shapeRendering") {
        Some("shape-rendering")
    } else if str_eq(name, "stopColor") {
        Some("stop-color")
    } else if str_eq(name, "stopOpacity") {
        Some("stop-opacity")
    } else if str_eq(name, "strikethroughPosition") {
        Some("strikethrough-position")
    } else if str_eq(name, "strikethroughThickness") {
        Some("strikethrough-thickness")
    } else if str_eq(name, "strokeDasharray") {
        Some("stroke-dasharray")
    } else if str_eq(name, "strokeDashoffset") {
        Some("stroke-dashoffset")
    } else if str_eq(name, "strokeLinecap") {
        Some("stroke-linecap")
    } else if str_eq(name, "strokeLinejoin") {
        Some("stroke-linejoin")
    } else if str_eq(name, "strokeMiterlimit") {
        Some("stroke-miterlimit")
    } else if str_eq(name, "strokeOpacity") {
        Some("stroke-opacity")
    } else if str_eq(name, "strokeWidth") {
        Some("stroke-width")
    } else if str_eq(name, "textAnchor") {
        Some("text-anchor")
    } else if str_eq(name, "textDecoration") {
        Some("text-decoration")
    } else if str_eq(name, "textRendering") {
        Some("text-rendering")
    } else if str_eq(name, "transformOrigin") {
        Some("transform-origin")
    } else if str_eq(name, "underlinePosition") {
        Some("underline-position")
    } else if str_eq(name, "underlineThickness") {
        Some("underline-thickness")
    } else if str_eq(name, "unicodeBidi") {
        Some("unicode-bidi")
    } else if str_eq(name, "unicodeRange") {
        Some("unicode-range")
    } else if str_eq(name, "unitsPerEm") {
        Some("units-per-em")
    } else if str_eq(name, "vAlphabetic") {
        Some("v-alphabetic")
    } else if str_eq(name, "vHanging") {
        Some("v-hanging")
    } else if str_eq(name, "vIdeographic") {
        Some("v-ideographic")
    } else if str_eq(name, "vMathematical") {
        Some("v-mathematical")
    } else if str_eq(name, "vectorEffect") {
        Some("vector-effect")
    } else if str_eq(name, "vertAdvY") {
        Some("vert-adv-y")
    } else if str_eq(name, "vertOriginX") {
        Some("vert-origin-x")
    } else if str_eq(name, "vertOriginY") {
        Some("vert-origin-y")
    } else if str_eq(name, "wordSpacing") {
        Some("word-spacing")
    } else if str_eq(name, "writingMode") {
        Some("writing-mode")
    } else if str_eq(name, "xHeight") {
        Some("x-height")
    } else if str_eq(name, "xlinkActuate") {
        Some("xlink:actuate")
    } else if str_eq(name, "xlinkArcrole") {
        Some("xlink:arcrole")
    } else if str_eq(name, "xlinkHref") {
        Some("xlink:href")
    } else if str_eq(name, "xlinkRole") {
        Some("xlink:role")
    } else if str_eq(name, "xlinkShow") {
        Some("xlink:show")
    } else if str_eq(name, "xlinkTitle") {
        Some("xlink:title")
    } else if str_eq(name, "xlinkType") {
        Some("xlink:type")
    } else if str_eq(name, "xmlnsXlink") {
        Some("xmlns:xlink")
    } else if str_eq(name, "xmlBase") {
        Some("xml:base")
    } else if str_eq(name, "xmlLang") {
        Some("xml:lang")
    } else if str_eq(name, "xmlSpace") {
        Some("xml:space")
    } else {
        None
    }
}

/// Maps a JSX attribute name to what the SVG output does with it.
pub fn map_attr(name: &str) -> (res: AttrAction)
    ensures
        res@ == attr_action(name@),
{
    if is_event_handler(name) {
        return AttrAction::Drop;
    }
    if str_eq(name, "htmlFor") {
        AttrAction::Drop
    } else if str_eq(name, "dangerouslySetInnerHTML") {
        AttrAction::DropWarn(DANGEROUS_HTML_WARNING)
    } else if str_eq(name, "ref") || str_eq(name, "key") {
        AttrAction::Drop
    } else {
        match svg_name_for(name) {
            Some(svg) => AttrAction::Use(svg.to_owned()),
            None => AttrAction::Use(name.to_owned()),
        }
    }
}

fn is_event_handler(name: &str) -> (res: bool)
    ensures
        res == is_event_handler_name(name@),
{
    if name.unicode_len() <= 2 {
        return false;
    }
    let c0 = name.get_char(0);
    let c1 = name.get_char(1);
    let c2 = name.get_char(2);
    c0 == 'o' && c1 == 'n' && 'A' <= c2 && c2 <= 'Z'
}

} // verus!
