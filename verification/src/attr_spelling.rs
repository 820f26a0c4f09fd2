//! The rule behind the table of SVG attribute spellings in
//! [`attr_map`](crate::attr_map): camelCase JSX names in kebab case, with the
//! XML namespaces written with a colon.

use vstd::prelude::*;

use crate::attr_map::{attr_action, svg_attr_name, AttrActionView};
use crate::text::starts_with;

verus! {

/// A capital letter as a hyphen and its lower case, a digit as a hyphen and the
/// digit; any other character as itself.
pub open spec fn kebab_piece(c: char) -> Seq<char> {
    if 'A' <= c && c <= 'Z' {
        seq!['-', ((c as u32) + 32) as char]
    } else if '0' <= c && c <= '9' {
        seq!['-', c]
    } else {
        seq![c]
    }
}

/// `strokeWidth` as `stroke-width`, `panose1` as `panose-1`.
pub open spec fn kebab_case(s: Seq<char>) -> Seq<char>
    decreases s.len(),
{
    if s.len() == 0 {
        Seq::empty()
    } else {
        kebab_case(s.drop_last()) + kebab_piece(s.last())
    }
}

/// The rule behind the table of SVG spellings: `className` is `class`; a name in
/// the `xlink`, `xmlns` or `xml` namespace is the namespace, a colon, and the
/// rest of the name in kebab case without its leading hyphen (`xlinkHref` is
/// `xlink:href`, `xmlnsXlink` is `xmlns:xlink`); any other name is in kebab case.
pub open spec fn svg_spelling(name: Seq<char>) -> Seq<char> {
    if name == "className"@ {
        "class"@
    } else if starts_with(name, "xlink"@) {
        "xlink:"@ + kebab_case(name.skip(5)).skip(1)
    } else if starts_with(name, "xmlns"@) {
        "xmlns:"@ + kebab_case(name.skip(5)).skip(1)
    } else if starts_with(name, "xml"@) {
        "xml:"@ + kebab_case(name.skip(3)).skip(1)
    } else {
        kebab_case(name)
    }
}

proof fn lemma_spells_class()
    ensures
        svg_spelling("className"@) == "class"@,
{
    reveal_strlit("className");
    reveal_strlit("class");
}

proof fn lemma_spells_accent_height()
    ensures
        svg_spelling("accentHeight"@) == "accent-height"@,
{
    reveal_strlit("className");
    reveal_strlit("accentHeight");
    reveal_strlit("accent-height");
    reveal_strlit("xlink");
    reveal_strlit("xmlns");
    reveal_strlit("xml");
    assert("accentHeight"@.take(5)[0] == 'a');
    assert("accentHeight"@.take(3)[0] == 'a');
    reveal_with_fuel(kebab_case, 13);
    assert(kebab_case("accentHeight"@) =~= "accent-height"@);
}

proof fn lemma_spells_alignment_baseline()
    ensures
        svg_spelling("alignmentBaseline"@) == "alignment-baseline"@,
{
    reveal_strlit("className");
    reveal_strlit("alignmentBaseline");
    reveal_strlit("alignment-baseline");
    reveal_strlit("xlink");
    reveal_strlit("xmlns");
    reveal_strlit("xml");
    assert("alignmentBaseline"@.take(5)[0] == 'a');
    assert("alignmentBaseline"@.take(3)[0] == 'a');
    reveal_with_fuel(kebab_case, 18);
    assert(kebab_case("alignmentBaseline"@) =~= "alignment-baseline"@);
}

proof fn lemma_spells_arabic_form()
    ensures
        svg_spelling("arabicForm"@) == "arabic-form"@,
{
    reveal_strlit("className");
    reveal_strlit("arabicForm");
    reveal_strlit("arabic-form");
    reveal_strlit("xlink");
    reveal_strlit("xmlns");
    reveal_strlit("xml");
    assert("arabicForm"@.take(5)[0] == 'a');
    assert("arabicForm"@.take(3)[0] == 'a');
    reveal_with_fuel(kebab_case, 11);
    assert(kebab_case("arabicForm"@) =~= "arabic-form"@);
}

proof fn lemma_spells_baseline_shift()
    ensures
        svg_spelling("baselineShift"@) == "baseline-shift"@,
{
    reveal_strlit("className");
    reveal_strlit("baselineShift");
    reveal_strlit("baseline-shift");
    reveal_strlit("xlink");
    reveal_strlit("xmlns");
    reveal_strlit("xml");
    assert("baselineShift"@.take(5)[0] == 'b');
    assert("baselineShift"@.take(3)[0] == 'b');
    reveal_with_fuel(kebab_case, 14);
    assert(kebab_case("baselineShift"@) =~= "baseline-shift"@);
}

proof fn lemma_spells_cap_height()
    ensures
        svg_spelling("capHeight"@) == "cap-height"@,
{
    reveal_strlit("className");
    reveal_strlit("capHeight");
    reveal_strlit("cap-height");
    reveal_strlit("xlink");
    reveal_strlit("xmlns");
    reveal_strlit("xml");
    assert("capHeight"@.take(5)[0] == 'c');
    assert("capHeight"@.take(3)[0] == 'c');
    reveal_with_fuel(kebab_case, 10);
    assert(kebab_case("capHeight"@) =~= "cap-height"@);
}

proof fn lemma_spells_clip_path()
    ensures
        svg_spelling("clipPath"@) == "clip-path"@,
{
    reveal_strlit("className");
    reveal_strlit("clipPath");
    reveal_strlit("clip-path");
    reveal_strlit("xlink");
    reveal_strlit("xmlns");
    reveal_strlit("xml");
    assert("clipPath"@.take(5)[0] == 'c');
    assert("clipPath"@.take(3)[0] == 'c');
    reveal_with_fuel(kebab_case, 9);
    assert(kebab_case("clipPath"@) =~= "clip-path"@);
}

proof fn lemma_spells_clip_rule()
    ensures
        svg_spelling("clipRule"@) == "clip-rule"@,
{
    reveal_strlit("className");
    reveal_strlit("clipRule");
    reveal_strlit("clip-rule");
    reveal_strlit("xlink");
    reveal_strlit("xmlns");
    reveal_strlit("xml");
    assert("clipRule"@.take(5)[0] == 'c');
    assert("clipRule"@.take(3)[0] == 'c');
    reveal_with_fuel(kebab_case, 9);
    assert(kebab_case("clipRule"@) =~= "clip-rule"@);
}

proof fn lemma_spells_color_interpolation()
    ensures
        svg_spelling("colorInterpolation"@) == "color-interpolation"@,
{
    reveal_strlit("className");
    reveal_strlit("colorInterpolation");
    reveal_strlit("color-interpolation");
    reveal_strlit("xlink");
    reveal_strlit("xmlns");
    reveal_strlit("xml");
    assert("colorInterpolation"@.take(5)[0] == 'c');
    assert("colorInterpolation"@.take(3)[0] == 'c');
    reveal_with_fuel(kebab_case, 19);
    assert(kebab_case("colorInterpolation"@) =~= "color-interpolation"@);
}

proof fn lemma_spells_color_interpolation_filters()
    ensures
        svg_spelling("colorInterpolationFilters"@) == "color-interpolation-filters"@,
{
    reveal_strlit("className");
    reveal_strlit("colorInterpolationFilters");
    reveal_strlit("color-interpolation-filters");
    reveal_strlit("xlink");
    reveal_strlit("xmlns");
    reveal_strlit("xml");
    assert("colorInterpolationFilters"@.take(5)[0] == 'c');
    assert("colorInterpolationFilters"@.take(3)[0] == 'c');
    reveal_with_fuel(kebab_case, 26);
    assert(kebab_case("colorInterpolationFilters"@) =~= "color-interpolation-filters"@);
}

proof fn lemma_spells_color_profile()
    ensures
        svg_spelling("colorProfile"@) == "color-profile"@,
{
    reveal_strlit("className");
    reveal_strlit("colorProfile");
    reveal_strlit("color-profile");
    reveal_strlit("xlink");
    reveal_strlit("xmlns");
    reveal_strlit("xml");
    assert("colorProfile"@.take(5)[0] == 'c');
    assert("colorProfile"@.take(3)[0] == 'c');
    reveal_with_fuel(kebab_case, 13);
    assert(kebab_case("colorProfile"@) =~= "color-profile"@);
}

proof fn lemma_spells_color_rendering()
    ensures
        svg_spelling("colorRendering"@) == "color-rendering"@,
{
    reveal_strlit("className");
    reveal_strlit("colorRendering");
    reveal_strlit("color-rendering");
    reveal_strlit("xlink");
    reveal_strlit("xmlns");
    reveal_strlit("xml");
    assert("colorRendering"@.take(5)[0] == 'c');
    assert("colorRendering"@.take(3)[0] == 'c');
    reveal_with_fuel(kebab_case, 15);
    assert(kebab_case("colorRendering"@) =~= "color-rendering"@);
}

proof fn lemma_spells_dominant_baseline()
    ensures
        svg_spelling("dominantBaseline"@) == "dominant-baseline"@,
{
    reveal_strlit("className");
    reveal_strlit("dominantBaseline");
    reveal_strlit("dominant-baseline");
    reveal_strlit("xlink");
    reveal_strlit("xmlns");
    reveal_strlit("xml");
    assert("dominantBaseline"@.take(5)[0] == 'd');
    assert("dominantBaseline"@.take(3)[0] == 'd');
    reveal_with_fuel(kebab_case, 17);
    assert(kebab_case("dominantBaseline"@) =~= "dominant-baseline"@);
}

proof fn lemma_spells_enable_background()
    ensures
        svg_spelling("enableBackground"@) == "enable-background"@,
{
    reveal_strlit("className");
    reveal_strlit("enableBackground");
    reveal_strlit("enable-background");
    reveal_strlit("xlink");
    reveal_strlit("xmlns");
    reveal_strlit("xml");
    assert("enableBackground"@.take(5)[0] == 'e');
    assert("enableBackground"@.take(3)[0] == 'e');
    reveal_with_fuel(kebab_case, 17);
    assert(kebab_case("enableBackground"@) =~= "enable-background"@);
}

proof fn lemma_spells_fill_opacity()
    ensures
        svg_spelling("fillOpacity"@) == "fill-opacity"@,
{
    reveal_strlit("className");
    reveal_strlit("fillOpacity");
    reveal_strlit("fill-opacity");
    reveal_strlit("xlink");
    reveal_strlit("xmlns");
    reveal_strlit("xml");
    assert("fillOpacity"@.take(5)[0] == 'f');
    assert("fillOpacity"@.take(3)[0] == 'f');
    reveal_with_fuel(kebab_case, 12);
    assert(kebab_case("fillOpacity"@) =~= "fill-opacity"@);
}

proof fn lemma_spells_fill_rule()
    ensures
        svg_spelling("fillRule"@) == "fill-rule"@,
{
    reveal_strlit("className");
    reveal_strlit("fillRule");
    reveal_strlit("fill-rule");
    reveal_strlit("xlink");
    reveal_strlit("xmlns");
    reveal_strlit("xml");
    assert("fillRule"@.take(5)[0] == 'f');
    assert("fillRule"@.take(3)[0] == 'f');
    reveal_with_fuel(kebab_case, 9);
    assert(kebab_case("fillRule"@) =~= "fill-rule"@);
}

proof fn lemma_spells_flood_color()
    ensures
        svg_spelling("floodColor"@) == "flood-color"@,
{
    reveal_strlit("className");
    reveal_strlit("floodColor");
    reveal_strlit("flood-color");
    reveal_strlit("xlink");
    reveal_strlit("xmlns");
    reveal_strlit("xml");
    assert("floodColor"@.take(5)[0] == 'f');
    assert("floodColor"@.take(3)[0] == 'f');
    reveal_with_fuel(kebab_case, 11);
    assert(kebab_case("floodColor"@) =~= "flood-color"@);
}

proof fn lemma_spells_flood_opacity()
    ensures
        svg_spelling("floodOpacity"@) == "flood-opacity"@,
{
    reveal_strlit("className");
    reveal_strlit("floodOpacity");
    reveal_strlit("flood-opacity");
    reveal_strlit("xlink");
    reveal_strlit("xmlns");
    reveal_strlit("xml");
    assert("floodOpacity"@.take(5)[0] == 'f');
    assert("floodOpacity"@.take(3)[0] == 'f');
    reveal_with_fuel(kebab_case, 13);
    assert(kebab_case("floodOpacity"@) =~= "flood-opacity"@);
}

proof fn lemma_spells_font_family()
    ensures
        svg_spelling("fontFamily"@) == "font-family"@,
{
    reveal_strlit("className");
    reveal_strlit("fontFamily");
    reveal_strlit("font-family");
    reveal_strlit("xlink");
    reveal_strlit("xmlns");
    reveal_strlit("xml");
    assert("fontFamily"@.take(5)[0] == 'f');
    assert("fontFamily"@.take(3)[0] == 'f');
    reveal_with_fuel(kebab_case, 11);
    assert(kebab_case("fontFamily"@) =~= "font-family"@);
}

proof fn lemma_spells_font_size()
    ensures
        svg_spelling("fontSize"@) == "font-size"@,
{
    reveal_strlit("className");
    reveal_strlit("fontSize");
    reveal_strlit("font-size");
    reveal_strlit("xlink");
    reveal_strlit("xmlns");
    reveal_strlit("xml");
    assert("fontSize"@.take(5)[0] == 'f');
    assert("fontSize"@.take(3)[0] == 'f');
    reveal_with_fuel(kebab_case, 9);
    assert(kebab_case("fontSize"@) =~= "font-size"@);
}

proof fn lemma_spells_font_size_adjust()
    ensures
        svg_spelling("fontSizeAdjust"@) == "font-size-adjust"@,
{
    reveal_strlit("className");
    reveal_strlit("fontSizeAdjust");
    reveal_strlit("font-size-adjust");
    reveal_strlit("xlink");
    reveal_strlit("xmlns");
    reveal_strlit("xml");
    assert("fontSizeAdjust"@.take(5)[0] == 'f');
    assert("fontSizeAdjust"@.take(3)[0] == 'f');
    reveal_with_fuel(kebab_case, 15);
    assert(kebab_case("fontSizeAdjust"@) =~= "font-size-adjust"@);
}

proof fn lemma_spells_font_stretch()
    ensures
        svg_spelling("fontStretch"@) == "font-stretch"@,
{
    reveal_strlit("className");
    reveal_strlit("fontStretch");
    reveal_strlit("font-stretch");
    reveal_strlit("xlink");
    reveal_strlit("xmlns");
    reveal_strlit("xml");
    assert("fontStretch"@.take(5)[0] == 'f');
    assert("fontStretch"@.take(3)[0] == 'f');
    reveal_with_fuel(kebab_case, 12);
    assert(kebab_case("fontStretch"@) =~= "font-stretch"@);
}

proof fn lemma_spells_font_style()
    ensures
        svg_spelling("fontStyle"@) == "font-style"@,
{
    reveal_strlit("className");
    reveal_strlit("fontStyle");
    reveal_strlit("font-style");
    reveal_strlit("xlink");
    reveal_strlit("xmlns");
    reveal_strlit("xml");
    assert("fontStyle"@.take(5)[0] == 'f');
    assert("fontStyle"@.take(3)[0] == 'f');
    reveal_with_fuel(kebab_case, 10);
    assert(kebab_case("fontStyle"@) =~= "font-style"@);
}

proof fn lemma_spells_font_variant()
    ensures
        svg_spelling("fontVariant"@) == "font-variant"@,
{
    reveal_strlit("className");
    reveal_strlit("fontVariant");
    reveal_strlit("font-variant");
    reveal_strlit("xlink");
    reveal_strlit("xmlns");
    reveal_strlit("xml");
    assert("fontVariant"@.take(5)[0] == 'f');
    assert("fontVariant"@.take(3)[0] == 'f');
    reveal_with_fuel(kebab_case, 12);
    assert(kebab_case("fontVariant"@) =~= "font-variant"@);
}

proof fn lemma_spells_font_weight()
    ensures
        svg_spelling("fontWeight"@) == "font-weight"@,
{
    reveal_strlit("className");
    reveal_strlit("fontWeight");
    reveal_strlit("font-weight");
    reveal_strlit("xlink");
    reveal_strlit("xmlns");
    reveal_strlit("xml");
    assert("fontWeight"@.take(5)[0] == 'f');
    assert("fontWeight"@.take(3)[0] == 'f');
    reveal_with_fuel(kebab_case, 11);
    assert(kebab_case("fontWeight"@) =~= "font-weight"@);
}

proof fn lemma_spells_glyph_name()
    ensures
        svg_spelling("glyphName"@) == "glyph-name"@,
{
    reveal_strlit("className");
    reveal_strlit("glyphName");
    reveal_strlit("glyph-name");
    reveal_strlit("xlink");
    reveal_strlit("xmlns");
    reveal_strlit("xml");
    assert("glyphName"@.take(5)[0] == 'g');
    assert("glyphName"@.take(3)[0] == 'g');
    reveal_with_fuel(kebab_case, 10);
    assert(kebab_case("glyphName"@) =~= "glyph-name"@);
}

proof fn lemma_spells_glyph_orientation_horizontal()
    ensures
        svg_spelling("glyphOrientationHorizontal"@) == "glyph-orientation-horizontal"@,
{
    reveal_strlit("className");
    reveal_strlit("glyphOrientationHorizontal");
    reveal_strlit("glyph-orientation-horizontal");
    reveal_strlit("xlink");
    reveal_strlit("xmlns");
    reveal_strlit("xml");
    assert("glyphOrientationHorizontal"@.take(5)[0] == 'g');
    assert("glyphOrientationHorizontal"@.take(3)[0] == 'g');
    reveal_with_fuel(kebab_case, 27);
    assert(kebab_case("glyphOrientationHorizontal"@) =~= "glyph-orientation-horizontal"@);
}

proof fn lemma_spells_glyph_orientation_vertical()
    ensures
        svg_spelling("glyphOrientationVertical"@) == "glyph-orientation-vertical"@,
{
    reveal_strlit("className");
    reveal_strlit("glyphOrientationVertical");
    reveal_strlit("glyph-orientation-vertical");
    reveal_strlit("xlink");
    reveal_strlit("xmlns");
    reveal_strlit("xml");
    assert("glyphOrientationVertical"@.take(5)[0] == 'g');
    assert("glyphOrientationVertical"@.take(3)[0] == 'g');
    reveal_with_fuel(kebab_case, 25);
    assert(kebab_case("glyphOrientationVertical"@) =~= "glyph-orientation-vertical"@);
}

proof fn lemma_spells_horiz_adv_x()
    ensures
        svg_spelling("horizAdvX"@) == "horiz-adv-x"@,
{
    reveal_strlit("className");
    reveal_strlit("horizAdvX");
    reveal_strlit("horiz-adv-x");
    reveal_strlit("xlink");
    reveal_strlit("xmlns");
    reveal_strlit("xml");
    assert("horizAdvX"@.take(5)[0] == 'h');
    assert("horizAdvX"@.take(3)[0] == 'h');
    reveal_with_fuel(kebab_case, 10);
    assert(kebab_case("horizAdvX"@) =~= "horiz-adv-x"@);
}

proof fn lemma_spells_horiz_origin_x()
    ensures
        svg_spelling("horizOriginX"@) == "horiz-origin-x"@,
{
    reveal_strlit("className");
    reveal_strlit("horizOriginX");
    reveal_strlit("horiz-origin-x");
    reveal_strlit("xlink");
    reveal_strlit("xmlns");
    reveal_strlit("xml");
    assert("horizOriginX"@.take(5)[0] == 'h');
    assert("horizOriginX"@.take(3)[0] == 'h');
    reveal_with_fuel(kebab_case, 13);
    assert(kebab_case("horizOriginX"@) =~= "horiz-origin-x"@);
}

proof fn lemma_spells_image_rendering()
    ensures
        svg_spelling("imageRendering"@) == "image-rendering"@,
{
    reveal_strlit("className");
    reveal_strlit("imageRendering");
    reveal_strlit("image-rendering");
    reveal_strlit("xlink");
    reveal_strlit("xmlns");
    reveal_strlit("xml");
    assert("imageRendering"@.take(5)[0] == 'i');
    assert("imageRendering"@.take(3)[0] == 'i');
    reveal_with_fuel(kebab_case, 15);
    assert(kebab_case("imageRendering"@) =~= "image-rendering"@);
}

proof fn lemma_spells_letter_spacing()
    ensures
        svg_spelling("letterSpacing"@) == "letter-spacing"@,
{
    reveal_strlit("className");
    reveal_strlit("letterSpacing");
    reveal_strlit("letter-spacing");
    reveal_strlit("xlink");
    reveal_strlit("xmlns");
    reveal_strlit("xml");
    assert("letterSpacing"@.take(5)[0] == 'l');
    assert("letterSpacing"@.take(3)[0] == 'l');
    reveal_with_fuel(kebab_case, 14);
    assert(kebab_case("letterSpacing"@) =~= "letter-spacing"@);
}

proof fn lemma_spells_lighting_color()
    ensures
        svg_spelling("lightingColor"@) == "lighting-color"@,
{
    reveal_strlit("className");
    reveal_strlit("lightingColor");
    reveal_strlit("lighting-color");
    reveal_strlit("xlink");
    reveal_strlit("xmlns");
    reveal_strlit("xml");
    assert("lightingColor"@.take(5)[0] == 'l');
    assert("lightingColor"@.take(3)[0] == 'l');
    reveal_with_fuel(kebab_case, 14);
    assert(kebab_case("lightingColor"@) =~= "lighting-color"@);
}

proof fn lemma_spells_marker_end()
    ensures
        svg_spelling("markerEnd"@) == "marker-end"@,
{
    reveal_strlit("className");
    reveal_strlit("markerEnd");
    reveal_strlit("marker-end");
    reveal_strlit("xlink");
    reveal_strlit("xmlns");
    reveal_strlit("xml");
    assert("markerEnd"@.take(5)[0] == 'm');
    assert("markerEnd"@.take(3)[0] == 'm');
    reveal_with_fuel(kebab_case, 10);
    assert(kebab_case("markerEnd"@) =~= "marker-end"@);
}

proof fn lemma_spells_marker_mid()
    ensures
        svg_spelling("markerMid"@) == "marker-mid"@,
{
    reveal_strlit("className");
    reveal_strlit("markerMid");
    reveal_strlit("marker-mid");
    reveal_strlit("xlink");
    reveal_strlit("xmlns");
    reveal_strlit("xml");
    assert("markerMid"@.take(5)[0] == 'm');
    assert("markerMid"@.take(3)[0] == 'm');
    reveal_with_fuel(kebab_case, 10);
    assert(kebab_case("markerMid"@) =~= "marker-mid"@);
}

proof fn lemma_spells_marker_start()
    ensures
        svg_spelling("markerStart"@) == "marker-start"@,
{
    reveal_strlit("className");
    reveal_strlit("markerStart");
    reveal_strlit("marker-start");
    reveal_strlit("xlink");
    reveal_strlit("xmlns");
    reveal_strlit("xml");
    assert("markerStart"@.take(5)[0] == 'm');
    assert("markerStart"@.take(3)[0] == 'm');
    reveal_with_fuel(kebab_case, 12);
    assert(kebab_case("markerStart"@) =~= "marker-start"@);
}

proof fn lemma_spells_overline_position()
    ensures
        svg_spelling("overlinePosition"@) == "overline-position"@,
{
    reveal_strlit("className");
    reveal_strlit("overlinePosition");
    reveal_strlit("overline-position");
    reveal_strlit("xlink");
    reveal_strlit("xmlns");
    reveal_strlit("xml");
    assert("overlinePosition"@.take(5)[0] == 'o');
    assert("overlinePosition"@.take(3)[0] == 'o');
    reveal_with_fuel(kebab_case, 17);
    assert(kebab_case("overlinePosition"@) =~= "overline-position"@);
}

proof fn lemma_spells_overline_thickness()
    ensures
        svg_spelling("overlineThickness"@) == "overline-thickness"@,
{
    reveal_strlit("className");
    reveal_strlit("overlineThickness");
    reveal_strlit("overline-thickness");
    reveal_strlit("xlink");
    reveal_strlit("xmlns");
    reveal_strlit("xml");
    assert("overlineThickness"@.take(5)[0] == 'o');
    assert("overlineThickness"@.take(3)[0] == 'o');
    reveal_with_fuel(kebab_case, 18);
    assert(kebab_case("overlineThickness"@) =~= "overline-thickness"@);
}

proof fn lemma_spells_paint_order()
    ensures
        svg_spelling("paintOrder"@) == "paint-order"@,
{
    reveal_strlit("className");
    reveal_strlit("paintOrder");
    reveal_strlit("paint-order");
    reveal_strlit("xlink");
    reveal_strlit("xmlns");
    reveal_strlit("xml");
    assert("paintOrder"@.take(5)[0] == 'p');
    assert("paintOrder"@.take(3)[0] == 'p');
    reveal_with_fuel(kebab_case, 11);
    assert(kebab_case("paintOrder"@) =~= "paint-order"@);
}

proof fn lemma_spells_panose_1()
    ensures
        svg_spelling("panose1"@) == "panose-1"@,
{
    reveal_strlit("className");
    reveal_strlit("panose1");
    reveal_strlit("panose-1");
    reveal_strlit("xlink");
    reveal_strlit("xmlns");
    reveal_strlit("xml");
    assert("panose1"@.take(5)[0] == 'p');
    assert("panose1"@.take(3)[0] == 'p');
    reveal_with_fuel(kebab_case, 8);
    assert(kebab_case("panose1"@) =~= "panose-1"@);
}

proof fn lemma_spells_pointer_events()
    ensures
        svg_spelling("pointerEvents"@) == "pointer-events"@,
{
    reveal_strlit("className");
    reveal_strlit("pointerEvents");
    reveal_strlit("pointer-events");
    reveal_strlit("xlink");
    reveal_strlit("xmlns");
    reveal_strlit("xml");
    assert("pointerEvents"@.take(5)[0] == 'p');
    assert("pointerEvents"@.take(3)[0] == 'p');
    reveal_with_fuel(kebab_case, 14);
    assert(kebab_case("pointerEvents"@) =~= "pointer-events"@);
}

proof fn lemma_spells_rendering_intent()
    ensures
        svg_spelling("renderingIntent"@) == "rendering-intent"@,
{
    reveal_strlit("className");
    reveal_strlit("renderingIntent");
    reveal_strlit("rendering-intent");
    reveal_strlit("xlink");
    reveal_strlit("xmlns");
    reveal_strlit("xml");
    assert("renderingIntent"@.take(5)[0] == 'r');
    assert("renderingIntent"@.take(3)[0] == 'r');
    reveal_with_fuel(kebab_case, 16);
    assert(kebab_case("renderingIntent"@) =~= "rendering-intent"@);
}

proof fn lemma_spells_shape_rendering()
    ensures
        svg_spelling("shapeRendering"@) == "shape-rendering"@,
{
    reveal_strlit("className");
    reveal_strlit("shapeRendering");
    reveal_strlit("shape-rendering");
    reveal_strlit("xlink");
    reveal_strlit("xmlns");
    reveal_strlit("xml");
    assert("shapeRendering"@.take(5)[0] == 's');
    assert("shapeRendering"@.take(3)[0] == 's');
    reveal_with_fuel(kebab_case, 15);
    assert(kebab_case("shapeRendering"@) =~= "shape-rendering"@);
}

proof fn lemma_spells_stop_color()
    ensures
        svg_spelling("stopColor"@) == "stop-color"@,
{
    reveal_strlit("className");
    reveal_strlit("stopColor");
    reveal_strlit("stop-color");
    reveal_strlit("xlink");
    reveal_strlit("xmlns");
    reveal_strlit("xml");
    assert("stopColor"@.take(5)[0] == 's');
    assert("stopColor"@.take(3)[0] == 's');
    reveal_with_fuel(kebab_case, 10);
    assert(kebab_case("stopColor"@) =~= "stop-color"@);
}

proof fn lemma_spells_stop_opacity()
    ensures
        svg_spelling("stopOpacity"@) == "stop-opacity"@,
{
    reveal_strlit("className");
    reveal_strlit("stopOpacity");
    reveal_strlit("stop-opacity");
    reveal_strlit("xlink");
    reveal_strlit("xmlns");
    reveal_strlit("xml");
    assert("stopOpacity"@.take(5)[0] == 's');
    assert("stopOpacity"@.take(3)[0] == 's');
    reveal_with_fuel(kebab_case, 12);
    assert(kebab_case("stopOpacity"@) =~= "stop-opacity"@);
}

proof fn lemma_spells_strikethrough_position()
    ensures
        svg_spelling("strikethroughPosition"@) == "strikethrough-position"@,
{
    reveal_strlit("className");
    reveal_strlit("strikethroughPosition");
    reveal_strlit("strikethrough-position");
    reveal_strlit("xlink");
    reveal_strlit("xmlns");
    reveal_strlit("xml");
    assert("strikethroughPosition"@.take(5)[0] == 's');
    assert("strikethroughPosition"@.take(3)[0] == 's');
    reveal_with_fuel(kebab_case, 22);
    assert(kebab_case("strikethroughPosition"@) =~= "strikethrough-position"@);
}

proof fn lemma_spells_strikethrough_thickness()
    ensures
        svg_spelling("strikethroughThickness"@) == "strikethrough-thickness"@,
{
    reveal_strlit("className");
    reveal_strlit("strikethroughThickness");
    reveal_strlit("strikethrough-thickness");
    reveal_strlit("xlink");
    reveal_strlit("xmlns");
    reveal_strlit("xml");
    assert("strikethroughThickness"@.take(5)[0] == 's');
    assert("strikethroughThickness"@.take(3)[0] == 's');
    reveal_with_fuel(kebab_case, 23);
    assert(kebab_case("strikethroughThickness"@) =~= "strikethrough-thickness"@);
}

proof fn lemma_spells_stroke_dasharray()
    ensures
        svg_spelling("strokeDasharray"@) == "stroke-dasharray"@,
{
    reveal_strlit("className");
    reveal_strlit("strokeDasharray");
    reveal_strlit("stroke-dasharray");
    reveal_strlit("xlink");
    reveal_strlit("xmlns");
    reveal_strlit("xml");
    assert("strokeDasharray"@.take(5)[0] == 's');
    assert("strokeDasharray"@.take(3)[0] == 's');
    reveal_with_fuel(kebab_case, 16);
    assert(kebab_case("strokeDasharray"@) =~= "stroke-dasharray"@);
}

proof fn lemma_spells_stroke_dashoffset()
    ensures
        svg_spelling("strokeDashoffset"@) == "stroke-dashoffset"@,
{
    reveal_strlit("className");
    reveal_strlit("strokeDashoffset");
    reveal_strlit("stroke-dashoffset");
    reveal_strlit("xlink");
    reveal_strlit("xmlns");
    reveal_strlit("xml");
    assert("strokeDashoffset"@.take(5)[0] == 's');
    assert("strokeDashoffset"@.take(3)[0] == 's');
    reveal_with_fuel(kebab_case, 17);
    assert(kebab_case("strokeDashoffset"@) =~= "stroke-dashoffset"@);
}

proof fn lemma_spells_stroke_linecap()
    ensures
        svg_spelling("strokeLinecap"@) == "stroke-linecap"@,
{
    reveal_strlit("className");
    reveal_strlit("strokeLinecap");
    reveal_strlit("stroke-linecap");
    reveal_strlit("xlink");
    reveal_strlit("xmlns");
    reveal_strlit("xml");
    assert("strokeLinecap"@.take(5)[0] == 's');
    assert("strokeLinecap"@.take(3)[0] == 's');
    reveal_with_fuel(kebab_case, 14);
    assert(kebab_case("strokeLinecap"@) =~= "stroke-linecap"@);
}

proof fn lemma_spells_stroke_linejoin()
    ensures
        svg_spelling("strokeLinejoin"@) == "stroke-linejoin"@,
{
    reveal_strlit("className");
    reveal_strlit("strokeLinejoin");
    reveal_strlit("stroke-linejoin");
    reveal_strlit("xlink");
    reveal_strlit("xmlns");
    reveal_strlit("xml");
    assert("strokeLinejoin"@.take(5)[0] == 's');
    assert("strokeLinejoin"@.take(3)[0] == 's');
    reveal_with_fuel(kebab_case, 15);
    assert(kebab_case("strokeLinejoin"@) =~= "stroke-linejoin"@);
}

proof fn lemma_spells_stroke_miterlimit()
    ensures
        svg_spelling("strokeMiterlimit"@) == "stroke-miterlimit"@,
{
    reveal_strlit("className");
    reveal_strlit("strokeMiterlimit");
    reveal_strlit("stroke-miterlimit");
    reveal_strlit("xlink");
    reveal_strlit("xmlns");
    reveal_strlit("xml");
    assert("strokeMiterlimit"@.take(5)[0] == 's');
    assert("strokeMiterlimit"@.take(3)[0] == 's');
    reveal_with_fuel(kebab_case, 17);
    assert(kebab_case("strokeMiterlimit"@) =~= "stroke-miterlimit"@);
}

proof fn lemma_spells_stroke_opacity()
    ensures
        svg_spelling("strokeOpacity"@) == "stroke-opacity"@,
{
    reveal_strlit("className");
    reveal_strlit("strokeOpacity");
    reveal_strlit("stroke-opacity");
    reveal_strlit("xlink");
    reveal_strlit("xmlns");
    reveal_strlit("xml");
    assert("strokeOpacity"@.take(5)[0] == 's');
    assert("strokeOpacity"@.take(3)[0] == 's');
    reveal_with_fuel(kebab_case, 14);
    assert(kebab_case("strokeOpacity"@) =~= "stroke-opacity"@);
}

proof fn lemma_spells_stroke_width()
    ensures
        svg_spelling("strokeWidth"@) == "stroke-width"@,
{
    reveal_strlit("className");
    reveal_strlit("strokeWidth");
    reveal_strlit("stroke-width");
    reveal_strlit("xlink");
    reveal_strlit("xmlns");
    reveal_strlit("xml");
    assert("strokeWidth"@.take(5)[0] == 's');
    assert("strokeWidth"@.take(3)[0] == 's');
    reveal_with_fuel(kebab_case, 12);
    assert(kebab_case("strokeWidth"@) =~= "stroke-width"@);
}

proof fn lemma_spells_text_anchor()
    ensures
        svg_spelling("textAnchor"@) == "text-anchor"@,
{
    reveal_strlit("className");
    reveal_strlit("textAnchor");
    reveal_strlit("text-anchor");
    reveal_strlit("xlink");
    reveal_strlit("xmlns");
    reveal_strlit("xml");
    assert("textAnchor"@.take(5)[0] == 't');
    assert("textAnchor"@.take(3)[0] == 't');
    reveal_with_fuel(kebab_case, 11);
    assert(kebab_case("textAnchor"@) =~= "text-anchor"@);
}

proof fn lemma_spells_text_decoration()
    ensures
        svg_spelling("textDecoration"@) == "text-decoration"@,
{
    reveal_strlit("className");
    reveal_strlit("textDecoration");
    reveal_strlit("text-decoration");
    reveal_strlit("xlink");
    reveal_strlit("xmlns");
    reveal_strlit("xml");
    assert("textDecoration"@.take(5)[0] == 't');
    assert("textDecoration"@.take(3)[0] == 't');
    reveal_with_fuel(kebab_case, 15);
    assert(kebab_case("textDecoration"@) =~= "text-decoration"@);
}

proof fn lemma_spells_text_rendering()
    ensures
        svg_spelling("textRendering"@) == "text-rendering"@,
{
    reveal_strlit("className");
    reveal_strlit("textRendering");
    reveal_strlit("text-rendering");
    reveal_strlit("xlink");
    reveal_strlit("xmlns");
    reveal_strlit("xml");
    assert("textRendering"@.take(5)[0] == 't');
    assert("textRendering"@.take(3)[0] == 't');
    reveal_with_fuel(kebab_case, 14);
    assert(kebab_case("textRendering"@) =~= "text-rendering"@);
}

proof fn lemma_spells_transform_origin()
    ensures
        svg_spelling("transformOrigin"@) == "transform-origin"@,
{
    reveal_strlit("className");
    reveal_strlit("transformOrigin");
    reveal_strlit("transform-origin");
    reveal_strlit("xlink");
    reveal_strlit("xmlns");
    reveal_strlit("xml");
    assert("transformOrigin"@.take(5)[0] == 't');
    assert("transformOrigin"@.take(3)[0] == 't');
    reveal_with_fuel(kebab_case, 16);
    assert(kebab_case("transformOrigin"@) =~= "transform-origin"@);
}

proof fn lemma_spells_underline_position()
    ensures
        svg_spelling("underlinePosition"@) == "underline-position"@,
{
    reveal_strlit("className");
    reveal_strlit("underlinePosition");
    reveal_strlit("underline-position");
    reveal_strlit("xlink");
    reveal_strlit("xmlns");
    reveal_strlit("xml");
    assert("underlinePosition"@.take(5)[0] == 'u');
    assert("underlinePosition"@.take(3)[0] == 'u');
    reveal_with_fuel(kebab_case, 18);
    assert(kebab_case("underlinePosition"@) =~= "underline-position"@);
}

proof fn lemma_spells_underline_thickness()
    ensures
        svg_spelling("underlineThickness"@) == "underline-thickness"@,
{
    reveal_strlit("className");
    reveal_strlit("underlineThickness");
    reveal_strlit("underline-thickness");
    reveal_strlit("xlink");
    reveal_strlit("xmlns");
    reveal_strlit("xml");
    assert("underlineThickness"@.take(5)[0] == 'u');
    assert("underlineThickness"@.take(3)[0] == 'u');
    reveal_with_fuel(kebab_case, 19);
    assert(kebab_case("underlineThickness"@) =~= "underline-thickness"@);
}

proof fn lemma_spells_unicode_bidi()
    ensures
        svg_spelling("unicodeBidi"@) == "unicode-bidi"@,
{
    reveal_strlit("className");
    reveal_strlit("unicodeBidi");
    reveal_strlit("unicode-bidi");
    reveal_strlit("xlink");
    reveal_strlit("xmlns");
    reveal_strlit("xml");
    assert("unicodeBidi"@.take(5)[0] == 'u');
    assert("unicodeBidi"@.take(3)[0] == 'u');
    reveal_with_fuel(kebab_case, 12);
    assert(kebab_case("unicodeBidi"@) =~= "unicode-bidi"@);
}

proof fn lemma_spells_unicode_range()
    ensures
        svg_spelling("unicodeRange"@) == "unicode-range"@,
{
    reveal_strlit("className");
    reveal_strlit("unicodeRange");
    reveal_strlit("unicode-range");
    reveal_strlit("xlink");
    reveal_strlit("xmlns");
    reveal_strlit("xml");
    assert("unicodeRange"@.take(5)[0] == 'u');
    assert("unicodeRange"@.take(3)[0] == 'u');
    reveal_with_fuel(kebab_case, 13);
    assert(kebab_case("unicodeRange"@) =~= "unicode-range"@);
}

proof fn lemma_spells_units_per_em()
    ensures
        svg_spelling("unitsPerEm"@) == "units-per-em"@,
{
    reveal_strlit("className");
    reveal_strlit("unitsPerEm");
    reveal_strlit("units-per-em");
    reveal_strlit("xlink");
    reveal_strlit("xmlns");
    reveal_strlit("xml");
    assert("unitsPerEm"@.take(5)[0] == 'u');
    assert("unitsPerEm"@.take(3)[0] == 'u');
    reveal_with_fuel(kebab_case, 11);
    assert(kebab_case("unitsPerEm"@) =~= "units-per-em"@);
}

proof fn lemma_spells_v_alphabetic()
    ensures
        svg_spelling("vAlphabetic"@) == "v-alphabetic"@,
{
    reveal_strlit("className");
    reveal_strlit("vAlphabetic");
    reveal_strlit("v-alphabetic");
    reveal_strlit("xlink");
    reveal_strlit("xmlns");
    reveal_strlit("xml");
    assert("vAlphabetic"@.take(5)[0] == 'v');
    assert("vAlphabetic"@.take(3)[0] == 'v');
    reveal_with_fuel(kebab_case, 12);
    assert(kebab_case("vAlphabetic"@) =~= "v-alphabetic"@);
}

proof fn lemma_spells_v_hanging()
    ensures
        svg_spelling("vHanging"@) == "v-hanging"@,
{
    reveal_strlit("className");
    reveal_strlit("vHanging");
    reveal_strlit("v-hanging");
    reveal_strlit("xlink");
    reveal_strlit("xmlns");
    reveal_strlit("xml");
    assert("vHanging"@.take(5)[0] == 'v');
    assert("vHanging"@.take(3)[0] == 'v');
    reveal_with_fuel(kebab_case, 9);
    assert(kebab_case("vHanging"@) =~= "v-hanging"@);
}

proof fn lemma_spells_v_ideographic()
    ensures
        svg_spelling("vIdeographic"@) == "v-ideographic"@,
{
    reveal_strlit("className");
    reveal_strlit("vIdeographic");
    reveal_strlit("v-ideographic");
    reveal_strlit("xlink");
    reveal_strlit("xmlns");
    reveal_strlit("xml");
    assert("vIdeographic"@.take(5)[0] == 'v');
    assert("vIdeographic"@.take(3)[0] == 'v');
    reveal_with_fuel(kebab_case, 13);
    assert(kebab_case("vIdeographic"@) =~= "v-ideographic"@);
}

proof fn lemma_spells_v_mathematical()
    ensures
        svg_spelling("vMathematical"@) == "v-mathematical"@,
{
    reveal_strlit("className");
    reveal_strlit("vMathematical");
    reveal_strlit("v-mathematical");
    reveal_strlit("xlink");
    reveal_strlit("xmlns");
    reveal_strlit("xml");
    assert("vMathematical"@.take(5)[0] == 'v');
    assert("vMathematical"@.take(3)[0] == 'v');
    reveal_with_fuel(kebab_case, 14);
    assert(kebab_case("vMathematical"@) =~= "v-mathematical"@);
}

proof fn lemma_spells_vector_effect()
    ensures
        svg_spelling("vectorEffect"@) == "vector-effect"@,
{
    reveal_strlit("className");
    reveal_strlit("vectorEffect");
    reveal_strlit("vector-effect");
    reveal_strlit("xlink");
    reveal_strlit("xmlns");
    reveal_strlit("xml");
    assert("vectorEffect"@.take(5)[0] == 'v');
    assert("vectorEffect"@.take(3)[0] == 'v');
    reveal_with_fuel(kebab_case, 13);
    assert(kebab_case("vectorEffect"@) =~= "vector-effect"@);
}

proof fn lemma_spells_vert_adv_y()
    ensures
        svg_spelling("vertAdvY"@) == "vert-adv-y"@,
{
    reveal_strlit("className");
    reveal_strlit("vertAdvY");
    reveal_strlit("vert-adv-y");
    reveal_strlit("xlink");
    reveal_strlit("xmlns");
    reveal_strlit("xml");
    assert("vertAdvY"@.take(5)[0] == 'v');
    assert("vertAdvY"@.take(3)[0] == 'v');
    reveal_with_fuel(kebab_case, 9);
    assert(kebab_case("vertAdvY"@) =~= "vert-adv-y"@);
}

proof fn lemma_spells_vert_origin_x()
    ensures
        svg_spelling("vertOriginX"@) == "vert-origin-x"@,
{
    reveal_strlit("className");
    reveal_strlit("vertOriginX");
    reveal_strlit("vert-origin-x");
    reveal_strlit("xlink");
    reveal_strlit("xmlns");
    reveal_strlit("xml");
    assert("vertOriginX"@.take(5)[0] == 'v');
    assert("vertOriginX"@.take(3)[0] == 'v');
    reveal_with_fuel(kebab_case, 12);
    assert(kebab_case("vertOriginX"@) =~= "vert-origin-x"@);
}

proof fn lemma_spells_vert_origin_y()
    ensures
        svg_spelling("vertOriginY"@) == "vert-origin-y"@,
{
    reveal_strlit("className");
    reveal_strlit("vertOriginY");
    reveal_strlit("vert-origin-y");
    reveal_strlit("xlink");
    reveal_strlit("xmlns");
    reveal_strlit("xml");
    assert("vertOriginY"@.take(5)[0] == 'v');
    assert("vertOriginY"@.take(3)[0] == 'v');
    reveal_with_fuel(kebab_case, 12);
    assert(kebab_case("vertOriginY"@) =~= "vert-origin-y"@);
}

proof fn lemma_spells_word_spacing()
    ensures
        svg_spelling("wordSpacing"@) == "word-spacing"@,
{
    reveal_strlit("className");
    reveal_strlit("wordSpacing");
    reveal_strlit("word-spacing");
    reveal_strlit("xlink");
    reveal_strlit("xmlns");
    reveal_strlit("xml");
    assert("wordSpacing"@.take(5)[0] == 'w');
    assert("wordSpacing"@.take(3)[0] == 'w');
    reveal_with_fuel(kebab_case, 12);
    assert(kebab_case("wordSpacing"@) =~= "word-spacing"@);
}

proof fn lemma_spells_writing_mode()
    ensures
        svg_spelling("writingMode"@) == "writing-mode"@,
{
    reveal_strlit("className");
    reveal_strlit("writingMode");
    reveal_strlit("writing-mode");
    reveal_strlit("xlink");
    reveal_strlit("xmlns");
    reveal_strlit("xml");
    assert("writingMode"@.take(5)[0] == 'w');
    assert("writingMode"@.take(3)[0] == 'w');
    reveal_with_fuel(kebab_case, 12);
    assert(kebab_case("writingMode"@) =~= "writing-mode"@);
}

proof fn lemma_spells_x_height()
    ensures
        svg_spelling("xHeight"@) == "x-height"@,
{
    reveal_strlit("className");
    reveal_strlit("xHeight");
    reveal_strlit("x-height");
    reveal_strlit("xlink");
    reveal_strlit("xmlns");
    reveal_strlit("xml");
    assert("xHeight"@.take(5)[1] == 'H');
    assert("xHeight"@.take(3)[1] == 'H');
    reveal_with_fuel(kebab_case, 8);
    assert(kebab_case("xHeight"@) =~= "x-height"@);
}

proof fn lemma_spells_xlink_actuate()
    ensures
        svg_spelling("xlinkActuate"@) == "xlink:actuate"@,
{
    reveal_strlit("Actuate");
    reveal_strlit("className");
    reveal_strlit("xlinkActuate");
    reveal_strlit("xlink:actuate");
    reveal_strlit("xlink");
    reveal_strlit("xlink:");
    assert("xlinkActuate"@.take(5) =~= "xlink"@);
    assert("xlinkActuate"@.skip(5) =~= "Actuate"@);
    reveal_with_fuel(kebab_case, 8);
    assert("xlink:"@ + kebab_case("Actuate"@).skip(1) =~= "xlink:actuate"@);
}

proof fn lemma_spells_xlink_arcrole()
    ensures
        svg_spelling("xlinkArcrole"@) == "xlink:arcrole"@,
{
    reveal_strlit("Arcrole");
    reveal_strlit("className");
    reveal_strlit("xlinkArcrole");
    reveal_strlit("xlink:arcrole");
    reveal_strlit("xlink");
    reveal_strlit("xlink:");
    assert("xlinkArcrole"@.take(5) =~= "xlink"@);
    assert("xlinkArcrole"@.skip(5) =~= "Arcrole"@);
    reveal_with_fuel(kebab_case, 8);
    assert("xlink:"@ + kebab_case("Arcrole"@).skip(1) =~= "xlink:arcrole"@);
}

proof fn lemma_spells_xlink_href()
    ensures
        svg_spelling("xlinkHref"@) == "xlink:href"@,
{
    reveal_strlit("Href");
    reveal_strlit("className");
    reveal_strlit("xlinkHref");
    reveal_strlit("xlink:href");
    reveal_strlit("xlink");
    reveal_strlit("xlink:");
    assert("xlinkHref"@.take(5) =~= "xlink"@);
    assert("xlinkHref"@.skip(5) =~= "Href"@);
    reveal_with_fuel(kebab_case, 5);
    assert("xlink:"@ + kebab_case("Href"@).skip(1) =~= "xlink:href"@);
}

proof fn lemma_spells_xlink_role()
    ensures
        svg_spelling("xlinkRole"@) == "xlink:role"@,
{
    reveal_strlit("Role");
    reveal_strlit("className");
    reveal_strlit("xlinkRole");
    reveal_strlit("xlink:role");
    reveal_strlit("xlink");
    reveal_strlit("xlink:");
    assert("xlinkRole"@.take(5) =~= "xlink"@);
    assert("xlinkRole"@.skip(5) =~= "Role"@);
    reveal_with_fuel(kebab_case, 5);
    assert("xlink:"@ + kebab_case("Role"@).skip(1) =~= "xlink:role"@);
}

proof fn lemma_spells_xlink_show()
    ensures
        svg_spelling("xlinkShow"@) == "xlink:show"@,
{
    reveal_strlit("Show");
    reveal_strlit("className");
    reveal_strlit("xlinkShow");
    reveal_strlit("xlink:show");
    reveal_strlit("xlink");
    reveal_strlit("xlink:");
    assert("xlinkShow"@.take(5) =~= "xlink"@);
    assert("xlinkShow"@.skip(5) =~= "Show"@);
    reveal_with_fuel(kebab_case, 5);
    assert("xlink:"@ + kebab_case("Show"@).skip(1) =~= "xlink:show"@);
}

proof fn lemma_spells_xlink_title()
    ensures
        svg_spelling("xlinkTitle"@) == "xlink:title"@,
{
    reveal_strlit("Title");
    reveal_strlit("className");
    reveal_strlit("xlinkTitle");
    reveal_strlit("xlink:title");
    reveal_strlit("xlink");
    reveal_strlit("xlink:");
    assert("xlinkTitle"@.take(5) =~= "xlink"@);
    assert("xlinkTitle"@.skip(5) =~= "Title"@);
    reveal_with_fuel(kebab_case, 6);
    assert("xlink:"@ + kebab_case("Title"@).skip(1) =~= "xlink:title"@);
}

proof fn lemma_spells_xlink_type()
    ensures
        svg_spelling("xlinkType"@) == "xlink:type"@,
{
    reveal_strlit("Type");
    reveal_strlit("className");
    reveal_strlit("xlinkType");
    reveal_strlit("xlink:type");
    reveal_strlit("xlink");
    reveal_strlit("xlink:");
    assert("xlinkType"@.take(5) =~= "xlink"@);
    assert("xlinkType"@.skip(5) =~= "Type"@);
    reveal_with_fuel(kebab_case, 5);
    assert("xlink:"@ + kebab_case("Type"@).skip(1) =~= "xlink:type"@);
}

proof fn lemma_spells_xmlns_xlink()
    ensures
        svg_spelling("xmlnsXlink"@) == "xmlns:xlink"@,
{
    reveal_strlit("Xlink");
    reveal_strlit("className");
    reveal_strlit("xmlnsXlink");
    reveal_strlit("xmlns:xlink");
    reveal_strlit("xlink");
    reveal_strlit("xmlns");
    assert("xmlnsXlink"@.take(5)[1] == 'm');
    reveal_strlit("xmlns:");
    assert("xmlnsXlink"@.take(5) =~= "xmlns"@);
    assert("xmlnsXlink"@.skip(5) =~= "Xlink"@);
    reveal_with_fuel(kebab_case, 6);
    assert("xmlns:"@ + kebab_case("Xlink"@).skip(1) =~= "xmlns:xlink"@);
}

proof fn lemma_spells_xml_base()
    ensures
        svg_spelling("xmlBase"@) == "xml:base"@,
{
    reveal_strlit("Base");
    reveal_strlit("className");
    reveal_strlit("xmlBase");
    reveal_strlit("xml:base");
    reveal_strlit("xlink");
    reveal_strlit("xmlns");
    reveal_strlit("xml");
    assert("xmlBase"@.take(5)[1] == 'm');
    assert("xmlBase"@.take(5)[3] == 'B');
    reveal_strlit("xml:");
    assert("xmlBase"@.take(3) =~= "xml"@);
    assert("xmlBase"@.skip(3) =~= "Base"@);
    reveal_with_fuel(kebab_case, 5);
    assert("xml:"@ + kebab_case("Base"@).skip(1) =~= "xml:base"@);
}

proof fn lemma_spells_xml_lang()
    ensures
        svg_spelling("xmlLang"@) == "xml:lang"@,
{
    reveal_strlit("Lang");
    reveal_strlit("className");
    reveal_strlit("xmlLang");
    reveal_strlit("xml:lang");
    reveal_strlit("xlink");
    reveal_strlit("xmlns");
    reveal_strlit("xml");
    assert("xmlLang"@.take(5)[1] == 'm');
    assert("xmlLang"@.take(5)[3] == 'L');
    reveal_strlit("xml:");
    assert("xmlLang"@.take(3) =~= "xml"@);
    assert("xmlLang"@.skip(3) =~= "Lang"@);
    reveal_with_fuel(kebab_case, 5);
    assert("xml:"@ + kebab_case("Lang"@).skip(1) =~= "xml:lang"@);
}

proof fn lemma_spells_xml_space()
    ensures
        svg_spelling("xmlSpace"@) == "xml:space"@,
{
    reveal_strlit("Space");
    reveal_strlit("className");
    reveal_strlit("xmlSpace");
    reveal_strlit("xml:space");
    reveal_strlit("xlink");
    reveal_strlit("xmlns");
    reveal_strlit("xml");
    assert("xmlSpace"@.take(5)[1] == 'm');
    assert("xmlSpace"@.take(5)[3] == 'S');
    reveal_strlit("xml:");
    assert("xmlSpace"@.take(3) =~= "xml"@);
    assert("xmlSpace"@.skip(3) =~= "Space"@);
    reveal_with_fuel(kebab_case, 6);
    assert("xml:"@ + kebab_case("Space"@).skip(1) =~= "xml:space"@);
}

/// Every SVG spelling in the table follows [`svg_spelling`]: the table is the
/// camelCase-to-kebab-case rule (with namespaces) applied to its JSX names.
pub proof fn lemma_svg_names_follow_rule(name: Seq<char>)
    ensures
        svg_attr_name(name) matches Some(n) ==> n == svg_spelling(name),
{
    lemma_spells_class();
    lemma_spells_accent_height();
    lemma_spells_alignment_baseline();
    lemma_spells_arabic_form();
    lemma_spells_baseline_shift();
    lemma_spells_cap_height();
    lemma_spells_clip_path();
    lemma_spells_clip_rule();
    lemma_spells_color_interpolation();
    lemma_spells_color_interpolation_filters();
    lemma_spells_color_profile();
    lemma_spells_color_rendering();
    lemma_spells_dominant_baseline();
    lemma_spells_enable_background();
    lemma_spells_fill_opacity();
    lemma_spells_fill_rule();
    lemma_spells_flood_color();
    lemma_spells_flood_opacity();
    lemma_spells_font_family();
    lemma_spells_font_size();
    lemma_spells_font_size_adjust();
    lemma_spells_font_stretch();
    lemma_spells_font_style();
    lemma_spells_font_variant();
    lemma_spells_font_weight();
    lemma_spells_glyph_name();
    lemma_spells_glyph_orientation_horizontal();
    lemma_spells_glyph_orientation_vertical();
    lemma_spells_horiz_adv_x();
    lemma_spells_horiz_origin_x();
    lemma_spells_image_rendering();
    lemma_spells_letter_spacing();
    lemma_spells_lighting_color();
    lemma_spells_marker_end();
    lemma_spells_marker_mid();
    lemma_spells_marker_start();
    lemma_spells_overline_position();
    lemma_spells_overline_thickness();
    lemma_spells_paint_order();
    lemma_spells_panose_1();
    lemma_spells_pointer_events();
    lemma_spells_rendering_intent();
    lemma_spells_shape_rendering();
    lemma_spells_stop_color();
    lemma_spells_stop_opacity();
    lemma_spells_strikethrough_position();
    lemma_spells_strikethrough_thickness();
    lemma_spells_stroke_dasharray();
    lemma_spells_stroke_dashoffset();
    lemma_spells_stroke_linecap();
    lemma_spells_stroke_linejoin();
    lemma_spells_stroke_miterlimit();
    lemma_spells_stroke_opacity();
    lemma_spells_stroke_width();
    lemma_spells_text_anchor();
    lemma_spells_text_decoration();
    lemma_spells_text_rendering();
    lemma_spells_transform_origin();
    lemma_spells_underline_position();
    lemma_spells_underline_thickness();
    lemma_spells_unicode_bidi();
    lemma_spells_unicode_range();
    lemma_spells_units_per_em();
    lemma_spells_v_alphabetic();
    lemma_spells_v_hanging();
    lemma_spells_v_ideographic();
    lemma_spells_v_mathematical();
    lemma_spells_vector_effect();
    lemma_spells_vert_adv_y();
    lemma_spells_vert_origin_x();
    lemma_spells_vert_origin_y();
    lemma_spells_word_spacing();
    lemma_spells_writing_mode();
    lemma_spells_x_height();
    lemma_spells_xlink_actuate();
    lemma_spells_xlink_arcrole();
    lemma_spells_xlink_href();
    lemma_spells_xlink_role();
    lemma_spells_xlink_show();
    lemma_spells_xlink_title();
    lemma_spells_xlink_type();
    lemma_spells_xmlns_xlink();
    lemma_spells_xml_base();
    lemma_spells_xml_lang();
    lemma_spells_xml_space();
}

/// The JSX names that SVG spells otherwise: presentation attributes in
/// camelCase (`strokeLinejoin`, `fillOpacity`, `clipPath`, ...), `className`, and
/// the names of the `xlink`, `xmlns` and `xml` namespaces.
pub open spec fn is_respelled_name(name: Seq<char>) -> bool {
    name == "className"@
    || name == "accentHeight"@
    || name == "alignmentBaseline"@
    || name == "arabicForm"@
    || name == "baselineShift"@
    || name == "capHeight"@
    || name == "clipPath"@
    || name == "clipRule"@
    || name == "colorInterpolation"@
    || name == "colorInterpolationFilters"@
    || name == "colorProfile"@
    || name == "colorRendering"@
    || name == "dominantBaseline"@
    || name == "enableBackground"@
    || name == "fillOpacity"@
    || name == "fillRule"@
    || name == "floodColor"@
    || name == "floodOpacity"@
    || name == "fontFamily"@
    || name == "fontSize"@
    || name == "fontSizeAdjust"@
    || name == "fontStretch"@
    || name == "fontStyle"@
    || name == "fontVariant"@
    || name == "fontWeight"@
    || name == "glyphName"@
    || name == "glyphOrientationHorizontal"@
    || name == "glyphOrientationVertical"@
    || name == "horizAdvX"@
    || name == "horizOriginX"@
    || name == "imageRendering"@
    || name == "letterSpacing"@
    || name == "lightingColor"@
    || name == "markerEnd"@
    || name == "markerMid"@
    || name == "markerStart"@
    || name == "overlinePosition"@
    || name == "overlineThickness"@
    || name == "paintOrder"@
    || name == "panose1"@
    || name == "pointerEvents"@
    || name == "renderingIntent"@
    || name == "shapeRendering"@
    || name == "stopColor"@
    || name == "stopOpacity"@
    || name == "strikethroughPosition"@
    || name == "strikethroughThickness"@
    || name == "strokeDasharray"@
    || name == "strokeDashoffset"@
    || name == "strokeLinecap"@
    || name == "strokeLinejoin"@
    || name == "strokeMiterlimit"@
    || name == "strokeOpacity"@
    || name == "strokeWidth"@
    || name == "textAnchor"@
    || name == "textDecoration"@
    || name == "textRendering"@
    || name == "transformOrigin"@
    || name == "underlinePosition"@
    || name == "underlineThickness"@
    || name == "unicodeBidi"@
    || name == "unicodeRange"@
    || name == "unitsPerEm"@
    || name == "vAlphabetic"@
    || name == "vHanging"@
    || name == "vIdeographic"@
    || name == "vMathematical"@
    || name == "vectorEffect"@
    || name == "vertAdvY"@
    || name == "vertOriginX"@
    || name == "vertOriginY"@
    || name == "wordSpacing"@
    || name == "writingMode"@
    || name == "xHeight"@
    || name == "xlinkActuate"@
    || name == "xlinkArcrole"@
    || name == "xlinkHref"@
    || name == "xlinkRole"@
    || name == "xlinkShow"@
    || name == "xlinkTitle"@
    || name == "xlinkType"@
    || name == "xmlnsXlink"@
    || name == "xmlBase"@
    || name == "xmlLang"@
    || name == "xmlSpace"@
}

proof fn lemma_table_has_class()
    ensures
        attr_action("className"@) == AttrActionView::Use("class"@),
{
    reveal_strlit("className");
    assert("className"@.len() == 9);
    reveal_strlit("class");
    reveal_strlit("htmlFor");
    assert("htmlFor"@.len() == 7);
    reveal_strlit("dangerouslySetInnerHTML");
    assert("dangerouslySetInnerHTML"@.len() == 23);
    reveal_strlit("ref");
    assert("ref"@.len() == 3);
    reveal_strlit("key");
    assert("key"@.len() == 3);
    assert("className"@[0] == 'c' && "className"@[1] == 'l');
}

proof fn lemma_table_has_accent_height()
    ensures
        attr_action("accentHeight"@) == AttrActionView::Use("accent-height"@),
{
    reveal_strlit("accentHeight");
    assert("accentHeight"@.len() == 12);
    reveal_strlit("accent-height");
    reveal_strlit("className");
    assert("className"@.len() == 9);
    reveal_strlit("htmlFor");
    assert("htmlFor"@.len() == 7);
    reveal_strlit("dangerouslySetInnerHTML");
    assert("dangerouslySetInnerHTML"@.len() == 23);
    reveal_strlit("ref");
    assert("ref"@.len() == 3);
    reveal_strlit("key");
    assert("key"@.len() == 3);
    assert("accentHeight"@[0] == 'a' && "accentHeight"@[1] == 'c');
}

proof fn lemma_table_has_alignment_baseline()
    ensures
        attr_action("alignmentBaseline"@) == AttrActionView::Use("alignment-baseline"@),
{
    reveal_strlit("alignmentBaseline");
    assert("alignmentBaseline"@.len() == 17);
    reveal_strlit("alignment-baseline");
    reveal_strlit("className");
    assert("className"@.len() == 9);
    reveal_strlit("accentHeight");
    assert("accentHeight"@.len() == 12);
    reveal_strlit("htmlFor");
    assert("htmlFor"@.len() == 7);
    reveal_strlit("dangerouslySetInnerHTML");
    assert("dangerouslySetInnerHTML"@.len() == 23);
    reveal_strlit("ref");
    assert("ref"@.len() == 3);
    reveal_strlit("key");
    assert("key"@.len() == 3);
    assert("alignmentBaseline"@[0] == 'a' && "alignmentBaseline"@[1] == 'l');
}

proof fn lemma_table_has_arabic_form()
    ensures
        attr_action("arabicForm"@) == AttrActionView::Use("arabic-form"@),
{
    reveal_strlit("arabicForm");
    assert("arabicForm"@.len() == 10);
    reveal_strlit("arabic-form");
    reveal_strlit("className");
    assert("className"@.len() == 9);
    reveal_strlit("accentHeight");
    assert("accentHeight"@.len() == 12);
    reveal_strlit("alignmentBaseline");
    assert("alignmentBaseline"@.len() == 17);
    reveal_strlit("htmlFor");
    assert("htmlFor"@.len() == 7);
    reveal_strlit("dangerouslySetInnerHTML");
    assert("dangerouslySetInnerHTML"@.len() == 23);
    reveal_strlit("ref");
    assert("ref"@.len() == 3);
    reveal_strlit("key");
    assert("key"@.len() == 3);
    assert("arabicForm"@[0] == 'a' && "arabicForm"@[1] == 'r');
}

proof fn lemma_table_has_baseline_shift()
    ensures
        attr_action("baselineShift"@) == AttrActionView::Use("baseline-shift"@),
{
    reveal_strlit("baselineShift");
    assert("baselineShift"@.len() == 13);
    reveal_strlit("baseline-shift");
    reveal_strlit("className");
    assert("className"@.len() == 9);
    reveal_strlit("accentHeight");
    assert("accentHeight"@.len() == 12);
    reveal_strlit("alignmentBaseline");
    assert("alignmentBaseline"@.len() == 17);
    reveal_strlit("arabicForm");
    assert("arabicForm"@.len() == 10);
    reveal_strlit("htmlFor");
    assert("htmlFor"@.len() == 7);
    reveal_strlit("dangerouslySetInnerHTML");
    assert("dangerouslySetInnerHTML"@.len() == 23);
    reveal_strlit("ref");
    assert("ref"@.len() == 3);
    reveal_strlit("key");
    assert("key"@.len() == 3);
    assert("baselineShift"@[0] == 'b' && "baselineShift"@[1] == 'a');
}

proof fn lemma_table_has_cap_height()
    ensures
        attr_action("capHeight"@) == AttrActionView::Use("cap-height"@),
{
    reveal_strlit("capHeight");
    assert("capHeight"@.len() == 9);
    reveal_strlit("cap-height");
    reveal_strlit("className");
    assert("className"@[1] != "capHeight"@[1]);
    reveal_strlit("accentHeight");
    assert("accentHeight"@.len() == 12);
    reveal_strlit("alignmentBaseline");
    assert("alignmentBaseline"@.len() == 17);
    reveal_strlit("arabicForm");
    assert("arabicForm"@.len() == 10);
    reveal_strlit("baselineShift");
    assert("baselineShift"@.len() == 13);
    reveal_strlit("htmlFor");
    assert("htmlFor"@.len() == 7);
    reveal_strlit("dangerouslySetInnerHTML");
    assert("dangerouslySetInnerHTML"@.len() == 23);
    reveal_strlit("ref");
    assert("ref"@.len() == 3);
    reveal_strlit("key");
    assert("key"@.len() == 3);
    assert("capHeight"@[0] == 'c' && "capHeight"@[1] == 'a');
}

proof fn lemma_table_has_clip_path()
    ensures
        attr_action("clipPath"@) == AttrActionView::Use("clip-path"@),
{
    reveal_strlit("clipPath");
    assert("clipPath"@.len() == 8);
    reveal_strlit("clip-path");
    reveal_strlit("className");
    assert("className"@.len() == 9);
    reveal_strlit("accentHeight");
    assert("accentHeight"@.len() == 12);
    reveal_strlit("alignmentBaseline");
    assert("alignmentBaseline"@.len() == 17);
    reveal_strlit("arabicForm");
    assert("arabicForm"@.len() == 10);
    reveal_strlit("baselineShift");
    assert("baselineShift"@.len() == 13);
    reveal_strlit("capHeight");
    assert("capHeight"@.len() == 9);
    reveal_strlit("htmlFor");
    assert("htmlFor"@.len() == 7);
    reveal_strlit("dangerouslySetInnerHTML");
    assert("dangerouslySetInnerHTML"@.len() == 23);
    reveal_strlit("ref");
    assert("ref"@.len() == 3);
    reveal_strlit("key");
    assert("key"@.len() == 3);
    assert("clipPath"@[0] == 'c' && "clipPath"@[1] == 'l');
}

proof fn lemma_table_has_clip_rule()
    ensures
        attr_action("clipRule"@) == AttrActionView::Use("clip-rule"@),
{
    reveal_strlit("clipRule");
    assert("clipRule"@.len() == 8);
    reveal_strlit("clip-rule");
    reveal_strlit("className");
    assert("className"@.len() == 9);
    reveal_strlit("accentHeight");
    assert("accentHeight"@.len() == 12);
    reveal_strlit("alignmentBaseline");
    assert("alignmentBaseline"@.len() == 17);
    reveal_strlit("arabicForm");
    assert("arabicForm"@.len() == 10);
    reveal_strlit("baselineShift");
    assert("baselineShift"@.len() == 13);
    reveal_strlit("capHeight");
    assert("capHeight"@.len() == 9);
    reveal_strlit("clipPath");
    assert("clipPath"@[4] != "clipRule"@[4]);
    reveal_strlit("htmlFor");
    assert("htmlFor"@.len() == 7);
    reveal_strlit("dangerouslySetInnerHTML");
    assert("dangerouslySetInnerHTML"@.len() == 23);
    reveal_strlit("ref");
    assert("ref"@.len() == 3);
    reveal_strlit("key");
    assert("key"@.len() == 3);
    assert("clipRule"@[0] == 'c' && "clipRule"@[1] == 'l');
}

proof fn lemma_table_has_color_interpolation()
    ensures
        attr_action("colorInterpolation"@) == AttrActionView::Use("color-interpolation"@),
{
    reveal_strlit("colorInterpolation");
    assert("colorInterpolation"@.len() == 18);
    reveal_strlit("color-interpolation");
    reveal_strlit("className");
    assert("className"@.len() == 9);
    reveal_strlit("accentHeight");
    assert("accentHeight"@.len() == 12);
    reveal_strlit("alignmentBaseline");
    assert("alignmentBaseline"@.len() == 17);
    reveal_strlit("arabicForm");
    assert("arabicForm"@.len() == 10);
    reveal_strlit("baselineShift");
    assert("baselineShift"@.len() == 13);
    reveal_strlit("capHeight");
    assert("capHeight"@.len() == 9);
    reveal_strlit("clipPath");
    assert("clipPath"@.len() == 8);
    reveal_strlit("clipRule");
    assert("clipRule"@.len() == 8);
    reveal_strlit("htmlFor");
    assert("htmlFor"@.len() == 7);
    reveal_strlit("dangerouslySetInnerHTML");
    assert("dangerouslySetInnerHTML"@.len() == 23);
    reveal_strlit("ref");
    assert("ref"@.len() == 3);
    reveal_strlit("key");
    assert("key"@.len() == 3);
    assert("colorInterpolation"@[0] == 'c' && "colorInterpolation"@[1] == 'o');
}

proof fn lemma_table_has_color_interpolation_filters()
    ensures
        attr_action("colorInterpolationFilters"@) == AttrActionView::Use("color-interpolation-filters"@),
{
    reveal_strlit("colorInterpolationFilters");
    assert("colorInterpolationFilters"@.len() == 25);
    reveal_strlit("color-interpolation-filters");
    reveal_strlit("className");
    assert("className"@.len() == 9);
    reveal_strlit("accentHeight");
    assert("accentHeight"@.len() == 12);
    reveal_strlit("alignmentBaseline");
    assert("alignmentBaseline"@.len() == 17);
    reveal_strlit("arabicForm");
    assert("arabicForm"@.len() == 10);
    reveal_strlit("baselineShift");
    assert("baselineShift"@.len() == 13);
    reveal_strlit("capHeight");
    assert("capHeight"@.len() == 9);
    reveal_strlit("clipPath");
    assert("clipPath"@.len() == 8);
    reveal_strlit("clipRule");
    assert("clipRule"@.len() == 8);
    reveal_strlit("colorInterpolation");
    assert("colorInterpolation"@.len() == 18);
    reveal_strlit("htmlFor");
    assert("htmlFor"@.len() == 7);
    reveal_strlit("dangerouslySetInnerHTML");
    assert("dangerouslySetInnerHTML"@.len() == 23);
    reveal_strlit("ref");
    assert("ref"@.len() == 3);
    reveal_strlit("key");
    assert("key"@.len() == 3);
    assert("colorInterpolationFilters"@[0] == 'c' && "colorInterpolationFilters"@[1] == 'o');
}

proof fn lemma_table_has_color_profile()
    ensures
        attr_action("colorProfile"@) == AttrActionView::Use("color-profile"@),
{
    reveal_strlit("colorProfile");
    assert("colorProfile"@.len() == 12);
    reveal_strlit("color-profile");
    reveal_strlit("className");
    assert("className"@.len() == 9);
    reveal_strlit("accentHeight");
    assert("accentHeight"@[0] != "colorProfile"@[0]);
    reveal_strlit("alignmentBaseline");
    assert("alignmentBaseline"@.len() == 17);
    reveal_strlit("arabicForm");
    assert("arabicForm"@.len() == 10);
    reveal_strlit("baselineShift");
    assert("baselineShift"@.len() == 13);
    reveal_strlit("capHeight");
    assert("capHeight"@.len() == 9);
    reveal_strlit("clipPath");
    assert("clipPath"@.len() == 8);
    reveal_strlit("clipRule");
    assert("clipRule"@.len() == 8);
    reveal_strlit("colorInterpolation");
    assert("colorInterpolation"@.len() == 18);
    reveal_strlit("colorInterpolationFilters");
    assert("colorInterpolationFilters"@.len() == 25);
    reveal_strlit("htmlFor");
    assert("htmlFor"@.len() == 7);
    reveal_strlit("dangerouslySetInnerHTML");
    assert("dangerouslySetInnerHTML"@.len() == 23);
    reveal_strlit("ref");
    assert("ref"@.len() == 3);
    reveal_strlit("key");
    assert("key"@.len() == 3);
    assert("colorProfile"@[0] == 'c' && "colorProfile"@[1] == 'o');
}

proof fn lemma_table_has_color_rendering()
    ensures
        attr_action("colorRendering"@) == AttrActionView::Use("color-rendering"@),
{
    reveal_strlit("colorRendering");
    assert("colorRendering"@.len() == 14);
    reveal_strlit("color-rendering");
    reveal_strlit("className");
    assert("className"@.len() == 9);
    reveal_strlit("accentHeight");
    assert("accentHeight"@.len() == 12);
    reveal_strlit("alignmentBaseline");
    assert("alignmentBaseline"@.len() == 17);
    reveal_strlit("arabicForm");
    assert("arabicForm"@.len() == 10);
    reveal_strlit("baselineShift");
    assert("baselineShift"@.len() == 13);
    reveal_strlit("capHeight");
    assert("capHeight"@.len() == 9);
    reveal_strlit("clipPath");
    assert("clipPath"@.len() == 8);
    reveal_strlit("clipRule");
    assert("clipRule"@.len() == 8);
    reveal_strlit("colorInterpolation");
    assert("colorInterpolation"@.len() == 18);
    reveal_strlit("colorInterpolationFilters");
    assert("colorInterpolationFilters"@.len() == 25);
    reveal_strlit("colorProfile");
    assert("colorProfile"@.len() == 12);
    reveal_strlit("htmlFor");
    assert("htmlFor"@.len() == 7);
    reveal_strlit("dangerouslySetInnerHTML");
    assert("dangerouslySetInnerHTML"@.len() == 23);
    reveal_strlit("ref");
    assert("ref"@.len() == 3);
    reveal_strlit("key");
    assert("key"@.len() == 3);
    assert("colorRendering"@[0] == 'c' && "colorRendering"@[1] == 'o');
}

proof fn lemma_table_has_dominant_baseline()
    ensures
        attr_action("dominantBaseline"@) == AttrActionView::Use("dominant-baseline"@),
{
    reveal_strlit("dominantBaseline");
    assert("dominantBaseline"@.len() == 16);
    reveal_strlit("dominant-baseline");
    reveal_strlit("className");
    assert("className"@.len() == 9);
    reveal_strlit("accentHeight");
    assert("accentHeight"@.len() == 12);
    reveal_strlit("alignmentBaseline");
    assert("alignmentBaseline"@.len() == 17);
    reveal_strlit("arabicForm");
    assert("arabicForm"@.len() == 10);
    reveal_strlit("baselineShift");
    assert("baselineShift"@.len() == 13);
    reveal_strlit("capHeight");
    assert("capHeight"@.len() == 9);
    reveal_strlit("clipPath");
    assert("clipPath"@.len() == 8);
    reveal_strlit("clipRule");
    assert("clipRule"@.len() == 8);
    reveal_strlit("colorInterpolation");
    assert("colorInterpolation"@.len() == 18);
    reveal_strlit("colorInterpolationFilters");
    assert("colorInterpolationFilters"@.len() == 25);
    reveal_strlit("colorProfile");
    assert("colorProfile"@.len() == 12);
    reveal_strlit("colorRendering");
    assert("colorRendering"@.len() == 14);
    reveal_strlit("htmlFor");
    assert("htmlFor"@.len() == 7);
    reveal_strlit("dangerouslySetInnerHTML");
    assert("dangerouslySetInnerHTML"@.len() == 23);
    reveal_strlit("ref");
    assert("ref"@.len() == 3);
    reveal_strlit("key");
    assert("key"@.len() == 3);
    assert("dominantBaseline"@[0] == 'd' && "dominantBaseline"@[1] == 'o');
}

proof fn lemma_table_has_enable_background()
    ensures
        attr_action("enableBackground"@) == AttrActionView::Use("enable-background"@),
{
    reveal_strlit("enableBackground");
    assert("enableBackground"@.len() == 16);
    reveal_strlit("enable-background");
    reveal_strlit("className");
    assert("className"@.len() == 9);
    reveal_strlit("accentHeight");
    assert("accentHeight"@.len() == 12);
    reveal_strlit("alignmentBaseline");
    assert("alignmentBaseline"@.len() == 17);
    reveal_strlit("arabicForm");
    assert("arabicForm"@.len() == 10);
    reveal_strlit("baselineShift");
    assert("baselineShift"@.len() == 13);
    reveal_strlit("capHeight");
    assert("capHeight"@.len() == 9);
    reveal_strlit("clipPath");
    assert("clipPath"@.len() == 8);
    reveal_strlit("clipRule");
    assert("clipRule"@.len() == 8);
    reveal_strlit("colorInterpolation");
    assert("colorInterpolation"@.len() == 18);
    reveal_strlit("colorInterpolationFilters");
    assert("colorInterpolationFilters"@.len() == 25);
    reveal_strlit("colorProfile");
    assert("colorProfile"@.len() == 12);
    reveal_strlit("colorRendering");
    assert("colorRendering"@.len() == 14);
    reveal_strlit("dominantBaseline");
    assert("dominantBaseline"@[0] != "enableBackground"@[0]);
    reveal_strlit("htmlFor");
    assert("htmlFor"@.len() == 7);
    reveal_strlit("dangerouslySetInnerHTML");
    assert("dangerouslySetInnerHTML"@.len() == 23);
    reveal_strlit("ref");
    assert("ref"@.len() == 3);
    reveal_strlit("key");
    assert("key"@.len() == 3);
    assert("enableBackground"@[0] == 'e' && "enableBackground"@[1] == 'n');
}

proof fn lemma_table_has_fill_opacity()
    ensures
        attr_action("fillOpacity"@) == AttrActionView::Use("fill-opacity"@),
{
    reveal_strlit("fillOpacity");
    assert("fillOpacity"@.len() == 11);
    reveal_strlit("fill-opacity");
    reveal_strlit("className");
    assert("className"@.len() == 9);
    reveal_strlit("accentHeight");
    assert("accentHeight"@.len() == 12);
    reveal_strlit("alignmentBaseline");
    assert("alignmentBaseline"@.len() == 17);
    reveal_strlit("arabicForm");
    assert("arabicForm"@.len() == 10);
    reveal_strlit("baselineShift");
    assert("baselineShift"@.len() == 13);
    reveal_strlit("capHeight");
    assert("capHeight"@.len() == 9);
    reveal_strlit("clipPath");
    assert("clipPath"@.len() == 8);
    reveal_strlit("clipRule");
    assert("clipRule"@.len() == 8);
    reveal_strlit("colorInterpolation");
    assert("colorInterpolation"@.len() == 18);
    reveal_strlit("colorInterpolationFilters");
    assert("colorInterpolationFilters"@.len() == 25);
    reveal_strlit("colorProfile");
    assert("colorProfile"@.len() == 12);
    reveal_strlit("colorRendering");
    assert("colorRendering"@.len() == 14);
    reveal_strlit("dominantBaseline");
    assert("dominantBaseline"@.len() == 16);
    reveal_strlit("enableBackground");
    assert("enableBackground"@.len() == 16);
    reveal_strlit("htmlFor");
    assert("htmlFor"@.len() == 7);
    reveal_strlit("dangerouslySetInnerHTML");
    assert("dangerouslySetInnerHTML"@.len() == 23);
    reveal_strlit("ref");
    assert("ref"@.len() == 3);
    reveal_strlit("key");
    assert("key"@.len() == 3);
    assert("fillOpacity"@[0] == 'f' && "fillOpacity"@[1] == 'i');
}

proof fn lemma_table_has_fill_rule()
    ensures
        attr_action("fillRule"@) == AttrActionView::Use("fill-rule"@),
{
    reveal_strlit("fillRule");
    assert("fillRule"@.len() == 8);
    reveal_strlit("fill-rule");
    reveal_strlit("className");
    assert("className"@.len() == 9);
    reveal_strlit("accentHeight");
    assert("accentHeight"@.len() == 12);
    reveal_strlit("alignmentBaseline");
    assert("alignmentBaseline"@.len() == 17);
    reveal_strlit("arabicForm");
    assert("arabicForm"@.len() == 10);
    reveal_strlit("baselineShift");
    assert("baselineShift"@.len() == 13);
    reveal_strlit("capHeight");
    assert("capHeight"@.len() == 9);
    reveal_strlit("clipPath");
    assert("clipPath"@[0] != "fillRule"@[0]);
    reveal_strlit("clipRule");
    assert("clipRule"@[0] != "fillRule"@[0]);
    reveal_strlit("colorInterpolation");
    assert("colorInterpolation"@.len() == 18);
    reveal_strlit("colorInterpolationFilters");
    assert("colorInterpolationFilters"@.len() == 25);
    reveal_strlit("colorProfile");
    assert("colorProfile"@.len() == 12);
    reveal_strlit("colorRendering");
    assert("colorRendering"@.len() == 14);
    reveal_strlit("dominantBaseline");
    assert("dominantBaseline"@.len() == 16);
    reveal_strlit("enableBackground");
    assert("enableBackground"@.len() == 16);
    reveal_strlit("fillOpacity");
    assert("fillOpacity"@.len() == 11);
    reveal_strlit("htmlFor");
    assert("htmlFor"@.len() == 7);
    reveal_strlit("dangerouslySetInnerHTML");
    assert("dangerouslySetInnerHTML"@.len() == 23);
    reveal_strlit("ref");
    assert("ref"@.len() == 3);
    reveal_strlit("key");
    assert("key"@.len() == 3);
    assert("fillRule"@[0] == 'f' && "fillRule"@[1] == 'i');
}

proof fn lemma_table_has_flood_color()
    ensures
        attr_action("floodColor"@) == AttrActionView::Use("flood-color"@),
{
    reveal_strlit("floodColor");
    assert("floodColor"@.len() == 10);
    reveal_strlit("flood-color");
    reveal_strlit("className");
    assert("className"@.len() == 9);
    reveal_strlit("accentHeight");
    assert("accentHeight"@.len() == 12);
    reveal_strlit("alignmentBaseline");
    assert("alignmentBaseline"@.len() == 17);
    reveal_strlit("arabicForm");
    assert("arabicForm"@[0] != "floodColor"@[0]);
    reveal_strlit("baselineShift");
    assert("baselineShift"@.len() == 13);
    reveal_strlit("capHeight");
    assert("capHeight"@.len() == 9);
    reveal_strlit("clipPath");
    assert("clipPath"@.len() == 8);
    reveal_strlit("clipRule");
    assert("clipRule"@.len() == 8);
    reveal_strlit("colorInterpolation");
    assert("colorInterpolation"@.len() == 18);
    reveal_strlit("colorInterpolationFilters");
    assert("colorInterpolationFilters"@.len() == 25);
    reveal_strlit("colorProfile");
    assert("colorProfile"@.len() == 12);
    reveal_strlit("colorRendering");
    assert("colorRendering"@.len() == 14);
    reveal_strlit("dominantBaseline");
    assert("dominantBaseline"@.len() == 16);
    reveal_strlit("enableBackground");
    assert("enableBackground"@.len() == 16);
    reveal_strlit("fillOpacity");
    assert("fillOpacity"@.len() == 11);
    reveal_strlit("fillRule");
    assert("fillRule"@.len() == 8);
    reveal_strlit("htmlFor");
    assert("htmlFor"@.len() == 7);
    reveal_strlit("dangerouslySetInnerHTML");
    assert("dangerouslySetInnerHTML"@.len() == 23);
    reveal_strlit("ref");
    assert("ref"@.len() == 3);
    reveal_strlit("key");
    assert("key"@.len() == 3);
    assert("floodColor"@[0] == 'f' && "floodColor"@[1] == 'l');
}

proof fn lemma_table_has_flood_opacity()
    ensures
        attr_action("floodOpacity"@) == AttrActionView::Use("flood-opacity"@),
{
    reveal_strlit("floodOpacity");
    assert("floodOpacity"@.len() == 12);
    reveal_strlit("flood-opacity");
    reveal_strlit("className");
    assert("className"@.len() == 9);
    reveal_strlit("accentHeight");
    assert("accentHeight"@[0] != "floodOpacity"@[0]);
    reveal_strlit("alignmentBaseline");
    assert("alignmentBaseline"@.len() == 17);
    reveal_strlit("arabicForm");
    assert("arabicForm"@.len() == 10);
    reveal_strlit("baselineShift");
    assert("baselineShift"@.len() == 13);
    reveal_strlit("capHeight");
    assert("capHeight"@.len() == 9);
    reveal_strlit("clipPath");
    assert("clipPath"@.len() == 8);
    reveal_strlit("clipRule");
    assert("clipRule"@.len() == 8);
    reveal_strlit("colorInterpolation");
    assert("colorInterpolation"@.len() == 18);
    reveal_strlit("colorInterpolationFilters");
    assert("colorInterpolationFilters"@.len() == 25);
    reveal_strlit("colorProfile");
    assert("colorProfile"@[0] != "floodOpacity"@[0]);
    reveal_strlit("colorRendering");
    assert("colorRendering"@.len() == 14);
    reveal_strlit("dominantBaseline");
    assert("dominantBaseline"@.len() == 16);
    reveal_strlit("enableBackground");
    assert("enableBackground"@.len() == 16);
    reveal_strlit("fillOpacity");
    assert("fillOpacity"@.len() == 11);
    reveal_strlit("fillRule");
    assert("fillRule"@.len() == 8);
    reveal_strlit("floodColor");
    assert("floodColor"@.len() == 10);
    reveal_strlit("htmlFor");
    assert("htmlFor"@.len() == 7);
    reveal_strlit("dangerouslySetInnerHTML");
    assert("dangerouslySetInnerHTML"@.len() == 23);
    reveal_strlit("ref");
    assert("ref"@.len() == 3);
    reveal_strlit("key");
    assert("key"@.len() == 3);
    assert("floodOpacity"@[0] == 'f' && "floodOpacity"@[1] == 'l');
}

proof fn lemma_table_has_font_family()
    ensures
        attr_action("fontFamily"@) == AttrActionView::Use("font-family"@),
{
    reveal_strlit("fontFamily");
    assert("fontFamily"@.len() == 10);
    reveal_strlit("font-family");
    reveal_strlit("className");
    assert("className"@.len() == 9);
    reveal_strlit("accentHeight");
    assert("accentHeight"@.len() == 12);
    reveal_strlit("alignmentBaseline");
    assert("alignmentBaseline"@.len() == 17);
    reveal_strlit("arabicForm");
    assert("arabicForm"@[0] != "fontFamily"@[0]);
    reveal_strlit("baselineShift");
    assert("baselineShift"@.len() == 13);
    reveal_strlit("capHeight");
    assert("capHeight"@.len() == 9);
    reveal_strlit("clipPath");
    assert("clipPath"@.len() == 8);
    reveal_strlit("clipRule");
    assert("clipRule"@.len() == 8);
    reveal_strlit("colorInterpolation");
    assert("colorInterpolation"@.len() == 18);
    reveal_strlit("colorInterpolationFilters");
    assert("colorInterpolationFilters"@.len() == 25);
    reveal_strlit("colorProfile");
    assert("colorProfile"@.len() == 12);
    reveal_strlit("colorRendering");
    assert("colorRendering"@.len() == 14);
    reveal_strlit("dominantBaseline");
    assert("dominantBaseline"@.len() == 16);
    reveal_strlit("enableBackground");
    assert("enableBackground"@.len() == 16);
    reveal_strlit("fillOpacity");
    assert("fillOpacity"@.len() == 11);
    reveal_strlit("fillRule");
    assert("fillRule"@.len() == 8);
    reveal_strlit("floodColor");
    assert("floodColor"@[1] != "fontFamily"@[1]);
    reveal_strlit("floodOpacity");
    assert("floodOpacity"@.len() == 12);
    reveal_strlit("htmlFor");
    assert("htmlFor"@.len() == 7);
    reveal_strlit("dangerouslySetInnerHTML");
    assert("dangerouslySetInnerHTML"@.len() == 23);
    reveal_strlit("ref");
    assert("ref"@.len() == 3);
    reveal_strlit("key");
    assert("key"@.len() == 3);
    assert("fontFamily"@[0] == 'f' && "fontFamily"@[1] == 'o');
}

proof fn lemma_table_has_font_size()
    ensures
        attr_action("fontSize"@) == AttrActionView::Use("font-size"@),
{
    reveal_strlit("fontSize");
    assert("fontSize"@.len() == 8);
    reveal_strlit("font-size");
    reveal_strlit("className");
    assert("className"@.len() == 9);
    reveal_strlit("accentHeight");
    assert("accentHeight"@.len() == 12);
    reveal_strlit("alignmentBaseline");
    assert("alignmentBaseline"@.len() == 17);
    reveal_strlit("arabicForm");
    assert("arabicForm"@.len() == 10);
    reveal_strlit("baselineShift");
    assert("baselineShift"@.len() == 13);
    reveal_strlit("capHeight");
    assert("capHeight"@.len() == 9);
    reveal_strlit("clipPath");
    assert("clipPath"@[0] != "fontSize"@[0]);
    reveal_strlit("clipRule");
    assert("clipRule"@[0] != "fontSize"@[0]);
    reveal_strlit("colorInterpolation");
    assert("colorInterpolation"@.len() == 18);
    reveal_strlit("colorInterpolationFilters");
    assert("colorInterpolationFilters"@.len() == 25);
    reveal_strlit("colorProfile");
    assert("colorProfile"@.len() == 12);
    reveal_strlit("colorRendering");
    assert("colorRendering"@.len() == 14);
    reveal_strlit("dominantBaseline");
    assert("dominantBaseline"@.len() == 16);
    reveal_strlit("enableBackground");
    assert("enableBackground"@.len() == 16);
    reveal_strlit("fillOpacity");
    assert("fillOpacity"@.len() == 11);
    reveal_strlit("fillRule");
    assert("fillRule"@[1] != "fontSize"@[1]);
    reveal_strlit("floodColor");
    assert("floodColor"@.len() == 10);
    reveal_strlit("floodOpacity");
    assert("floodOpacity"@.len() == 12);
    reveal_strlit("fontFamily");
    assert("fontFamily"@.len() == 10);
    reveal_strlit("htmlFor");
    assert("htmlFor"@.len() == 7);
    reveal_strlit("dangerouslySetInnerHTML");
    assert("dangerouslySetInnerHTML"@.len() == 23);
    reveal_strlit("ref");
    assert("ref"@.len() == 3);
    reveal_strlit("key");
    assert("key"@.len() == 3);
    assert("fontSize"@[0] == 'f' && "fontSize"@[1] == 'o');
}

proof fn lemma_table_has_font_size_adjust()
    ensures
        attr_action("fontSizeAdjust"@) == AttrActionView::Use("font-size-adjust"@),
{
    reveal_strlit("fontSizeAdjust");
    assert("fontSizeAdjust"@.len() == 14);
    reveal_strlit("font-size-adjust");
    reveal_strlit("className");
    assert("className"@.len() == 9);
    reveal_strlit("accentHeight");
    assert("accentHeight"@.len() == 12);
    reveal_strlit("alignmentBaseline");
    assert("alignmentBaseline"@.len() == 17);
    reveal_strlit("arabicForm");
    assert("arabicForm"@.len() == 10);
    reveal_strlit("baselineShift");
    assert("baselineShift"@.len() == 13);
    reveal_strlit("capHeight");
    assert("capHeight"@.len() == 9);
    reveal_strlit("clipPath");
    assert("clipPath"@.len() == 8);
    reveal_strlit("clipRule");
    assert("clipRule"@.len() == 8);
    reveal_strlit("colorInterpolation");
    assert("colorInterpolation"@.len() == 18);
    reveal_strlit("colorInterpolationFilters");
    assert("colorInterpolationFilters"@.len() == 25);
    reveal_strlit("colorProfile");
    assert("colorProfile"@.len() == 12);
    reveal_strlit("colorRendering");
    assert("colorRendering"@[0] != "fontSizeAdjust"@[0]);
    reveal_strlit("dominantBaseline");
    assert("dominantBaseline"@.len() == 16);
    reveal_strlit("enableBackground");
    assert("enableBackground"@.len() == 16);
    reveal_strlit("fillOpacity");
    assert("fillOpacity"@.len() == 11);
    reveal_strlit("fillRule");
    assert("fillRule"@.len() == 8);
    reveal_strlit("floodColor");
    assert("floodColor"@.len() == 10);
    reveal_strlit("floodOpacity");
    assert("floodOpacity"@.len() == 12);
    reveal_strlit("fontFamily");
    assert("fontFamily"@.len() == 10);
    reveal_strlit("fontSize");
    assert("fontSize"@.len() == 8);
    reveal_strlit("htmlFor");
    assert("htmlFor"@.len() == 7);
    reveal_strlit("dangerouslySetInnerHTML");
    assert("dangerouslySetInnerHTML"@.len() == 23);
    reveal_strlit("ref");
    assert("ref"@.len() == 3);
    reveal_strlit("key");
    assert("key"@.len() == 3);
    assert("fontSizeAdjust"@[0] == 'f' && "fontSizeAdjust"@[1] == 'o');
}

proof fn lemma_table_has_font_stretch()
    ensures
        attr_action("fontStretch"@) == AttrActionView::Use("font-stretch"@),
{
    reveal_strlit("fontStretch");
    assert("fontStretch"@.len() == 11);
    reveal_strlit("font-stretch");
    reveal_strlit("className");
    assert("className"@.len() == 9);
    reveal_strlit("accentHeight");
    assert("accentHeight"@.len() == 12);
    reveal_strlit("alignmentBaseline");
    assert("alignmentBaseline"@.len() == 17);
    reveal_strlit("arabicForm");
    assert("arabicForm"@.len() == 10);
    reveal_strlit("baselineShift");
    assert("baselineShift"@.len() == 13);
    reveal_strlit("capHeight");
    assert("capHeight"@.len() == 9);
    reveal_strlit("clipPath");
    assert("clipPath"@.len() == 8);
    reveal_strlit("clipRule");
    assert("clipRule"@.len() == 8);
    reveal_strlit("colorInterpolation");
    assert("colorInterpolation"@.len() == 18);
    reveal_strlit("colorInterpolationFilters");
    assert("colorInterpolationFilters"@.len() == 25);
    reveal_strlit("colorProfile");
    assert("colorProfile"@.len() == 12);
    reveal_strlit("colorRendering");
    assert("colorRendering"@.len() == 14);
    reveal_strlit("dominantBaseline");
    assert("dominantBaseline"@.len() == 16);
    reveal_strlit("enableBackground");
    assert("enableBackground"@.len() == 16);
    reveal_strlit("fillOpacity");
    assert("fillOpacity"@[1] != "fontStretch"@[1]);
    reveal_strlit("fillRule");
    assert("fillRule"@.len() == 8);
    reveal_strlit("floodColor");
    assert("floodColor"@.len() == 10);
    reveal_strlit("floodOpacity");
    assert("floodOpacity"@.len() == 12);
    reveal_strlit("fontFamily");
    assert("fontFamily"@.len() == 10);
    reveal_strlit("fontSize");
    assert("fontSize"@.len() == 8);
    reveal_strlit("fontSizeAdjust");
    assert("fontSizeAdjust"@.len() == 14);
    reveal_strlit("htmlFor");
    assert("htmlFor"@.len() == 7);
    reveal_strlit("dangerouslySetInnerHTML");
    assert("dangerouslySetInnerHTML"@.len() == 23);
    reveal_strlit("ref");
    assert("ref"@.len() == 3);
    reveal_strlit("key");
    assert("key"@.len() == 3);
    assert("fontStretch"@[0] == 'f' && "fontStretch"@[1] == 'o');
}

proof fn lemma_table_has_font_style()
    ensures
        attr_action("fontStyle"@) == AttrActionView::Use("font-style"@),
{
    reveal_strlit("fontStyle");
    assert("fontStyle"@.len() == 9);
    reveal_strlit("font-style");
    reveal_strlit("className");
    assert("className"@[0] != "fontStyle"@[0]);
    reveal_strlit("accentHeight");
    assert("accentHeight"@.len() == 12);
    reveal_strlit("alignmentBaseline");
    assert("alignmentBaseline"@.len() == 17);
    reveal_strlit("arabicForm");
    assert("arabicForm"@.len() == 10);
    reveal_strlit("baselineShift");
    assert("baselineShift"@.len() == 13);
    reveal_strlit("capHeight");
    assert("capHeight"@[0] != "fontStyle"@[0]);
    reveal_strlit("clipPath");
    assert("clipPath"@.len() == 8);
    reveal_strlit("clipRule");
    assert("clipRule"@.len() == 8);
    reveal_strlit("colorInterpolation");
    assert("colorInterpolation"@.len() == 18);
    reveal_strlit("colorInterpolationFilters");
    assert("colorInterpolationFilters"@.len() == 25);
    reveal_strlit("colorProfile");
    assert("colorProfile"@.len() == 12);
    reveal_strlit("colorRendering");
    assert("colorRendering"@.len() == 14);
    reveal_strlit("dominantBaseline");
    assert("dominantBaseline"@.len() == 16);
    reveal_strlit("enableBackground");
    assert("enableBackground"@.len() == 16);
    reveal_strlit("fillOpacity");
    assert("fillOpacity"@.len() == 11);
    reveal_strlit("fillRule");
    assert("fillRule"@.len() == 8);
    reveal_strlit("floodColor");
    assert("floodColor"@.len() == 10);
    reveal_strlit("floodOpacity");
    assert("floodOpacity"@.len() == 12);
    reveal_strlit("fontFamily");
    assert("fontFamily"@.len() == 10);
    reveal_strlit("fontSize");
    assert("fontSize"@.len() == 8);
    reveal_strlit("fontSizeAdjust");
    assert("fontSizeAdjust"@.len() == 14);
    reveal_strlit("fontStretch");
    assert("fontStretch"@.len() == 11);
    reveal_strlit("htmlFor");
    assert("htmlFor"@.len() == 7);
    reveal_strlit("dangerouslySetInnerHTML");
    assert("dangerouslySetInnerHTML"@.len() == 23);
    reveal_strlit("ref");
    assert("ref"@.len() == 3);
    reveal_strlit("key");
    assert("key"@.len() == 3);
    assert("fontStyle"@[0] == 'f' && "fontStyle"@[1] == 'o');
}

proof fn lemma_table_has_font_variant()
    ensures
        attr_action("fontVariant"@) == AttrActionView::Use("font-variant"@),
{
    reveal_strlit("fontVariant");
    assert("fontVariant"@.len() == 11);
    reveal_strlit("font-variant");
    reveal_strlit("className");
    assert("className"@.len() == 9);
    reveal_strlit("accentHeight");
    assert("accentHeight"@.len() == 12);
    reveal_strlit("alignmentBaseline");
    assert("alignmentBaseline"@.len() == 17);
    reveal_strlit("arabicForm");
    assert("arabicForm"@.len() == 10);
    reveal_strlit("baselineShift");
    assert("baselineShift"@.len() == 13);
    reveal_strlit("capHeight");
    assert("capHeight"@.len() == 9);
    reveal_strlit("clipPath");
    assert("clipPath"@.len() == 8);
    reveal_strlit("clipRule");
    assert("clipRule"@.len() == 8);
    reveal_strlit("colorInterpolation");
    assert("colorInterpolation"@.len() == 18);
    reveal_strlit("colorInterpolationFilters");
    assert("colorInterpolationFilters"@.len() == 25);
    reveal_strlit("colorProfile");
    assert("colorProfile"@.len() == 12);
    reveal_strlit("colorRendering");
    assert("colorRendering"@.len() == 14);
    reveal_strlit("dominantBaseline");
    assert("dominantBaseline"@.len() == 16);
    reveal_strlit("enableBackground");
    assert("enableBackground"@.len() == 16);
    reveal_strlit("fillOpacity");
    assert("fillOpacity"@[1] != "fontVariant"@[1]);
    reveal_strlit("fillRule");
    assert("fillRule"@.len() == 8);
    reveal_strlit("floodColor");
    assert("floodColor"@.len() == 10);
    reveal_strlit("floodOpacity");
    assert("floodOpacity"@.len() == 12);
    reveal_strlit("fontFamily");
    assert("fontFamily"@.len() == 10);
    reveal_strlit("fontSize");
    assert("fontSize"@.len() == 8);
    reveal_strlit("fontSizeAdjust");
    assert("fontSizeAdjust"@.len() == 14);
    reveal_strlit("fontStretch");
    assert("fontStretch"@[4] != "fontVariant"@[4]);
    reveal_strlit("fontStyle");
    assert("fontStyle"@.len() == 9);
    reveal_strlit("htmlFor");
    assert("htmlFor"@.len() == 7);
    reveal_strlit("dangerouslySetInnerHTML");
    assert("dangerouslySetInnerHTML"@.len() == 23);
    reveal_strlit("ref");
    assert("ref"@.len() == 3);
    reveal_strlit("key");
    assert("key"@.len() == 3);
    assert("fontVariant"@[0] == 'f' && "fontVariant"@[1] == 'o');
}

proof fn lemma_table_has_font_weight()
    ensures
        attr_action("fontWeight"@) == AttrActionView::Use("font-weight"@),
{
    reveal_strlit("fontWeight");
    assert("fontWeight"@.len() == 10);
    reveal_strlit("font-weight");
    reveal_strlit("className");
    assert("className"@.len() == 9);
    reveal_strlit("accentHeight");
    assert("accentHeight"@.len() == 12);
    reveal_strlit("alignmentBaseline");
    assert("alignmentBaseline"@.len() == 17);
    reveal_strlit("arabicForm");
    assert("arabicForm"@[0] != "fontWeight"@[0]);
    reveal_strlit("baselineShift");
    assert("baselineShift"@.len() == 13);
    reveal_strlit("capHeight");
    assert("capHeight"@.len() == 9);
    reveal_strlit("clipPath");
    assert("clipPath"@.len() == 8);
    reveal_strlit("clipRule");
    assert("clipRule"@.len() == 8);
    reveal_strlit("colorInterpolation");
    assert("colorInterpolation"@.len() == 18);
    reveal_strlit("colorInterpolationFilters");
    assert("colorInterpolationFilters"@.len() == 25);
    reveal_strlit("colorProfile");
    assert("colorProfile"@.len() == 12);
    reveal_strlit("colorRendering");
    assert("colorRendering"@.len() == 14);
    reveal_strlit("dominantBaseline");
    assert("dominantBaseline"@.len() == 16);
    reveal_strlit("enableBackground");
    assert("enableBackground"@.len() == 16);
    reveal_strlit("fillOpacity");
    assert("fillOpacity"@.len() == 11);
    reveal_strlit("fillRule");
    assert("fillRule"@.len() == 8);
    reveal_strlit("floodColor");
    assert("floodColor"@[1] != "fontWeight"@[1]);
    reveal_strlit("floodOpacity");
    assert("floodOpacity"@.len() == 12);
    reveal_strlit("fontFamily");
    assert("fontFamily"@[4] != "fontWeight"@[4]);
    reveal_strlit("fontSize");
    assert("fontSize"@.len() == 8);
    reveal_strlit("fontSizeAdjust");
    assert("fontSizeAdjust"@.len() == 14);
    reveal_strlit("fontStretch");
    assert("fontStretch"@.len() == 11);
    reveal_strlit("fontStyle");
    assert("fontStyle"@.len() == 9);
    reveal_strlit("fontVariant");
    assert("fontVariant"@.len() == 11);
    reveal_strlit("htmlFor");
    assert("htmlFor"@.len() == 7);
    reveal_strlit("dangerouslySetInnerHTML");
    assert("dangerouslySetInnerHTML"@.len() == 23);
    reveal_strlit("ref");
    assert("ref"@.len() == 3);
    reveal_strlit("key");
    assert("key"@.len() == 3);
    assert("fontWeight"@[0] == 'f' && "fontWeight"@[1] == 'o');
}

proof fn lemma_table_has_glyph_name()
    ensures
        attr_action("glyphName"@) == AttrActionView::Use("glyph-name"@),
{
    reveal_strlit("glyphName");
    assert("glyphName"@.len() == 9);
    reveal_strlit("glyph-name");
    reveal_strlit("className");
    assert("className"@[0] != "glyphName"@[0]);
    reveal_strlit("accentHeight");
    assert("accentHeight"@.len() == 12);
    reveal_strlit("alignmentBaseline");
    assert("alignmentBaseline"@.len() == 17);
    reveal_strlit("arabicForm");
    assert("arabicForm"@.len() == 10);
    reveal_strlit("baselineShift");
    assert("baselineShift"@.len() == 13);
    reveal_strlit("capHeight");
    assert("capHeight"@[0] != "glyphName"@[0]);
    reveal_strlit("clipPath");
    assert("clipPath"@.len() == 8);
    reveal_strlit("clipRule");
    assert("clipRule"@.len() == 8);
    reveal_strlit("colorInterpolation");
    assert("colorInterpolation"@.len() == 18);
    reveal_strlit("colorInterpolationFilters");
    assert("colorInterpolationFilters"@.len() == 25);
    reveal_strlit("colorProfile");
    assert("colorProfile"@.len() == 12);
    reveal_strlit("colorRendering");
    assert("colorRendering"@.len() == 14);
    reveal_strlit("dominantBaseline");
    assert("dominantBaseline"@.len() == 16);
    reveal_strlit("enableBackground");
    assert("enableBackground"@.len() == 16);
    reveal_strlit("fillOpacity");
    assert("fillOpacity"@.len() == 11);
    reveal_strlit("fillRule");
    assert("fillRule"@.len() == 8);
    reveal_strlit("floodColor");
    assert("floodColor"@.len() == 10);
    reveal_strlit("floodOpacity");
    assert("floodOpacity"@.len() == 12);
    reveal_strlit("fontFamily");
    assert("fontFamily"@.len() == 10);
    reveal_strlit("fontSize");
    assert("fontSize"@.len() == 8);
    reveal_strlit("fontSizeAdjust");
    assert("fontSizeAdjust"@.len() == 14);
    reveal_strlit("fontStretch");
    assert("fontStretch"@.len() == 11);
    reveal_strlit("fontStyle");
    assert("fontStyle"@[0] != "glyphName"@[0]);
    reveal_strlit("fontVariant");
    assert("fontVariant"@.len() == 11);
    reveal_strlit("fontWeight");
    assert("fontWeight"@.len() == 10);
    reveal_strlit("htmlFor");
    assert("htmlFor"@.len() == 7);
    reveal_strlit("dangerouslySetInnerHTML");
    assert("dangerouslySetInnerHTML"@.len() == 23);
    reveal_strlit("ref");
    assert("ref"@.len() == 3);
    reveal_strlit("key");
    assert("key"@.len() == 3);
    assert("glyphName"@[0] == 'g' && "glyphName"@[1] == 'l');
}

proof fn lemma_table_has_glyph_orientation_horizontal()
    ensures
        attr_action("glyphOrientationHorizontal"@) == AttrActionView::Use("glyph-orientation-horizontal"@),
{
    reveal_strlit("glyphOrientationHorizontal");
    assert("glyphOrientationHorizontal"@.len() == 26);
    reveal_strlit("glyph-orientation-horizontal");
    reveal_strlit("className");
    assert("className"@.len() == 9);
    reveal_strlit("accentHeight");
    assert("accentHeight"@.len() == 12);
    reveal_strlit("alignmentBaseline");
    assert("alignmentBaseline"@.len() == 17);
    reveal_strlit("arabicForm");
    assert("arabicForm"@.len() == 10);
    reveal_strlit("baselineShift");
    assert("baselineShift"@.len() == 13);
    reveal_strlit("capHeight");
    assert("capHeight"@.len() == 9);
    reveal_strlit("clipPath");
    assert("clipPath"@.len() == 8);
    reveal_strlit("clipRule");
    assert("clipRule"@.len() == 8);
    reveal_strlit("colorInterpolation");
    assert("colorInterpolation"@.len() == 18);
    reveal_strlit("colorInterpolationFilters");
    assert("colorInterpolationFilters"@.len() == 25);
    reveal_strlit("colorProfile");
    assert("colorProfile"@.len() == 12);
    reveal_strlit("colorRendering");
    assert("colorRendering"@.len() == 14);
    reveal_strlit("dominantBaseline");
    assert("dominantBaseline"@.len() == 16);
    reveal_strlit("enableBackground");
    assert("enableBackground"@.len() == 16);
    reveal_strlit("fillOpacity");
    assert("fillOpacity"@.len() == 11);
    reveal_strlit("fillRule");
    assert("fillRule"@.len() == 8);
    reveal_strlit("floodColor");
    assert("floodColor"@.len() == 10);
    reveal_strlit("floodOpacity");
    assert("floodOpacity"@.len() == 12);
    reveal_strlit("fontFamily");
    assert("fontFamily"@.len() == 10);
    reveal_strlit("fontSize");
    assert("fontSize"@.len() == 8);
    reveal_strlit("fontSizeAdjust");
    assert("fontSizeAdjust"@.len() == 14);
    reveal_strlit("fontStretch");
    assert("fontStretch"@.len() == 11);
    reveal_strlit("fontStyle");
    assert("fontStyle"@.len() == 9);
    reveal_strlit("fontVariant");
    assert("fontVariant"@.len() == 11);
    reveal_strlit("fontWeight");
    assert("fontWeight"@.len() == 10);
    reveal_strlit("glyphName");
    assert("glyphName"@.len() == 9);
    reveal_strlit("htmlFor");
    assert("htmlFor"@.len() == 7);
    reveal_strlit("dangerouslySetInnerHTML");
    assert("dangerouslySetInnerHTML"@.len() == 23);
    reveal_strlit("ref");
    assert("ref"@.len() == 3);
    reveal_strlit("key");
    assert("key"@.len() == 3);
    assert("glyphOrientationHorizontal"@[0] == 'g' && "glyphOrientationHorizontal"@[1] == 'l');
}

proof fn lemma_table_has_glyph_orientation_vertical()
    ensures
        attr_action("glyphOrientationVertical"@) == AttrActionView::Use("glyph-orientation-vertical"@),
{
    reveal_strlit("glyphOrientationVertical");
    assert("glyphOrientationVertical"@.len() == 24);
    reveal_strlit("glyph-orientation-vertical");
    reveal_strlit("className");
    assert("className"@.len() == 9);
    reveal_strlit("accentHeight");
    assert("accentHeight"@.len() == 12);
    reveal_strlit("alignmentBaseline");
    assert("alignmentBaseline"@.len() == 17);
    reveal_strlit("arabicForm");
    assert("arabicForm"@.len() == 10);
    reveal_strlit("baselineShift");
    assert("baselineShift"@.len() == 13);
    reveal_strlit("capHeight");
    assert("capHeight"@.len() == 9);
    reveal_strlit("clipPath");
    assert("clipPath"@.len() == 8);
    reveal_strlit("clipRule");
    assert("clipRule"@.len() == 8);
    reveal_strlit("colorInterpolation");
    assert("colorInterpolation"@.len() == 18);
    reveal_strlit("colorInterpolationFilters");
    assert("colorInterpolationFilters"@.len() == 25);
    reveal_strlit("colorProfile");
    assert("colorProfile"@.len() == 12);
    reveal_strlit("colorRendering");
    assert("colorRendering"@.len() == 14);
    reveal_strlit("dominantBaseline");
    assert("dominantBaseline"@.len() == 16);
    reveal_strlit("enableBackground");
    assert("enableBackground"@.len() == 16);
    reveal_strlit("fillOpacity");
    assert("fillOpacity"@.len() == 11);
    reveal_strlit("fillRule");
    assert("fillRule"@.len() == 8);
    reveal_strlit("floodColor");
    assert("floodColor"@.len() == 10);
    reveal_strlit("floodOpacity");
    assert("floodOpacity"@.len() == 12);
    reveal_strlit("fontFamily");
    assert("fontFamily"@.len() == 10);
    reveal_strlit("fontSize");
    assert("fontSize"@.len() == 8);
    reveal_strlit("fontSizeAdjust");
    assert("fontSizeAdjust"@.len() == 14);
    reveal_strlit("fontStretch");
    assert("fontStretch"@.len() == 11);
    reveal_strlit("fontStyle");
    assert("fontStyle"@.len() == 9);
    reveal_strlit("fontVariant");
    assert("fontVariant"@.len() == 11);
    reveal_strlit("fontWeight");
    assert("fontWeight"@.len() == 10);
    reveal_strlit("glyphName");
    assert("glyphName"@.len() == 9);
    reveal_strlit("glyphOrientationHorizontal");
    assert("glyphOrientationHorizontal"@.len() == 26);
    reveal_strlit("htmlFor");
    assert("htmlFor"@.len() == 7);
    reveal_strlit("dangerouslySetInnerHTML");
    assert("dangerouslySetInnerHTML"@.len() == 23);
    reveal_strlit("ref");
    assert("ref"@.len() == 3);
    reveal_strlit("key");
    assert("key"@.len() == 3);
    assert("glyphOrientationVertical"@[0] == 'g' && "glyphOrientationVertical"@[1] == 'l');
}

proof fn lemma_table_has_horiz_adv_x()
    ensures
        attr_action("horizAdvX"@) == AttrActionView::Use("horiz-adv-x"@),
{
    reveal_strlit("horizAdvX");
    assert("horizAdvX"@.len() == 9);
    reveal_strlit("horiz-adv-x");
    reveal_strlit("className");
    assert("className"@[0] != "horizAdvX"@[0]);
    reveal_strlit("accentHeight");
    assert("accentHeight"@.len() == 12);
    reveal_strlit("alignmentBaseline");
    assert("alignmentBaseline"@.len() == 17);
    reveal_strlit("arabicForm");
    assert("arabicForm"@.len() == 10);
    reveal_strlit("baselineShift");
    assert("baselineShift"@.len() == 13);
    reveal_strlit("capHeight");
    assert("capHeight"@[0] != "horizAdvX"@[0]);
    reveal_strlit("clipPath");
    assert("clipPath"@.len() == 8);
    reveal_strlit("clipRule");
    assert("clipRule"@.len() == 8);
    reveal_strlit("colorInterpolation");
    assert("colorInterpolation"@.len() == 18);
    reveal_strlit("colorInterpolationFilters");
    assert("colorInterpolationFilters"@.len() == 25);
    reveal_strlit("colorProfile");
    assert("colorProfile"@.len() == 12);
    reveal_strlit("colorRendering");
    assert("colorRendering"@.len() == 14);
    reveal_strlit("dominantBaseline");
    assert("dominantBaseline"@.len() == 16);
    reveal_strlit("enableBackground");
    assert("enableBackground"@.len() == 16);
    reveal_strlit("fillOpacity");
    assert("fillOpacity"@.len() == 11);
    reveal_strlit("fillRule");
    assert("fillRule"@.len() == 8);
    reveal_strlit("floodColor");
    assert("floodColor"@.len() == 10);
    reveal_strlit("floodOpacity");
    assert("floodOpacity"@.len() == 12);
    reveal_strlit("fontFamily");
    assert("fontFamily"@.len() == 10);
    reveal_strlit("fontSize");
    assert("fontSize"@.len() == 8);
    reveal_strlit("fontSizeAdjust");
    assert("fontSizeAdjust"@.len() == 14);
    reveal_strlit("fontStretch");
    assert("fontStretch"@.len() == 11);
    reveal_strlit("fontStyle");
    assert("fontStyle"@[0] != "horizAdvX"@[0]);
    reveal_strlit("fontVariant");
    assert("fontVariant"@.len() == 11);
    reveal_strlit("fontWeight");
    assert("fontWeight"@.len() == 10);
    reveal_strlit("glyphName");
    assert("glyphName"@[0] != "horizAdvX"@[0]);
    reveal_strlit("glyphOrientationHorizontal");
    assert("glyphOrientationHorizontal"@.len() == 26);
    reveal_strlit("glyphOrientationVertical");
    assert("glyphOrientationVertical"@.len() == 24);
    reveal_strlit("htmlFor");
    assert("htmlFor"@.len() == 7);
    reveal_strlit("dangerouslySetInnerHTML");
    assert("dangerouslySetInnerHTML"@.len() == 23);
    reveal_strlit("ref");
    assert("ref"@.len() == 3);
    reveal_strlit("key");
    assert("key"@.len() == 3);
    assert("horizAdvX"@[0] == 'h' && "horizAdvX"@[1] == 'o');
}

proof fn lemma_table_has_horiz_origin_x()
    ensures
        attr_action("horizOriginX"@) == AttrActionView::Use("horiz-origin-x"@),
{
    reveal_strlit("horizOriginX");
    assert("horizOriginX"@.len() == 12);
    reveal_strlit("horiz-origin-x");
    reveal_strlit("className");
    assert("className"@.len() == 9);
    reveal_strlit("accentHeight");
    assert("accentHeight"@[0] != "horizOriginX"@[0]);
    reveal_strlit("alignmentBaseline");
    assert("alignmentBaseline"@.len() == 17);
    reveal_strlit("arabicForm");
    assert("arabicForm"@.len() == 10);
    reveal_strlit("baselineShift");
    assert("baselineShift"@.len() == 13);
    reveal_strlit("capHeight");
    assert("capHeight"@.len() == 9);
    reveal_strlit("clipPath");
    assert("clipPath"@.len() == 8);
    reveal_strlit("clipRule");
    assert("clipRule"@.len() == 8);
    reveal_strlit("colorInterpolation");
    assert("colorInterpolation"@.len() == 18);
    reveal_strlit("colorInterpolationFilters");
    assert("colorInterpolationFilters"@.len() == 25);
    reveal_strlit("colorProfile");
    assert("colorProfile"@[0] != "horizOriginX"@[0]);
    reveal_strlit("colorRendering");
    assert("colorRendering"@.len() == 14);
    reveal_strlit("dominantBaseline");
    assert("dominantBaseline"@.len() == 16);
    reveal_strlit("enableBackground");
    assert("enableBackground"@.len() == 16);
    reveal_strlit("fillOpacity");
    assert("fillOpacity"@.len() == 11);
    reveal_strlit("fillRule");
    assert("fillRule"@.len() == 8);
    reveal_strlit("floodColor");
    assert("floodColor"@.len() == 10);
    reveal_strlit("floodOpacity");
    assert("floodOpacity"@[0] != "horizOriginX"@[0]);
    reveal_strlit("fontFamily");
    assert("fontFamily"@.len() == 10);
    reveal_strlit("fontSize");
    assert("fontSize"@.len() == 8);
    reveal_strlit("fontSizeAdjust");
    assert("fontSizeAdjust"@.len() == 14);
    reveal_strlit("fontStretch");
    assert("fontStretch"@.len() == 11);
    reveal_strlit("fontStyle");
    assert("fontStyle"@.len() == 9);
    reveal_strlit("fontVariant");
    assert("fontVariant"@.len() == 11);
    reveal_strlit("fontWeight");
    assert("fontWeight"@.len() == 10);
    reveal_strlit("glyphName");
    assert("glyphName"@.len() == 9);
    reveal_strlit("glyphOrientationHorizontal");
    assert("glyphOrientationHorizontal"@.len() == 26);
    reveal_strlit("glyphOrientationVertical");
    assert("glyphOrientationVertical"@.len() == 24);
    reveal_strlit("horizAdvX");
    assert("horizAdvX"@.len() == 9);
    reveal_strlit("htmlFor");
    assert("htmlFor"@.len() == 7);
    reveal_strlit("dangerouslySetInnerHTML");
    assert("dangerouslySetInnerHTML"@.len() == 23);
    reveal_strlit("ref");
    assert("ref"@.len() == 3);
    reveal_strlit("key");
    assert("key"@.len() == 3);
    assert("horizOriginX"@[0] == 'h' && "horizOriginX"@[1] == 'o');
}

proof fn lemma_table_has_image_rendering()
    ensures
        attr_action("imageRendering"@) == AttrActionView::Use("image-rendering"@),
{
    reveal_strlit("imageRendering");
    assert("imageRendering"@.len() == 14);
    reveal_strlit("image-rendering");
    reveal_strlit("className");
    assert("className"@.len() == 9);
    reveal_strlit("accentHeight");
    assert("accentHeight"@.len() == 12);
    reveal_strlit("alignmentBaseline");
    assert("alignmentBaseline"@.len() == 17);
    reveal_strlit("arabicForm");
    assert("arabicForm"@.len() == 10);
    reveal_strlit("baselineShift");
    assert("baselineShift"@.len() == 13);
    reveal_strlit("capHeight");
    assert("capHeight"@.len() == 9);
    reveal_strlit("clipPath");
    assert("clipPath"@.len() == 8);
    reveal_strlit("clipRule");
    assert("clipRule"@.len() == 8);
    reveal_strlit("colorInterpolation");
    assert("colorInterpolation"@.len() == 18);
    reveal_strlit("colorInterpolationFilters");
    assert("colorInterpolationFilters"@.len() == 25);
    reveal_strlit("colorProfile");
    assert("colorProfile"@.len() == 12);
    reveal_strlit("colorRendering");
    assert("colorRendering"@[0] != "imageRendering"@[0]);
    reveal_strlit("dominantBaseline");
    assert("dominantBaseline"@.len() == 16);
    reveal_strlit("enableBackground");
    assert("enableBackground"@.len() == 16);
    reveal_strlit("fillOpacity");
    assert("fillOpacity"@.len() == 11);
    reveal_strlit("fillRule");
    assert("fillRule"@.len() == 8);
    reveal_strlit("floodColor");
    assert("floodColor"@.len() == 10);
    reveal_strlit("floodOpacity");
    assert("floodOpacity"@.len() == 12);
    reveal_strlit("fontFamily");
    assert("fontFamily"@.len() == 10);
    reveal_strlit("fontSize");
    assert("fontSize"@.len() == 8);
    reveal_strlit("fontSizeAdjust");
    assert("fontSizeAdjust"@[0] != "imageRendering"@[0]);
    reveal_strlit("fontStretch");
    assert("fontStretch"@.len() == 11);
    reveal_strlit("fontStyle");
    assert("fontStyle"@.len() == 9);
    reveal_strlit("fontVariant");
    assert("fontVariant"@.len() == 11);
    reveal_strlit("fontWeight");
    assert("fontWeight"@.len() == 10);
    reveal_strlit("glyphName");
    assert("glyphName"@.len() == 9);
    reveal_strlit("glyphOrientationHorizontal");
    assert("glyphOrientationHorizontal"@.len() == 26);
    reveal_strlit("glyphOrientationVertical");
    assert("glyphOrientationVertical"@.len() == 24);
    reveal_strlit("horizAdvX");
    assert("horizAdvX"@.len() == 9);
    reveal_strlit("horizOriginX");
    assert("horizOriginX"@.len() == 12);
    reveal_strlit("htmlFor");
    assert("htmlFor"@.len() == 7);
    reveal_strlit("dangerouslySetInnerHTML");
    assert("dangerouslySetInnerHTML"@.len() == 23);
    reveal_strlit("ref");
    assert("ref"@.len() == 3);
    reveal_strlit("key");
    assert("key"@.len() == 3);
    assert("imageRendering"@[0] == 'i' && "imageRendering"@[1] == 'm');
}

proof fn lemma_table_has_letter_spacing()
    ensures
        attr_action("letterSpacing"@) == AttrActionView::Use("letter-spacing"@),
{
    reveal_strlit("letterSpacing");
    assert("letterSpacing"@.len() == 13);
    reveal_strlit("letter-spacing");
    reveal_strlit("className");
    assert("className"@.len() == 9);
    reveal_strlit("accentHeight");
    assert("accentHeight"@.len() == 12);
    reveal_strlit("alignmentBaseline");
    assert("alignmentBaseline"@.len() == 17);
    reveal_strlit("arabicForm");
    assert("arabicForm"@.len() == 10);
    reveal_strlit("baselineShift");
    assert("baselineShift"@[0] != "letterSpacing"@[0]);
    reveal_strlit("capHeight");
    assert("capHeight"@.len() == 9);
    reveal_strlit("clipPath");
    assert("clipPath"@.len() == 8);
    reveal_strlit("clipRule");
    assert("clipRule"@.len() == 8);
    reveal_strlit("colorInterpolation");
    assert("colorInterpolation"@.len() == 18);
    reveal_strlit("colorInterpolationFilters");
    assert("colorInterpolationFilters"@.len() == 25);
    reveal_strlit("colorProfile");
    assert("colorProfile"@.len() == 12);
    reveal_strlit("colorRendering");
    assert("colorRendering"@.len() == 14);
    reveal_strlit("dominantBaseline");
    assert("dominantBaseline"@.len() == 16);
    reveal_strlit("enableBackground");
    assert("enableBackground"@.len() == 16);
    reveal_strlit("fillOpacity");
    assert("fillOpacity"@.len() == 11);
    reveal_strlit("fillRule");
    assert("fillRule"@.len() == 8);
    reveal_strlit("floodColor");
    assert("floodColor"@.len() == 10);
    reveal_strlit("floodOpacity");
    assert("floodOpacity"@.len() == 12);
    reveal_strlit("fontFamily");
    assert("fontFamily"@.len() == 10);
    reveal_strlit("fontSize");
    assert("fontSize"@.len() == 8);
    reveal_strlit("fontSizeAdjust");
    assert("fontSizeAdjust"@.len() == 14);
    reveal_strlit("fontStretch");
    assert("fontStretch"@.len() == 11);
    reveal_strlit("fontStyle");
    assert("fontStyle"@.len() == 9);
    reveal_strlit("fontVariant");
    assert("fontVariant"@.len() == 11);
    reveal_strlit("fontWeight");
    assert("fontWeight"@.len() == 10);
    reveal_strlit("glyphName");
    assert("glyphName"@.len() == 9);
    reveal_strlit("glyphOrientationHorizontal");
    assert("glyphOrientationHorizontal"@.len() == 26);
    reveal_strlit("glyphOrientationVertical");
    assert("glyphOrientationVertical"@.len() == 24);
    reveal_strlit("horizAdvX");
    assert("horizAdvX"@.len() == 9);
    reveal_strlit("horizOriginX");
    assert("horizOriginX"@.len() == 12);
    reveal_strlit("imageRendering");
    assert("imageRendering"@.len() == 14);
    reveal_strlit("htmlFor");
    assert("htmlFor"@.len() == 7);
    reveal_strlit("dangerouslySetInnerHTML");
    assert("dangerouslySetInnerHTML"@.len() == 23);
    reveal_strlit("ref");
    assert("ref"@.len() == 3);
    reveal_strlit("key");
    assert("key"@.len() == 3);
    assert("letterSpacing"@[0] == 'l' && "letterSpacing"@[1] == 'e');
}

proof fn lemma_table_has_lighting_color()
    ensures
        attr_action("lightingColor"@) == AttrActionView::Use("lighting-color"@),
{
    reveal_strlit("lightingColor");
    assert("lightingColor"@.len() == 13);
    reveal_strlit("lighting-color");
    reveal_strlit("className");
    assert("className"@.len() == 9);
    reveal_strlit("accentHeight");
    assert("accentHeight"@.len() == 12);
    reveal_strlit("alignmentBaseline");
    assert("alignmentBaseline"@.len() == 17);
    reveal_strlit("arabicForm");
    assert("arabicForm"@.len() == 10);
    reveal_strlit("baselineShift");
    assert("baselineShift"@[0] != "lightingColor"@[0]);
    reveal_strlit("capHeight");
    assert("capHeight"@.len() == 9);
    reveal_strlit("clipPath");
    assert("clipPath"@.len() == 8);
    reveal_strlit("clipRule");
    assert("clipRule"@.len() == 8);
    reveal_strlit("colorInterpolation");
    assert("colorInterpolation"@.len() == 18);
    reveal_strlit("colorInterpolationFilters");
    assert("colorInterpolationFilters"@.len() == 25);
    reveal_strlit("colorProfile");
    assert("colorProfile"@.len() == 12);
    reveal_strlit("colorRendering");
    assert("colorRendering"@.len() == 14);
    reveal_strlit("dominantBaseline");
    assert("dominantBaseline"@.len() == 16);
    reveal_strlit("enableBackground");
    assert("enableBackground"@.len() == 16);
    reveal_strlit("fillOpacity");
    assert("fillOpacity"@.len() == 11);
    reveal_strlit("fillRule");
    assert("fillRule"@.len() == 8);
    reveal_strlit("floodColor");
    assert("floodColor"@.len() == 10);
    reveal_strlit("floodOpacity");
    assert("floodOpacity"@.len() == 12);
    reveal_strlit("fontFamily");
    assert("fontFamily"@.len() == 10);
    reveal_strlit("fontSize");
    assert("fontSize"@.len() == 8);
    reveal_strlit("fontSizeAdjust");
    assert("fontSizeAdjust"@.len() == 14);
    reveal_strlit("fontStretch");
    assert("fontStretch"@.len() == 11);
    reveal_strlit("fontStyle");
    assert("fontStyle"@.len() == 9);
    reveal_strlit("fontVariant");
    assert("fontVariant"@.len() == 11);
    reveal_strlit("fontWeight");
    assert("fontWeight"@.len() == 10);
    reveal_strlit("glyphName");
    assert("glyphName"@.len() == 9);
    reveal_strlit("glyphOrientationHorizontal");
    assert("glyphOrientationHorizontal"@.len() == 26);
    reveal_strlit("glyphOrientationVertical");
    assert("glyphOrientationVertical"@.len() == 24);
    reveal_strlit("horizAdvX");
    assert("horizAdvX"@.len() == 9);
    reveal_strlit("horizOriginX");
    assert("horizOriginX"@.len() == 12);
    reveal_strlit("imageRendering");
    assert("imageRendering"@.len() == 14);
    reveal_strlit("letterSpacing");
    assert("letterSpacing"@[1] != "lightingColor"@[1]);
    reveal_strlit("htmlFor");
    assert("htmlFor"@.len() == 7);
    reveal_strlit("dangerouslySetInnerHTML");
    assert("dangerouslySetInnerHTML"@.len() == 23);
    reveal_strlit("ref");
    assert("ref"@.len() == 3);
    reveal_strlit("key");
    assert("key"@.len() == 3);
    assert("lightingColor"@[0] == 'l' && "lightingColor"@[1] == 'i');
}

proof fn lemma_table_has_marker_end()
    ensures
        attr_action("markerEnd"@) == AttrActionView::Use("marker-end"@),
{
    reveal_strlit("markerEnd");
    assert("markerEnd"@.len() == 9);
    reveal_strlit("marker-end");
    reveal_strlit("className");
    assert("className"@[0] != "markerEnd"@[0]);
    reveal_strlit("accentHeight");
    assert("accentHeight"@.len() == 12);
    reveal_strlit("alignmentBaseline");
    assert("alignmentBaseline"@.len() == 17);
    reveal_strlit("arabicForm");
    assert("arabicForm"@.len() == 10);
    reveal_strlit("baselineShift");
    assert("baselineShift"@.len() == 13);
    reveal_strlit("capHeight");
    assert("capHeight"@[0] != "markerEnd"@[0]);
    reveal_strlit("clipPath");
    assert("clipPath"@.len() == 8);
    reveal_strlit("clipRule");
    assert("clipRule"@.len() == 8);
    reveal_strlit("colorInterpolation");
    assert("colorInterpolation"@.len() == 18);
    reveal_strlit("colorInterpolationFilters");
    assert("colorInterpolationFilters"@.len() == 25);
    reveal_strlit("colorProfile");
    assert("colorProfile"@.len() == 12);
    reveal_strlit("colorRendering");
    assert("colorRendering"@.len() == 14);
    reveal_strlit("dominantBaseline");
    assert("dominantBaseline"@.len() == 16);
    reveal_strlit("enableBackground");
    assert("enableBackground"@.len() == 16);
    reveal_strlit("fillOpacity");
    assert("fillOpacity"@.len() == 11);
    reveal_strlit("fillRule");
    assert("fillRule"@.len() == 8);
    reveal_strlit("floodColor");
    assert("floodColor"@.len() == 10);
    reveal_strlit("floodOpacity");
    assert("floodOpacity"@.len() == 12);
    reveal_strlit("fontFamily");
    assert("fontFamily"@.len() == 10);
    reveal_strlit("fontSize");
    assert("fontSize"@.len() == 8);
    reveal_strlit("fontSizeAdjust");
    assert("fontSizeAdjust"@.len() == 14);
    reveal_strlit("fontStretch");
    assert("fontStretch"@.len() == 11);
    reveal_strlit("fontStyle");
    assert("fontStyle"@[0] != "markerEnd"@[0]);
    reveal_strlit("fontVariant");
    assert("fontVariant"@.len() == 11);
    reveal_strlit("fontWeight");
    assert("fontWeight"@.len() == 10);
    reveal_strlit("glyphName");
    assert("glyphName"@[0] != "markerEnd"@[0]);
    reveal_strlit("glyphOrientationHorizontal");
    assert("glyphOrientationHorizontal"@.len() == 26);
    reveal_strlit("glyphOrientationVertical");
    assert("glyphOrientationVertical"@.len() == 24);
    reveal_strlit("horizAdvX");
    assert("horizAdvX"@[0] != "markerEnd"@[0]);
    reveal_strlit("horizOriginX");
    assert("horizOriginX"@.len() == 12);
    reveal_strlit("imageRendering");
    assert("imageRendering"@.len() == 14);
    reveal_strlit("letterSpacing");
    assert("letterSpacing"@.len() == 13);
    reveal_strlit("lightingColor");
    assert("lightingColor"@.len() == 13);
    reveal_strlit("htmlFor");
    assert("htmlFor"@.len() == 7);
    reveal_strlit("dangerouslySetInnerHTML");
    assert("dangerouslySetInnerHTML"@.len() == 23);
    reveal_strlit("ref");
    assert("ref"@.len() == 3);
    reveal_strlit("key");
    assert("key"@.len() == 3);
    assert("markerEnd"@[0] == 'm' && "markerEnd"@[1] == 'a');
}

proof fn lemma_table_has_marker_mid()
    ensures
        attr_action("markerMid"@) == AttrActionView::Use("marker-mid"@),
{
    reveal_strlit("markerMid");
    assert("markerMid"@.len() == 9);
    reveal_strlit("marker-mid");
    reveal_strlit("className");
    assert("className"@[0] != "markerMid"@[0]);
    reveal_strlit("accentHeight");
    assert("accentHeight"@.len() == 12);
    reveal_strlit("alignmentBaseline");
    assert("alignmentBaseline"@.len() == 17);
    reveal_strlit("arabicForm");
    assert("arabicForm"@.len() == 10);
    reveal_strlit("baselineShift");
    assert("baselineShift"@.len() == 13);
    reveal_strlit("capHeight");
    assert("capHeight"@[0] != "markerMid"@[0]);
    reveal_strlit("clipPath");
    assert("clipPath"@.len() == 8);
    reveal_strlit("clipRule");
    assert("clipRule"@.len() == 8);
    reveal_strlit("colorInterpolation");
    assert("colorInterpolation"@.len() == 18);
    reveal_strlit("colorInterpolationFilters");
    assert("colorInterpolationFilters"@.len() == 25);
    reveal_strlit("colorProfile");
    assert("colorProfile"@.len() == 12);
    reveal_strlit("colorRendering");
    assert("colorRendering"@.len() == 14);
    reveal_strlit("dominantBaseline");
    assert("dominantBaseline"@.len() == 16);
    reveal_strlit("enableBackground");
    assert("enableBackground"@.len() == 16);
    reveal_strlit("fillOpacity");
    assert("fillOpacity"@.len() == 11);
    reveal_strlit("fillRule");
    assert("fillRule"@.len() == 8);
    reveal_strlit("floodColor");
    assert("floodColor"@.len() == 10);
    reveal_strlit("floodOpacity");
    assert("floodOpacity"@.len() == 12);
    reveal_strlit("fontFamily");
    assert("fontFamily"@.len() == 10);
    reveal_strlit("fontSize");
    assert("fontSize"@.len() == 8);
    reveal_strlit("fontSizeAdjust");
    assert("fontSizeAdjust"@.len() == 14);
    reveal_strlit("fontStretch");
    assert("fontStretch"@.len() == 11);
    reveal_strlit("fontStyle");
    assert("fontStyle"@[0] != "markerMid"@[0]);
    reveal_strlit("fontVariant");
    assert("fontVariant"@.len() == 11);
    reveal_strlit("fontWeight");
    assert("fontWeight"@.len() == 10);
    reveal_strlit("glyphName");
    assert("glyphName"@[0] != "markerMid"@[0]);
    reveal_strlit("glyphOrientationHorizontal");
    assert("glyphOrientationHorizontal"@.len() == 26);
    reveal_strlit("glyphOrientationVertical");
    assert("glyphOrientationVertical"@.len() == 24);
    reveal_strlit("horizAdvX");
    assert("horizAdvX"@[0] != "markerMid"@[0]);
    reveal_strlit("horizOriginX");
    assert("horizOriginX"@.len() == 12);
    reveal_strlit("imageRendering");
    assert("imageRendering"@.len() == 14);
    reveal_strlit("letterSpacing");
    assert("letterSpacing"@.len() == 13);
    reveal_strlit("lightingColor");
    assert("lightingColor"@.len() == 13);
    reveal_strlit("markerEnd");
    assert("markerEnd"@[6] != "markerMid"@[6]);
    reveal_strlit("htmlFor");
    assert("htmlFor"@.len() == 7);
    reveal_strlit("dangerouslySetInnerHTML");
    assert("dangerouslySetInnerHTML"@.len() == 23);
    reveal_strlit("ref");
    assert("ref"@.len() == 3);
    reveal_strlit("key");
    assert("key"@.len() == 3);
    assert("markerMid"@[0] == 'm' && "markerMid"@[1] == 'a');
}

proof fn lemma_table_has_marker_start()
    ensures
        attr_action("markerStart"@) == AttrActionView::Use("marker-start"@),
{
    reveal_strlit("markerStart");
    assert("markerStart"@.len() == 11);
    reveal_strlit("marker-start");
    reveal_strlit("className");
    assert("className"@.len() == 9);
    reveal_strlit("accentHeight");
    assert("accentHeight"@.len() == 12);
    reveal_strlit("alignmentBaseline");
    assert("alignmentBaseline"@.len() == 17);
    reveal_strlit("arabicForm");
    assert("arabicForm"@.len() == 10);
    reveal_strlit("baselineShift");
    assert("baselineShift"@.len() == 13);
    reveal_strlit("capHeight");
    assert("capHeight"@.len() == 9);
    reveal_strlit("clipPath");
    assert("clipPath"@.len() == 8);
    reveal_strlit("clipRule");
    assert("clipRule"@.len() == 8);
    reveal_strlit("colorInterpolation");
    assert("colorInterpolation"@.len() == 18);
    reveal_strlit("colorInterpolationFilters");
    assert("colorInterpolationFilters"@.len() == 25);
    reveal_strlit("colorProfile");
    assert("colorProfile"@.len() == 12);
    reveal_strlit("colorRendering");
    assert("colorRendering"@.len() == 14);
    reveal_strlit("dominantBaseline");
    assert("dominantBaseline"@.len() == 16);
    reveal_strlit("enableBackground");
    assert("enableBackground"@.len() == 16);
    reveal_strlit("fillOpacity");
    assert("fillOpacity"@[0] != "markerStart"@[0]);
    reveal_strlit("fillRule");
    assert("fillRule"@.len() == 8);
    reveal_strlit("floodColor");
    assert("floodColor"@.len() == 10);
    reveal_strlit("floodOpacity");
    assert("floodOpacity"@.len() == 12);
    reveal_strlit("fontFamily");
    assert("fontFamily"@.len() == 10);
    reveal_strlit("fontSize");
    assert("fontSize"@.len() == 8);
    reveal_strlit("fontSizeAdjust");
    assert("fontSizeAdjust"@.len() == 14);
    reveal_strlit("fontStretch");
    assert("fontStretch"@[0] != "markerStart"@[0]);
    reveal_strlit("fontStyle");
    assert("fontStyle"@.len() == 9);
    reveal_strlit("fontVariant");
    assert("fontVariant"@[0] != "markerStart"@[0]);
    reveal_strlit("fontWeight");
    assert("fontWeight"@.len() == 10);
    reveal_strlit("glyphName");
    assert("glyphName"@.len() == 9);
    reveal_strlit("glyphOrientationHorizontal");
    assert("glyphOrientationHorizontal"@.len() == 26);
    reveal_strlit("glyphOrientationVertical");
    assert("glyphOrientationVertical"@.len() == 24);
    reveal_strlit("horizAdvX");
    assert("horizAdvX"@.len() == 9);
    reveal_strlit("horizOriginX");
    assert("horizOriginX"@.len() == 12);
    reveal_strlit("imageRendering");
    assert("imageRendering"@.len() == 14);
    reveal_strlit("letterSpacing");
    assert("letterSpacing"@.len() == 13);
    reveal_strlit("lightingColor");
    assert("lightingColor"@.len() == 13);
    reveal_strlit("markerEnd");
    assert("markerEnd"@.len() == 9);
    reveal_strlit("markerMid");
    assert("markerMid"@.len() == 9);
    reveal_strlit("htmlFor");
    assert("htmlFor"@.len() == 7);
    reveal_strlit("dangerouslySetInnerHTML");
    assert("dangerouslySetInnerHTML"@.len() == 23);
    reveal_strlit("ref");
    assert("ref"@.len() == 3);
    reveal_strlit("key");
    assert("key"@.len() == 3);
    assert("markerStart"@[0] == 'm' && "markerStart"@[1] == 'a');
}

proof fn lemma_table_has_overline_position()
    ensures
        attr_action("overlinePosition"@) == AttrActionView::Use("overline-position"@),
{
    reveal_strlit("overlinePosition");
    assert("overlinePosition"@.len() == 16);
    reveal_strlit("overline-position");
    reveal_strlit("className");
    assert("className"@.len() == 9);
    reveal_strlit("accentHeight");
    assert("accentHeight"@.len() == 12);
    reveal_strlit("alignmentBaseline");
    assert("alignmentBaseline"@.len() == 17);
    reveal_strlit("arabicForm");
    assert("arabicForm"@.len() == 10);
    reveal_strlit("baselineShift");
    assert("baselineShift"@.len() == 13);
    reveal_strlit("capHeight");
    assert("capHeight"@.len() == 9);
    reveal_strlit("clipPath");
    assert("clipPath"@.len() == 8);
    reveal_strlit("clipRule");
    assert("clipRule"@.len() == 8);
    reveal_strlit("colorInterpolation");
    assert("colorInterpolation"@.len() == 18);
    reveal_strlit("colorInterpolationFilters");
    assert("colorInterpolationFilters"@.len() == 25);
    reveal_strlit("colorProfile");
    assert("colorProfile"@.len() == 12);
    reveal_strlit("colorRendering");
    assert("colorRendering"@.len() == 14);
    reveal_strlit("dominantBaseline");
    assert("dominantBaseline"@[0] != "overlinePosition"@[0]);
    reveal_strlit("enableBackground");
    assert("enableBackground"@[0] != "overlinePosition"@[0]);
    reveal_strlit("fillOpacity");
    assert("fillOpacity"@.len() == 11);
    reveal_strlit("fillRule");
    assert("fillRule"@.len() == 8);
    reveal_strlit("floodColor");
    assert("floodColor"@.len() == 10);
    reveal_strlit("floodOpacity");
    assert("floodOpacity"@.len() == 12);
    reveal_strlit("fontFamily");
    assert("fontFamily"@.len() == 10);
    reveal_strlit("fontSize");
    assert("fontSize"@.len() == 8);
    reveal_strlit("fontSizeAdjust");
    assert("fontSizeAdjust"@.len() == 14);
    reveal_strlit("fontStretch");
    assert("fontStretch"@.len() == 11);
    reveal_strlit("fontStyle");
    assert("fontStyle"@.len() == 9);
    reveal_strlit("fontVariant");
    assert("fontVariant"@.len() == 11);
    reveal_strlit("fontWeight");
    assert("fontWeight"@.len() == 10);
    reveal_strlit("glyphName");
    assert("glyphName"@.len() == 9);
    reveal_strlit("glyphOrientationHorizontal");
    assert("glyphOrientationHorizontal"@.len() == 26);
    reveal_strlit("glyphOrientationVertical");
    assert("glyphOrientationVertical"@.len() == 24);
    reveal_strlit("horizAdvX");
    assert("horizAdvX"@.len() == 9);
    reveal_strlit("horizOriginX");
    assert("horizOriginX"@.len() == 12);
    reveal_strlit("imageRendering");
    assert("imageRendering"@.len() == 14);
    reveal_strlit("letterSpacing");
    assert("letterSpacing"@.len() == 13);
    reveal_strlit("lightingColor");
    assert("lightingColor"@.len() == 13);
    reveal_strlit("markerEnd");
    assert("markerEnd"@.len() == 9);
    reveal_strlit("markerMid");
    assert("markerMid"@.len() == 9);
    reveal_strlit("markerStart");
    assert("markerStart"@.len() == 11);
    reveal_strlit("htmlFor");
    assert("htmlFor"@.len() == 7);
    reveal_strlit("dangerouslySetInnerHTML");
    assert("dangerouslySetInnerHTML"@.len() == 23);
    reveal_strlit("ref");
    assert("ref"@.len() == 3);
    reveal_strlit("key");
    assert("key"@.len() == 3);
    assert("overlinePosition"@[0] == 'o' && "overlinePosition"@[1] == 'v');
}

proof fn lemma_table_has_overline_thickness()
    ensures
        attr_action("overlineThickness"@) == AttrActionView::Use("overline-thickness"@),
{
    reveal_strlit("overlineThickness");
    assert("overlineThickness"@.len() == 17);
    reveal_strlit("overline-thickness");
    reveal_strlit("className");
    assert("className"@.len() == 9);
    reveal_strlit("accentHeight");
    assert("accentHeight"@.len() == 12);
    reveal_strlit("alignmentBaseline");
    assert("alignmentBaseline"@[0] != "overlineThickness"@[0]);
    reveal_strlit("arabicForm");
    assert("arabicForm"@.len() == 10);
    reveal_strlit("baselineShift");
    assert("baselineShift"@.len() == 13);
    reveal_strlit("capHeight");
    assert("capHeight"@.len() == 9);
    reveal_strlit("clipPath");
    assert("clipPath"@.len() == 8);
    reveal_strlit("clipRule");
    assert("clipRule"@.len() == 8);
    reveal_strlit("colorInterpolation");
    assert("colorInterpolation"@.len() == 18);
    reveal_strlit("colorInterpolationFilters");
    assert("colorInterpolationFilters"@.len() == 25);
    reveal_strlit("colorProfile");
    assert("colorProfile"@.len() == 12);
    reveal_strlit("colorRendering");
    assert("colorRendering"@.len() == 14);
    reveal_strlit("dominantBaseline");
    assert("dominantBaseline"@.len() == 16);
    reveal_strlit("enableBackground");
    assert("enableBackground"@.len() == 16);
    reveal_strlit("fillOpacity");
    assert("fillOpacity"@.len() == 11);
    reveal_strlit("fillRule");
    assert("fillRule"@.len() == 8);
    reveal_strlit("floodColor");
    assert("floodColor"@.len() == 10);
    reveal_strlit("floodOpacity");
    assert("floodOpacity"@.len() == 12);
    reveal_strlit("fontFamily");
    assert("fontFamily"@.len() == 10);
    reveal_strlit("fontSize");
    assert("fontSize"@.len() == 8);
    reveal_strlit("fontSizeAdjust");
    assert("fontSizeAdjust"@.len() == 14);
    reveal_strlit("fontStretch");
    assert("fontStretch"@.len() == 11);
    reveal_strlit("fontStyle");
    assert("fontStyle"@.len() == 9);
    reveal_strlit("fontVariant");
    assert("fontVariant"@.len() == 11);
    reveal_strlit("fontWeight");
    assert("fontWeight"@.len() == 10);
    reveal_strlit("glyphName");
    assert("glyphName"@.len() == 9);
    reveal_strlit("glyphOrientationHorizontal");
    assert("glyphOrientationHorizontal"@.len() == 26);
    reveal_strlit("glyphOrientationVertical");
    assert("glyphOrientationVertical"@.len() == 24);
    reveal_strlit("horizAdvX");
    assert("horizAdvX"@.len() == 9);
    reveal_strlit("horizOriginX");
    assert("horizOriginX"@.len() == 12);
    reveal_strlit("imageRendering");
    assert("imageRendering"@.len() == 14);
    reveal_strlit("letterSpacing");
    assert("letterSpacing"@.len() == 13);
    reveal_strlit("lightingColor");
    assert("lightingColor"@.len() == 13);
    reveal_strlit("markerEnd");
    assert("markerEnd"@.len() == 9);
    reveal_strlit("markerMid");
    assert("markerMid"@.len() == 9);
    reveal_strlit("markerStart");
    assert("markerStart"@.len() == 11);
    reveal_strlit("overlinePosition");
    assert("overlinePosition"@.len() == 16);
    reveal_strlit("htmlFor");
    assert("htmlFor"@.len() == 7);
    reveal_strlit("dangerouslySetInnerHTML");
    assert("dangerouslySetInnerHTML"@.len() == 23);
    reveal_strlit("ref");
    assert("ref"@.len() == 3);
    reveal_strlit("key");
    assert("key"@.len() == 3);
    assert("overlineThickness"@[0] == 'o' && "overlineThickness"@[1] == 'v');
}

proof fn lemma_table_has_paint_order()
    ensures
        attr_action("paintOrder"@) == AttrActionView::Use("paint-order"@),
{
    reveal_strlit("paintOrder");
    assert("paintOrder"@.len() == 10);
    reveal_strlit("paint-order");
    reveal_strlit("className");
    assert("className"@.len() == 9);
    reveal_strlit("accentHeight");
    assert("accentHeight"@.len() == 12);
    reveal_strlit("alignmentBaseline");
    assert("alignmentBaseline"@.len() == 17);
    reveal_strlit("arabicForm");
    assert("arabicForm"@[0] != "paintOrder"@[0]);
    reveal_strlit("baselineShift");
    assert("baselineShift"@.len() == 13);
    reveal_strlit("capHeight");
    assert("capHeight"@.len() == 9);
    reveal_strlit("clipPath");
    assert("clipPath"@.len() == 8);
    reveal_strlit("clipRule");
    assert("clipRule"@.len() == 8);
    reveal_strlit("colorInterpolation");
    assert("colorInterpolation"@.len() == 18);
    reveal_strlit("colorInterpolationFilters");
    assert("colorInterpolationFilters"@.len() == 25);
    reveal_strlit("colorProfile");
    assert("colorProfile"@.len() == 12);
    reveal_strlit("colorRendering");
    assert("colorRendering"@.len() == 14);
    reveal_strlit("dominantBaseline");
    assert("dominantBaseline"@.len() == 16);
    reveal_strlit("enableBackground");
    assert("enableBackground"@.len() == 16);
    reveal_strlit("fillOpacity");
    assert("fillOpacity"@.len() == 11);
    reveal_strlit("fillRule");
    assert("fillRule"@.len() == 8);
    reveal_strlit("floodColor");
    assert("floodColor"@[0] != "paintOrder"@[0]);
    reveal_strlit("floodOpacity");
    assert("floodOpacity"@.len() == 12);
    reveal_strlit("fontFamily");
    assert("fontFamily"@[0] != "paintOrder"@[0]);
    reveal_strlit("fontSize");
    assert("fontSize"@.len() == 8);
    reveal_strlit("fontSizeAdjust");
    assert("fontSizeAdjust"@.len() == 14);
    reveal_strlit("fontStretch");
    assert("fontStretch"@.len() == 11);
    reveal_strlit("fontStyle");
    assert("fontStyle"@.len() == 9);
    reveal_strlit("fontVariant");
    assert("fontVariant"@.len() == 11);
    reveal_strlit("fontWeight");
    assert("fontWeight"@[0] != "paintOrder"@[0]);
    reveal_strlit("glyphName");
    assert("glyphName"@.len() == 9);
    reveal_strlit("glyphOrientationHorizontal");
    assert("glyphOrientationHorizontal"@.len() == 26);
    reveal_strlit("glyphOrientationVertical");
    assert("glyphOrientationVertical"@.len() == 24);
    reveal_strlit("horizAdvX");
    assert("horizAdvX"@.len() == 9);
    reveal_strlit("horizOriginX");
    assert("horizOriginX"@.len() == 12);
    reveal_strlit("imageRendering");
    assert("imageRendering"@.len() == 14);
    reveal_strlit("letterSpacing");
    assert("letterSpacing"@.len() == 13);
    reveal_strlit("lightingColor");
    assert("lightingColor"@.len() == 13);
    reveal_strlit("markerEnd");
    assert("markerEnd"@.len() == 9);
    reveal_strlit("markerMid");
    assert("markerMid"@.len() == 9);
    reveal_strlit("markerStart");
    assert("markerStart"@.len() == 11);
    reveal_strlit("overlinePosition");
    assert("overlinePosition"@.len() == 16);
    reveal_strlit("overlineThickness");
    assert("overlineThickness"@.len() == 17);
    reveal_strlit("htmlFor");
    assert("htmlFor"@.len() == 7);
    reveal_strlit("dangerouslySetInnerHTML");
    assert("dangerouslySetInnerHTML"@.len() == 23);
    reveal_strlit("ref");
    assert("ref"@.len() == 3);
    reveal_strlit("key");
    assert("key"@.len() == 3);
    assert("paintOrder"@[0] == 'p' && "paintOrder"@[1] == 'a');
}

proof fn lemma_table_has_panose_1()
    ensures
        attr_action("panose1"@) == AttrActionView::Use("panose-1"@),
{
    reveal_strlit("panose1");
    assert("panose1"@.len() == 7);
    reveal_strlit("panose-1");
    reveal_strlit("className");
    assert("className"@.len() == 9);
    reveal_strlit("accentHeight");
    assert("accentHeight"@.len() == 12);
    reveal_strlit("alignmentBaseline");
    assert("alignmentBaseline"@.len() == 17);
    reveal_strlit("arabicForm");
    assert("arabicForm"@.len() == 10);
    reveal_strlit("baselineShift");
    assert("baselineShift"@.len() == 13);
    reveal_strlit("capHeight");
    assert("capHeight"@.len() == 9);
    reveal_strlit("clipPath");
    assert("clipPath"@.len() == 8);
    reveal_strlit("clipRule");
    assert("clipRule"@.len() == 8);
    reveal_strlit("colorInterpolation");
    assert("colorInterpolation"@.len() == 18);
    reveal_strlit("colorInterpolationFilters");
    assert("colorInterpolationFilters"@.len() == 25);
    reveal_strlit("colorProfile");
    assert("colorProfile"@.len() == 12);
    reveal_strlit("colorRendering");
    assert("colorRendering"@.len() == 14);
    reveal_strlit("dominantBaseline");
    assert("dominantBaseline"@.len() == 16);
    reveal_strlit("enableBackground");
    assert("enableBackground"@.len() == 16);
    reveal_strlit("fillOpacity");
    assert("fillOpacity"@.len() == 11);
    reveal_strlit("fillRule");
    assert("fillRule"@.len() == 8);
    reveal_strlit("floodColor");
    assert("floodColor"@.len() == 10);
    reveal_strlit("floodOpacity");
    assert("floodOpacity"@.len() == 12);
    reveal_strlit("fontFamily");
    assert("fontFamily"@.len() == 10);
    reveal_strlit("fontSize");
    assert("fontSize"@.len() == 8);
    reveal_strlit("fontSizeAdjust");
    assert("fontSizeAdjust"@.len() == 14);
    reveal_strlit("fontStretch");
    assert("fontStretch"@.len() == 11);
    reveal_strlit("fontStyle");
    assert("fontStyle"@.len() == 9);
    reveal_strlit("fontVariant");
    assert("fontVariant"@.len() == 11);
    reveal_strlit("fontWeight");
    assert("fontWeight"@.len() == 10);
    reveal_strlit("glyphName");
    assert("glyphName"@.len() == 9);
    reveal_strlit("glyphOrientationHorizontal");
    assert("glyphOrientationHorizontal"@.len() == 26);
    reveal_strlit("glyphOrientationVertical");
    assert("glyphOrientationVertical"@.len() == 24);
    reveal_strlit("horizAdvX");
    assert("horizAdvX"@.len() == 9);
    reveal_strlit("horizOriginX");
    assert("horizOriginX"@.len() == 12);
    reveal_strlit("imageRendering");
    assert("imageRendering"@.len() == 14);
    reveal_strlit("letterSpacing");
    assert("letterSpacing"@.len() == 13);
    reveal_strlit("lightingColor");
    assert("lightingColor"@.len() == 13);
    reveal_strlit("markerEnd");
    assert("markerEnd"@.len() == 9);
    reveal_strlit("markerMid");
    assert("markerMid"@.len() == 9);
    reveal_strlit("markerStart");
    assert("markerStart"@.len() == 11);
    reveal_strlit("overlinePosition");
    assert("overlinePosition"@.len() == 16);
    reveal_strlit("overlineThickness");
    assert("overlineThickness"@.len() == 17);
    reveal_strlit("paintOrder");
    assert("paintOrder"@.len() == 10);
    reveal_strlit("htmlFor");
    assert("htmlFor"@[0] != "panose1"@[0]);
    reveal_strlit("dangerouslySetInnerHTML");
    assert("dangerouslySetInnerHTML"@.len() == 23);
    reveal_strlit("ref");
    assert("ref"@.len() == 3);
    reveal_strlit("key");
    assert("key"@.len() == 3);
    assert("panose1"@[0] == 'p' && "panose1"@[1] == 'a');
}

proof fn lemma_table_has_pointer_events()
    ensures
        attr_action("pointerEvents"@) == AttrActionView::Use("pointer-events"@),
{
    reveal_strlit("pointerEvents");
    assert("pointerEvents"@.len() == 13);
    reveal_strlit("pointer-events");
    reveal_strlit("className");
    assert("className"@.len() == 9);
    reveal_strlit("accentHeight");
    assert("accentHeight"@.len() == 12);
    reveal_strlit("alignmentBaseline");
    assert("alignmentBaseline"@.len() == 17);
    reveal_strlit("arabicForm");
    assert("arabicForm"@.len() == 10);
    reveal_strlit("baselineShift");
    assert("baselineShift"@[0] != "pointerEvents"@[0]);
    reveal_strlit("capHeight");
    assert("capHeight"@.len() == 9);
    reveal_strlit("clipPath");
    assert("clipPath"@.len() == 8);
    reveal_strlit("clipRule");
    assert("clipRule"@.len() == 8);
    reveal_strlit("colorInterpolation");
    assert("colorInterpolation"@.len() == 18);
    reveal_strlit("colorInterpolationFilters");
    assert("colorInterpolationFilters"@.len() == 25);
    reveal_strlit("colorProfile");
    assert("colorProfile"@.len() == 12);
    reveal_strlit("colorRendering");
    assert("colorRendering"@.len() == 14);
    reveal_strlit("dominantBaseline");
    assert("dominantBaseline"@.len() == 16);
    reveal_strlit("enableBackground");
    assert("enableBackground"@.len() == 16);
    reveal_strlit("fillOpacity");
    assert("fillOpacity"@.len() == 11);
    reveal_strlit("fillRule");
    assert("fillRule"@.len() == 8);
    reveal_strlit("floodColor");
    assert("floodColor"@.len() == 10);
    reveal_strlit("floodOpacity");
    assert("floodOpacity"@.len() == 12);
    reveal_strlit("fontFamily");
    assert("fontFamily"@.len() == 10);
    reveal_strlit("fontSize");
    assert("fontSize"@.len() == 8);
    reveal_strlit("fontSizeAdjust");
    assert("fontSizeAdjust"@.len() == 14);
    reveal_strlit("fontStretch");
    assert("fontStretch"@.len() == 11);
    reveal_strlit("fontStyle");
    assert("fontStyle"@.len() == 9);
    reveal_strlit("fontVariant");
    assert("fontVariant"@.len() == 11);
    reveal_strlit("fontWeight");
    assert("fontWeight"@.len() == 10);
    reveal_strlit("glyphName");
    assert("glyphName"@.len() == 9);
    reveal_strlit("glyphOrientationHorizontal");
    assert("glyphOrientationHorizontal"@.len() == 26);
    reveal_strlit("glyphOrientationVertical");
    assert("glyphOrientationVertical"@.len() == 24);
    reveal_strlit("horizAdvX");
    assert("horizAdvX"@.len() == 9);
    reveal_strlit("horizOriginX");
    assert("horizOriginX"@.len() == 12);
    reveal_strlit("imageRendering");
    assert("imageRendering"@.len() == 14);
    reveal_strlit("letterSpacing");
    assert("letterSpacing"@[0] != "pointerEvents"@[0]);
    reveal_strlit("lightingColor");
    assert("lightingColor"@[0] != "pointerEvents"@[0]);
    reveal_strlit("markerEnd");
    assert("markerEnd"@.len() == 9);
    reveal_strlit("markerMid");
    assert("markerMid"@.len() == 9);
    reveal_strlit("markerStart");
    assert("markerStart"@.len() == 11);
    reveal_strlit("overlinePosition");
    assert("overlinePosition"@.len() == 16);
    reveal_strlit("overlineThickness");
    assert("overlineThickness"@.len() == 17);
    reveal_strlit("paintOrder");
    assert("paintOrder"@.len() == 10);
    reveal_strlit("panose1");
    assert("panose1"@.len() == 7);
    reveal_strlit("htmlFor");
    assert("htmlFor"@.len() == 7);
    reveal_strlit("dangerouslySetInnerHTML");
    assert("dangerouslySetInnerHTML"@.len() == 23);
    reveal_strlit("ref");
    assert("ref"@.len() == 3);
    reveal_strlit("key");
    assert("key"@.len() == 3);
    assert("pointerEvents"@[0] == 'p' && "pointerEvents"@[1] == 'o');
}

proof fn lemma_table_has_rendering_intent()
    ensures
        attr_action("renderingIntent"@) == AttrActionView::Use("rendering-intent"@),
{
    reveal_strlit("renderingIntent");
    assert("renderingIntent"@.len() == 15);
    reveal_strlit("rendering-intent");
    reveal_strlit("className");
    assert("className"@.len() == 9);
    reveal_strlit("accentHeight");
    assert("accentHeight"@.len() == 12);
    reveal_strlit("alignmentBaseline");
    assert("alignmentBaseline"@.len() == 17);
    reveal_strlit("arabicForm");
    assert("arabicForm"@.len() == 10);
    reveal_strlit("baselineShift");
    assert("baselineShift"@.len() == 13);
    reveal_strlit("capHeight");
    assert("capHeight"@.len() == 9);
    reveal_strlit("clipPath");
    assert("clipPath"@.len() == 8);
    reveal_strlit("clipRule");
    assert("clipRule"@.len() == 8);
    reveal_strlit("colorInterpolation");
    assert("colorInterpolation"@.len() == 18);
    reveal_strlit("colorInterpolationFilters");
    assert("colorInterpolationFilters"@.len() == 25);
    reveal_strlit("colorProfile");
    assert("colorProfile"@.len() == 12);
    reveal_strlit("colorRendering");
    assert("colorRendering"@.len() == 14);
    reveal_strlit("dominantBaseline");
    assert("dominantBaseline"@.len() == 16);
    reveal_strlit("enableBackground");
    assert("enableBackground"@.len() == 16);
    reveal_strlit("fillOpacity");
    assert("fillOpacity"@.len() == 11);
    reveal_strlit("fillRule");
    assert("fillRule"@.len() == 8);
    reveal_strlit("floodColor");
    assert("floodColor"@.len() == 10);
    reveal_strlit("floodOpacity");
    assert("floodOpacity"@.len() == 12);
    reveal_strlit("fontFamily");
    assert("fontFamily"@.len() == 10);
    reveal_strlit("fontSize");
    assert("fontSize"@.len() == 8);
    reveal_strlit("fontSizeAdjust");
    assert("fontSizeAdjust"@.len() == 14);
    reveal_strlit("fontStretch");
    assert("fontStretch"@.len() == 11);
    reveal_strlit("fontStyle");
    assert("fontStyle"@.len() == 9);
    reveal_strlit("fontVariant");
    assert("fontVariant"@.len() == 11);
    reveal_strlit("fontWeight");
    assert("fontWeight"@.len() == 10);
    reveal_strlit("glyphName");
    assert("glyphName"@.len() == 9);
    reveal_strlit("glyphOrientationHorizontal");
    assert("glyphOrientationHorizontal"@.len() == 26);
    reveal_strlit("glyphOrientationVertical");
    assert("glyphOrientationVertical"@.len() == 24);
    reveal_strlit("horizAdvX");
    assert("horizAdvX"@.len() == 9);
    reveal_strlit("horizOriginX");
    assert("horizOriginX"@.len() == 12);
    reveal_strlit("imageRendering");
    assert("imageRendering"@.len() == 14);
    reveal_strlit("letterSpacing");
    assert("letterSpacing"@.len() == 13);
    reveal_strlit("lightingColor");
    assert("lightingColor"@.len() == 13);
    reveal_strlit("markerEnd");
    assert("markerEnd"@.len() == 9);
    reveal_strlit("markerMid");
    assert("markerMid"@.len() == 9);
    reveal_strlit("markerStart");
    assert("markerStart"@.len() == 11);
    reveal_strlit("overlinePosition");
    assert("overlinePosition"@.len() == 16);
    reveal_strlit("overlineThickness");
    assert("overlineThickness"@.len() == 17);
    reveal_strlit("paintOrder");
    assert("paintOrder"@.len() == 10);
    reveal_strlit("panose1");
    assert("panose1"@.len() == 7);
    reveal_strlit("pointerEvents");
    assert("pointerEvents"@.len() == 13);
    reveal_strlit("htmlFor");
    assert("htmlFor"@.len() == 7);
    reveal_strlit("dangerouslySetInnerHTML");
    assert("dangerouslySetInnerHTML"@.len() == 23);
    reveal_strlit("ref");
    assert("ref"@.len() == 3);
    reveal_strlit("key");
    assert("key"@.len() == 3);
    assert("renderingIntent"@[0] == 'r' && "renderingIntent"@[1] == 'e');
}

proof fn lemma_table_has_shape_rendering()
    ensures
        attr_action("shapeRendering"@) == AttrActionView::Use("shape-rendering"@),
{
    reveal_strlit("shapeRendering");
    assert("shapeRendering"@.len() == 14);
    reveal_strlit("shape-rendering");
    reveal_strlit("className");
    assert("className"@.len() == 9);
    reveal_strlit("accentHeight");
    assert("accentHeight"@.len() == 12);
    reveal_strlit("alignmentBaseline");
    assert("alignmentBaseline"@.len() == 17);
    reveal_strlit("arabicForm");
    assert("arabicForm"@.len() == 10);
    reveal_strlit("baselineShift");
    assert("baselineShift"@.len() == 13);
    reveal_strlit("capHeight");
    assert("capHeight"@.len() == 9);
    reveal_strlit("clipPath");
    assert("clipPath"@.len() == 8);
    reveal_strlit("clipRule");
    assert("clipRule"@.len() == 8);
    reveal_strlit("colorInterpolation");
    assert("colorInterpolation"@.len() == 18);
    reveal_strlit("colorInterpolationFilters");
    assert("colorInterpolationFilters"@.len() == 25);
    reveal_strlit("colorProfile");
    assert("colorProfile"@.len() == 12);
    reveal_strlit("colorRendering");
    assert("colorRendering"@[0] != "shapeRendering"@[0]);
    reveal_strlit("dominantBaseline");
    assert("dominantBaseline"@.len() == 16);
    reveal_strlit("enableBackground");
    assert("enableBackground"@.len() == 16);
    reveal_strlit("fillOpacity");
    assert("fillOpacity"@.len() == 11);
    reveal_strlit("fillRule");
    assert("fillRule"@.len() == 8);
    reveal_strlit("floodColor");
    assert("floodColor"@.len() == 10);
    reveal_strlit("floodOpacity");
    assert("floodOpacity"@.len() == 12);
    reveal_strlit("fontFamily");
    assert("fontFamily"@.len() == 10);
    reveal_strlit("fontSize");
    assert("fontSize"@.len() == 8);
    reveal_strlit("fontSizeAdjust");
    assert("fontSizeAdjust"@[0] != "shapeRendering"@[0]);
    reveal_strlit("fontStretch");
    assert("fontStretch"@.len() == 11);
    reveal_strlit("fontStyle");
    assert("fontStyle"@.len() == 9);
    reveal_strlit("fontVariant");
    assert("fontVariant"@.len() == 11);
    reveal_strlit("fontWeight");
    assert("fontWeight"@.len() == 10);
    reveal_strlit("glyphName");
    assert("glyphName"@.len() == 9);
    reveal_strlit("glyphOrientationHorizontal");
    assert("glyphOrientationHorizontal"@.len() == 26);
    reveal_strlit("glyphOrientationVertical");
    assert("glyphOrientationVertical"@.len() == 24);
    reveal_strlit("horizAdvX");
    assert("horizAdvX"@.len() == 9);
    reveal_strlit("horizOriginX");
    assert("horizOriginX"@.len() == 12);
    reveal_strlit("imageRendering");
    assert("imageRendering"@[0] != "shapeRendering"@[0]);
    reveal_strlit("letterSpacing");
    assert("letterSpacing"@.len() == 13);
    reveal_strlit("lightingColor");
    assert("lightingColor"@.len() == 13);
    reveal_strlit("markerEnd");
    assert("markerEnd"@.len() == 9);
    reveal_strlit("markerMid");
    assert("markerMid"@.len() == 9);
    reveal_strlit("markerStart");
    assert("markerStart"@.len() == 11);
    reveal_strlit("overlinePosition");
    assert("overlinePosition"@.len() == 16);
    reveal_strlit("overlineThickness");
    assert("overlineThickness"@.len() == 17);
    reveal_strlit("paintOrder");
    assert("paintOrder"@.len() == 10);
    reveal_strlit("panose1");
    assert("panose1"@.len() == 7);
    reveal_strlit("pointerEvents");
    assert("pointerEvents"@.len() == 13);
    reveal_strlit("renderingIntent");
    assert("renderingIntent"@.len() == 15);
    reveal_strlit("htmlFor");
    assert("htmlFor"@.len() == 7);
    reveal_strlit("dangerouslySetInnerHTML");
    assert("dangerouslySetInnerHTML"@.len() == 23);
    reveal_strlit("ref");
    assert("ref"@.len() == 3);
    reveal_strlit("key");
    assert("key"@.len() == 3);
    assert("shapeRendering"@[0] == 's' && "shapeRendering"@[1] == 'h');
}

proof fn lemma_table_has_stop_color()
    ensures
        attr_action("stopColor"@) == AttrActionView::Use("stop-color"@),
{
    reveal_strlit("stopColor");
    assert("stopColor"@.len() == 9);
    reveal_strlit("stop-color");
    reveal_strlit("className");
    assert("className"@[0] != "stopColor"@[0]);
    reveal_strlit("accentHeight");
    assert("accentHeight"@.len() == 12);
    reveal_strlit("alignmentBaseline");
    assert("alignmentBaseline"@.len() == 17);
    reveal_strlit("arabicForm");
    assert("arabicForm"@.len() == 10);
    reveal_strlit("baselineShift");
    assert("baselineShift"@.len() == 13);
    reveal_strlit("capHeight");
    assert("capHeight"@[0] != "stopColor"@[0]);
    reveal_strlit("clipPath");
    assert("clipPath"@.len() == 8);
    reveal_strlit("clipRule");
    assert("clipRule"@.len() == 8);
    reveal_strlit("colorInterpolation");
    assert("colorInterpolation"@.len() == 18);
    reveal_strlit("colorInterpolationFilters");
    assert("colorInterpolationFilters"@.len() == 25);
    reveal_strlit("colorProfile");
    assert("colorProfile"@.len() == 12);
    reveal_strlit("colorRendering");
    assert("colorRendering"@.len() == 14);
    reveal_strlit("dominantBaseline");
    assert("dominantBaseline"@.len() == 16);
    reveal_strlit("enableBackground");
    assert("enableBackground"@.len() == 16);
    reveal_strlit("fillOpacity");
    assert("fillOpacity"@.len() == 11);
    reveal_strlit("fillRule");
    assert("fillRule"@.len() == 8);
    reveal_strlit("floodColor");
    assert("floodColor"@.len() == 10);
    reveal_strlit("floodOpacity");
    assert("floodOpacity"@.len() == 12);
    reveal_strlit("fontFamily");
    assert("fontFamily"@.len() == 10);
    reveal_strlit("fontSize");
    assert("fontSize"@.len() == 8);
    reveal_strlit("fontSizeAdjust");
    assert("fontSizeAdjust"@.len() == 14);
    reveal_strlit("fontStretch");
    assert("fontStretch"@.len() == 11);
    reveal_strlit("fontStyle");
    assert("fontStyle"@[0] != "stopColor"@[0]);
    reveal_strlit("fontVariant");
    assert("fontVariant"@.len() == 11);
    reveal_strlit("fontWeight");
    assert("fontWeight"@.len() == 10);
    reveal_strlit("glyphName");
    assert("glyphName"@[0] != "stopColor"@[0]);
    reveal_strlit("glyphOrientationHorizontal");
    assert("glyphOrientationHorizontal"@.len() == 26);
    reveal_strlit("glyphOrientationVertical");
    assert("glyphOrientationVertical"@.len() == 24);
    reveal_strlit("horizAdvX");
    assert("horizAdvX"@[0] != "stopColor"@[0]);
    reveal_strlit("horizOriginX");
    assert("horizOriginX"@.len() == 12);
    reveal_strlit("imageRendering");
    assert("imageRendering"@.len() == 14);
    reveal_strlit("letterSpacing");
    assert("letterSpacing"@.len() == 13);
    reveal_strlit("lightingColor");
    assert("lightingColor"@.len() == 13);
    reveal_strlit("markerEnd");
    assert("markerEnd"@[0] != "stopColor"@[0]);
    reveal_strlit("markerMid");
    assert("markerMid"@[0] != "stopColor"@[0]);
    reveal_strlit("markerStart");
    assert("markerStart"@.len() == 11);
    reveal_strlit("overlinePosition");
    assert("overlinePosition"@.len() == 16);
    reveal_strlit("overlineThickness");
    assert("overlineThickness"@.len() == 17);
    reveal_strlit("paintOrder");
    assert("paintOrder"@.len() == 10);
    reveal_strlit("panose1");
    assert("panose1"@.len() == 7);
    reveal_strlit("pointerEvents");
    assert("pointerEvents"@.len() == 13);
    reveal_strlit("renderingIntent");
    assert("renderingIntent"@.len() == 15);
    reveal_strlit("shapeRendering");
    assert("shapeRendering"@.len() == 14);
    reveal_strlit("htmlFor");
    assert("htmlFor"@.len() == 7);
    reveal_strlit("dangerouslySetInnerHTML");
    assert("dangerouslySetInnerHTML"@.len() == 23);
    reveal_strlit("ref");
    assert("ref"@.len() == 3);
    reveal_strlit("key");
    assert("key"@.len() == 3);
    assert("stopColor"@[0] == 's' && "stopColor"@[1] == 't');
}

proof fn lemma_table_has_stop_opacity()
    ensures
        attr_action("stopOpacity"@) == AttrActionView::Use("stop-opacity"@),
{
    reveal_strlit("stopOpacity");
    assert("stopOpacity"@.len() == 11);
    reveal_strlit("stop-opacity");
    reveal_strlit("className");
    assert("className"@.len() == 9);
    reveal_strlit("accentHeight");
    assert("accentHeight"@.len() == 12);
    reveal_strlit("alignmentBaseline");
    assert("alignmentBaseline"@.len() == 17);
    reveal_strlit("arabicForm");
    assert("arabicForm"@.len() == 10);
    reveal_strlit("baselineShift");
    assert("baselineShift"@.len() == 13);
    reveal_strlit("capHeight");
    assert("capHeight"@.len() == 9);
    reveal_strlit("clipPath");
    assert("clipPath"@.len() == 8);
    reveal_strlit("clipRule");
    assert("clipRule"@.len() == 8);
    reveal_strlit("colorInterpolation");
    assert("colorInterpolation"@.len() == 18);
    reveal_strlit("colorInterpolationFilters");
    assert("colorInterpolationFilters"@.len() == 25);
    reveal_strlit("colorProfile");
    assert("colorProfile"@.len() == 12);
    reveal_strlit("colorRendering");
    assert("colorRendering"@.len() == 14);
    reveal_strlit("dominantBaseline");
    assert("dominantBaseline"@.len() == 16);
    reveal_strlit("enableBackground");
    assert("enableBackground"@.len() == 16);
    reveal_strlit("fillOpacity");
    assert("fillOpacity"@[0] != "stopOpacity"@[0]);
    reveal_strlit("fillRule");
    assert("fillRule"@.len() == 8);
    reveal_strlit("floodColor");
    assert("floodColor"@.len() == 10);
    reveal_strlit("floodOpacity");
    assert("floodOpacity"@.len() == 12);
    reveal_strlit("fontFamily");
    assert("fontFamily"@.len() == 10);
    reveal_strlit("fontSize");
    assert("fontSize"@.len() == 8);
    reveal_strlit("fontSizeAdjust");
    assert("fontSizeAdjust"@.len() == 14);
    reveal_strlit("fontStretch");
    assert("fontStretch"@[0] != "stopOpacity"@[0]);
    reveal_strlit("fontStyle");
    assert("fontStyle"@.len() == 9);
    reveal_strlit("fontVariant");
    assert("fontVariant"@[0] != "stopOpacity"@[0]);
    reveal_strlit("fontWeight");
    assert("fontWeight"@.len() == 10);
    reveal_strlit("glyphName");
    assert("glyphName"@.len() == 9);
    reveal_strlit("glyphOrientationHorizontal");
    assert("glyphOrientationHorizontal"@.len() == 26);
    reveal_strlit("glyphOrientationVertical");
    assert("glyphOrientationVertical"@.len() == 24);
    reveal_strlit("horizAdvX");
    assert("horizAdvX"@.len() == 9);
    reveal_strlit("horizOriginX");
    assert("horizOriginX"@.len() == 12);
    reveal_strlit("imageRendering");
    assert("imageRendering"@.len() == 14);
    reveal_strlit("letterSpacing");
    assert("letterSpacing"@.len() == 13);
    reveal_strlit("lightingColor");
    assert("lightingColor"@.len() == 13);
    reveal_strlit("markerEnd");
    assert("markerEnd"@.len() == 9);
    reveal_strlit("markerMid");
    assert("markerMid"@.len() == 9);
    reveal_strlit("markerStart");
    assert("markerStart"@[0] != "stopOpacity"@[0]);
    reveal_strlit("overlinePosition");
    assert("overlinePosition"@.len() == 16);
    reveal_strlit("overlineThickness");
    assert("overlineThickness"@.len() == 17);
    reveal_strlit("paintOrder");
    assert("paintOrder"@.len() == 10);
    reveal_strlit("panose1");
    assert("panose1"@.len() == 7);
    reveal_strlit("pointerEvents");
    assert("pointerEvents"@.len() == 13);
    reveal_strlit("renderingIntent");
    assert("renderingIntent"@.len() == 15);
    reveal_strlit("shapeRendering");
    assert("shapeRendering"@.len() == 14);
    reveal_strlit("stopColor");
    assert("stopColor"@.len() == 9);
    reveal_strlit("htmlFor");
    assert("htmlFor"@.len() == 7);
    reveal_strlit("dangerouslySetInnerHTML");
    assert("dangerouslySetInnerHTML"@.len() == 23);
    reveal_strlit("ref");
    assert("ref"@.len() == 3);
    reveal_strlit("key");
    assert("key"@.len() == 3);
    assert("stopOpacity"@[0] == 's' && "stopOpacity"@[1] == 't');
}

proof fn lemma_table_has_strikethrough_position()
    ensures
        attr_action("strikethroughPosition"@) == AttrActionView::Use("strikethrough-position"@),
{
    reveal_strlit("strikethroughPosition");
    assert("strikethroughPosition"@.len() == 21);
    reveal_strlit("strikethrough-position");
    reveal_strlit("className");
    assert("className"@.len() == 9);
    reveal_strlit("accentHeight");
    assert("accentHeight"@.len() == 12);
    reveal_strlit("alignmentBaseline");
    assert("alignmentBaseline"@.len() == 17);
    reveal_strlit("arabicForm");
    assert("arabicForm"@.len() == 10);
    reveal_strlit("baselineShift");
    assert("baselineShift"@.len() == 13);
    reveal_strlit("capHeight");
    assert("capHeight"@.len() == 9);
    reveal_strlit("clipPath");
    assert("clipPath"@.len() == 8);
    reveal_strlit("clipRule");
    assert("clipRule"@.len() == 8);
    reveal_strlit("colorInterpolation");
    assert("colorInterpolation"@.len() == 18);
    reveal_strlit("colorInterpolationFilters");
    assert("colorInterpolationFilters"@.len() == 25);
    reveal_strlit("colorProfile");
    assert("colorProfile"@.len() == 12);
    reveal_strlit("colorRendering");
    assert("colorRendering"@.len() == 14);
    reveal_strlit("dominantBaseline");
    assert("dominantBaseline"@.len() == 16);
    reveal_strlit("enableBackground");
    assert("enableBackground"@.len() == 16);
    reveal_strlit("fillOpacity");
    assert("fillOpacity"@.len() == 11);
    reveal_strlit("fillRule");
    assert("fillRule"@.len() == 8);
    reveal_strlit("floodColor");
    assert("floodColor"@.len() == 10);
    reveal_strlit("floodOpacity");
    assert("floodOpacity"@.len() == 12);
    reveal_strlit("fontFamily");
    assert("fontFamily"@.len() == 10);
    reveal_strlit("fontSize");
    assert("fontSize"@.len() == 8);
    reveal_strlit("fontSizeAdjust");
    assert("fontSizeAdjust"@.len() == 14);
    reveal_strlit("fontStretch");
    assert("fontStretch"@.len() == 11);
    reveal_strlit("fontStyle");
    assert("fontStyle"@.len() == 9);
    reveal_strlit("fontVariant");
    assert("fontVariant"@.len() == 11);
    reveal_strlit("fontWeight");
    assert("fontWeight"@.len() == 10);
    reveal_strlit("glyphName");
    assert("glyphName"@.len() == 9);
    reveal_strlit("glyphOrientationHorizontal");
    assert("glyphOrientationHorizontal"@.len() == 26);
    reveal_strlit("glyphOrientationVertical");
    assert("glyphOrientationVertical"@.len() == 24);
    reveal_strlit("horizAdvX");
    assert("horizAdvX"@.len() == 9);
    reveal_strlit("horizOriginX");
    assert("horizOriginX"@.len() == 12);
    reveal_strlit("imageRendering");
    assert("imageRendering"@.len() == 14);
    reveal_strlit("letterSpacing");
    assert("letterSpacing"@.len() == 13);
    reveal_strlit("lightingColor");
    assert("lightingColor"@.len() == 13);
    reveal_strlit("markerEnd");
    assert("markerEnd"@.len() == 9);
    reveal_strlit("markerMid");
    assert("markerMid"@.len() == 9);
    reveal_strlit("markerStart");
    assert("markerStart"@.len() == 11);
    reveal_strlit("overlinePosition");
    assert("overlinePosition"@.len() == 16);
    reveal_strlit("overlineThickness");
    assert("overlineThickness"@.len() == 17);
    reveal_strlit("paintOrder");
    assert("paintOrder"@.len() == 10);
    reveal_strlit("panose1");
    assert("panose1"@.len() == 7);
    reveal_strlit("pointerEvents");
    assert("pointerEvents"@.len() == 13);
    reveal_strlit("renderingIntent");
    assert("renderingIntent"@.len() == 15);
    reveal_strlit("shapeRendering");
    assert("shapeRendering"@.len() == 14);
    reveal_strlit("stopColor");
    assert("stopColor"@.len() == 9);
    reveal_strlit("stopOpacity");
    assert("stopOpacity"@.len() == 11);
    reveal_strlit("htmlFor");
    assert("htmlFor"@.len() == 7);
    reveal_strlit("dangerouslySetInnerHTML");
    assert("dangerouslySetInnerHTML"@.len() == 23);
    reveal_strlit("ref");
    assert("ref"@.len() == 3);
    reveal_strlit("key");
    assert("key"@.len() == 3);
    assert("strikethroughPosition"@[0] == 's' && "strikethroughPosition"@[1] == 't');
}

proof fn lemma_table_has_strikethrough_thickness()
    ensures
        attr_action("strikethroughThickness"@) == AttrActionView::Use("strikethrough-thickness"@),
{
    reveal_strlit("strikethroughThickness");
    assert("strikethroughThickness"@.len() == 22);
    reveal_strlit("strikethrough-thickness");
    reveal_strlit("className");
    assert("className"@.len() == 9);
    reveal_strlit("accentHeight");
    assert("accentHeight"@.len() == 12);
    reveal_strlit("alignmentBaseline");
    assert("alignmentBaseline"@.len() == 17);
    reveal_strlit("arabicForm");
    assert("arabicForm"@.len() == 10);
    reveal_strlit("baselineShift");
    assert("baselineShift"@.len() == 13);
    reveal_strlit("capHeight");
    assert("capHeight"@.len() == 9);
    reveal_strlit("clipPath");
    assert("clipPath"@.len() == 8);
    reveal_strlit("clipRule");
    assert("clipRule"@.len() == 8);
    reveal_strlit("colorInterpolation");
    assert("colorInterpolation"@.len() == 18);
    reveal_strlit("colorInterpolationFilters");
    assert("colorInterpolationFilters"@.len() == 25);
    reveal_strlit("colorProfile");
    assert("colorProfile"@.len() == 12);
    reveal_strlit("colorRendering");
    assert("colorRendering"@.len() == 14);
    reveal_strlit("dominantBaseline");
    assert("dominantBaseline"@.len() == 16);
    reveal_strlit("enableBackground");
    assert("enableBackground"@.len() == 16);
    reveal_strlit("fillOpacity");
    assert("fillOpacity"@.len() == 11);
    reveal_strlit("fillRule");
    assert("fillRule"@.len() == 8);
    reveal_strlit("floodColor");
    assert("floodColor"@.len() == 10);
    reveal_strlit("floodOpacity");
    assert("floodOpacity"@.len() == 12);
    reveal_strlit("fontFamily");
    assert("fontFamily"@.len() == 10);
    reveal_strlit("fontSize");
    assert("fontSize"@.len() == 8);
    reveal_strlit("fontSizeAdjust");
    assert("fontSizeAdjust"@.len() == 14);
    reveal_strlit("fontStretch");
    assert("fontStretch"@.len() == 11);
    reveal_strlit("fontStyle");
    assert("fontStyle"@.len() == 9);
    reveal_strlit("fontVariant");
    assert("fontVariant"@.len() == 11);
    reveal_strlit("fontWeight");
    assert("fontWeight"@.len() == 10);
    reveal_strlit("glyphName");
    assert("glyphName"@.len() == 9);
    reveal_strlit("glyphOrientationHorizontal");
    assert("glyphOrientationHorizontal"@.len() == 26);
    reveal_strlit("glyphOrientationVertical");
    assert("glyphOrientationVertical"@.len() == 24);
    reveal_strlit("horizAdvX");
    assert("horizAdvX"@.len() == 9);
    reveal_strlit("horizOriginX");
    assert("horizOriginX"@.len() == 12);
    reveal_strlit("imageRendering");
    assert("imageRendering"@.len() == 14);
    reveal_strlit("letterSpacing");
    assert("letterSpacing"@.len() == 13);
    reveal_strlit("lightingColor");
    assert("lightingColor"@.len() == 13);
    reveal_strlit("markerEnd");
    assert("markerEnd"@.len() == 9);
    reveal_strlit("markerMid");
    assert("markerMid"@.len() == 9);
    reveal_strlit("markerStart");
    assert("markerStart"@.len() == 11);
    reveal_strlit("overlinePosition");
    assert("overlinePosition"@.len() == 16);
    reveal_strlit("overlineThickness");
    assert("overlineThickness"@.len() == 17);
    reveal_strlit("paintOrder");
    assert("paintOrder"@.len() == 10);
    reveal_strlit("panose1");
    assert("panose1"@.len() == 7);
    reveal_strlit("pointerEvents");
    assert("pointerEvents"@.len() == 13);
    reveal_strlit("renderingIntent");
    assert("renderingIntent"@.len() == 15);
    reveal_strlit("shapeRendering");
    assert("shapeRendering"@.len() == 14);
    reveal_strlit("stopColor");
    assert("stopColor"@.len() == 9);
    reveal_strlit("stopOpacity");
    assert("stopOpacity"@.len() == 11);
    reveal_strlit("strikethroughPosition");
    assert("strikethroughPosition"@.len() == 21);
    reveal_strlit("htmlFor");
    assert("htmlFor"@.len() == 7);
    reveal_strlit("dangerouslySetInnerHTML");
    assert("dangerouslySetInnerHTML"@.len() == 23);
    reveal_strlit("ref");
    assert("ref"@.len() == 3);
    reveal_strlit("key");
    assert("key"@.len() == 3);
    assert("strikethroughThickness"@[0] == 's' && "strikethroughThickness"@[1] == 't');
}

proof fn lemma_table_has_stroke_dasharray()
    ensures
        attr_action("strokeDasharray"@) == AttrActionView::Use("stroke-dasharray"@),
{
    reveal_strlit("strokeDasharray");
    assert("strokeDasharray"@.len() == 15);
    reveal_strlit("stroke-dasharray");
    reveal_strlit("className");
    assert("className"@.len() == 9);
    reveal_strlit("accentHeight");
    assert("accentHeight"@.len() == 12);
    reveal_strlit("alignmentBaseline");
    assert("alignmentBaseline"@.len() == 17);
    reveal_strlit("arabicForm");
    assert("arabicForm"@.len() == 10);
    reveal_strlit("baselineShift");
    assert("baselineShift"@.len() == 13);
    reveal_strlit("capHeight");
    assert("capHeight"@.len() == 9);
    reveal_strlit("clipPath");
    assert("clipPath"@.len() == 8);
    reveal_strlit("clipRule");
    assert("clipRule"@.len() == 8);
    reveal_strlit("colorInterpolation");
    assert("colorInterpolation"@.len() == 18);
    reveal_strlit("colorInterpolationFilters");
    assert("colorInterpolationFilters"@.len() == 25);
    reveal_strlit("colorProfile");
    assert("colorProfile"@.len() == 12);
    reveal_strlit("colorRendering");
    assert("colorRendering"@.len() == 14);
    reveal_strlit("dominantBaseline");
    assert("dominantBaseline"@.len() == 16);
    reveal_strlit("enableBackground");
    assert("enableBackground"@.len() == 16);
    reveal_strlit("fillOpacity");
    assert("fillOpacity"@.len() == 11);
    reveal_strlit("fillRule");
    assert("fillRule"@.len() == 8);
    reveal_strlit("floodColor");
    assert("floodColor"@.len() == 10);
    reveal_strlit("floodOpacity");
    assert("floodOpacity"@.len() == 12);
    reveal_strlit("fontFamily");
    assert("fontFamily"@.len() == 10);
    reveal_strlit("fontSize");
    assert("fontSize"@.len() == 8);
    reveal_strlit("fontSizeAdjust");
    assert("fontSizeAdjust"@.len() == 14);
    reveal_strlit("fontStretch");
    assert("fontStretch"@.len() == 11);
    reveal_strlit("fontStyle");
    assert("fontStyle"@.len() == 9);
    reveal_strlit("fontVariant");
    assert("fontVariant"@.len() == 11);
    reveal_strlit("fontWeight");
    assert("fontWeight"@.len() == 10);
    reveal_strlit("glyphName");
    assert("glyphName"@.len() == 9);
    reveal_strlit("glyphOrientationHorizontal");
    assert("glyphOrientationHorizontal"@.len() == 26);
    reveal_strlit("glyphOrientationVertical");
    assert("glyphOrientationVertical"@.len() == 24);
    reveal_strlit("horizAdvX");
    assert("horizAdvX"@.len() == 9);
    reveal_strlit("horizOriginX");
    assert("horizOriginX"@.len() == 12);
    reveal_strlit("imageRendering");
    assert("imageRendering"@.len() == 14);
    reveal_strlit("letterSpacing");
    assert("letterSpacing"@.len() == 13);
    reveal_strlit("lightingColor");
    assert("lightingColor"@.len() == 13);
    reveal_strlit("markerEnd");
    assert("markerEnd"@.len() == 9);
    reveal_strlit("markerMid");
    assert("markerMid"@.len() == 9);
    reveal_strlit("markerStart");
    assert("markerStart"@.len() == 11);
    reveal_strlit("overlinePosition");
    assert("overlinePosition"@.len() == 16);
    reveal_strlit("overlineThickness");
    assert("overlineThickness"@.len() == 17);
    reveal_strlit("paintOrder");
    assert("paintOrder"@.len() == 10);
    reveal_strlit("panose1");
    assert("panose1"@.len() == 7);
    reveal_strlit("pointerEvents");
    assert("pointerEvents"@.len() == 13);
    reveal_strlit("renderingIntent");
    assert("renderingIntent"@[0] != "strokeDasharray"@[0]);
    reveal_strlit("shapeRendering");
    assert("shapeRendering"@.len() == 14);
    reveal_strlit("stopColor");
    assert("stopColor"@.len() == 9);
    reveal_strlit("stopOpacity");
    assert("stopOpacity"@.len() == 11);
    reveal_strlit("strikethroughPosition");
    assert("strikethroughPosition"@.len() == 21);
    reveal_strlit("strikethroughThickness");
    assert("strikethroughThickness"@.len() == 22);
    reveal_strlit("htmlFor");
    assert("htmlFor"@.len() == 7);
    reveal_strlit("dangerouslySetInnerHTML");
    assert("dangerouslySetInnerHTML"@.len() == 23);
    reveal_strlit("ref");
    assert("ref"@.len() == 3);
    reveal_strlit("key");
    assert("key"@.len() == 3);
    assert("strokeDasharray"@[0] == 's' && "strokeDasharray"@[1] == 't');
}

proof fn lemma_table_has_stroke_dashoffset()
    ensures
        attr_action("strokeDashoffset"@) == AttrActionView::Use("stroke-dashoffset"@),
{
    reveal_strlit("strokeDashoffset");
    assert("strokeDashoffset"@.len() == 16);
    reveal_strlit("stroke-dashoffset");
    reveal_strlit("className");
    assert("className"@.len() == 9);
    reveal_strlit("accentHeight");
    assert("accentHeight"@.len() == 12);
    reveal_strlit("alignmentBaseline");
    assert("alignmentBaseline"@.len() == 17);
    reveal_strlit("arabicForm");
    assert("arabicForm"@.len() == 10);
    reveal_strlit("baselineShift");
    assert("baselineShift"@.len() == 13);
    reveal_strlit("capHeight");
    assert("capHeight"@.len() == 9);
    reveal_strlit("clipPath");
    assert("clipPath"@.len() == 8);
    reveal_strlit("clipRule");
    assert("clipRule"@.len() == 8);
    reveal_strlit("colorInterpolation");
    assert("colorInterpolation"@.len() == 18);
    reveal_strlit("colorInterpolationFilters");
    assert("colorInterpolationFilters"@.len() == 25);
    reveal_strlit("colorProfile");
    assert("colorProfile"@.len() == 12);
    reveal_strlit("colorRendering");
    assert("colorRendering"@.len() == 14);
    reveal_strlit("dominantBaseline");
    assert("dominantBaseline"@[0] != "strokeDashoffset"@[0]);
    reveal_strlit("enableBackground");
    assert("enableBackground"@[0] != "strokeDashoffset"@[0]);
    reveal_strlit("fillOpacity");
    assert("fillOpacity"@.len() == 11);
    reveal_strlit("fillRule");
    assert("fillRule"@.len() == 8);
    reveal_strlit("floodColor");
    assert("floodColor"@.len() == 10);
    reveal_strlit("floodOpacity");
    assert("floodOpacity"@.len() == 12);
    reveal_strlit("fontFamily");
    assert("fontFamily"@.len() == 10);
    reveal_strlit("fontSize");
    assert("fontSize"@.len() == 8);
    reveal_strlit("fontSizeAdjust");
    assert("fontSizeAdjust"@.len() == 14);
    reveal_strlit("fontStretch");
    assert("fontStretch"@.len() == 11);
    reveal_strlit("fontStyle");
    assert("fontStyle"@.len() == 9);
    reveal_strlit("fontVariant");
    assert("fontVariant"@.len() == 11);
    reveal_strlit("fontWeight");
    assert("fontWeight"@.len() == 10);
    reveal_strlit("glyphName");
    assert("glyphName"@.len() == 9);
    reveal_strlit("glyphOrientationHorizontal");
    assert("glyphOrientationHorizontal"@.len() == 26);
    reveal_strlit("glyphOrientationVertical");
    assert("glyphOrientationVertical"@.len() == 24);
    reveal_strlit("horizAdvX");
    assert("horizAdvX"@.len() == 9);
    reveal_strlit("horizOriginX");
    assert("horizOriginX"@.len() == 12);
    reveal_strlit("imageRendering");
    assert("imageRendering"@.len() == 14);
    reveal_strlit("letterSpacing");
    assert("letterSpacing"@.len() == 13);
    reveal_strlit("lightingColor");
    assert("lightingColor"@.len() == 13);
    reveal_strlit("markerEnd");
    assert("markerEnd"@.len() == 9);
    reveal_strlit("markerMid");
    assert("markerMid"@.len() == 9);
    reveal_strlit("markerStart");
    assert("markerStart"@.len() == 11);
    reveal_strlit("overlinePosition");
    assert("overlinePosition"@[0] != "strokeDashoffset"@[0]);
    reveal_strlit("overlineThickness");
    assert("overlineThickness"@.len() == 17);
    reveal_strlit("paintOrder");
    assert("paintOrder"@.len() == 10);
    reveal_strlit("panose1");
    assert("panose1"@.len() == 7);
    reveal_strlit("pointerEvents");
    assert("pointerEvents"@.len() == 13);
    reveal_strlit("renderingIntent");
    assert("renderingIntent"@.len() == 15);
    reveal_strlit("shapeRendering");
    assert("shapeRendering"@.len() == 14);
    reveal_strlit("stopColor");
    assert("stopColor"@.len() == 9);
    reveal_strlit("stopOpacity");
    assert("stopOpacity"@.len() == 11);
    reveal_strlit("strikethroughPosition");
    assert("strikethroughPosition"@.len() == 21);
    reveal_strlit("strikethroughThickness");
    assert("strikethroughThickness"@.len() == 22);
    reveal_strlit("strokeDasharray");
    assert("strokeDasharray"@.len() == 15);
    reveal_strlit("htmlFor");
    assert("htmlFor"@.len() == 7);
    reveal_strlit("dangerouslySetInnerHTML");
    assert("dangerouslySetInnerHTML"@.len() == 23);
    reveal_strlit("ref");
    assert("ref"@.len() == 3);
    reveal_strlit("key");
    assert("key"@.len() == 3);
    assert("strokeDashoffset"@[0] == 's' && "strokeDashoffset"@[1] == 't');
}

proof fn lemma_table_has_stroke_linecap()
    ensures
        attr_action("strokeLinecap"@) == AttrActionView::Use("stroke-linecap"@),
{
    reveal_strlit("strokeLinecap");
    assert("strokeLinecap"@.len() == 13);
    reveal_strlit("stroke-linecap");
    reveal_strlit("className");
    assert("className"@.len() == 9);
    reveal_strlit("accentHeight");
    assert("accentHeight"@.len() == 12);
    reveal_strlit("alignmentBaseline");
    assert("alignmentBaseline"@.len() == 17);
    reveal_strlit("arabicForm");
    assert("arabicForm"@.len() == 10);
    reveal_strlit("baselineShift");
    assert("baselineShift"@[0] != "strokeLinecap"@[0]);
    reveal_strlit("capHeight");
    assert("capHeight"@.len() == 9);
    reveal_strlit("clipPath");
    assert("clipPath"@.len() == 8);
    reveal_strlit("clipRule");
    assert("clipRule"@.len() == 8);
    reveal_strlit("colorInterpolation");
    assert("colorInterpolation"@.len() == 18);
    reveal_strlit("colorInterpolationFilters");
    assert("colorInterpolationFilters"@.len() == 25);
    reveal_strlit("colorProfile");
    assert("colorProfile"@.len() == 12);
    reveal_strlit("colorRendering");
    assert("colorRendering"@.len() == 14);
    reveal_strlit("dominantBaseline");
    assert("dominantBaseline"@.len() == 16);
    reveal_strlit("enableBackground");
    assert("enableBackground"@.len() == 16);
    reveal_strlit("fillOpacity");
    assert("fillOpacity"@.len() == 11);
    reveal_strlit("fillRule");
    assert("fillRule"@.len() == 8);
    reveal_strlit("floodColor");
    assert("floodColor"@.len() == 10);
    reveal_strlit("floodOpacity");
    assert("floodOpacity"@.len() == 12);
    reveal_strlit("fontFamily");
    assert("fontFamily"@.len() == 10);
    reveal_strlit("fontSize");
    assert("fontSize"@.len() == 8);
    reveal_strlit("fontSizeAdjust");
    assert("fontSizeAdjust"@.len() == 14);
    reveal_strlit("fontStretch");
    assert("fontStretch"@.len() == 11);
    reveal_strlit("fontStyle");
    assert("fontStyle"@.len() == 9);
    reveal_strlit("fontVariant");
    assert("fontVariant"@.len() == 11);
    reveal_strlit("fontWeight");
    assert("fontWeight"@.len() == 10);
    reveal_strlit("glyphName");
    assert("glyphName"@.len() == 9);
    reveal_strlit("glyphOrientationHorizontal");
    assert("glyphOrientationHorizontal"@.len() == 26);
    reveal_strlit("glyphOrientationVertical");
    assert("glyphOrientationVertical"@.len() == 24);
    reveal_strlit("horizAdvX");
    assert("horizAdvX"@.len() == 9);
    reveal_strlit("horizOriginX");
    assert("horizOriginX"@.len() == 12);
    reveal_strlit("imageRendering");
    assert("imageRendering"@.len() == 14);
    reveal_strlit("letterSpacing");
    assert("letterSpacing"@[0] != "strokeLinecap"@[0]);
    reveal_strlit("lightingColor");
    assert("lightingColor"@[0] != "strokeLinecap"@[0]);
    reveal_strlit("markerEnd");
    assert("markerEnd"@.len() == 9);
    reveal_strlit("markerMid");
    assert("markerMid"@.len() == 9);
    reveal_strlit("markerStart");
    assert("markerStart"@.len() == 11);
    reveal_strlit("overlinePosition");
    assert("overlinePosition"@.len() == 16);
    reveal_strlit("overlineThickness");
    assert("overlineThickness"@.len() == 17);
    reveal_strlit("paintOrder");
    assert("paintOrder"@.len() == 10);
    reveal_strlit("panose1");
    assert("panose1"@.len() == 7);
    reveal_strlit("pointerEvents");
    assert("pointerEvents"@[0] != "strokeLinecap"@[0]);
    reveal_strlit("renderingIntent");
    assert("renderingIntent"@.len() == 15);
    reveal_strlit("shapeRendering");
    assert("shapeRendering"@.len() == 14);
    reveal_strlit("stopColor");
    assert("stopColor"@.len() == 9);
    reveal_strlit("stopOpacity");
    assert("stopOpacity"@.len() == 11);
    reveal_strlit("strikethroughPosition");
    assert("strikethroughPosition"@.len() == 21);
    reveal_strlit("strikethroughThickness");
    assert("strikethroughThickness"@.len() == 22);
    reveal_strlit("strokeDasharray");
    assert("strokeDasharray"@.len() == 15);
    reveal_strlit("strokeDashoffset");
    assert("strokeDashoffset"@.len() == 16);
    reveal_strlit("htmlFor");
    assert("htmlFor"@.len() == 7);
    reveal_strlit("dangerouslySetInnerHTML");
    assert("dangerouslySetInnerHTML"@.len() == 23);
    reveal_strlit("ref");
    assert("ref"@.len() == 3);
    reveal_strlit("key");
    assert("key"@.len() == 3);
    assert("strokeLinecap"@[0] == 's' && "strokeLinecap"@[1] == 't');
}

proof fn lemma_table_has_stroke_linejoin()
    ensures
        attr_action("strokeLinejoin"@) == AttrActionView::Use("stroke-linejoin"@),
{
    reveal_strlit("strokeLinejoin");
    assert("strokeLinejoin"@.len() == 14);
    reveal_strlit("stroke-linejoin");
    reveal_strlit("className");
    assert("className"@.len() == 9);
    reveal_strlit("accentHeight");
    assert("accentHeight"@.len() == 12);
    reveal_strlit("alignmentBaseline");
    assert("alignmentBaseline"@.len() == 17);
    reveal_strlit("arabicForm");
    assert("arabicForm"@.len() == 10);
    reveal_strlit("baselineShift");
    assert("baselineShift"@.len() == 13);
    reveal_strlit("capHeight");
    assert("capHeight"@.len() == 9);
    reveal_strlit("clipPath");
    assert("clipPath"@.len() == 8);
    reveal_strlit("clipRule");
    assert("clipRule"@.len() == 8);
    reveal_strlit("colorInterpolation");
    assert("colorInterpolation"@.len() == 18);
    reveal_strlit("colorInterpolationFilters");
    assert("colorInterpolationFilters"@.len() == 25);
    reveal_strlit("colorProfile");
    assert("colorProfile"@.len() == 12);
    reveal_strlit("colorRendering");
    assert("colorRendering"@[0] != "strokeLinejoin"@[0]);
    reveal_strlit("dominantBaseline");
    assert("dominantBaseline"@.len() == 16);
    reveal_strlit("enableBackground");
    assert("enableBackground"@.len() == 16);
    reveal_strlit("fillOpacity");
    assert("fillOpacity"@.len() == 11);
    reveal_strlit("fillRule");
    assert("fillRule"@.len() == 8);
    reveal_strlit("floodColor");
    assert("floodColor"@.len() == 10);
    reveal_strlit("floodOpacity");
    assert("floodOpacity"@.len() == 12);
    reveal_strlit("fontFamily");
    assert("fontFamily"@.len() == 10);
    reveal_strlit("fontSize");
    assert("fontSize"@.len() == 8);
    reveal_strlit("fontSizeAdjust");
    assert("fontSizeAdjust"@[0] != "strokeLinejoin"@[0]);
    reveal_strlit("fontStretch");
    assert("fontStretch"@.len() == 11);
    reveal_strlit("fontStyle");
    assert("fontStyle"@.len() == 9);
    reveal_strlit("fontVariant");
    assert("fontVariant"@.len() == 11);
    reveal_strlit("fontWeight");
    assert("fontWeight"@.len() == 10);
    reveal_strlit("glyphName");
    assert("glyphName"@.len() == 9);
    reveal_strlit("glyphOrientationHorizontal");
    assert("glyphOrientationHorizontal"@.len() == 26);
    reveal_strlit("glyphOrientationVertical");
    assert("glyphOrientationVertical"@.len() == 24);
    reveal_strlit("horizAdvX");
    assert("horizAdvX"@.len() == 9);
    reveal_strlit("horizOriginX");
    assert("horizOriginX"@.len() == 12);
    reveal_strlit("imageRendering");
    assert("imageRendering"@[0] != "strokeLinejoin"@[0]);
    reveal_strlit("letterSpacing");
    assert("letterSpacing"@.len() == 13);
    reveal_strlit("lightingColor");
    assert("lightingColor"@.len() == 13);
    reveal_strlit("markerEnd");
    assert("markerEnd"@.len() == 9);
    reveal_strlit("markerMid");
    assert("markerMid"@.len() == 9);
    reveal_strlit("markerStart");
    assert("markerStart"@.len() == 11);
    reveal_strlit("overlinePosition");
    assert("overlinePosition"@.len() == 16);
    reveal_strlit("overlineThickness");
    assert("overlineThickness"@.len() == 17);
    reveal_strlit("paintOrder");
    assert("paintOrder"@.len() == 10);
    reveal_strlit("panose1");
    assert("panose1"@.len() == 7);
    reveal_strlit("pointerEvents");
    assert("pointerEvents"@.len() == 13);
    reveal_strlit("renderingIntent");
    assert("renderingIntent"@.len() == 15);
    reveal_strlit("shapeRendering");
    assert("shapeRendering"@[1] != "strokeLinejoin"@[1]);
    reveal_strlit("stopColor");
    assert("stopColor"@.len() == 9);
    reveal_strlit("stopOpacity");
    assert("stopOpacity"@.len() == 11);
    reveal_strlit("strikethroughPosition");
    assert("strikethroughPosition"@.len() == 21);
    reveal_strlit("strikethroughThickness");
    assert("strikethroughThickness"@.len() == 22);
    reveal_strlit("strokeDasharray");
    assert("strokeDasharray"@.len() == 15);
    reveal_strlit("strokeDashoffset");
    assert("strokeDashoffset"@.len() == 16);
    reveal_strlit("strokeLinecap");
    assert("strokeLinecap"@.len() == 13);
    reveal_strlit("htmlFor");
    assert("htmlFor"@.len() == 7);
    reveal_strlit("dangerouslySetInnerHTML");
    assert("dangerouslySetInnerHTML"@.len() == 23);
    reveal_strlit("ref");
    assert("ref"@.len() == 3);
    reveal_strlit("key");
    assert("key"@.len() == 3);
    assert("strokeLinejoin"@[0] == 's' && "strokeLinejoin"@[1] == 't');
}

proof fn lemma_table_has_stroke_miterlimit()
    ensures
        attr_action("strokeMiterlimit"@) == AttrActionView::Use("stroke-miterlimit"@),
{
    reveal_strlit("strokeMiterlimit");
    assert("strokeMiterlimit"@.len() == 16);
    reveal_strlit("stroke-miterlimit");
    reveal_strlit("className");
    assert("className"@.len() == 9);
    reveal_strlit("accentHeight");
    assert("accentHeight"@.len() == 12);
    reveal_strlit("alignmentBaseline");
    assert("alignmentBaseline"@.len() == 17);
    reveal_strlit("arabicForm");
    assert("arabicForm"@.len() == 10);
    reveal_strlit("baselineShift");
    assert("baselineShift"@.len() == 13);
    reveal_strlit("capHeight");
    assert("capHeight"@.len() == 9);
    reveal_strlit("clipPath");
    assert("clipPath"@.len() == 8);
    reveal_strlit("clipRule");
    assert("clipRule"@.len() == 8);
    reveal_strlit("colorInterpolation");
    assert("colorInterpolation"@.len() == 18);
    reveal_strlit("colorInterpolationFilters");
    assert("colorInterpolationFilters"@.len() == 25);
    reveal_strlit("colorProfile");
    assert("colorProfile"@.len() == 12);
    reveal_strlit("colorRendering");
    assert("colorRendering"@.len() == 14);
    reveal_strlit("dominantBaseline");
    assert("dominantBaseline"@[0] != "strokeMiterlimit"@[0]);
    reveal_strlit("enableBackground");
    assert("enableBackground"@[0] != "strokeMiterlimit"@[0]);
    reveal_strlit("fillOpacity");
    assert("fillOpacity"@.len() == 11);
    reveal_strlit("fillRule");
    assert("fillRule"@.len() == 8);
    reveal_strlit("floodColor");
    assert("floodColor"@.len() == 10);
    reveal_strlit("floodOpacity");
    assert("floodOpacity"@.len() == 12);
    reveal_strlit("fontFamily");
    assert("fontFamily"@.len() == 10);
    reveal_strlit("fontSize");
    assert("fontSize"@.len() == 8);
    reveal_strlit("fontSizeAdjust");
    assert("fontSizeAdjust"@.len() == 14);
    reveal_strlit("fontStretch");
    assert("fontStretch"@.len() == 11);
    reveal_strlit("fontStyle");
    assert("fontStyle"@.len() == 9);
    reveal_strlit("fontVariant");
    assert("fontVariant"@.len() == 11);
    reveal_strlit("fontWeight");
    assert("fontWeight"@.len() == 10);
    reveal_strlit("glyphName");
    assert("glyphName"@.len() == 9);
    reveal_strlit("glyphOrientationHorizontal");
    assert("glyphOrientationHorizontal"@.len() == 26);
    reveal_strlit("glyphOrientationVertical");
    assert("glyphOrientationVertical"@.len() == 24);
    reveal_strlit("horizAdvX");
    assert("horizAdvX"@.len() == 9);
    reveal_strlit("horizOriginX");
    assert("horizOriginX"@.len() == 12);
    reveal_strlit("imageRendering");
    assert("imageRendering"@.len() == 14);
    reveal_strlit("letterSpacing");
    assert("letterSpacing"@.len() == 13);
    reveal_strlit("lightingColor");
    assert("lightingColor"@.len() == 13);
    reveal_strlit("markerEnd");
    assert("markerEnd"@.len() == 9);
    reveal_strlit("markerMid");
    assert("markerMid"@.len() == 9);
    reveal_strlit("markerStart");
    assert("markerStart"@.len() == 11);
    reveal_strlit("overlinePosition");
    assert("overlinePosition"@[0] != "strokeMiterlimit"@[0]);
    reveal_strlit("overlineThickness");
    assert("overlineThickness"@.len() == 17);
    reveal_strlit("paintOrder");
    assert("paintOrder"@.len() == 10);
    reveal_strlit("panose1");
    assert("panose1"@.len() == 7);
    reveal_strlit("pointerEvents");
    assert("pointerEvents"@.len() == 13);
    reveal_strlit("renderingIntent");
    assert("renderingIntent"@.len() == 15);
    reveal_strlit("shapeRendering");
    assert("shapeRendering"@.len() == 14);
    reveal_strlit("stopColor");
    assert("stopColor"@.len() == 9);
    reveal_strlit("stopOpacity");
    assert("stopOpacity"@.len() == 11);
    reveal_strlit("strikethroughPosition");
    assert("strikethroughPosition"@.len() == 21);
    reveal_strlit("strikethroughThickness");
    assert("strikethroughThickness"@.len() == 22);
    reveal_strlit("strokeDasharray");
    assert("strokeDasharray"@.len() == 15);
    reveal_strlit("strokeDashoffset");
    assert("strokeDashoffset"@[6] != "strokeMiterlimit"@[6]);
    reveal_strlit("strokeLinecap");
    assert("strokeLinecap"@.len() == 13);
    reveal_strlit("strokeLinejoin");
    assert("strokeLinejoin"@.len() == 14);
    reveal_strlit("htmlFor");
    assert("htmlFor"@.len() == 7);
    reveal_strlit("dangerouslySetInnerHTML");
    assert("dangerouslySetInnerHTML"@.len() == 23);
    reveal_strlit("ref");
    assert("ref"@.len() == 3);
    reveal_strlit("key");
    assert("key"@.len() == 3);
    assert("strokeMiterlimit"@[0] == 's' && "strokeMiterlimit"@[1] == 't');
}

proof fn lemma_table_has_stroke_opacity()
    ensures
        attr_action("strokeOpacity"@) == AttrActionView::Use("stroke-opacity"@),
{
    reveal_strlit("strokeOpacity");
    assert("strokeOpacity"@.len() == 13);
    reveal_strlit("stroke-opacity");
    reveal_strlit("className");
    assert("className"@.len() == 9);
    reveal_strlit("accentHeight");
    assert("accentHeight"@.len() == 12);
    reveal_strlit("alignmentBaseline");
    assert("alignmentBaseline"@.len() == 17);
    reveal_strlit("arabicForm");
    assert("arabicForm"@.len() == 10);
    reveal_strlit("baselineShift");
    assert("baselineShift"@[0] != "strokeOpacity"@[0]);
    reveal_strlit("capHeight");
    assert("capHeight"@.len() == 9);
    reveal_strlit("clipPath");
    assert("clipPath"@.len() == 8);
    reveal_strlit("clipRule");
    assert("clipRule"@.len() == 8);
    reveal_strlit("colorInterpolation");
    assert("colorInterpolation"@.len() == 18);
    reveal_strlit("colorInterpolationFilters");
    assert("colorInterpolationFilters"@.len() == 25);
    reveal_strlit("colorProfile");
    assert("colorProfile"@.len() == 12);
    reveal_strlit("colorRendering");
    assert("colorRendering"@.len() == 14);
    reveal_strlit("dominantBaseline");
    assert("dominantBaseline"@.len() == 16);
    reveal_strlit("enableBackground");
    assert("enableBackground"@.len() == 16);
    reveal_strlit("fillOpacity");
    assert("fillOpacity"@.len() == 11);
    reveal_strlit("fillRule");
    assert("fillRule"@.len() == 8);
    reveal_strlit("floodColor");
    assert("floodColor"@.len() == 10);
    reveal_strlit("floodOpacity");
    assert("floodOpacity"@.len() == 12);
    reveal_strlit("fontFamily");
    assert("fontFamily"@.len() == 10);
    reveal_strlit("fontSize");
    assert("fontSize"@.len() == 8);
    reveal_strlit("fontSizeAdjust");
    assert("fontSizeAdjust"@.len() == 14);
    reveal_strlit("fontStretch");
    assert("fontStretch"@.len() == 11);
    reveal_strlit("fontStyle");
    assert("fontStyle"@.len() == 9);
    reveal_strlit("fontVariant");
    assert("fontVariant"@.len() == 11);
    reveal_strlit("fontWeight");
    assert("fontWeight"@.len() == 10);
    reveal_strlit("glyphName");
    assert("glyphName"@.len() == 9);
    reveal_strlit("glyphOrientationHorizontal");
    assert("glyphOrientationHorizontal"@.len() == 26);
    reveal_strlit("glyphOrientationVertical");
    assert("glyphOrientationVertical"@.len() == 24);
    reveal_strlit("horizAdvX");
    assert("horizAdvX"@.len() == 9);
    reveal_strlit("horizOriginX");
    assert("horizOriginX"@.len() == 12);
    reveal_strlit("imageRendering");
    assert("imageRendering"@.len() == 14);
    reveal_strlit("letterSpacing");
    assert("letterSpacing"@[0] != "strokeOpacity"@[0]);
    reveal_strlit("lightingColor");
    assert("lightingColor"@[0] != "strokeOpacity"@[0]);
    reveal_strlit("markerEnd");
    assert("markerEnd"@.len() == 9);
    reveal_strlit("markerMid");
    assert("markerMid"@.len() == 9);
    reveal_strlit("markerStart");
    assert("markerStart"@.len() == 11);
    reveal_strlit("overlinePosition");
    assert("overlinePosition"@.len() == 16);
    reveal_strlit("overlineThickness");
    assert("overlineThickness"@.len() == 17);
    reveal_strlit("paintOrder");
    assert("paintOrder"@.len() == 10);
    reveal_strlit("panose1");
    assert("panose1"@.len() == 7);
    reveal_strlit("pointerEvents");
    assert("pointerEvents"@[0] != "strokeOpacity"@[0]);
    reveal_strlit("renderingIntent");
    assert("renderingIntent"@.len() == 15);
    reveal_strlit("shapeRendering");
    assert("shapeRendering"@.len() == 14);
    reveal_strlit("stopColor");
    assert("stopColor"@.len() == 9);
    reveal_strlit("stopOpacity");
    assert("stopOpacity"@.len() == 11);
    reveal_strlit("strikethroughPosition");
    assert("strikethroughPosition"@.len() == 21);
    reveal_strlit("strikethroughThickness");
    assert("strikethroughThickness"@.len() == 22);
    reveal_strlit("strokeDasharray");
    assert("strokeDasharray"@.len() == 15);
    reveal_strlit("strokeDashoffset");
    assert("strokeDashoffset"@.len() == 16);
    reveal_strlit("strokeLinecap");
    assert("strokeLinecap"@[6] != "strokeOpacity"@[6]);
    reveal_strlit("strokeLinejoin");
    assert("strokeLinejoin"@.len() == 14);
    reveal_strlit("strokeMiterlimit");
    assert("strokeMiterlimit"@.len() == 16);
    reveal_strlit("htmlFor");
    assert("htmlFor"@.len() == 7);
    reveal_strlit("dangerouslySetInnerHTML");
    assert("dangerouslySetInnerHTML"@.len() == 23);
    reveal_strlit("ref");
    assert("ref"@.len() == 3);
    reveal_strlit("key");
    assert("key"@.len() == 3);
    assert("strokeOpacity"@[0] == 's' && "strokeOpacity"@[1] == 't');
}

proof fn lemma_table_has_stroke_width()
    ensures
        attr_action("strokeWidth"@) == AttrActionView::Use("stroke-width"@),
{
    reveal_strlit("strokeWidth");
    assert("strokeWidth"@.len() == 11);
    reveal_strlit("stroke-width");
    reveal_strlit("className");
    assert("className"@.len() == 9);
    reveal_strlit("accentHeight");
    assert("accentHeight"@.len() == 12);
    reveal_strlit("alignmentBaseline");
    assert("alignmentBaseline"@.len() == 17);
    reveal_strlit("arabicForm");
    assert("arabicForm"@.len() == 10);
    reveal_strlit("baselineShift");
    assert("baselineShift"@.len() == 13);
    reveal_strlit("capHeight");
    assert("capHeight"@.len() == 9);
    reveal_strlit("clipPath");
    assert("clipPath"@.len() == 8);
    reveal_strlit("clipRule");
    assert("clipRule"@.len() == 8);
    reveal_strlit("colorInterpolation");
    assert("colorInterpolation"@.len() == 18);
    reveal_strlit("colorInterpolationFilters");
    assert("colorInterpolationFilters"@.len() == 25);
    reveal_strlit("colorProfile");
    assert("colorProfile"@.len() == 12);
    reveal_strlit("colorRendering");
    assert("colorRendering"@.len() == 14);
    reveal_strlit("dominantBaseline");
    assert("dominantBaseline"@.len() == 16);
    reveal_strlit("enableBackground");
    assert("enableBackground"@.len() == 16);
    reveal_strlit("fillOpacity");
    assert("fillOpacity"@[0] != "strokeWidth"@[0]);
    reveal_strlit("fillRule");
    assert("fillRule"@.len() == 8);
    reveal_strlit("floodColor");
    assert("floodColor"@.len() == 10);
    reveal_strlit("floodOpacity");
    assert("floodOpacity"@.len() == 12);
    reveal_strlit("fontFamily");
    assert("fontFamily"@.len() == 10);
    reveal_strlit("fontSize");
    assert("fontSize"@.len() == 8);
    reveal_strlit("fontSizeAdjust");
    assert("fontSizeAdjust"@.len() == 14);
    reveal_strlit("fontStretch");
    assert("fontStretch"@[0] != "strokeWidth"@[0]);
    reveal_strlit("fontStyle");
    assert("fontStyle"@.len() == 9);
    reveal_strlit("fontVariant");
    assert("fontVariant"@[0] != "strokeWidth"@[0]);
    reveal_strlit("fontWeight");
    assert("fontWeight"@.len() == 10);
    reveal_strlit("glyphName");
    assert("glyphName"@.len() == 9);
    reveal_strlit("glyphOrientationHorizontal");
    assert("glyphOrientationHorizontal"@.len() == 26);
    reveal_strlit("glyphOrientationVertical");
    assert("glyphOrientationVertical"@.len() == 24);
    reveal_strlit("horizAdvX");
    assert("horizAdvX"@.len() == 9);
    reveal_strlit("horizOriginX");
    assert("horizOriginX"@.len() == 12);
    reveal_strlit("imageRendering");
    assert("imageRendering"@.len() == 14);
    reveal_strlit("letterSpacing");
    assert("letterSpacing"@.len() == 13);
    reveal_strlit("lightingColor");
    assert("lightingColor"@.len() == 13);
    reveal_strlit("markerEnd");
    assert("markerEnd"@.len() == 9);
    reveal_strlit("markerMid");
    assert("markerMid"@.len() == 9);
    reveal_strlit("markerStart");
    assert("markerStart"@[0] != "strokeWidth"@[0]);
    reveal_strlit("overlinePosition");
    assert("overlinePosition"@.len() == 16);
    reveal_strlit("overlineThickness");
    assert("overlineThickness"@.len() == 17);
    reveal_strlit("paintOrder");
    assert("paintOrder"@.len() == 10);
    reveal_strlit("panose1");
    assert("panose1"@.len() == 7);
    reveal_strlit("pointerEvents");
    assert("pointerEvents"@.len() == 13);
    reveal_strlit("renderingIntent");
    assert("renderingIntent"@.len() == 15);
    reveal_strlit("shapeRendering");
    assert("shapeRendering"@.len() == 14);
    reveal_strlit("stopColor");
    assert("stopColor"@.len() == 9);
    reveal_strlit("stopOpacity");
    assert("stopOpacity"@[2] != "strokeWidth"@[2]);
    reveal_strlit("strikethroughPosition");
    assert("strikethroughPosition"@.len() == 21);
    reveal_strlit("strikethroughThickness");
    assert("strikethroughThickness"@.len() == 22);
    reveal_strlit("strokeDasharray");
    assert("strokeDasharray"@.len() == 15);
    reveal_strlit("strokeDashoffset");
    assert("strokeDashoffset"@.len() == 16);
    reveal_strlit("strokeLinecap");
    assert("strokeLinecap"@.len() == 13);
    reveal_strlit("strokeLinejoin");
    assert("strokeLinejoin"@.len() == 14);
    reveal_strlit("strokeMiterlimit");
    assert("strokeMiterlimit"@.len() == 16);
    reveal_strlit("strokeOpacity");
    assert("strokeOpacity"@.len() == 13);
    reveal_strlit("htmlFor");
    assert("htmlFor"@.len() == 7);
    reveal_strlit("dangerouslySetInnerHTML");
    assert("dangerouslySetInnerHTML"@.len() == 23);
    reveal_strlit("ref");
    assert("ref"@.len() == 3);
    reveal_strlit("key");
    assert("key"@.len() == 3);
    assert("strokeWidth"@[0] == 's' && "strokeWidth"@[1] == 't');
}

proof fn lemma_table_has_text_anchor()
    ensures
        attr_action("textAnchor"@) == AttrActionView::Use("text-anchor"@),
{
    reveal_strlit("textAnchor");
    assert("textAnchor"@.len() == 10);
    reveal_strlit("text-anchor");
    reveal_strlit("className");
    assert("className"@.len() == 9);
    reveal_strlit("accentHeight");
    assert("accentHeight"@.len() == 12);
    reveal_strlit("alignmentBaseline");
    assert("alignmentBaseline"@.len() == 17);
    reveal_strlit("arabicForm");
    assert("arabicForm"@[0] != "textAnchor"@[0]);
    reveal_strlit("baselineShift");
    assert("baselineShift"@.len() == 13);
    reveal_strlit("capHeight");
    assert("capHeight"@.len() == 9);
    reveal_strlit("clipPath");
    assert("clipPath"@.len() == 8);
    reveal_strlit("clipRule");
    assert("clipRule"@.len() == 8);
    reveal_strlit("colorInterpolation");
    assert("colorInterpolation"@.len() == 18);
    reveal_strlit("colorInterpolationFilters");
    assert("colorInterpolationFilters"@.len() == 25);
    reveal_strlit("colorProfile");
    assert("colorProfile"@.len() == 12);
    reveal_strlit("colorRendering");
    assert("colorRendering"@.len() == 14);
    reveal_strlit("dominantBaseline");
    assert("dominantBaseline"@.len() == 16);
    reveal_strlit("enableBackground");
    assert("enableBackground"@.len() == 16);
    reveal_strlit("fillOpacity");
    assert("fillOpacity"@.len() == 11);
    reveal_strlit("fillRule");
    assert("fillRule"@.len() == 8);
    reveal_strlit("floodColor");
    assert("floodColor"@[0] != "textAnchor"@[0]);
    reveal_strlit("floodOpacity");
    assert("floodOpacity"@.len() == 12);
    reveal_strlit("fontFamily");
    assert("fontFamily"@[0] != "textAnchor"@[0]);
    reveal_strlit("fontSize");
    assert("fontSize"@.len() == 8);
    reveal_strlit("fontSizeAdjust");
    assert("fontSizeAdjust"@.len() == 14);
    reveal_strlit("fontStretch");
    assert("fontStretch"@.len() == 11);
    reveal_strlit("fontStyle");
    assert("fontStyle"@.len() == 9);
    reveal_strlit("fontVariant");
    assert("fontVariant"@.len() == 11);
    reveal_strlit("fontWeight");
    assert("fontWeight"@[0] != "textAnchor"@[0]);
    reveal_strlit("glyphName");
    assert("glyphName"@.len() == 9);
    reveal_strlit("glyphOrientationHorizontal");
    assert("glyphOrientationHorizontal"@.len() == 26);
    reveal_strlit("glyphOrientationVertical");
    assert("glyphOrientationVertical"@.len() == 24);
    reveal_strlit("horizAdvX");
    assert("horizAdvX"@.len() == 9);
    reveal_strlit("horizOriginX");
    assert("horizOriginX"@.len() == 12);
    reveal_strlit("imageRendering");
    assert("imageRendering"@.len() == 14);
    reveal_strlit("letterSpacing");
    assert("letterSpacing"@.len() == 13);
    reveal_strlit("lightingColor");
    assert("lightingColor"@.len() == 13);
    reveal_strlit("markerEnd");
    assert("markerEnd"@.len() == 9);
    reveal_strlit("markerMid");
    assert("markerMid"@.len() == 9);
    reveal_strlit("markerStart");
    assert("markerStart"@.len() == 11);
    reveal_strlit("overlinePosition");
    assert("overlinePosition"@.len() == 16);
    reveal_strlit("overlineThickness");
    assert("overlineThickness"@.len() == 17);
    reveal_strlit("paintOrder");
    assert("paintOrder"@[0] != "textAnchor"@[0]);
    reveal_strlit("panose1");
    assert("panose1"@.len() == 7);
    reveal_strlit("pointerEvents");
    assert("pointerEvents"@.len() == 13);
    reveal_strlit("renderingIntent");
    assert("renderingIntent"@.len() == 15);
    reveal_strlit("shapeRendering");
    assert("shapeRendering"@.len() == 14);
    reveal_strlit("stopColor");
    assert("stopColor"@.len() == 9);
    reveal_strlit("stopOpacity");
    assert("stopOpacity"@.len() == 11);
    reveal_strlit("strikethroughPosition");
    assert("strikethroughPosition"@.len() == 21);
    reveal_strlit("strikethroughThickness");
    assert("strikethroughThickness"@.len() == 22);
    reveal_strlit("strokeDasharray");
    assert("strokeDasharray"@.len() == 15);
    reveal_strlit("strokeDashoffset");
    assert("strokeDashoffset"@.len() == 16);
    reveal_strlit("strokeLinecap");
    assert("strokeLinecap"@.len() == 13);
    reveal_strlit("strokeLinejoin");
    assert("strokeLinejoin"@.len() == 14);
    reveal_strlit("strokeMiterlimit");
    assert("strokeMiterlimit"@.len() == 16);
    reveal_strlit("strokeOpacity");
    assert("strokeOpacity"@.len() == 13);
    reveal_strlit("strokeWidth");
    assert("strokeWidth"@.len() == 11);
    reveal_strlit("htmlFor");
    assert("htmlFor"@.len() == 7);
    reveal_strlit("dangerouslySetInnerHTML");
    assert("dangerouslySetInnerHTML"@.len() == 23);
    reveal_strlit("ref");
    assert("ref"@.len() == 3);
    reveal_strlit("key");
    assert("key"@.len() == 3);
    assert("textAnchor"@[0] == 't' && "textAnchor"@[1] == 'e');
}

proof fn lemma_table_has_text_decoration()
    ensures
        attr_action("textDecoration"@) == AttrActionView::Use("text-decoration"@),
{
    reveal_strlit("textDecoration");
    assert("textDecoration"@.len() == 14);
    reveal_strlit("text-decoration");
    reveal_strlit("className");
    assert("className"@.len() == 9);
    reveal_strlit("accentHeight");
    assert("accentHeight"@.len() == 12);
    reveal_strlit("alignmentBaseline");
    assert("alignmentBaseline"@.len() == 17);
    reveal_strlit("arabicForm");
    assert("arabicForm"@.len() == 10);
    reveal_strlit("baselineShift");
    assert("baselineShift"@.len() == 13);
    reveal_strlit("capHeight");
    assert("capHeight"@.len() == 9);
    reveal_strlit("clipPath");
    assert("clipPath"@.len() == 8);
    reveal_strlit("clipRule");
    assert("clipRule"@.len() == 8);
    reveal_strlit("colorInterpolation");
    assert("colorInterpolation"@.len() == 18);
    reveal_strlit("colorInterpolationFilters");
    assert("colorInterpolationFilters"@.len() == 25);
    reveal_strlit("colorProfile");
    assert("colorProfile"@.len() == 12);
    reveal_strlit("colorRendering");
    assert("colorRendering"@[0] != "textDecoration"@[0]);
    reveal_strlit("dominantBaseline");
    assert("dominantBaseline"@.len() == 16);
    reveal_strlit("enableBackground");
    assert("enableBackground"@.len() == 16);
    reveal_strlit("fillOpacity");
    assert("fillOpacity"@.len() == 11);
    reveal_strlit("fillRule");
    assert("fillRule"@.len() == 8);
    reveal_strlit("floodColor");
    assert("floodColor"@.len() == 10);
    reveal_strlit("floodOpacity");
    assert("floodOpacity"@.len() == 12);
    reveal_strlit("fontFamily");
    assert("fontFamily"@.len() == 10);
    reveal_strlit("fontSize");
    assert("fontSize"@.len() == 8);
    reveal_strlit("fontSizeAdjust");
    assert("fontSizeAdjust"@[0] != "textDecoration"@[0]);
    reveal_strlit("fontStretch");
    assert("fontStretch"@.len() == 11);
    reveal_strlit("fontStyle");
    assert("fontStyle"@.len() == 9);
    reveal_strlit("fontVariant");
    assert("fontVariant"@.len() == 11);
    reveal_strlit("fontWeight");
    assert("fontWeight"@.len() == 10);
    reveal_strlit("glyphName");
    assert("glyphName"@.len() == 9);
    reveal_strlit("glyphOrientationHorizontal");
    assert("glyphOrientationHorizontal"@.len() == 26);
    reveal_strlit("glyphOrientationVertical");
    assert("glyphOrientationVertical"@.len() == 24);
    reveal_strlit("horizAdvX");
    assert("horizAdvX"@.len() == 9);
    reveal_strlit("horizOriginX");
    assert("horizOriginX"@.len() == 12);
    reveal_strlit("imageRendering");
    assert("imageRendering"@[0] != "textDecoration"@[0]);
    reveal_strlit("letterSpacing");
    assert("letterSpacing"@.len() == 13);
    reveal_strlit("lightingColor");
    assert("lightingColor"@.len() == 13);
    reveal_strlit("markerEnd");
    assert("markerEnd"@.len() == 9);
    reveal_strlit("markerMid");
    assert("markerMid"@.len() == 9);
    reveal_strlit("markerStart");
    assert("markerStart"@.len() == 11);
    reveal_strlit("overlinePosition");
    assert("overlinePosition"@.len() == 16);
    reveal_strlit("overlineThickness");
    assert("overlineThickness"@.len() == 17);
    reveal_strlit("paintOrder");
    assert("paintOrder"@.len() == 10);
    reveal_strlit("panose1");
    assert("panose1"@.len() == 7);
    reveal_strlit("pointerEvents");
    assert("pointerEvents"@.len() == 13);
    reveal_strlit("renderingIntent");
    assert("renderingIntent"@.len() == 15);
    reveal_strlit("shapeRendering");
    assert("shapeRendering"@[0] != "textDecoration"@[0]);
    reveal_strlit("stopColor");
    assert("stopColor"@.len() == 9);
    reveal_strlit("stopOpacity");
    assert("stopOpacity"@.len() == 11);
    reveal_strlit("strikethroughPosition");
    assert("strikethroughPosition"@.len() == 21);
    reveal_strlit("strikethroughThickness");
    assert("strikethroughThickness"@.len() == 22);
    reveal_strlit("strokeDasharray");
    assert("strokeDasharray"@.len() == 15);
    reveal_strlit("strokeDashoffset");
    assert("strokeDashoffset"@.len() == 16);
    reveal_strlit("strokeLinecap");
    assert("strokeLinecap"@.len() == 13);
    reveal_strlit("strokeLinejoin");
    assert("strokeLinejoin"@[0] != "textDecoration"@[0]);
    reveal_strlit("strokeMiterlimit");
    assert("strokeMiterlimit"@.len() == 16);
    reveal_strlit("strokeOpacity");
    assert("strokeOpacity"@.len() == 13);
    reveal_strlit("strokeWidth");
    assert("strokeWidth"@.len() == 11);
    reveal_strlit("textAnchor");
    assert("textAnchor"@.len() == 10);
    reveal_strlit("htmlFor");
    assert("htmlFor"@.len() == 7);
    reveal_strlit("dangerouslySetInnerHTML");
    assert("dangerouslySetInnerHTML"@.len() == 23);
    reveal_strlit("ref");
    assert("ref"@.len() == 3);
    reveal_strlit("key");
    assert("key"@.len() == 3);
    assert("textDecoration"@[0] == 't' && "textDecoration"@[1] == 'e');
}

proof fn lemma_table_has_text_rendering()
    ensures
        attr_action("textRendering"@) == AttrActionView::Use("text-rendering"@),
{
    reveal_strlit("textRendering");
    assert("textRendering"@.len() == 13);
    reveal_strlit("text-rendering");
    reveal_strlit("className");
    assert("className"@.len() == 9);
    reveal_strlit("accentHeight");
    assert("accentHeight"@.len() == 12);
    reveal_strlit("alignmentBaseline");
    assert("alignmentBaseline"@.len() == 17);
    reveal_strlit("arabicForm");
    assert("arabicForm"@.len() == 10);
    reveal_strlit("baselineShift");
    assert("baselineShift"@[0] != "textRendering"@[0]);
    reveal_strlit("capHeight");
    assert("capHeight"@.len() == 9);
    reveal_strlit("clipPath");
    assert("clipPath"@.len() == 8);
    reveal_strlit("clipRule");
    assert("clipRule"@.len() == 8);
    reveal_strlit("colorInterpolation");
    assert("colorInterpolation"@.len() == 18);
    reveal_strlit("colorInterpolationFilters");
    assert("colorInterpolationFilters"@.len() == 25);
    reveal_strlit("colorProfile");
    assert("colorProfile"@.len() == 12);
    reveal_strlit("colorRendering");
    assert("colorRendering"@.len() == 14);
    reveal_strlit("dominantBaseline");
    assert("dominantBaseline"@.len() == 16);
    reveal_strlit("enableBackground");
    assert("enableBackground"@.len() == 16);
    reveal_strlit("fillOpacity");
    assert("fillOpacity"@.len() == 11);
    reveal_strlit("fillRule");
    assert("fillRule"@.len() == 8);
    reveal_strlit("floodColor");
    assert("floodColor"@.len() == 10);
    reveal_strlit("floodOpacity");
    assert("floodOpacity"@.len() == 12);
    reveal_strlit("fontFamily");
    assert("fontFamily"@.len() == 10);
    reveal_strlit("fontSize");
    assert("fontSize"@.len() == 8);
    reveal_strlit("fontSizeAdjust");
    assert("fontSizeAdjust"@.len() == 14);
    reveal_strlit("fontStretch");
    assert("fontStretch"@.len() == 11);
    reveal_strlit("fontStyle");
    assert("fontStyle"@.len() == 9);
    reveal_strlit("fontVariant");
    assert("fontVariant"@.len() == 11);
    reveal_strlit("fontWeight");
    assert("fontWeight"@.len() == 10);
    reveal_strlit("glyphName");
    assert("glyphName"@.len() == 9);
    reveal_strlit("glyphOrientationHorizontal");
    assert("glyphOrientationHorizontal"@.len() == 26);
    reveal_strlit("glyphOrientationVertical");
    assert("glyphOrientationVertical"@.len() == 24);
    reveal_strlit("horizAdvX");
    assert("horizAdvX"@.len() == 9);
    reveal_strlit("horizOriginX");
    assert("horizOriginX"@.len() == 12);
    reveal_strlit("imageRendering");
    assert("imageRendering"@.len() == 14);
    reveal_strlit("letterSpacing");
    assert("letterSpacing"@[0] != "textRendering"@[0]);
    reveal_strlit("lightingColor");
    assert("lightingColor"@[0] != "textRendering"@[0]);
    reveal_strlit("markerEnd");
    assert("markerEnd"@.len() == 9);
    reveal_strlit("markerMid");
    assert("markerMid"@.len() == 9);
    reveal_strlit("markerStart");
    assert("markerStart"@.len() == 11);
    reveal_strlit("overlinePosition");
    assert("overlinePosition"@.len() == 16);
    reveal_strlit("overlineThickness");
    assert("overlineThickness"@.len() == 17);
    reveal_strlit("paintOrder");
    assert("paintOrder"@.len() == 10);
    reveal_strlit("panose1");
    assert("panose1"@.len() == 7);
    reveal_strlit("pointerEvents");
    assert("pointerEvents"@[0] != "textRendering"@[0]);
    reveal_strlit("renderingIntent");
    assert("renderingIntent"@.len() == 15);
    reveal_strlit("shapeRendering");
    assert("shapeRendering"@.len() == 14);
    reveal_strlit("stopColor");
    assert("stopColor"@.len() == 9);
    reveal_strlit("stopOpacity");
    assert("stopOpacity"@.len() == 11);
    reveal_strlit("strikethroughPosition");
    assert("strikethroughPosition"@.len() == 21);
    reveal_strlit("strikethroughThickness");
    assert("strikethroughThickness"@.len() == 22);
    reveal_strlit("strokeDasharray");
    assert("strokeDasharray"@.len() == 15);
    reveal_strlit("strokeDashoffset");
    assert("strokeDashoffset"@.len() == 16);
    reveal_strlit("strokeLinecap");
    assert("strokeLinecap"@[0] != "textRendering"@[0]);
    reveal_strlit("strokeLinejoin");
    assert("strokeLinejoin"@.len() == 14);
    reveal_strlit("strokeMiterlimit");
    assert("strokeMiterlimit"@.len() == 16);
    reveal_strlit("strokeOpacity");
    assert("strokeOpacity"@[0] != "textRendering"@[0]);
    reveal_strlit("strokeWidth");
    assert("strokeWidth"@.len() == 11);
    reveal_strlit("textAnchor");
    assert("textAnchor"@.len() == 10);
    reveal_strlit("textDecoration");
    assert("textDecoration"@.len() == 14);
    reveal_strlit("htmlFor");
    assert("htmlFor"@.len() == 7);
    reveal_strlit("dangerouslySetInnerHTML");
    assert("dangerouslySetInnerHTML"@.len() == 23);
    reveal_strlit("ref");
    assert("ref"@.len() == 3);
    reveal_strlit("key");
    assert("key"@.len() == 3);
    assert("textRendering"@[0] == 't' && "textRendering"@[1] == 'e');
}

proof fn lemma_table_has_transform_origin()
    ensures
        attr_action("transformOrigin"@) == AttrActionView::Use("transform-origin"@),
{
    reveal_strlit("transformOrigin");
    assert("transformOrigin"@.len() == 15);
    reveal_strlit("transform-origin");
    reveal_strlit("className");
    assert("className"@.len() == 9);
    reveal_strlit("accentHeight");
    assert("accentHeight"@.len() == 12);
    reveal_strlit("alignmentBaseline");
    assert("alignmentBaseline"@.len() == 17);
    reveal_strlit("arabicForm");
    assert("arabicForm"@.len() == 10);
    reveal_strlit("baselineShift");
    assert("baselineShift"@.len() == 13);
    reveal_strlit("capHeight");
    assert("capHeight"@.len() == 9);
    reveal_strlit("clipPath");
    assert("clipPath"@.len() == 8);
    reveal_strlit("clipRule");
    assert("clipRule"@.len() == 8);
    reveal_strlit("colorInterpolation");
    assert("colorInterpolation"@.len() == 18);
    reveal_strlit("colorInterpolationFilters");
    assert("colorInterpolationFilters"@.len() == 25);
    reveal_strlit("colorProfile");
    assert("colorProfile"@.len() == 12);
    reveal_strlit("colorRendering");
    assert("colorRendering"@.len() == 14);
    reveal_strlit("dominantBaseline");
    assert("dominantBaseline"@.len() == 16);
    reveal_strlit("enableBackground");
    assert("enableBackground"@.len() == 16);
    reveal_strlit("fillOpacity");
    assert("fillOpacity"@.len() == 11);
    reveal_strlit("fillRule");
    assert("fillRule"@.len() == 8);
    reveal_strlit("floodColor");
    assert("floodColor"@.len() == 10);
    reveal_strlit("floodOpacity");
    assert("floodOpacity"@.len() == 12);
    reveal_strlit("fontFamily");
    assert("fontFamily"@.len() == 10);
    reveal_strlit("fontSize");
    assert("fontSize"@.len() == 8);
    reveal_strlit("fontSizeAdjust");
    assert("fontSizeAdjust"@.len() == 14);
    reveal_strlit("fontStretch");
    assert("fontStretch"@.len() == 11);
    reveal_strlit("fontStyle");
    assert("fontStyle"@.len() == 9);
    reveal_strlit("fontVariant");
    assert("fontVariant"@.len() == 11);
    reveal_strlit("fontWeight");
    assert("fontWeight"@.len() == 10);
    reveal_strlit("glyphName");
    assert("glyphName"@.len() == 9);
    reveal_strlit("glyphOrientationHorizontal");
    assert("glyphOrientationHorizontal"@.len() == 26);
    reveal_strlit("glyphOrientationVertical");
    assert("glyphOrientationVertical"@.len() == 24);
    reveal_strlit("horizAdvX");
    assert("horizAdvX"@.len() == 9);
    reveal_strlit("horizOriginX");
    assert("horizOriginX"@.len() == 12);
    reveal_strlit("imageRendering");
    assert("imageRendering"@.len() == 14);
    reveal_strlit("letterSpacing");
    assert("letterSpacing"@.len() == 13);
    reveal_strlit("lightingColor");
    assert("lightingColor"@.len() == 13);
    reveal_strlit("markerEnd");
    assert("markerEnd"@.len() == 9);
    reveal_strlit("markerMid");
    assert("markerMid"@.len() == 9);
    reveal_strlit("markerStart");
    assert("markerStart"@.len() == 11);
    reveal_strlit("overlinePosition");
    assert("overlinePosition"@.len() == 16);
    reveal_strlit("overlineThickness");
    assert("overlineThickness"@.len() == 17);
    reveal_strlit("paintOrder");
    assert("paintOrder"@.len() == 10);
    reveal_strlit("panose1");
    assert("panose1"@.len() == 7);
    reveal_strlit("pointerEvents");
    assert("pointerEvents"@.len() == 13);
    reveal_strlit("renderingIntent");
    assert("renderingIntent"@[0] != "transformOrigin"@[0]);
    reveal_strlit("shapeRendering");
    assert("shapeRendering"@.len() == 14);
    reveal_strlit("stopColor");
    assert("stopColor"@.len() == 9);
    reveal_strlit("stopOpacity");
    assert("stopOpacity"@.len() == 11);
    reveal_strlit("strikethroughPosition");
    assert("strikethroughPosition"@.len() == 21);
    reveal_strlit("strikethroughThickness");
    assert("strikethroughThickness"@.len() == 22);
    reveal_strlit("strokeDasharray");
    assert("strokeDasharray"@[0] != "transformOrigin"@[0]);
    reveal_strlit("strokeDashoffset");
    assert("strokeDashoffset"@.len() == 16);
    reveal_strlit("strokeLinecap");
    assert("strokeLinecap"@.len() == 13);
    reveal_strlit("strokeLinejoin");
    assert("strokeLinejoin"@.len() == 14);
    reveal_strlit("strokeMiterlimit");
    assert("strokeMiterlimit"@.len() == 16);
    reveal_strlit("strokeOpacity");
    assert("strokeOpacity"@.len() == 13);
    reveal_strlit("strokeWidth");
    assert("strokeWidth"@.len() == 11);
    reveal_strlit("textAnchor");
    assert("textAnchor"@.len() == 10);
    reveal_strlit("textDecoration");
    assert("textDecoration"@.len() == 14);
    reveal_strlit("textRendering");
    assert("textRendering"@.len() == 13);
    reveal_strlit("htmlFor");
    assert("htmlFor"@.len() == 7);
    reveal_strlit("dangerouslySetInnerHTML");
    assert("dangerouslySetInnerHTML"@.len() == 23);
    reveal_strlit("ref");
    assert("ref"@.len() == 3);
    reveal_strlit("key");
    assert("key"@.len() == 3);
    assert("transformOrigin"@[0] == 't' && "transformOrigin"@[1] == 'r');
}

proof fn lemma_table_has_underline_position()
    ensures
        attr_action("underlinePosition"@) == AttrActionView::Use("underline-position"@),
{
    reveal_strlit("underlinePosition");
    assert("underlinePosition"@.len() == 17);
    reveal_strlit("underline-position");
    reveal_strlit("className");
    assert("className"@.len() == 9);
    reveal_strlit("accentHeight");
    assert("accentHeight"@.len() == 12);
    reveal_strlit("alignmentBaseline");
    assert("alignmentBaseline"@[0] != "underlinePosition"@[0]);
    reveal_strlit("arabicForm");
    assert("arabicForm"@.len() == 10);
    reveal_strlit("baselineShift");
    assert("baselineShift"@.len() == 13);
    reveal_strlit("capHeight");
    assert("capHeight"@.len() == 9);
    reveal_strlit("clipPath");
    assert("clipPath"@.len() == 8);
    reveal_strlit("clipRule");
    assert("clipRule"@.len() == 8);
    reveal_strlit("colorInterpolation");
    assert("colorInterpolation"@.len() == 18);
    reveal_strlit("colorInterpolationFilters");
    assert("colorInterpolationFilters"@.len() == 25);
    reveal_strlit("colorProfile");
    assert("colorProfile"@.len() == 12);
    reveal_strlit("colorRendering");
    assert("colorRendering"@.len() == 14);
    reveal_strlit("dominantBaseline");
    assert("dominantBaseline"@.len() == 16);
    reveal_strlit("enableBackground");
    assert("enableBackground"@.len() == 16);
    reveal_strlit("fillOpacity");
    assert("fillOpacity"@.len() == 11);
    reveal_strlit("fillRule");
    assert("fillRule"@.len() == 8);
    reveal_strlit("floodColor");
    assert("floodColor"@.len() == 10);
    reveal_strlit("floodOpacity");
    assert("floodOpacity"@.len() == 12);
    reveal_strlit("fontFamily");
    assert("fontFamily"@.len() == 10);
    reveal_strlit("fontSize");
    assert("fontSize"@.len() == 8);
    reveal_strlit("fontSizeAdjust");
    assert("fontSizeAdjust"@.len() == 14);
    reveal_strlit("fontStretch");
    assert("fontStretch"@.len() == 11);
    reveal_strlit("fontStyle");
    assert("fontStyle"@.len() == 9);
    reveal_strlit("fontVariant");
    assert("fontVariant"@.len() == 11);
    reveal_strlit("fontWeight");
    assert("fontWeight"@.len() == 10);
    reveal_strlit("glyphName");
    assert("glyphName"@.len() == 9);
    reveal_strlit("glyphOrientationHorizontal");
    assert("glyphOrientationHorizontal"@.len() == 26);
    reveal_strlit("glyphOrientationVertical");
    assert("glyphOrientationVertical"@.len() == 24);
    reveal_strlit("horizAdvX");
    assert("horizAdvX"@.len() == 9);
    reveal_strlit("horizOriginX");
    assert("horizOriginX"@.len() == 12);
    reveal_strlit("imageRendering");
    assert("imageRendering"@.len() == 14);
    reveal_strlit("letterSpacing");
    assert("letterSpacing"@.len() == 13);
    reveal_strlit("lightingColor");
    assert("lightingColor"@.len() == 13);
    reveal_strlit("markerEnd");
    assert("markerEnd"@.len() == 9);
    reveal_strlit("markerMid");
    assert("markerMid"@.len() == 9);
    reveal_strlit("markerStart");
    assert("markerStart"@.len() == 11);
    reveal_strlit("overlinePosition");
    assert("overlinePosition"@.len() == 16);
    reveal_strlit("overlineThickness");
    assert("overlineThickness"@[0] != "underlinePosition"@[0]);
    reveal_strlit("paintOrder");
    assert("paintOrder"@.len() == 10);
    reveal_strlit("panose1");
    assert("panose1"@.len() == 7);
    reveal_strlit("pointerEvents");
    assert("pointerEvents"@.len() == 13);
    reveal_strlit("renderingIntent");
    assert("renderingIntent"@.len() == 15);
    reveal_strlit("shapeRendering");
    assert("shapeRendering"@.len() == 14);
    reveal_strlit("stopColor");
    assert("stopColor"@.len() == 9);
    reveal_strlit("stopOpacity");
    assert("stopOpacity"@.len() == 11);
    reveal_strlit("strikethroughPosition");
    assert("strikethroughPosition"@.len() == 21);
    reveal_strlit("strikethroughThickness");
    assert("strikethroughThickness"@.len() == 22);
    reveal_strlit("strokeDasharray");
    assert("strokeDasharray"@.len() == 15);
    reveal_strlit("strokeDashoffset");
    assert("strokeDashoffset"@.len() == 16);
    reveal_strlit("strokeLinecap");
    assert("strokeLinecap"@.len() == 13);
    reveal_strlit("strokeLinejoin");
    assert("strokeLinejoin"@.len() == 14);
    reveal_strlit("strokeMiterlimit");
    assert("strokeMiterlimit"@.len() == 16);
    reveal_strlit("strokeOpacity");
    assert("strokeOpacity"@.len() == 13);
    reveal_strlit("strokeWidth");
    assert("strokeWidth"@.len() == 11);
    reveal_strlit("textAnchor");
    assert("textAnchor"@.len() == 10);
    reveal_strlit("textDecoration");
    assert("textDecoration"@.len() == 14);
    reveal_strlit("textRendering");
    assert("textRendering"@.len() == 13);
    reveal_strlit("transformOrigin");
    assert("transformOrigin"@.len() == 15);
    reveal_strlit("htmlFor");
    assert("htmlFor"@.len() == 7);
    reveal_strlit("dangerouslySetInnerHTML");
    assert("dangerouslySetInnerHTML"@.len() == 23);
    reveal_strlit("ref");
    assert("ref"@.len() == 3);
    reveal_strlit("key");
    assert("key"@.len() == 3);
    assert("underlinePosition"@[0] == 'u' && "underlinePosition"@[1] == 'n');
}

proof fn lemma_table_has_underline_thickness()
    ensures
        attr_action("underlineThickness"@) == AttrActionView::Use("underline-thickness"@),
{
    reveal_strlit("underlineThickness");
    assert("underlineThickness"@.len() == 18);
    reveal_strlit("underline-thickness");
    reveal_strlit("className");
    assert("className"@.len() == 9);
    reveal_strlit("accentHeight");
    assert("accentHeight"@.len() == 12);
    reveal_strlit("alignmentBaseline");
    assert("alignmentBaseline"@.len() == 17);
    reveal_strlit("arabicForm");
    assert("arabicForm"@.len() == 10);
    reveal_strlit("baselineShift");
    assert("baselineShift"@.len() == 13);
    reveal_strlit("capHeight");
    assert("capHeight"@.len() == 9);
    reveal_strlit("clipPath");
    assert("clipPath"@.len() == 8);
    reveal_strlit("clipRule");
    assert("clipRule"@.len() == 8);
    reveal_strlit("colorInterpolation");
    assert("colorInterpolation"@[0] != "underlineThickness"@[0]);
    reveal_strlit("colorInterpolationFilters");
    assert("colorInterpolationFilters"@.len() == 25);
    reveal_strlit("colorProfile");
    assert("colorProfile"@.len() == 12);
    reveal_strlit("colorRendering");
    assert("colorRendering"@.len() == 14);
    reveal_strlit("dominantBaseline");
    assert("dominantBaseline"@.len() == 16);
    reveal_strlit("enableBackground");
    assert("enableBackground"@.len() == 16);
    reveal_strlit("fillOpacity");
    assert("fillOpacity"@.len() == 11);
    reveal_strlit("fillRule");
    assert("fillRule"@.len() == 8);
    reveal_strlit("floodColor");
    assert("floodColor"@.len() == 10);
    reveal_strlit("floodOpacity");
    assert("floodOpacity"@.len() == 12);
    reveal_strlit("fontFamily");
    assert("fontFamily"@.len() == 10);
    reveal_strlit("fontSize");
    assert("fontSize"@.len() == 8);
    reveal_strlit("fontSizeAdjust");
    assert("fontSizeAdjust"@.len() == 14);
    reveal_strlit("fontStretch");
    assert("fontStretch"@.len() == 11);
    reveal_strlit("fontStyle");
    assert("fontStyle"@.len() == 9);
    reveal_strlit("fontVariant");
    assert("fontVariant"@.len() == 11);
    reveal_strlit("fontWeight");
    assert("fontWeight"@.len() == 10);
    reveal_strlit("glyphName");
    assert("glyphName"@.len() == 9);
    reveal_strlit("glyphOrientationHorizontal");
    assert("glyphOrientationHorizontal"@.len() == 26);
    reveal_strlit("glyphOrientationVertical");
    assert("glyphOrientationVertical"@.len() == 24);
    reveal_strlit("horizAdvX");
    assert("horizAdvX"@.len() == 9);
    reveal_strlit("horizOriginX");
    assert("horizOriginX"@.len() == 12);
    reveal_strlit("imageRendering");
    assert("imageRendering"@.len() == 14);
    reveal_strlit("letterSpacing");
    assert("letterSpacing"@.len() == 13);
    reveal_strlit("lightingColor");
    assert("lightingColor"@.len() == 13);
    reveal_strlit("markerEnd");
    assert("markerEnd"@.len() == 9);
    reveal_strlit("markerMid");
    assert("markerMid"@.len() == 9);
    reveal_strlit("markerStart");
    assert("markerStart"@.len() == 11);
    reveal_strlit("overlinePosition");
    assert("overlinePosition"@.len() == 16);
    reveal_strlit("overlineThickness");
    assert("overlineThickness"@.len() == 17);
    reveal_strlit("paintOrder");
    assert("paintOrder"@.len() == 10);
    reveal_strlit("panose1");
    assert("panose1"@.len() == 7);
    reveal_strlit("pointerEvents");
    assert("pointerEvents"@.len() == 13);
    reveal_strlit("renderingIntent");
    assert("renderingIntent"@.len() == 15);
    reveal_strlit("shapeRendering");
    assert("shapeRendering"@.len() == 14);
    reveal_strlit("stopColor");
    assert("stopColor"@.len() == 9);
    reveal_strlit("stopOpacity");
    assert("stopOpacity"@.len() == 11);
    reveal_strlit("strikethroughPosition");
    assert("strikethroughPosition"@.len() == 21);
    reveal_strlit("strikethroughThickness");
    assert("strikethroughThickness"@.len() == 22);
    reveal_strlit("strokeDasharray");
    assert("strokeDasharray"@.len() == 15);
    reveal_strlit("strokeDashoffset");
    assert("strokeDashoffset"@.len() == 16);
    reveal_strlit("strokeLinecap");
    assert("strokeLinecap"@.len() == 13);
    reveal_strlit("strokeLinejoin");
    assert("strokeLinejoin"@.len() == 14);
    reveal_strlit("strokeMiterlimit");
    assert("strokeMiterlimit"@.len() == 16);
    reveal_strlit("strokeOpacity");
    assert("strokeOpacity"@.len() == 13);
    reveal_strlit("strokeWidth");
    assert("strokeWidth"@.len() == 11);
    reveal_strlit("textAnchor");
    assert("textAnchor"@.len() == 10);
    reveal_strlit("textDecoration");
    assert("textDecoration"@.len() == 14);
    reveal_strlit("textRendering");
    assert("textRendering"@.len() == 13);
    reveal_strlit("transformOrigin");
    assert("transformOrigin"@.len() == 15);
    reveal_strlit("underlinePosition");
    assert("underlinePosition"@.len() == 17);
    reveal_strlit("htmlFor");
    assert("htmlFor"@.len() == 7);
    reveal_strlit("dangerouslySetInnerHTML");
    assert("dangerouslySetInnerHTML"@.len() == 23);
    reveal_strlit("ref");
    assert("ref"@.len() == 3);
    reveal_strlit("key");
    assert("key"@.len() == 3);
    assert("underlineThickness"@[0] == 'u' && "underlineThickness"@[1] == 'n');
}

proof fn lemma_table_has_unicode_bidi()
    ensures
        attr_action("unicodeBidi"@) == AttrActionView::Use("unicode-bidi"@),
{
    reveal_strlit("unicodeBidi");
    assert("unicodeBidi"@.len() == 11);
    reveal_strlit("unicode-bidi");
    reveal_strlit("className");
    assert("className"@.len() == 9);
    reveal_strlit("accentHeight");
    assert("accentHeight"@.len() == 12);
    reveal_strlit("alignmentBaseline");
    assert("alignmentBaseline"@.len() == 17);
    reveal_strlit("arabicForm");
    assert("arabicForm"@.len() == 10);
    reveal_strlit("baselineShift");
    assert("baselineShift"@.len() == 13);
    reveal_strlit("capHeight");
    assert("capHeight"@.len() == 9);
    reveal_strlit("clipPath");
    assert("clipPath"@.len() == 8);
    reveal_strlit("clipRule");
    assert("clipRule"@.len() == 8);
    reveal_strlit("colorInterpolation");
    assert("colorInterpolation"@.len() == 18);
    reveal_strlit("colorInterpolationFilters");
    assert("colorInterpolationFilters"@.len() == 25);
    reveal_strlit("colorProfile");
    assert("colorProfile"@.len() == 12);
    reveal_strlit("colorRendering");
    assert("colorRendering"@.len() == 14);
    reveal_strlit("dominantBaseline");
    assert("dominantBaseline"@.len() == 16);
    reveal_strlit("enableBackground");
    assert("enableBackground"@.len() == 16);
    reveal_strlit("fillOpacity");
    assert("fillOpacity"@[0] != "unicodeBidi"@[0]);
    reveal_strlit("fillRule");
    assert("fillRule"@.len() == 8);
    reveal_strlit("floodColor");
    assert("floodColor"@.len() == 10);
    reveal_strlit("floodOpacity");
    assert("floodOpacity"@.len() == 12);
    reveal_strlit("fontFamily");
    assert("fontFamily"@.len() == 10);
    reveal_strlit("fontSize");
    assert("fontSize"@.len() == 8);
    reveal_strlit("fontSizeAdjust");
    assert("fontSizeAdjust"@.len() == 14);
    reveal_strlit("fontStretch");
    assert("fontStretch"@[0] != "unicodeBidi"@[0]);
    reveal_strlit("fontStyle");
    assert("fontStyle"@.len() == 9);
    reveal_strlit("fontVariant");
    assert("fontVariant"@[0] != "unicodeBidi"@[0]);
    reveal_strlit("fontWeight");
    assert("fontWeight"@.len() == 10);
    reveal_strlit("glyphName");
    assert("glyphName"@.len() == 9);
    reveal_strlit("glyphOrientationHorizontal");
    assert("glyphOrientationHorizontal"@.len() == 26);
    reveal_strlit("glyphOrientationVertical");
    assert("glyphOrientationVertical"@.len() == 24);
    reveal_strlit("horizAdvX");
    assert("horizAdvX"@.len() == 9);
    reveal_strlit("horizOriginX");
    assert("horizOriginX"@.len() == 12);
    reveal_strlit("imageRendering");
    assert("imageRendering"@.len() == 14);
    reveal_strlit("letterSpacing");
    assert("letterSpacing"@.len() == 13);
    reveal_strlit("lightingColor");
    assert("lightingColor"@.len() == 13);
    reveal_strlit("markerEnd");
    assert("markerEnd"@.len() == 9);
    reveal_strlit("markerMid");
    assert("markerMid"@.len() == 9);
    reveal_strlit("markerStart");
    assert("markerStart"@[0] != "unicodeBidi"@[0]);
    reveal_strlit("overlinePosition");
    assert("overlinePosition"@.len() == 16);
    reveal_strlit("overlineThickness");
    assert("overlineThickness"@.len() == 17);
    reveal_strlit("paintOrder");
    assert("paintOrder"@.len() == 10);
    reveal_strlit("panose1");
    assert("panose1"@.len() == 7);
    reveal_strlit("pointerEvents");
    assert("pointerEvents"@.len() == 13);
    reveal_strlit("renderingIntent");
    assert("renderingIntent"@.len() == 15);
    reveal_strlit("shapeRendering");
    assert("shapeRendering"@.len() == 14);
    reveal_strlit("stopColor");
    assert("stopColor"@.len() == 9);
    reveal_strlit("stopOpacity");
    assert("stopOpacity"@[0] != "unicodeBidi"@[0]);
    reveal_strlit("strikethroughPosition");
    assert("strikethroughPosition"@.len() == 21);
    reveal_strlit("strikethroughThickness");
    assert("strikethroughThickness"@.len() == 22);
    reveal_strlit("strokeDasharray");
    assert("strokeDasharray"@.len() == 15);
    reveal_strlit("strokeDashoffset");
    assert("strokeDashoffset"@.len() == 16);
    reveal_strlit("strokeLinecap");
    assert("strokeLinecap"@.len() == 13);
    reveal_strlit("strokeLinejoin");
    assert("strokeLinejoin"@.len() == 14);
    reveal_strlit("strokeMiterlimit");
    assert("strokeMiterlimit"@.len() == 16);
    reveal_strlit("strokeOpacity");
    assert("strokeOpacity"@.len() == 13);
    reveal_strlit("strokeWidth");
    assert("strokeWidth"@[0] != "unicodeBidi"@[0]);
    reveal_strlit("textAnchor");
    assert("textAnchor"@.len() == 10);
    reveal_strlit("textDecoration");
    assert("textDecoration"@.len() == 14);
    reveal_strlit("textRendering");
    assert("textRendering"@.len() == 13);
    reveal_strlit("transformOrigin");
    assert("transformOrigin"@.len() == 15);
    reveal_strlit("underlinePosition");
    assert("underlinePosition"@.len() == 17);
    reveal_strlit("underlineThickness");
    assert("underlineThickness"@.len() == 18);
    reveal_strlit("htmlFor");
    assert("htmlFor"@.len() == 7);
    reveal_strlit("dangerouslySetInnerHTML");
    assert("dangerouslySetInnerHTML"@.len() == 23);
    reveal_strlit("ref");
    assert("ref"@.len() == 3);
    reveal_strlit("key");
    assert("key"@.len() == 3);
    assert("unicodeBidi"@[0] == 'u' && "unicodeBidi"@[1] == 'n');
}

proof fn lemma_table_has_unicode_range()
    ensures
        attr_action("unicodeRange"@) == AttrActionView::Use("unicode-range"@),
{
    reveal_strlit("unicodeRange");
    assert("unicodeRange"@.len() == 12);
    reveal_strlit("unicode-range");
    reveal_strlit("className");
    assert("className"@.len() == 9);
    reveal_strlit("accentHeight");
    assert("accentHeight"@[0] != "unicodeRange"@[0]);
    reveal_strlit("alignmentBaseline");
    assert("alignmentBaseline"@.len() == 17);
    reveal_strlit("arabicForm");
    assert("arabicForm"@.len() == 10);
    reveal_strlit("baselineShift");
    assert("baselineShift"@.len() == 13);
    reveal_strlit("capHeight");
    assert("capHeight"@.len() == 9);
    reveal_strlit("clipPath");
    assert("clipPath"@.len() == 8);
    reveal_strlit("clipRule");
    assert("clipRule"@.len() == 8);
    reveal_strlit("colorInterpolation");
    assert("colorInterpolation"@.len() == 18);
    reveal_strlit("colorInterpolationFilters");
    assert("colorInterpolationFilters"@.len() == 25);
    reveal_strlit("colorProfile");
    assert("colorProfile"@[0] != "unicodeRange"@[0]);
    reveal_strlit("colorRendering");
    assert("colorRendering"@.len() == 14);
    reveal_strlit("dominantBaseline");
    assert("dominantBaseline"@.len() == 16);
    reveal_strlit("enableBackground");
    assert("enableBackground"@.len() == 16);
    reveal_strlit("fillOpacity");
    assert("fillOpacity"@.len() == 11);
    reveal_strlit("fillRule");
    assert("fillRule"@.len() == 8);
    reveal_strlit("floodColor");
    assert("floodColor"@.len() == 10);
    reveal_strlit("floodOpacity");
    assert("floodOpacity"@[0] != "unicodeRange"@[0]);
    reveal_strlit("fontFamily");
    assert("fontFamily"@.len() == 10);
    reveal_strlit("fontSize");
    assert("fontSize"@.len() == 8);
    reveal_strlit("fontSizeAdjust");
    assert("fontSizeAdjust"@.len() == 14);
    reveal_strlit("fontStretch");
    assert("fontStretch"@.len() == 11);
    reveal_strlit("fontStyle");
    assert("fontStyle"@.len() == 9);
    reveal_strlit("fontVariant");
    assert("fontVariant"@.len() == 11);
    reveal_strlit("fontWeight");
    assert("fontWeight"@.len() == 10);
    reveal_strlit("glyphName");
    assert("glyphName"@.len() == 9);
    reveal_strlit("glyphOrientationHorizontal");
    assert("glyphOrientationHorizontal"@.len() == 26);
    reveal_strlit("glyphOrientationVertical");
    assert("glyphOrientationVertical"@.len() == 24);
    reveal_strlit("horizAdvX");
    assert("horizAdvX"@.len() == 9);
    reveal_strlit("horizOriginX");
    assert("horizOriginX"@[0] != "unicodeRange"@[0]);
    reveal_strlit("imageRendering");
    assert("imageRendering"@.len() == 14);
    reveal_strlit("letterSpacing");
    assert("letterSpacing"@.len() == 13);
    reveal_strlit("lightingColor");
    assert("lightingColor"@.len() == 13);
    reveal_strlit("markerEnd");
    assert("markerEnd"@.len() == 9);
    reveal_strlit("markerMid");
    assert("markerMid"@.len() == 9);
    reveal_strlit("markerStart");
    assert("markerStart"@.len() == 11);
    reveal_strlit("overlinePosition");
    assert("overlinePosition"@.len() == 16);
    reveal_strlit("overlineThickness");
    assert("overlineThickness"@.len() == 17);
    reveal_strlit("paintOrder");
    assert("paintOrder"@.len() == 10);
    reveal_strlit("panose1");
    assert("panose1"@.len() == 7);
    reveal_strlit("pointerEvents");
    assert("pointerEvents"@.len() == 13);
    reveal_strlit("renderingIntent");
    assert("renderingIntent"@.len() == 15);
    reveal_strlit("shapeRendering");
    assert("shapeRendering"@.len() == 14);
    reveal_strlit("stopColor");
    assert("stopColor"@.len() == 9);
    reveal_strlit("stopOpacity");
    assert("stopOpacity"@.len() == 11);
    reveal_strlit("strikethroughPosition");
    assert("strikethroughPosition"@.len() == 21);
    reveal_strlit("strikethroughThickness");
    assert("strikethroughThickness"@.len() == 22);
    reveal_strlit("strokeDasharray");
    assert("strokeDasharray"@.len() == 15);
    reveal_strlit("strokeDashoffset");
    assert("strokeDashoffset"@.len() == 16);
    reveal_strlit("strokeLinecap");
    assert("strokeLinecap"@.len() == 13);
    reveal_strlit("strokeLinejoin");
    assert("strokeLinejoin"@.len() == 14);
    reveal_strlit("strokeMiterlimit");
    assert("strokeMiterlimit"@.len() == 16);
    reveal_strlit("strokeOpacity");
    assert("strokeOpacity"@.len() == 13);
    reveal_strlit("strokeWidth");
    assert("strokeWidth"@.len() == 11);
    reveal_strlit("textAnchor");
    assert("textAnchor"@.len() == 10);
    reveal_strlit("textDecoration");
    assert("textDecoration"@.len() == 14);
    reveal_strlit("textRendering");
    assert("textRendering"@.len() == 13);
    reveal_strlit("transformOrigin");
    assert("transformOrigin"@.len() == 15);
    reveal_strlit("underlinePosition");
    assert("underlinePosition"@.len() == 17);
    reveal_strlit("underlineThickness");
    assert("underlineThickness"@.len() == 18);
    reveal_strlit("unicodeBidi");
    assert("unicodeBidi"@.len() == 11);
    reveal_strlit("htmlFor");
    assert("htmlFor"@.len() == 7);
    reveal_strlit("dangerouslySetInnerHTML");
    assert("dangerouslySetInnerHTML"@.len() == 23);
    reveal_strlit("ref");
    assert("ref"@.len() == 3);
    reveal_strlit("key");
    assert("key"@.len() == 3);
    assert("unicodeRange"@[0] == 'u' && "unicodeRange"@[1] == 'n');
}

proof fn lemma_table_has_units_per_em()
    ensures
        attr_action("unitsPerEm"@) == AttrActionView::Use("units-per-em"@),
{
    reveal_strlit("unitsPerEm");
    assert("unitsPerEm"@.len() == 10);
    reveal_strlit("units-per-em");
    reveal_strlit("className");
    assert("className"@.len() == 9);
    reveal_strlit("accentHeight");
    assert("accentHeight"@.len() == 12);
    reveal_strlit("alignmentBaseline");
    assert("alignmentBaseline"@.len() == 17);
    reveal_strlit("arabicForm");
    assert("arabicForm"@[0] != "unitsPerEm"@[0]);
    reveal_strlit("baselineShift");
    assert("baselineShift"@.len() == 13);
    reveal_strlit("capHeight");
    assert("capHeight"@.len() == 9);
    reveal_strlit("clipPath");
    assert("clipPath"@.len() == 8);
    reveal_strlit("clipRule");
    assert("clipRule"@.len() == 8);
    reveal_strlit("colorInterpolation");
    assert("colorInterpolation"@.len() == 18);
    reveal_strlit("colorInterpolationFilters");
    assert("colorInterpolationFilters"@.len() == 25);
    reveal_strlit("colorProfile");
    assert("colorProfile"@.len() == 12);
    reveal_strlit("colorRendering");
    assert("colorRendering"@.len() == 14);
    reveal_strlit("dominantBaseline");
    assert("dominantBaseline"@.len() == 16);
    reveal_strlit("enableBackground");
    assert("enableBackground"@.len() == 16);
    reveal_strlit("fillOpacity");
    assert("fillOpacity"@.len() == 11);
    reveal_strlit("fillRule");
    assert("fillRule"@.len() == 8);
    reveal_strlit("floodColor");
    assert("floodColor"@[0] != "unitsPerEm"@[0]);
    reveal_strlit("floodOpacity");
    assert("floodOpacity"@.len() == 12);
    reveal_strlit("fontFamily");
    assert("fontFamily"@[0] != "unitsPerEm"@[0]);
    reveal_strlit("fontSize");
    assert("fontSize"@.len() == 8);
    reveal_strlit("fontSizeAdjust");
    assert("fontSizeAdjust"@.len() == 14);
    reveal_strlit("fontStretch");
    assert("fontStretch"@.len() == 11);
    reveal_strlit("fontStyle");
    assert("fontStyle"@.len() == 9);
    reveal_strlit("fontVariant");
    assert("fontVariant"@.len() == 11);
    reveal_strlit("fontWeight");
    assert("fontWeight"@[0] != "unitsPerEm"@[0]);
    reveal_strlit("glyphName");
    assert("glyphName"@.len() == 9);
    reveal_strlit("glyphOrientationHorizontal");
    assert("glyphOrientationHorizontal"@.len() == 26);
    reveal_strlit("glyphOrientationVertical");
    assert("glyphOrientationVertical"@.len() == 24);
    reveal_strlit("horizAdvX");
    assert("horizAdvX"@.len() == 9);
    reveal_strlit("horizOriginX");
    assert("horizOriginX"@.len() == 12);
    reveal_strlit("imageRendering");
    assert("imageRendering"@.len() == 14);
    reveal_strlit("letterSpacing");
    assert("letterSpacing"@.len() == 13);
    reveal_strlit("lightingColor");
    assert("lightingColor"@.len() == 13);
    reveal_strlit("markerEnd");
    assert("markerEnd"@.len() == 9);
    reveal_strlit("markerMid");
    assert("markerMid"@.len() == 9);
    reveal_strlit("markerStart");
    assert("markerStart"@.len() == 11);
    reveal_strlit("overlinePosition");
    assert("overlinePosition"@.len() == 16);
    reveal_strlit("overlineThickness");
    assert("overlineThickness"@.len() == 17);
    reveal_strlit("paintOrder");
    assert("paintOrder"@[0] != "unitsPerEm"@[0]);
    reveal_strlit("panose1");
    assert("panose1"@.len() == 7);
    reveal_strlit("pointerEvents");
    assert("pointerEvents"@.len() == 13);
    reveal_strlit("renderingIntent");
    assert("renderingIntent"@.len() == 15);
    reveal_strlit("shapeRendering");
    assert("shapeRendering"@.len() == 14);
    reveal_strlit("stopColor");
    assert("stopColor"@.len() == 9);
    reveal_strlit("stopOpacity");
    assert("stopOpacity"@.len() == 11);
    reveal_strlit("strikethroughPosition");
    assert("strikethroughPosition"@.len() == 21);
    reveal_strlit("strikethroughThickness");
    assert("strikethroughThickness"@.len() == 22);
    reveal_strlit("strokeDasharray");
    assert("strokeDasharray"@.len() == 15);
    reveal_strlit("strokeDashoffset");
    assert("strokeDashoffset"@.len() == 16);
    reveal_strlit("strokeLinecap");
    assert("strokeLinecap"@.len() == 13);
    reveal_strlit("strokeLinejoin");
    assert("strokeLinejoin"@.len() == 14);
    reveal_strlit("strokeMiterlimit");
    assert("strokeMiterlimit"@.len() == 16);
    reveal_strlit("strokeOpacity");
    assert("strokeOpacity"@.len() == 13);
    reveal_strlit("strokeWidth");
    assert("strokeWidth"@.len() == 11);
    reveal_strlit("textAnchor");
    assert("textAnchor"@[0] != "unitsPerEm"@[0]);
    reveal_strlit("textDecoration");
    assert("textDecoration"@.len() == 14);
    reveal_strlit("textRendering");
    assert("textRendering"@.len() == 13);
    reveal_strlit("transformOrigin");
    assert("transformOrigin"@.len() == 15);
    reveal_strlit("underlinePosition");
    assert("underlinePosition"@.len() == 17);
    reveal_strlit("underlineThickness");
    assert("underlineThickness"@.len() == 18);
    reveal_strlit("unicodeBidi");
    assert("unicodeBidi"@.len() == 11);
    reveal_strlit("unicodeRange");
    assert("unicodeRange"@.len() == 12);
    reveal_strlit("htmlFor");
    assert("htmlFor"@.len() == 7);
    reveal_strlit("dangerouslySetInnerHTML");
    assert("dangerouslySetInnerHTML"@.len() == 23);
    reveal_strlit("ref");
    assert("ref"@.len() == 3);
    reveal_strlit("key");
    assert("key"@.len() == 3);
    assert("unitsPerEm"@[0] == 'u' && "unitsPerEm"@[1] == 'n');
}

proof fn lemma_table_has_v_alphabetic()
    ensures
        attr_action("vAlphabetic"@) == AttrActionView::Use("v-alphabetic"@),
{
    reveal_strlit("vAlphabetic");
    assert("vAlphabetic"@.len() == 11);
    reveal_strlit("v-alphabetic");
    reveal_strlit("className");
    assert("className"@.len() == 9);
    reveal_strlit("accentHeight");
    assert("accentHeight"@.len() == 12);
    reveal_strlit("alignmentBaseline");
    assert("alignmentBaseline"@.len() == 17);
    reveal_strlit("arabicForm");
    assert("arabicForm"@.len() == 10);
    reveal_strlit("baselineShift");
    assert("baselineShift"@.len() == 13);
    reveal_strlit("capHeight");
    assert("capHeight"@.len() == 9);
    reveal_strlit("clipPath");
    assert("clipPath"@.len() == 8);
    reveal_strlit("clipRule");
    assert("clipRule"@.len() == 8);
    reveal_strlit("colorInterpolation");
    assert("colorInterpolation"@.len() == 18);
    reveal_strlit("colorInterpolationFilters");
    assert("colorInterpolationFilters"@.len() == 25);
    reveal_strlit("colorProfile");
    assert("colorProfile"@.len() == 12);
    reveal_strlit("colorRendering");
    assert("colorRendering"@.len() == 14);
    reveal_strlit("dominantBaseline");
    assert("dominantBaseline"@.len() == 16);
    reveal_strlit("enableBackground");
    assert("enableBackground"@.len() == 16);
    reveal_strlit("fillOpacity");
    assert("fillOpacity"@[0] != "vAlphabetic"@[0]);
    reveal_strlit("fillRule");
    assert("fillRule"@.len() == 8);
    reveal_strlit("floodColor");
    assert("floodColor"@.len() == 10);
    reveal_strlit("floodOpacity");
    assert("floodOpacity"@.len() == 12);
    reveal_strlit("fontFamily");
    assert("fontFamily"@.len() == 10);
    reveal_strlit("fontSize");
    assert("fontSize"@.len() == 8);
    reveal_strlit("fontSizeAdjust");
    assert("fontSizeAdjust"@.len() == 14);
    reveal_strlit("fontStretch");
    assert("fontStretch"@[0] != "vAlphabetic"@[0]);
    reveal_strlit("fontStyle");
    assert("fontStyle"@.len() == 9);
    reveal_strlit("fontVariant");
    assert("fontVariant"@[0] != "vAlphabetic"@[0]);
    reveal_strlit("fontWeight");
    assert("fontWeight"@.len() == 10);
    reveal_strlit("glyphName");
    assert("glyphName"@.len() == 9);
    reveal_strlit("glyphOrientationHorizontal");
    assert("glyphOrientationHorizontal"@.len() == 26);
    reveal_strlit("glyphOrientationVertical");
    assert("glyphOrientationVertical"@.len() == 24);
    reveal_strlit("horizAdvX");
    assert("horizAdvX"@.len() == 9);
    reveal_strlit("horizOriginX");
    assert("horizOriginX"@.len() == 12);
    reveal_strlit("imageRendering");
    assert("imageRendering"@.len() == 14);
    reveal_strlit("letterSpacing");
    assert("letterSpacing"@.len() == 13);
    reveal_strlit("lightingColor");
    assert("lightingColor"@.len() == 13);
    reveal_strlit("markerEnd");
    assert("markerEnd"@.len() == 9);
    reveal_strlit("markerMid");
    assert("markerMid"@.len() == 9);
    reveal_strlit("markerStart");
    assert("markerStart"@[0] != "vAlphabetic"@[0]);
    reveal_strlit("overlinePosition");
    assert("overlinePosition"@.len() == 16);
    reveal_strlit("overlineThickness");
    assert("overlineThickness"@.len() == 17);
    reveal_strlit("paintOrder");
    assert("paintOrder"@.len() == 10);
    reveal_strlit("panose1");
    assert("panose1"@.len() == 7);
    reveal_strlit("pointerEvents");
    assert("pointerEvents"@.len() == 13);
    reveal_strlit("renderingIntent");
    assert("renderingIntent"@.len() == 15);
    reveal_strlit("shapeRendering");
    assert("shapeRendering"@.len() == 14);
    reveal_strlit("stopColor");
    assert("stopColor"@.len() == 9);
    reveal_strlit("stopOpacity");
    assert("stopOpacity"@[0] != "vAlphabetic"@[0]);
    reveal_strlit("strikethroughPosition");
    assert("strikethroughPosition"@.len() == 21);
    reveal_strlit("strikethroughThickness");
    assert("strikethroughThickness"@.len() == 22);
    reveal_strlit("strokeDasharray");
    assert("strokeDasharray"@.len() == 15);
    reveal_strlit("strokeDashoffset");
    assert("strokeDashoffset"@.len() == 16);
    reveal_strlit("strokeLinecap");
    assert("strokeLinecap"@.len() == 13);
    reveal_strlit("strokeLinejoin");
    assert("strokeLinejoin"@.len() == 14);
    reveal_strlit("strokeMiterlimit");
    assert("strokeMiterlimit"@.len() == 16);
    reveal_strlit("strokeOpacity");
    assert("strokeOpacity"@.len() == 13);
    reveal_strlit("strokeWidth");
    assert("strokeWidth"@[0] != "vAlphabetic"@[0]);
    reveal_strlit("textAnchor");
    assert("textAnchor"@.len() == 10);
    reveal_strlit("textDecoration");
    assert("textDecoration"@.len() == 14);
    reveal_strlit("textRendering");
    assert("textRendering"@.len() == 13);
    reveal_strlit("transformOrigin");
    assert("transformOrigin"@.len() == 15);
    reveal_strlit("underlinePosition");
    assert("underlinePosition"@.len() == 17);
    reveal_strlit("underlineThickness");
    assert("underlineThickness"@.len() == 18);
    reveal_strlit("unicodeBidi");
    assert("unicodeBidi"@[0] != "vAlphabetic"@[0]);
    reveal_strlit("unicodeRange");
    assert("unicodeRange"@.len() == 12);
    reveal_strlit("unitsPerEm");
    assert("unitsPerEm"@.len() == 10);
    reveal_strlit("htmlFor");
    assert("htmlFor"@.len() == 7);
    reveal_strlit("dangerouslySetInnerHTML");
    assert("dangerouslySetInnerHTML"@.len() == 23);
    reveal_strlit("ref");
    assert("ref"@.len() == 3);
    reveal_strlit("key");
    assert("key"@.len() == 3);
    assert("vAlphabetic"@[0] == 'v' && "vAlphabetic"@[1] == 'A');
}

proof fn lemma_table_has_v_hanging()
    ensures
        attr_action("vHanging"@) == AttrActionView::Use("v-hanging"@),
{
    reveal_strlit("vHanging");
    assert("vHanging"@.len() == 8);
    reveal_strlit("v-hanging");
    reveal_strlit("className");
    assert("className"@.len() == 9);
    reveal_strlit("accentHeight");
    assert("accentHeight"@.len() == 12);
    reveal_strlit("alignmentBaseline");
    assert("alignmentBaseline"@.len() == 17);
    reveal_strlit("arabicForm");
    assert("arabicForm"@.len() == 10);
    reveal_strlit("baselineShift");
    assert("baselineShift"@.len() == 13);
    reveal_strlit("capHeight");
    assert("capHeight"@.len() == 9);
    reveal_strlit("clipPath");
    assert("clipPath"@[0] != "vHanging"@[0]);
    reveal_strlit("clipRule");
    assert("clipRule"@[0] != "vHanging"@[0]);
    reveal_strlit("colorInterpolation");
    assert("colorInterpolation"@.len() == 18);
    reveal_strlit("colorInterpolationFilters");
    assert("colorInterpolationFilters"@.len() == 25);
    reveal_strlit("colorProfile");
    assert("colorProfile"@.len() == 12);
    reveal_strlit("colorRendering");
    assert("colorRendering"@.len() == 14);
    reveal_strlit("dominantBaseline");
    assert("dominantBaseline"@.len() == 16);
    reveal_strlit("enableBackground");
    assert("enableBackground"@.len() == 16);
    reveal_strlit("fillOpacity");
    assert("fillOpacity"@.len() == 11);
    reveal_strlit("fillRule");
    assert("fillRule"@[0] != "vHanging"@[0]);
    reveal_strlit("floodColor");
    assert("floodColor"@.len() == 10);
    reveal_strlit("floodOpacity");
    assert("floodOpacity"@.len() == 12);
    reveal_strlit("fontFamily");
    assert("fontFamily"@.len() == 10);
    reveal_strlit("fontSize");
    assert("fontSize"@[0] != "vHanging"@[0]);
    reveal_strlit("fontSizeAdjust");
    assert("fontSizeAdjust"@.len() == 14);
    reveal_strlit("fontStretch");
    assert("fontStretch"@.len() == 11);
    reveal_strlit("fontStyle");
    assert("fontStyle"@.len() == 9);
    reveal_strlit("fontVariant");
    assert("fontVariant"@.len() == 11);
    reveal_strlit("fontWeight");
    assert("fontWeight"@.len() == 10);
    reveal_strlit("glyphName");
    assert("glyphName"@.len() == 9);
    reveal_strlit("glyphOrientationHorizontal");
    assert("glyphOrientationHorizontal"@.len() == 26);
    reveal_strlit("glyphOrientationVertical");
    assert("glyphOrientationVertical"@.len() == 24);
    reveal_strlit("horizAdvX");
    assert("horizAdvX"@.len() == 9);
    reveal_strlit("horizOriginX");
    assert("horizOriginX"@.len() == 12);
    reveal_strlit("imageRendering");
    assert("imageRendering"@.len() == 14);
    reveal_strlit("letterSpacing");
    assert("letterSpacing"@.len() == 13);
    reveal_strlit("lightingColor");
    assert("lightingColor"@.len() == 13);
    reveal_strlit("markerEnd");
    assert("markerEnd"@.len() == 9);
    reveal_strlit("markerMid");
    assert("markerMid"@.len() == 9);
    reveal_strlit("markerStart");
    assert("markerStart"@.len() == 11);
    reveal_strlit("overlinePosition");
    assert("overlinePosition"@.len() == 16);
    reveal_strlit("overlineThickness");
    assert("overlineThickness"@.len() == 17);
    reveal_strlit("paintOrder");
    assert("paintOrder"@.len() == 10);
    reveal_strlit("panose1");
    assert("panose1"@.len() == 7);
    reveal_strlit("pointerEvents");
    assert("pointerEvents"@.len() == 13);
    reveal_strlit("renderingIntent");
    assert("renderingIntent"@.len() == 15);
    reveal_strlit("shapeRendering");
    assert("shapeRendering"@.len() == 14);
    reveal_strlit("stopColor");
    assert("stopColor"@.len() == 9);
    reveal_strlit("stopOpacity");
    assert("stopOpacity"@.len() == 11);
    reveal_strlit("strikethroughPosition");
    assert("strikethroughPosition"@.len() == 21);
    reveal_strlit("strikethroughThickness");
    assert("strikethroughThickness"@.len() == 22);
    reveal_strlit("strokeDasharray");
    assert("strokeDasharray"@.len() == 15);
    reveal_strlit("strokeDashoffset");
    assert("strokeDashoffset"@.len() == 16);
    reveal_strlit("strokeLinecap");
    assert("strokeLinecap"@.len() == 13);
    reveal_strlit("strokeLinejoin");
    assert("strokeLinejoin"@.len() == 14);
    reveal_strlit("strokeMiterlimit");
    assert("strokeMiterlimit"@.len() == 16);
    reveal_strlit("strokeOpacity");
    assert("strokeOpacity"@.len() == 13);
    reveal_strlit("strokeWidth");
    assert("strokeWidth"@.len() == 11);
    reveal_strlit("textAnchor");
    assert("textAnchor"@.len() == 10);
    reveal_strlit("textDecoration");
    assert("textDecoration"@.len() == 14);
    reveal_strlit("textRendering");
    assert("textRendering"@.len() == 13);
    reveal_strlit("transformOrigin");
    assert("transformOrigin"@.len() == 15);
    reveal_strlit("underlinePosition");
    assert("underlinePosition"@.len() == 17);
    reveal_strlit("underlineThickness");
    assert("underlineThickness"@.len() == 18);
    reveal_strlit("unicodeBidi");
    assert("unicodeBidi"@.len() == 11);
    reveal_strlit("unicodeRange");
    assert("unicodeRange"@.len() == 12);
    reveal_strlit("unitsPerEm");
    assert("unitsPerEm"@.len() == 10);
    reveal_strlit("vAlphabetic");
    assert("vAlphabetic"@.len() == 11);
    reveal_strlit("htmlFor");
    assert("htmlFor"@.len() == 7);
    reveal_strlit("dangerouslySetInnerHTML");
    assert("dangerouslySetInnerHTML"@.len() == 23);
    reveal_strlit("ref");
    assert("ref"@.len() == 3);
    reveal_strlit("key");
    assert("key"@.len() == 3);
    assert("vHanging"@[0] == 'v' && "vHanging"@[1] == 'H');
}

proof fn lemma_table_has_v_ideographic()
    ensures
        attr_action("vIdeographic"@) == AttrActionView::Use("v-ideographic"@),
{
    reveal_strlit("vIdeographic");
    assert("vIdeographic"@.len() == 12);
    reveal_strlit("v-ideographic");
    reveal_strlit("className");
    assert("className"@.len() == 9);
    reveal_strlit("accentHeight");
    assert("accentHeight"@[0] != "vIdeographic"@[0]);
    reveal_strlit("alignmentBaseline");
    assert("alignmentBaseline"@.len() == 17);
    reveal_strlit("arabicForm");
    assert("arabicForm"@.len() == 10);
    reveal_strlit("baselineShift");
    assert("baselineShift"@.len() == 13);
    reveal_strlit("capHeight");
    assert("capHeight"@.len() == 9);
    reveal_strlit("clipPath");
    assert("clipPath"@.len() == 8);
    reveal_strlit("clipRule");
    assert("clipRule"@.len() == 8);
    reveal_strlit("colorInterpolation");
    assert("colorInterpolation"@.len() == 18);
    reveal_strlit("colorInterpolationFilters");
    assert("colorInterpolationFilters"@.len() == 25);
    reveal_strlit("colorProfile");
    assert("colorProfile"@[0] != "vIdeographic"@[0]);
    reveal_strlit("colorRendering");
    assert("colorRendering"@.len() == 14);
    reveal_strlit("dominantBaseline");
    assert("dominantBaseline"@.len() == 16);
    reveal_strlit("enableBackground");
    assert("enableBackground"@.len() == 16);
    reveal_strlit("fillOpacity");
    assert("fillOpacity"@.len() == 11);
    reveal_strlit("fillRule");
    assert("fillRule"@.len() == 8);
    reveal_strlit("floodColor");
    assert("floodColor"@.len() == 10);
    reveal_strlit("floodOpacity");
    assert("floodOpacity"@[0] != "vIdeographic"@[0]);
    reveal_strlit("fontFamily");
    assert("fontFamily"@.len() == 10);
    reveal_strlit("fontSize");
    assert("fontSize"@.len() == 8);
    reveal_strlit("fontSizeAdjust");
    assert("fontSizeAdjust"@.len() == 14);
    reveal_strlit("fontStretch");
    assert("fontStretch"@.len() == 11);
    reveal_strlit("fontStyle");
    assert("fontStyle"@.len() == 9);
    reveal_strlit("fontVariant");
    assert("fontVariant"@.len() == 11);
    reveal_strlit("fontWeight");
    assert("fontWeight"@.len() == 10);
    reveal_strlit("glyphName");
    assert("glyphName"@.len() == 9);
    reveal_strlit("glyphOrientationHorizontal");
    assert("glyphOrientationHorizontal"@.len() == 26);
    reveal_strlit("glyphOrientationVertical");
    assert("glyphOrientationVertical"@.len() == 24);
    reveal_strlit("horizAdvX");
    assert("horizAdvX"@.len() == 9);
    reveal_strlit("horizOriginX");
    assert("horizOriginX"@[0] != "vIdeographic"@[0]);
    reveal_strlit("imageRendering");
    assert("imageRendering"@.len() == 14);
    reveal_strlit("letterSpacing");
    assert("letterSpacing"@.len() == 13);
    reveal_strlit("lightingColor");
    assert("lightingColor"@.len() == 13);
    reveal_strlit("markerEnd");
    assert("markerEnd"@.len() == 9);
    reveal_strlit("markerMid");
    assert("markerMid"@.len() == 9);
    reveal_strlit("markerStart");
    assert("markerStart"@.len() == 11);
    reveal_strlit("overlinePosition");
    assert("overlinePosition"@.len() == 16);
    reveal_strlit("overlineThickness");
    assert("overlineThickness"@.len() == 17);
    reveal_strlit("paintOrder");
    assert("paintOrder"@.len() == 10);
    reveal_strlit("panose1");
    assert("panose1"@.len() == 7);
    reveal_strlit("pointerEvents");
    assert("pointerEvents"@.len() == 13);
    reveal_strlit("renderingIntent");
    assert("renderingIntent"@.len() == 15);
    reveal_strlit("shapeRendering");
    assert("shapeRendering"@.len() == 14);
    reveal_strlit("stopColor");
    assert("stopColor"@.len() == 9);
    reveal_strlit("stopOpacity");
    assert("stopOpacity"@.len() == 11);
    reveal_strlit("strikethroughPosition");
    assert("strikethroughPosition"@.len() == 21);
    reveal_strlit("strikethroughThickness");
    assert("strikethroughThickness"@.len() == 22);
    reveal_strlit("strokeDasharray");
    assert("strokeDasharray"@.len() == 15);
    reveal_strlit("strokeDashoffset");
    assert("strokeDashoffset"@.len() == 16);
    reveal_strlit("strokeLinecap");
    assert("strokeLinecap"@.len() == 13);
    reveal_strlit("strokeLinejoin");
    assert("strokeLinejoin"@.len() == 14);
    reveal_strlit("strokeMiterlimit");
    assert("strokeMiterlimit"@.len() == 16);
    reveal_strlit("strokeOpacity");
    assert("strokeOpacity"@.len() == 13);
    reveal_strlit("strokeWidth");
    assert("strokeWidth"@.len() == 11);
    reveal_strlit("textAnchor");
    assert("textAnchor"@.len() == 10);
    reveal_strlit("textDecoration");
    assert("textDecoration"@.len() == 14);
    reveal_strlit("textRendering");
    assert("textRendering"@.len() == 13);
    reveal_strlit("transformOrigin");
    assert("transformOrigin"@.len() == 15);
    reveal_strlit("underlinePosition");
    assert("underlinePosition"@.len() == 17);
    reveal_strlit("underlineThickness");
    assert("underlineThickness"@.len() == 18);
    reveal_strlit("unicodeBidi");
    assert("unicodeBidi"@.len() == 11);
    reveal_strlit("unicodeRange");
    assert("unicodeRange"@[0] != "vIdeographic"@[0]);
    reveal_strlit("unitsPerEm");
    assert("unitsPerEm"@.len() == 10);
    reveal_strlit("vAlphabetic");
    assert("vAlphabetic"@.len() == 11);
    reveal_strlit("vHanging");
    assert("vHanging"@.len() == 8);
    reveal_strlit("htmlFor");
    assert("htmlFor"@.len() == 7);
    reveal_strlit("dangerouslySetInnerHTML");
    assert("dangerouslySetInnerHTML"@.len() == 23);
    reveal_strlit("ref");
    assert("ref"@.len() == 3);
    reveal_strlit("key");
    assert("key"@.len() == 3);
    assert("vIdeographic"@[0] == 'v' && "vIdeographic"@[1] == 'I');
}

proof fn lemma_table_has_v_mathematical()
    ensures
        attr_action("vMathematical"@) == AttrActionView::Use("v-mathematical"@),
{
    reveal_strlit("vMathematical");
    assert("vMathematical"@.len() == 13);
    reveal_strlit("v-mathematical");
    reveal_strlit("className");
    assert("className"@.len() == 9);
    reveal_strlit("accentHeight");
    assert("accentHeight"@.len() == 12);
    reveal_strlit("alignmentBaseline");
    assert("alignmentBaseline"@.len() == 17);
    reveal_strlit("arabicForm");
    assert("arabicForm"@.len() == 10);
    reveal_strlit("baselineShift");
    assert("baselineShift"@[0] != "vMathematical"@[0]);
    reveal_strlit("capHeight");
    assert("capHeight"@.len() == 9);
    reveal_strlit("clipPath");
    assert("clipPath"@.len() == 8);
    reveal_strlit("clipRule");
    assert("clipRule"@.len() == 8);
    reveal_strlit("colorInterpolation");
    assert("colorInterpolation"@.len() == 18);
    reveal_strlit("colorInterpolationFilters");
    assert("colorInterpolationFilters"@.len() == 25);
    reveal_strlit("colorProfile");
    assert("colorProfile"@.len() == 12);
    reveal_strlit("colorRendering");
    assert("colorRendering"@.len() == 14);
    reveal_strlit("dominantBaseline");
    assert("dominantBaseline"@.len() == 16);
    reveal_strlit("enableBackground");
    assert("enableBackground"@.len() == 16);
    reveal_strlit("fillOpacity");
    assert("fillOpacity"@.len() == 11);
    reveal_strlit("fillRule");
    assert("fillRule"@.len() == 8);
    reveal_strlit("floodColor");
    assert("floodColor"@.len() == 10);
    reveal_strlit("floodOpacity");
    assert("floodOpacity"@.len() == 12);
    reveal_strlit("fontFamily");
    assert("fontFamily"@.len() == 10);
    reveal_strlit("fontSize");
    assert("fontSize"@.len() == 8);
    reveal_strlit("fontSizeAdjust");
    assert("fontSizeAdjust"@.len() == 14);
    reveal_strlit("fontStretch");
    assert("fontStretch"@.len() == 11);
    reveal_strlit("fontStyle");
    assert("fontStyle"@.len() == 9);
    reveal_strlit("fontVariant");
    assert("fontVariant"@.len() == 11);
    reveal_strlit("fontWeight");
    assert("fontWeight"@.len() == 10);
    reveal_strlit("glyphName");
    assert("glyphName"@.len() == 9);
    reveal_strlit("glyphOrientationHorizontal");
    assert("glyphOrientationHorizontal"@.len() == 26);
    reveal_strlit("glyphOrientationVertical");
    assert("glyphOrientationVertical"@.len() == 24);
    reveal_strlit("horizAdvX");
    assert("horizAdvX"@.len() == 9);
    reveal_strlit("horizOriginX");
    assert("horizOriginX"@.len() == 12);
    reveal_strlit("imageRendering");
    assert("imageRendering"@.len() == 14);
    reveal_strlit("letterSpacing");
    assert("letterSpacing"@[0] != "vMathematical"@[0]);
    reveal_strlit("lightingColor");
    assert("lightingColor"@[0] != "vMathematical"@[0]);
    reveal_strlit("markerEnd");
    assert("markerEnd"@.len() == 9);
    reveal_strlit("markerMid");
    assert("markerMid"@.len() == 9);
    reveal_strlit("markerStart");
    assert("markerStart"@.len() == 11);
    reveal_strlit("overlinePosition");
    assert("overlinePosition"@.len() == 16);
    reveal_strlit("overlineThickness");
    assert("overlineThickness"@.len() == 17);
    reveal_strlit("paintOrder");
    assert("paintOrder"@.len() == 10);
    reveal_strlit("panose1");
    assert("panose1"@.len() == 7);
    reveal_strlit("pointerEvents");
    assert("pointerEvents"@[0] != "vMathematical"@[0]);
    reveal_strlit("renderingIntent");
    assert("renderingIntent"@.len() == 15);
    reveal_strlit("shapeRendering");
    assert("shapeRendering"@.len() == 14);
    reveal_strlit("stopColor");
    assert("stopColor"@.len() == 9);
    reveal_strlit("stopOpacity");
    assert("stopOpacity"@.len() == 11);
    reveal_strlit("strikethroughPosition");
    assert("strikethroughPosition"@.len() == 21);
    reveal_strlit("strikethroughThickness");
    assert("strikethroughThickness"@.len() == 22);
    reveal_strlit("strokeDasharray");
    assert("strokeDasharray"@.len() == 15);
    reveal_strlit("strokeDashoffset");
    assert("strokeDashoffset"@.len() == 16);
    reveal_strlit("strokeLinecap");
    assert("strokeLinecap"@[0] != "vMathematical"@[0]);
    reveal_strlit("strokeLinejoin");
    assert("strokeLinejoin"@.len() == 14);
    reveal_strlit("strokeMiterlimit");
    assert("strokeMiterlimit"@.len() == 16);
    reveal_strlit("strokeOpacity");
    assert("strokeOpacity"@[0] != "vMathematical"@[0]);
    reveal_strlit("strokeWidth");
    assert("strokeWidth"@.len() == 11);
    reveal_strlit("textAnchor");
    assert("textAnchor"@.len() == 10);
    reveal_strlit("textDecoration");
    assert("textDecoration"@.len() == 14);
    reveal_strlit("textRendering");
    assert("textRendering"@[0] != "vMathematical"@[0]);
    reveal_strlit("transformOrigin");
    assert("transformOrigin"@.len() == 15);
    reveal_strlit("underlinePosition");
    assert("underlinePosition"@.len() == 17);
    reveal_strlit("underlineThickness");
    assert("underlineThickness"@.len() == 18);
    reveal_strlit("unicodeBidi");
    assert("unicodeBidi"@.len() == 11);
    reveal_strlit("unicodeRange");
    assert("unicodeRange"@.len() == 12);
    reveal_strlit("unitsPerEm");
    assert("unitsPerEm"@.len() == 10);
    reveal_strlit("vAlphabetic");
    assert("vAlphabetic"@.len() == 11);
    reveal_strlit("vHanging");
    assert("vHanging"@.len() == 8);
    reveal_strlit("vIdeographic");
    assert("vIdeographic"@.len() == 12);
    reveal_strlit("htmlFor");
    assert("htmlFor"@.len() == 7);
    reveal_strlit("dangerouslySetInnerHTML");
    assert("dangerouslySetInnerHTML"@.len() == 23);
    reveal_strlit("ref");
    assert("ref"@.len() == 3);
    reveal_strlit("key");
    assert("key"@.len() == 3);
    assert("vMathematical"@[0] == 'v' && "vMathematical"@[1] == 'M');
}

proof fn lemma_table_has_vector_effect()
    ensures
        attr_action("vectorEffect"@) == AttrActionView::Use("vector-effect"@),
{
    reveal_strlit("vectorEffect");
    assert("vectorEffect"@.len() == 12);
    reveal_strlit("vector-effect");
    reveal_strlit("className");
    assert("className"@.len() == 9);
    reveal_strlit("accentHeight");
    assert("accentHeight"@[0] != "vectorEffect"@[0]);
    reveal_strlit("alignmentBaseline");
    assert("alignmentBaseline"@.len() == 17);
    reveal_strlit("arabicForm");
    assert("arabicForm"@.len() == 10);
    reveal_strlit("baselineShift");
    assert("baselineShift"@.len() == 13);
    reveal_strlit("capHeight");
    assert("capHeight"@.len() == 9);
    reveal_strlit("clipPath");
    assert("clipPath"@.len() == 8);
    reveal_strlit("clipRule");
    assert("clipRule"@.len() == 8);
    reveal_strlit("colorInterpolation");
    assert("colorInterpolation"@.len() == 18);
    reveal_strlit("colorInterpolationFilters");
    assert("colorInterpolationFilters"@.len() == 25);
    reveal_strlit("colorProfile");
    assert("colorProfile"@[0] != "vectorEffect"@[0]);
    reveal_strlit("colorRendering");
    assert("colorRendering"@.len() == 14);
    reveal_strlit("dominantBaseline");
    assert("dominantBaseline"@.len() == 16);
    reveal_strlit("enableBackground");
    assert("enableBackground"@.len() == 16);
    reveal_strlit("fillOpacity");
    assert("fillOpacity"@.len() == 11);
    reveal_strlit("fillRule");
    assert("fillRule"@.len() == 8);
    reveal_strlit("floodColor");
    assert("floodColor"@.len() == 10);
    reveal_strlit("floodOpacity");
    assert("floodOpacity"@[0] != "vectorEffect"@[0]);
    reveal_strlit("fontFamily");
    assert("fontFamily"@.len() == 10);
    reveal_strlit("fontSize");
    assert("fontSize"@.len() == 8);
    reveal_strlit("fontSizeAdjust");
    assert("fontSizeAdjust"@.len() == 14);
    reveal_strlit("fontStretch");
    assert("fontStretch"@.len() == 11);
    reveal_strlit("fontStyle");
    assert("fontStyle"@.len() == 9);
    reveal_strlit("fontVariant");
    assert("fontVariant"@.len() == 11);
    reveal_strlit("fontWeight");
    assert("fontWeight"@.len() == 10);
    reveal_strlit("glyphName");
    assert("glyphName"@.len() == 9);
    reveal_strlit("glyphOrientationHorizontal");
    assert("glyphOrientationHorizontal"@.len() == 26);
    reveal_strlit("glyphOrientationVertical");
    assert("glyphOrientationVertical"@.len() == 24);
    reveal_strlit("horizAdvX");
    assert("horizAdvX"@.len() == 9);
    reveal_strlit("horizOriginX");
    assert("horizOriginX"@[0] != "vectorEffect"@[0]);
    reveal_strlit("imageRendering");
    assert("imageRendering"@.len() == 14);
    reveal_strlit("letterSpacing");
    assert("letterSpacing"@.len() == 13);
    reveal_strlit("lightingColor");
    assert("lightingColor"@.len() == 13);
    reveal_strlit("markerEnd");
    assert("markerEnd"@.len() == 9);
    reveal_strlit("markerMid");
    assert("markerMid"@.len() == 9);
    reveal_strlit("markerStart");
    assert("markerStart"@.len() == 11);
    reveal_strlit("overlinePosition");
    assert("overlinePosition"@.len() == 16);
    reveal_strlit("overlineThickness");
    assert("overlineThickness"@.len() == 17);
    reveal_strlit("paintOrder");
    assert("paintOrder"@.len() == 10);
    reveal_strlit("panose1");
    assert("panose1"@.len() == 7);
    reveal_strlit("pointerEvents");
    assert("pointerEvents"@.len() == 13);
    reveal_strlit("renderingIntent");
    assert("renderingIntent"@.len() == 15);
    reveal_strlit("shapeRendering");
    assert("shapeRendering"@.len() == 14);
    reveal_strlit("stopColor");
    assert("stopColor"@.len() == 9);
    reveal_strlit("stopOpacity");
    assert("stopOpacity"@.len() == 11);
    reveal_strlit("strikethroughPosition");
    assert("strikethroughPosition"@.len() == 21);
    reveal_strlit("strikethroughThickness");
    assert("strikethroughThickness"@.len() == 22);
    reveal_strlit("strokeDasharray");
    assert("strokeDasharray"@.len() == 15);
    reveal_strlit("strokeDashoffset");
    assert("strokeDashoffset"@.len() == 16);
    reveal_strlit("strokeLinecap");
    assert("strokeLinecap"@.len() == 13);
    reveal_strlit("strokeLinejoin");
    assert("strokeLinejoin"@.len() == 14);
    reveal_strlit("strokeMiterlimit");
    assert("strokeMiterlimit"@.len() == 16);
    reveal_strlit("strokeOpacity");
    assert("strokeOpacity"@.len() == 13);
    reveal_strlit("strokeWidth");
    assert("strokeWidth"@.len() == 11);
    reveal_strlit("textAnchor");
    assert("textAnchor"@.len() == 10);
    reveal_strlit("textDecoration");
    assert("textDecoration"@.len() == 14);
    reveal_strlit("textRendering");
    assert("textRendering"@.len() == 13);
    reveal_strlit("transformOrigin");
    assert("transformOrigin"@.len() == 15);
    reveal_strlit("underlinePosition");
    assert("underlinePosition"@.len() == 17);
    reveal_strlit("underlineThickness");
    assert("underlineThickness"@.len() == 18);
    reveal_strlit("unicodeBidi");
    assert("unicodeBidi"@.len() == 11);
    reveal_strlit("unicodeRange");
    assert("unicodeRange"@[0] != "vectorEffect"@[0]);
    reveal_strlit("unitsPerEm");
    assert("unitsPerEm"@.len() == 10);
    reveal_strlit("vAlphabetic");
    assert("vAlphabetic"@.len() == 11);
    reveal_strlit("vHanging");
    assert("vHanging"@.len() == 8);
    reveal_strlit("vIdeographic");
    assert("vIdeographic"@[1] != "vectorEffect"@[1]);
    reveal_strlit("vMathematical");
    assert("vMathematical"@.len() == 13);
    reveal_strlit("htmlFor");
    assert("htmlFor"@.len() == 7);
    reveal_strlit("dangerouslySetInnerHTML");
    assert("dangerouslySetInnerHTML"@.len() == 23);
    reveal_strlit("ref");
    assert("ref"@.len() == 3);
    reveal_strlit("key");
    assert("key"@.len() == 3);
    assert("vectorEffect"@[0] == 'v' && "vectorEffect"@[1] == 'e');
}

proof fn lemma_table_has_vert_adv_y()
    ensures
        attr_action("vertAdvY"@) == AttrActionView::Use("vert-adv-y"@),
{
    reveal_strlit("vertAdvY");
    assert("vertAdvY"@.len() == 8);
    reveal_strlit("vert-adv-y");
    reveal_strlit("className");
    assert("className"@.len() == 9);
    reveal_strlit("accentHeight");
    assert("accentHeight"@.len() == 12);
    reveal_strlit("alignmentBaseline");
    assert("alignmentBaseline"@.len() == 17);
    reveal_strlit("arabicForm");
    assert("arabicForm"@.len() == 10);
    reveal_strlit("baselineShift");
    assert("baselineShift"@.len() == 13);
    reveal_strlit("capHeight");
    assert("capHeight"@.len() == 9);
    reveal_strlit("clipPath");
    assert("clipPath"@[0] != "vertAdvY"@[0]);
    reveal_strlit("clipRule");
    assert("clipRule"@[0] != "vertAdvY"@[0]);
    reveal_strlit("colorInterpolation");
    assert("colorInterpolation"@.len() == 18);
    reveal_strlit("colorInterpolationFilters");
    assert("colorInterpolationFilters"@.len() == 25);
    reveal_strlit("colorProfile");
    assert("colorProfile"@.len() == 12);
    reveal_strlit("colorRendering");
    assert("colorRendering"@.len() == 14);
    reveal_strlit("dominantBaseline");
    assert("dominantBaseline"@.len() == 16);
    reveal_strlit("enableBackground");
    assert("enableBackground"@.len() == 16);
    reveal_strlit("fillOpacity");
    assert("fillOpacity"@.len() == 11);
    reveal_strlit("fillRule");
    assert("fillRule"@[0] != "vertAdvY"@[0]);
    reveal_strlit("floodColor");
    assert("floodColor"@.len() == 10);
    reveal_strlit("floodOpacity");
    assert("floodOpacity"@.len() == 12);
    reveal_strlit("fontFamily");
    assert("fontFamily"@.len() == 10);
    reveal_strlit("fontSize");
    assert("fontSize"@[0] != "vertAdvY"@[0]);
    reveal_strlit("fontSizeAdjust");
    assert("fontSizeAdjust"@.len() == 14);
    reveal_strlit("fontStretch");
    assert("fontStretch"@.len() == 11);
    reveal_strlit("fontStyle");
    assert("fontStyle"@.len() == 9);
    reveal_strlit("fontVariant");
    assert("fontVariant"@.len() == 11);
    reveal_strlit("fontWeight");
    assert("fontWeight"@.len() == 10);
    reveal_strlit("glyphName");
    assert("glyphName"@.len() == 9);
    reveal_strlit("glyphOrientationHorizontal");
    assert("glyphOrientationHorizontal"@.len() == 26);
    reveal_strlit("glyphOrientationVertical");
    assert("glyphOrientationVertical"@.len() == 24);
    reveal_strlit("horizAdvX");
    assert("horizAdvX"@.len() == 9);
    reveal_strlit("horizOriginX");
    assert("horizOriginX"@.len() == 12);
    reveal_strlit("imageRendering");
    assert("imageRendering"@.len() == 14);
    reveal_strlit("letterSpacing");
    assert("letterSpacing"@.len() == 13);
    reveal_strlit("lightingColor");
    assert("lightingColor"@.len() == 13);
    reveal_strlit("markerEnd");
    assert("markerEnd"@.len() == 9);
    reveal_strlit("markerMid");
    assert("markerMid"@.len() == 9);
    reveal_strlit("markerStart");
    assert("markerStart"@.len() == 11);
    reveal_strlit("overlinePosition");
    assert("overlinePosition"@.len() == 16);
    reveal_strlit("overlineThickness");
    assert("overlineThickness"@.len() == 17);
    reveal_strlit("paintOrder");
    assert("paintOrder"@.len() == 10);
    reveal_strlit("panose1");
    assert("panose1"@.len() == 7);
    reveal_strlit("pointerEvents");
    assert("pointerEvents"@.len() == 13);
    reveal_strlit("renderingIntent");
    assert("renderingIntent"@.len() == 15);
    reveal_strlit("shapeRendering");
    assert("shapeRendering"@.len() == 14);
    reveal_strlit("stopColor");
    assert("stopColor"@.len() == 9);
    reveal_strlit("stopOpacity");
    assert("stopOpacity"@.len() == 11);
    reveal_strlit("strikethroughPosition");
    assert("strikethroughPosition"@.len() == 21);
    reveal_strlit("strikethroughThickness");
    assert("strikethroughThickness"@.len() == 22);
    reveal_strlit("strokeDasharray");
    assert("strokeDasharray"@.len() == 15);
    reveal_strlit("strokeDashoffset");
    assert("strokeDashoffset"@.len() == 16);
    reveal_strlit("strokeLinecap");
    assert("strokeLinecap"@.len() == 13);
    reveal_strlit("strokeLinejoin");
    assert("strokeLinejoin"@.len() == 14);
    reveal_strlit("strokeMiterlimit");
    assert("strokeMiterlimit"@.len() == 16);
    reveal_strlit("strokeOpacity");
    assert("strokeOpacity"@.len() == 13);
    reveal_strlit("strokeWidth");
    assert("strokeWidth"@.len() == 11);
    reveal_strlit("textAnchor");
    assert("textAnchor"@.len() == 10);
    reveal_strlit("textDecoration");
    assert("textDecoration"@.len() == 14);
    reveal_strlit("textRendering");
    assert("textRendering"@.len() == 13);
    reveal_strlit("transformOrigin");
    assert("transformOrigin"@.len() == 15);
    reveal_strlit("underlinePosition");
    assert("underlinePosition"@.len() == 17);
    reveal_strlit("underlineThickness");
    assert("underlineThickness"@.len() == 18);
    reveal_strlit("unicodeBidi");
    assert("unicodeBidi"@.len() == 11);
    reveal_strlit("unicodeRange");
    assert("unicodeRange"@.len() == 12);
    reveal_strlit("unitsPerEm");
    assert("unitsPerEm"@.len() == 10);
    reveal_strlit("vAlphabetic");
    assert("vAlphabetic"@.len() == 11);
    reveal_strlit("vHanging");
    assert("vHanging"@[1] != "vertAdvY"@[1]);
    reveal_strlit("vIdeographic");
    assert("vIdeographic"@.len() == 12);
    reveal_strlit("vMathematical");
    assert("vMathematical"@.len() == 13);
    reveal_strlit("vectorEffect");
    assert("vectorEffect"@.len() == 12);
    reveal_strlit("htmlFor");
    assert("htmlFor"@.len() == 7);
    reveal_strlit("dangerouslySetInnerHTML");
    assert("dangerouslySetInnerHTML"@.len() == 23);
    reveal_strlit("ref");
    assert("ref"@.len() == 3);
    reveal_strlit("key");
    assert("key"@.len() == 3);
    assert("vertAdvY"@[0] == 'v' && "vertAdvY"@[1] == 'e');
}

proof fn lemma_table_has_vert_origin_x()
    ensures
        attr_action("vertOriginX"@) == AttrActionView::Use("vert-origin-x"@),
{
    reveal_strlit("vertOriginX");
    assert("vertOriginX"@.len() == 11);
    reveal_strlit("vert-origin-x");
    reveal_strlit("className");
    assert("className"@.len() == 9);
    reveal_strlit("accentHeight");
    assert("accentHeight"@.len() == 12);
    reveal_strlit("alignmentBaseline");
    assert("alignmentBaseline"@.len() == 17);
    reveal_strlit("arabicForm");
    assert("arabicForm"@.len() == 10);
    reveal_strlit("baselineShift");
    assert("baselineShift"@.len() == 13);
    reveal_strlit("capHeight");
    assert("capHeight"@.len() == 9);
    reveal_strlit("clipPath");
    assert("clipPath"@.len() == 8);
    reveal_strlit("clipRule");
    assert("clipRule"@.len() == 8);
    reveal_strlit("colorInterpolation");
    assert("colorInterpolation"@.len() == 18);
    reveal_strlit("colorInterpolationFilters");
    assert("colorInterpolationFilters"@.len() == 25);
    reveal_strlit("colorProfile");
    assert("colorProfile"@.len() == 12);
    reveal_strlit("colorRendering");
    assert("colorRendering"@.len() == 14);
    reveal_strlit("dominantBaseline");
    assert("dominantBaseline"@.len() == 16);
    reveal_strlit("enableBackground");
    assert("enableBackground"@.len() == 16);
    reveal_strlit("fillOpacity");
    assert("fillOpacity"@[0] != "vertOriginX"@[0]);
    reveal_strlit("fillRule");
    assert("fillRule"@.len() == 8);
    reveal_strlit("floodColor");
    assert("floodColor"@.len() == 10);
    reveal_strlit("floodOpacity");
    assert("floodOpacity"@.len() == 12);
    reveal_strlit("fontFamily");
    assert("fontFamily"@.len() == 10);
    reveal_strlit("fontSize");
    assert("fontSize"@.len() == 8);
    reveal_strlit("fontSizeAdjust");
    assert("fontSizeAdjust"@.len() == 14);
    reveal_strlit("fontStretch");
    assert("fontStretch"@[0] != "vertOriginX"@[0]);
    reveal_strlit("fontStyle");
    assert("fontStyle"@.len() == 9);
    reveal_strlit("fontVariant");
    assert("fontVariant"@[0] != "vertOriginX"@[0]);
    reveal_strlit("fontWeight");
    assert("fontWeight"@.len() == 10);
    reveal_strlit("glyphName");
    assert("glyphName"@.len() == 9);
    reveal_strlit("glyphOrientationHorizontal");
    assert("glyphOrientationHorizontal"@.len() == 26);
    reveal_strlit("glyphOrientationVertical");
    assert("glyphOrientationVertical"@.len() == 24);
    reveal_strlit("horizAdvX");
    assert("horizAdvX"@.len() == 9);
    reveal_strlit("horizOriginX");
    assert("horizOriginX"@.len() == 12);
    reveal_strlit("imageRendering");
    assert("imageRendering"@.len() == 14);
    reveal_strlit("letterSpacing");
    assert("letterSpacing"@.len() == 13);
    reveal_strlit("lightingColor");
    assert("lightingColor"@.len() == 13);
    reveal_strlit("markerEnd");
    assert("markerEnd"@.len() == 9);
    reveal_strlit("markerMid");
    assert("markerMid"@.len() == 9);
    reveal_strlit("markerStart");
    assert("markerStart"@[0] != "vertOriginX"@[0]);
    reveal_strlit("overlinePosition");
    assert("overlinePosition"@.len() == 16);
    reveal_strlit("overlineThickness");
    assert("overlineThickness"@.len() == 17);
    reveal_strlit("paintOrder");
    assert("paintOrder"@.len() == 10);
    reveal_strlit("panose1");
    assert("panose1"@.len() == 7);
    reveal_strlit("pointerEvents");
    assert("pointerEvents"@.len() == 13);
    reveal_strlit("renderingIntent");
    assert("renderingIntent"@.len() == 15);
    reveal_strlit("shapeRendering");
    assert("shapeRendering"@.len() == 14);
    reveal_strlit("stopColor");
    assert("stopColor"@.len() == 9);
    reveal_strlit("stopOpacity");
    assert("stopOpacity"@[0] != "vertOriginX"@[0]);
    reveal_strlit("strikethroughPosition");
    assert("strikethroughPosition"@.len() == 21);
    reveal_strlit("strikethroughThickness");
    assert("strikethroughThickness"@.len() == 22);
    reveal_strlit("strokeDasharray");
    assert("strokeDasharray"@.len() == 15);
    reveal_strlit("strokeDashoffset");
    assert("strokeDashoffset"@.len() == 16);
    reveal_strlit("strokeLinecap");
    assert("strokeLinecap"@.len() == 13);
    reveal_strlit("strokeLinejoin");
    assert("strokeLinejoin"@.len() == 14);
    reveal_strlit("strokeMiterlimit");
    assert("strokeMiterlimit"@.len() == 16);
    reveal_strlit("strokeOpacity");
    assert("strokeOpacity"@.len() == 13);
    reveal_strlit("strokeWidth");
    assert("strokeWidth"@[0] != "vertOriginX"@[0]);
    reveal_strlit("textAnchor");
    assert("textAnchor"@.len() == 10);
    reveal_strlit("textDecoration");
    assert("textDecoration"@.len() == 14);
    reveal_strlit("textRendering");
    assert("textRendering"@.len() == 13);
    reveal_strlit("transformOrigin");
    assert("transformOrigin"@.len() == 15);
    reveal_strlit("underlinePosition");
    assert("underlinePosition"@.len() == 17);
    reveal_strlit("underlineThickness");
    assert("underlineThickness"@.len() == 18);
    reveal_strlit("unicodeBidi");
    assert("unicodeBidi"@[0] != "vertOriginX"@[0]);
    reveal_strlit("unicodeRange");
    assert("unicodeRange"@.len() == 12);
    reveal_strlit("unitsPerEm");
    assert("unitsPerEm"@.len() == 10);
    reveal_strlit("vAlphabetic");
    assert("vAlphabetic"@[1] != "vertOriginX"@[1]);
    reveal_strlit("vHanging");
    assert("vHanging"@.len() == 8);
    reveal_strlit("vIdeographic");
    assert("vIdeographic"@.len() == 12);
    reveal_strlit("vMathematical");
    assert("vMathematical"@.len() == 13);
    reveal_strlit("vectorEffect");
    assert("vectorEffect"@.len() == 12);
    reveal_strlit("vertAdvY");
    assert("vertAdvY"@.len() == 8);
    reveal_strlit("htmlFor");
    assert("htmlFor"@.len() == 7);
    reveal_strlit("dangerouslySetInnerHTML");
    assert("dangerouslySetInnerHTML"@.len() == 23);
    reveal_strlit("ref");
    assert("ref"@.len() == 3);
    reveal_strlit("key");
    assert("key"@.len() == 3);
    assert("vertOriginX"@[0] == 'v' && "vertOriginX"@[1] == 'e');
}

proof fn lemma_table_has_vert_origin_y()
    ensures
        attr_action("vertOriginY"@) == AttrActionView::Use("vert-origin-y"@),
{
    reveal_strlit("vertOriginY");
    assert("vertOriginY"@.len() == 11);
    reveal_strlit("vert-origin-y");
    reveal_strlit("className");
    assert("className"@.len() == 9);
    reveal_strlit("accentHeight");
    assert("accentHeight"@.len() == 12);
    reveal_strlit("alignmentBaseline");
    assert("alignmentBaseline"@.len() == 17);
    reveal_strlit("arabicForm");
    assert("arabicForm"@.len() == 10);
    reveal_strlit("baselineShift");
    assert("baselineShift"@.len() == 13);
    reveal_strlit("capHeight");
    assert("capHeight"@.len() == 9);
    reveal_strlit("clipPath");
    assert("clipPath"@.len() == 8);
    reveal_strlit("clipRule");
    assert("clipRule"@.len() == 8);
    reveal_strlit("colorInterpolation");
    assert("colorInterpolation"@.len() == 18);
    reveal_strlit("colorInterpolationFilters");
    assert("colorInterpolationFilters"@.len() == 25);
    reveal_strlit("colorProfile");
    assert("colorProfile"@.len() == 12);
    reveal_strlit("colorRendering");
    assert("colorRendering"@.len() == 14);
    reveal_strlit("dominantBaseline");
    assert("dominantBaseline"@.len() == 16);
    reveal_strlit("enableBackground");
    assert("enableBackground"@.len() == 16);
    reveal_strlit("fillOpacity");
    assert("fillOpacity"@[0] != "vertOriginY"@[0]);
    reveal_strlit("fillRule");
    assert("fillRule"@.len() == 8);
    reveal_strlit("floodColor");
    assert("floodColor"@.len() == 10);
    reveal_strlit("floodOpacity");
    assert("floodOpacity"@.len() == 12);
    reveal_strlit("fontFamily");
    assert("fontFamily"@.len() == 10);
    reveal_strlit("fontSize");
    assert("fontSize"@.len() == 8);
    reveal_strlit("fontSizeAdjust");
    assert("fontSizeAdjust"@.len() == 14);
    reveal_strlit("fontStretch");
    assert("fontStretch"@[0] != "vertOriginY"@[0]);
    reveal_strlit("fontStyle");
    assert("fontStyle"@.len() == 9);
    reveal_strlit("fontVariant");
    assert("fontVariant"@[0] != "vertOriginY"@[0]);
    reveal_strlit("fontWeight");
    assert("fontWeight"@.len() == 10);
    reveal_strlit("glyphName");
    assert("glyphName"@.len() == 9);
    reveal_strlit("glyphOrientationHorizontal");
    assert("glyphOrientationHorizontal"@.len() == 26);
    reveal_strlit("glyphOrientationVertical");
    assert("glyphOrientationVertical"@.len() == 24);
    reveal_strlit("horizAdvX");
    assert("horizAdvX"@.len() == 9);
    reveal_strlit("horizOriginX");
    assert("horizOriginX"@.len() == 12);
    reveal_strlit("imageRendering");
    assert("imageRendering"@.len() == 14);
    reveal_strlit("letterSpacing");
    assert("letterSpacing"@.len() == 13);
    reveal_strlit("lightingColor");
    assert("lightingColor"@.len() == 13);
    reveal_strlit("markerEnd");
    assert("markerEnd"@.len() == 9);
    reveal_strlit("markerMid");
    assert("markerMid"@.len() == 9);
    reveal_strlit("markerStart");
    assert("markerStart"@[0] != "vertOriginY"@[0]);
    reveal_strlit("overlinePosition");
    assert("overlinePosition"@.len() == 16);
    reveal_strlit("overlineThickness");
    assert("overlineThickness"@.len() == 17);
    reveal_strlit("paintOrder");
    assert("paintOrder"@.len() == 10);
    reveal_strlit("panose1");
    assert("panose1"@.len() == 7);
    reveal_strlit("pointerEvents");
    assert("pointerEvents"@.len() == 13);
    reveal_strlit("renderingIntent");
    assert("renderingIntent"@.len() == 15);
    reveal_strlit("shapeRendering");
    assert("shapeRendering"@.len() == 14);
    reveal_strlit("stopColor");
    assert("stopColor"@.len() == 9);
    reveal_strlit("stopOpacity");
    assert("stopOpacity"@[0] != "vertOriginY"@[0]);
    reveal_strlit("strikethroughPosition");
    assert("strikethroughPosition"@.len() == 21);
    reveal_strlit("strikethroughThickness");
    assert("strikethroughThickness"@.len() == 22);
    reveal_strlit("strokeDasharray");
    assert("strokeDasharray"@.len() == 15);
    reveal_strlit("strokeDashoffset");
    assert("strokeDashoffset"@.len() == 16);
    reveal_strlit("strokeLinecap");
    assert("strokeLinecap"@.len() == 13);
    reveal_strlit("strokeLinejoin");
    assert("strokeLinejoin"@.len() == 14);
    reveal_strlit("strokeMiterlimit");
    assert("strokeMiterlimit"@.len() == 16);
    reveal_strlit("strokeOpacity");
    assert("strokeOpacity"@.len() == 13);
    reveal_strlit("strokeWidth");
    assert("strokeWidth"@[0] != "vertOriginY"@[0]);
    reveal_strlit("textAnchor");
    assert("textAnchor"@.len() == 10);
    reveal_strlit("textDecoration");
    assert("textDecoration"@.len() == 14);
    reveal_strlit("textRendering");
    assert("textRendering"@.len() == 13);
    reveal_strlit("transformOrigin");
    assert("transformOrigin"@.len() == 15);
    reveal_strlit("underlinePosition");
    assert("underlinePosition"@.len() == 17);
    reveal_strlit("underlineThickness");
    assert("underlineThickness"@.len() == 18);
    reveal_strlit("unicodeBidi");
    assert("unicodeBidi"@[0] != "vertOriginY"@[0]);
    reveal_strlit("unicodeRange");
    assert("unicodeRange"@.len() == 12);
    reveal_strlit("unitsPerEm");
    assert("unitsPerEm"@.len() == 10);
    reveal_strlit("vAlphabetic");
    assert("vAlphabetic"@[1] != "vertOriginY"@[1]);
    reveal_strlit("vHanging");
    assert("vHanging"@.len() == 8);
    reveal_strlit("vIdeographic");
    assert("vIdeographic"@.len() == 12);
    reveal_strlit("vMathematical");
    assert("vMathematical"@.len() == 13);
    reveal_strlit("vectorEffect");
    assert("vectorEffect"@.len() == 12);
    reveal_strlit("vertAdvY");
    assert("vertAdvY"@.len() == 8);
    reveal_strlit("vertOriginX");
    assert("vertOriginX"@[10] != "vertOriginY"@[10]);
    reveal_strlit("htmlFor");
    assert("htmlFor"@.len() == 7);
    reveal_strlit("dangerouslySetInnerHTML");
    assert("dangerouslySetInnerHTML"@.len() == 23);
    reveal_strlit("ref");
    assert("ref"@.len() == 3);
    reveal_strlit("key");
    assert("key"@.len() == 3);
    assert("vertOriginY"@[0] == 'v' && "vertOriginY"@[1] == 'e');
}

proof fn lemma_table_has_word_spacing()
    ensures
        attr_action("wordSpacing"@) == AttrActionView::Use("word-spacing"@),
{
    reveal_strlit("wordSpacing");
    assert("wordSpacing"@.len() == 11);
    reveal_strlit("word-spacing");
    reveal_strlit("className");
    assert("className"@.len() == 9);
    reveal_strlit("accentHeight");
    assert("accentHeight"@.len() == 12);
    reveal_strlit("alignmentBaseline");
    assert("alignmentBaseline"@.len() == 17);
    reveal_strlit("arabicForm");
    assert("arabicForm"@.len() == 10);
    reveal_strlit("baselineShift");
    assert("baselineShift"@.len() == 13);
    reveal_strlit("capHeight");
    assert("capHeight"@.len() == 9);
    reveal_strlit("clipPath");
    assert("clipPath"@.len() == 8);
    reveal_strlit("clipRule");
    assert("clipRule"@.len() == 8);
    reveal_strlit("colorInterpolation");
    assert("colorInterpolation"@.len() == 18);
    reveal_strlit("colorInterpolationFilters");
    assert("colorInterpolationFilters"@.len() == 25);
    reveal_strlit("colorProfile");
    assert("colorProfile"@.len() == 12);
    reveal_strlit("colorRendering");
    assert("colorRendering"@.len() == 14);
    reveal_strlit("dominantBaseline");
    assert("dominantBaseline"@.len() == 16);
    reveal_strlit("enableBackground");
    assert("enableBackground"@.len() == 16);
    reveal_strlit("fillOpacity");
    assert("fillOpacity"@[0] != "wordSpacing"@[0]);
    reveal_strlit("fillRule");
    assert("fillRule"@.len() == 8);
    reveal_strlit("floodColor");
    assert("floodColor"@.len() == 10);
    reveal_strlit("floodOpacity");
    assert("floodOpacity"@.len() == 12);
    reveal_strlit("fontFamily");
    assert("fontFamily"@.len() == 10);
    reveal_strlit("fontSize");
    assert("fontSize"@.len() == 8);
    reveal_strlit("fontSizeAdjust");
    assert("fontSizeAdjust"@.len() == 14);
    reveal_strlit("fontStretch");
    assert("fontStretch"@[0] != "wordSpacing"@[0]);
    reveal_strlit("fontStyle");
    assert("fontStyle"@.len() == 9);
    reveal_strlit("fontVariant");
    assert("fontVariant"@[0] != "wordSpacing"@[0]);
    reveal_strlit("fontWeight");
    assert("fontWeight"@.len() == 10);
    reveal_strlit("glyphName");
    assert("glyphName"@.len() == 9);
    reveal_strlit("glyphOrientationHorizontal");
    assert("glyphOrientationHorizontal"@.len() == 26);
    reveal_strlit("glyphOrientationVertical");
    assert("glyphOrientationVertical"@.len() == 24);
    reveal_strlit("horizAdvX");
    assert("horizAdvX"@.len() == 9);
    reveal_strlit("horizOriginX");
    assert("horizOriginX"@.len() == 12);
    reveal_strlit("imageRendering");
    assert("imageRendering"@.len() == 14);
    reveal_strlit("letterSpacing");
    assert("letterSpacing"@.len() == 13);
    reveal_strlit("lightingColor");
    assert("lightingColor"@.len() == 13);
    reveal_strlit("markerEnd");
    assert("markerEnd"@.len() == 9);
    reveal_strlit("markerMid");
    assert("markerMid"@.len() == 9);
    reveal_strlit("markerStart");
    assert("markerStart"@[0] != "wordSpacing"@[0]);
    reveal_strlit("overlinePosition");
    assert("overlinePosition"@.len() == 16);
    reveal_strlit("overlineThickness");
    assert("overlineThickness"@.len() == 17);
    reveal_strlit("paintOrder");
    assert("paintOrder"@.len() == 10);
    reveal_strlit("panose1");
    assert("panose1"@.len() == 7);
    reveal_strlit("pointerEvents");
    assert("pointerEvents"@.len() == 13);
    reveal_strlit("renderingIntent");
    assert("renderingIntent"@.len() == 15);
    reveal_strlit("shapeRendering");
    assert("shapeRendering"@.len() == 14);
    reveal_strlit("stopColor");
    assert("stopColor"@.len() == 9);
    reveal_strlit("stopOpacity");
    assert("stopOpacity"@[0] != "wordSpacing"@[0]);
    reveal_strlit("strikethroughPosition");
    assert("strikethroughPosition"@.len() == 21);
    reveal_strlit("strikethroughThickness");
    assert("strikethroughThickness"@.len() == 22);
    reveal_strlit("strokeDasharray");
    assert("strokeDasharray"@.len() == 15);
    reveal_strlit("strokeDashoffset");
    assert("strokeDashoffset"@.len() == 16);
    reveal_strlit("strokeLinecap");
    assert("strokeLinecap"@.len() == 13);
    reveal_strlit("strokeLinejoin");
    assert("strokeLinejoin"@.len() == 14);
    reveal_strlit("strokeMiterlimit");
    assert("strokeMiterlimit"@.len() == 16);
    reveal_strlit("strokeOpacity");
    assert("strokeOpacity"@.len() == 13);
    reveal_strlit("strokeWidth");
    assert("strokeWidth"@[0] != "wordSpacing"@[0]);
    reveal_strlit("textAnchor");
    assert("textAnchor"@.len() == 10);
    reveal_strlit("textDecoration");
    assert("textDecoration"@.len() == 14);
    reveal_strlit("textRendering");
    assert("textRendering"@.len() == 13);
    reveal_strlit("transformOrigin");
    assert("transformOrigin"@.len() == 15);
    reveal_strlit("underlinePosition");
    assert("underlinePosition"@.len() == 17);
    reveal_strlit("underlineThickness");
    assert("underlineThickness"@.len() == 18);
    reveal_strlit("unicodeBidi");
    assert("unicodeBidi"@[0] != "wordSpacing"@[0]);
    reveal_strlit("unicodeRange");
    assert("unicodeRange"@.len() == 12);
    reveal_strlit("unitsPerEm");
    assert("unitsPerEm"@.len() == 10);
    reveal_strlit("vAlphabetic");
    assert("vAlphabetic"@[0] != "wordSpacing"@[0]);
    reveal_strlit("vHanging");
    assert("vHanging"@.len() == 8);
    reveal_strlit("vIdeographic");
    assert("vIdeographic"@.len() == 12);
    reveal_strlit("vMathematical");
    assert("vMathematical"@.len() == 13);
    reveal_strlit("vectorEffect");
    assert("vectorEffect"@.len() == 12);
    reveal_strlit("vertAdvY");
    assert("vertAdvY"@.len() == 8);
    reveal_strlit("vertOriginX");
    assert("vertOriginX"@[0] != "wordSpacing"@[0]);
    reveal_strlit("vertOriginY");
    assert("vertOriginY"@[0] != "wordSpacing"@[0]);
    reveal_strlit("htmlFor");
    assert("htmlFor"@.len() == 7);
    reveal_strlit("dangerouslySetInnerHTML");
    assert("dangerouslySetInnerHTML"@.len() == 23);
    reveal_strlit("ref");
    assert("ref"@.len() == 3);
    reveal_strlit("key");
    assert("key"@.len() == 3);
    assert("wordSpacing"@[0] == 'w' && "wordSpacing"@[1] == 'o');
}

proof fn lemma_table_has_writing_mode()
    ensures
        attr_action("writingMode"@) == AttrActionView::Use("writing-mode"@),
{
    reveal_strlit("writingMode");
    assert("writingMode"@.len() == 11);
    reveal_strlit("writing-mode");
    reveal_strlit("className");
    assert("className"@.len() == 9);
    reveal_strlit("accentHeight");
    assert("accentHeight"@.len() == 12);
    reveal_strlit("alignmentBaseline");
    assert("alignmentBaseline"@.len() == 17);
    reveal_strlit("arabicForm");
    assert("arabicForm"@.len() == 10);
    reveal_strlit("baselineShift");
    assert("baselineShift"@.len() == 13);
    reveal_strlit("capHeight");
    assert("capHeight"@.len() == 9);
    reveal_strlit("clipPath");
    assert("clipPath"@.len() == 8);
    reveal_strlit("clipRule");
    assert("clipRule"@.len() == 8);
    reveal_strlit("colorInterpolation");
    assert("colorInterpolation"@.len() == 18);
    reveal_strlit("colorInterpolationFilters");
    assert("colorInterpolationFilters"@.len() == 25);
    reveal_strlit("colorProfile");
    assert("colorProfile"@.len() == 12);
    reveal_strlit("colorRendering");
    assert("colorRendering"@.len() == 14);
    reveal_strlit("dominantBaseline");
    assert("dominantBaseline"@.len() == 16);
    reveal_strlit("enableBackground");
    assert("enableBackground"@.len() == 16);
    reveal_strlit("fillOpacity");
    assert("fillOpacity"@[0] != "writingMode"@[0]);
    reveal_strlit("fillRule");
    assert("fillRule"@.len() == 8);
    reveal_strlit("floodColor");
    assert("floodColor"@.len() == 10);
    reveal_strlit("floodOpacity");
    assert("floodOpacity"@.len() == 12);
    reveal_strlit("fontFamily");
    assert("fontFamily"@.len() == 10);
    reveal_strlit("fontSize");
    assert("fontSize"@.len() == 8);
    reveal_strlit("fontSizeAdjust");
    assert("fontSizeAdjust"@.len() == 14);
    reveal_strlit("fontStretch");
    assert("fontStretch"@[0] != "writingMode"@[0]);
    reveal_strlit("fontStyle");
    assert("fontStyle"@.len() == 9);
    reveal_strlit("fontVariant");
    assert("fontVariant"@[0] != "writingMode"@[0]);
    reveal_strlit("fontWeight");
    assert("fontWeight"@.len() == 10);
    reveal_strlit("glyphName");
    assert("glyphName"@.len() == 9);
    reveal_strlit("glyphOrientationHorizontal");
    assert("glyphOrientationHorizontal"@.len() == 26);
    reveal_strlit("glyphOrientationVertical");
    assert("glyphOrientationVertical"@.len() == 24);
    reveal_strlit("horizAdvX");
    assert("horizAdvX"@.len() == 9);
    reveal_strlit("horizOriginX");
    assert("horizOriginX"@.len() == 12);
    reveal_strlit("imageRendering");
    assert("imageRendering"@.len() == 14);
    reveal_strlit("letterSpacing");
    assert("letterSpacing"@.len() == 13);
    reveal_strlit("lightingColor");
    assert("lightingColor"@.len() == 13);
    reveal_strlit("markerEnd");
    assert("markerEnd"@.len() == 9);
    reveal_strlit("markerMid");
    assert("markerMid"@.len() == 9);
    reveal_strlit("markerStart");
    assert("markerStart"@[0] != "writingMode"@[0]);
    reveal_strlit("overlinePosition");
    assert("overlinePosition"@.len() == 16);
    reveal_strlit("overlineThickness");
    assert("overlineThickness"@.len() == 17);
    reveal_strlit("paintOrder");
    assert("paintOrder"@.len() == 10);
    reveal_strlit("panose1");
    assert("panose1"@.len() == 7);
    reveal_strlit("pointerEvents");
    assert("pointerEvents"@.len() == 13);
    reveal_strlit("renderingIntent");
    assert("renderingIntent"@.len() == 15);
    reveal_strlit("shapeRendering");
    assert("shapeRendering"@.len() == 14);
    reveal_strlit("stopColor");
    assert("stopColor"@.len() == 9);
    reveal_strlit("stopOpacity");
    assert("stopOpacity"@[0] != "writingMode"@[0]);
    reveal_strlit("strikethroughPosition");
    assert("strikethroughPosition"@.len() == 21);
    reveal_strlit("strikethroughThickness");
    assert("strikethroughThickness"@.len() == 22);
    reveal_strlit("strokeDasharray");
    assert("strokeDasharray"@.len() == 15);
    reveal_strlit("strokeDashoffset");
    assert("strokeDashoffset"@.len() == 16);
    reveal_strlit("strokeLinecap");
    assert("strokeLinecap"@.len() == 13);
    reveal_strlit("strokeLinejoin");
    assert("strokeLinejoin"@.len() == 14);
    reveal_strlit("strokeMiterlimit");
    assert("strokeMiterlimit"@.len() == 16);
    reveal_strlit("strokeOpacity");
    assert("strokeOpacity"@.len() == 13);
    reveal_strlit("strokeWidth");
    assert("strokeWidth"@[0] != "writingMode"@[0]);
    reveal_strlit("textAnchor");
    assert("textAnchor"@.len() == 10);
    reveal_strlit("textDecoration");
    assert("textDecoration"@.len() == 14);
    reveal_strlit("textRendering");
    assert("textRendering"@.len() == 13);
    reveal_strlit("transformOrigin");
    assert("transformOrigin"@.len() == 15);
    reveal_strlit("underlinePosition");
    assert("underlinePosition"@.len() == 17);
    reveal_strlit("underlineThickness");
    assert("underlineThickness"@.len() == 18);
    reveal_strlit("unicodeBidi");
    assert("unicodeBidi"@[0] != "writingMode"@[0]);
    reveal_strlit("unicodeRange");
    assert("unicodeRange"@.len() == 12);
    reveal_strlit("unitsPerEm");
    assert("unitsPerEm"@.len() == 10);
    reveal_strlit("vAlphabetic");
    assert("vAlphabetic"@[0] != "writingMode"@[0]);
    reveal_strlit("vHanging");
    assert("vHanging"@.len() == 8);
    reveal_strlit("vIdeographic");
    assert("vIdeographic"@.len() == 12);
    reveal_strlit("vMathematical");
    assert("vMathematical"@.len() == 13);
    reveal_strlit("vectorEffect");
    assert("vectorEffect"@.len() == 12);
    reveal_strlit("vertAdvY");
    assert("vertAdvY"@.len() == 8);
    reveal_strlit("vertOriginX");
    assert("vertOriginX"@[0] != "writingMode"@[0]);
    reveal_strlit("vertOriginY");
    assert("vertOriginY"@[0] != "writingMode"@[0]);
    reveal_strlit("wordSpacing");
    assert("wordSpacing"@[1] != "writingMode"@[1]);
    reveal_strlit("htmlFor");
    assert("htmlFor"@.len() == 7);
    reveal_strlit("dangerouslySetInnerHTML");
    assert("dangerouslySetInnerHTML"@.len() == 23);
    reveal_strlit("ref");
    assert("ref"@.len() == 3);
    reveal_strlit("key");
    assert("key"@.len() == 3);
    assert("writingMode"@[0] == 'w' && "writingMode"@[1] == 'r');
}

proof fn lemma_table_has_x_height()
    ensures
        attr_action("xHeight"@) == AttrActionView::Use("x-height"@),
{
    reveal_strlit("xHeight");
    assert("xHeight"@.len() == 7);
    reveal_strlit("x-height");
    reveal_strlit("className");
    assert("className"@.len() == 9);
    reveal_strlit("accentHeight");
    assert("accentHeight"@.len() == 12);
    reveal_strlit("alignmentBaseline");
    assert("alignmentBaseline"@.len() == 17);
    reveal_strlit("arabicForm");
    assert("arabicForm"@.len() == 10);
    reveal_strlit("baselineShift");
    assert("baselineShift"@.len() == 13);
    reveal_strlit("capHeight");
    assert("capHeight"@.len() == 9);
    reveal_strlit("clipPath");
    assert("clipPath"@.len() == 8);
    reveal_strlit("clipRule");
    assert("clipRule"@.len() == 8);
    reveal_strlit("colorInterpolation");
    assert("colorInterpolation"@.len() == 18);
    reveal_strlit("colorInterpolationFilters");
    assert("colorInterpolationFilters"@.len() == 25);
    reveal_strlit("colorProfile");
    assert("colorProfile"@.len() == 12);
    reveal_strlit("colorRendering");
    assert("colorRendering"@.len() == 14);
    reveal_strlit("dominantBaseline");
    assert("dominantBaseline"@.len() == 16);
    reveal_strlit("enableBackground");
    assert("enableBackground"@.len() == 16);
    reveal_strlit("fillOpacity");
    assert("fillOpacity"@.len() == 11);
    reveal_strlit("fillRule");
    assert("fillRule"@.len() == 8);
    reveal_strlit("floodColor");
    assert("floodColor"@.len() == 10);
    reveal_strlit("floodOpacity");
    assert("floodOpacity"@.len() == 12);
    reveal_strlit("fontFamily");
    assert("fontFamily"@.len() == 10);
    reveal_strlit("fontSize");
    assert("fontSize"@.len() == 8);
    reveal_strlit("fontSizeAdjust");
    assert("fontSizeAdjust"@.len() == 14);
    reveal_strlit("fontStretch");
    assert("fontStretch"@.len() == 11);
    reveal_strlit("fontStyle");
    assert("fontStyle"@.len() == 9);
    reveal_strlit("fontVariant");
    assert("fontVariant"@.len() == 11);
    reveal_strlit("fontWeight");
    assert("fontWeight"@.len() == 10);
    reveal_strlit("glyphName");
    assert("glyphName"@.len() == 9);
    reveal_strlit("glyphOrientationHorizontal");
    assert("glyphOrientationHorizontal"@.len() == 26);
    reveal_strlit("glyphOrientationVertical");
    assert("glyphOrientationVertical"@.len() == 24);
    reveal_strlit("horizAdvX");
    assert("horizAdvX"@.len() == 9);
    reveal_strlit("horizOriginX");
    assert("horizOriginX"@.len() == 12);
    reveal_strlit("imageRendering");
    assert("imageRendering"@.len() == 14);
    reveal_strlit("letterSpacing");
    assert("letterSpacing"@.len() == 13);
    reveal_strlit("lightingColor");
    assert("lightingColor"@.len() == 13);
    reveal_strlit("markerEnd");
    assert("markerEnd"@.len() == 9);
    reveal_strlit("markerMid");
    assert("markerMid"@.len() == 9);
    reveal_strlit("markerStart");
    assert("markerStart"@.len() == 11);
    reveal_strlit("overlinePosition");
    assert("overlinePosition"@.len() == 16);
    reveal_strlit("overlineThickness");
    assert("overlineThickness"@.len() == 17);
    reveal_strlit("paintOrder");
    assert("paintOrder"@.len() == 10);
    reveal_strlit("panose1");
    assert("panose1"@[0] != "xHeight"@[0]);
    reveal_strlit("pointerEvents");
    assert("pointerEvents"@.len() == 13);
    reveal_strlit("renderingIntent");
    assert("renderingIntent"@.len() == 15);
    reveal_strlit("shapeRendering");
    assert("shapeRendering"@.len() == 14);
    reveal_strlit("stopColor");
    assert("stopColor"@.len() == 9);
    reveal_strlit("stopOpacity");
    assert("stopOpacity"@.len() == 11);
    reveal_strlit("strikethroughPosition");
    assert("strikethroughPosition"@.len() == 21);
    reveal_strlit("strikethroughThickness");
    assert("strikethroughThickness"@.len() == 22);
    reveal_strlit("strokeDasharray");
    assert("strokeDasharray"@.len() == 15);
    reveal_strlit("strokeDashoffset");
    assert("strokeDashoffset"@.len() == 16);
    reveal_strlit("strokeLinecap");
    assert("strokeLinecap"@.len() == 13);
    reveal_strlit("strokeLinejoin");
    assert("strokeLinejoin"@.len() == 14);
    reveal_strlit("strokeMiterlimit");
    assert("strokeMiterlimit"@.len() == 16);
    reveal_strlit("strokeOpacity");
    assert("strokeOpacity"@.len() == 13);
    reveal_strlit("strokeWidth");
    assert("strokeWidth"@.len() == 11);
    reveal_strlit("textAnchor");
    assert("textAnchor"@.len() == 10);
    reveal_strlit("textDecoration");
    assert("textDecoration"@.len() == 14);
    reveal_strlit("textRendering");
    assert("textRendering"@.len() == 13);
    reveal_strlit("transformOrigin");
    assert("transformOrigin"@.len() == 15);
    reveal_strlit("underlinePosition");
    assert("underlinePosition"@.len() == 17);
    reveal_strlit("underlineThickness");
    assert("underlineThickness"@.len() == 18);
    reveal_strlit("unicodeBidi");
    assert("unicodeBidi"@.len() == 11);
    reveal_strlit("unicodeRange");
    assert("unicodeRange"@.len() == 12);
    reveal_strlit("unitsPerEm");
    assert("unitsPerEm"@.len() == 10);
    reveal_strlit("vAlphabetic");
    assert("vAlphabetic"@.len() == 11);
    reveal_strlit("vHanging");
    assert("vHanging"@.len() == 8);
    reveal_strlit("vIdeographic");
    assert("vIdeographic"@.len() == 12);
    reveal_strlit("vMathematical");
    assert("vMathematical"@.len() == 13);
    reveal_strlit("vectorEffect");
    assert("vectorEffect"@.len() == 12);
    reveal_strlit("vertAdvY");
    assert("vertAdvY"@.len() == 8);
    reveal_strlit("vertOriginX");
    assert("vertOriginX"@.len() == 11);
    reveal_strlit("vertOriginY");
    assert("vertOriginY"@.len() == 11);
    reveal_strlit("wordSpacing");
    assert("wordSpacing"@.len() == 11);
    reveal_strlit("writingMode");
    assert("writingMode"@.len() == 11);
    reveal_strlit("htmlFor");
    assert("htmlFor"@[0] != "xHeight"@[0]);
    reveal_strlit("dangerouslySetInnerHTML");
    assert("dangerouslySetInnerHTML"@.len() == 23);
    reveal_strlit("ref");
    assert("ref"@.len() == 3);
    reveal_strlit("key");
    assert("key"@.len() == 3);
    assert("xHeight"@[0] == 'x' && "xHeight"@[1] == 'H');
}

proof fn lemma_table_has_xlink_actuate()
    ensures
        attr_action("xlinkActuate"@) == AttrActionView::Use("xlink:actuate"@),
{
    reveal_strlit("xlinkActuate");
    assert("xlinkActuate"@.len() == 12);
    reveal_strlit("xlink:actuate");
    reveal_strlit("className");
    assert("className"@.len() == 9);
    reveal_strlit("accentHeight");
    assert("accentHeight"@[0] != "xlinkActuate"@[0]);
    reveal_strlit("alignmentBaseline");
    assert("alignmentBaseline"@.len() == 17);
    reveal_strlit("arabicForm");
    assert("arabicForm"@.len() == 10);
    reveal_strlit("baselineShift");
    assert("baselineShift"@.len() == 13);
    reveal_strlit("capHeight");
    assert("capHeight"@.len() == 9);
    reveal_strlit("clipPath");
    assert("clipPath"@.len() == 8);
    reveal_strlit("clipRule");
    assert("clipRule"@.len() == 8);
    reveal_strlit("colorInterpolation");
    assert("colorInterpolation"@.len() == 18);
    reveal_strlit("colorInterpolationFilters");
    assert("colorInterpolationFilters"@.len() == 25);
    reveal_strlit("colorProfile");
    assert("colorProfile"@[0] != "xlinkActuate"@[0]);
    reveal_strlit("colorRendering");
    assert("colorRendering"@.len() == 14);
    reveal_strlit("dominantBaseline");
    assert("dominantBaseline"@.len() == 16);
    reveal_strlit("enableBackground");
    assert("enableBackground"@.len() == 16);
    reveal_strlit("fillOpacity");
    assert("fillOpacity"@.len() == 11);
    reveal_strlit("fillRule");
    assert("fillRule"@.len() == 8);
    reveal_strlit("floodColor");
    assert("floodColor"@.len() == 10);
    reveal_strlit("floodOpacity");
    assert("floodOpacity"@[0] != "xlinkActuate"@[0]);
    reveal_strlit("fontFamily");
    assert("fontFamily"@.len() == 10);
    reveal_strlit("fontSize");
    assert("fontSize"@.len() == 8);
    reveal_strlit("fontSizeAdjust");
    assert("fontSizeAdjust"@.len() == 14);
    reveal_strlit("fontStretch");
    assert("fontStretch"@.len() == 11);
    reveal_strlit("fontStyle");
    assert("fontStyle"@.len() == 9);
    reveal_strlit("fontVariant");
    assert("fontVariant"@.len() == 11);
    reveal_strlit("fontWeight");
    assert("fontWeight"@.len() == 10);
    reveal_strlit("glyphName");
    assert("glyphName"@.len() == 9);
    reveal_strlit("glyphOrientationHorizontal");
    assert("glyphOrientationHorizontal"@.len() == 26);
    reveal_strlit("glyphOrientationVertical");
    assert("glyphOrientationVertical"@.len() == 24);
    reveal_strlit("horizAdvX");
    assert("horizAdvX"@.len() == 9);
    reveal_strlit("horizOriginX");
    assert("horizOriginX"@[0] != "xlinkActuate"@[0]);
    reveal_strlit("imageRendering");
    assert("imageRendering"@.len() == 14);
    reveal_strlit("letterSpacing");
    assert("letterSpacing"@.len() == 13);
    reveal_strlit("lightingColor");
    assert("lightingColor"@.len() == 13);
    reveal_strlit("markerEnd");
    assert("markerEnd"@.len() == 9);
    reveal_strlit("markerMid");
    assert("markerMid"@.len() == 9);
    reveal_strlit("markerStart");
    assert("markerStart"@.len() == 11);
    reveal_strlit("overlinePosition");
    assert("overlinePosition"@.len() == 16);
    reveal_strlit("overlineThickness");
    assert("overlineThickness"@.len() == 17);
    reveal_strlit("paintOrder");
    assert("paintOrder"@.len() == 10);
    reveal_strlit("panose1");
    assert("panose1"@.len() == 7);
    reveal_strlit("pointerEvents");
    assert("pointerEvents"@.len() == 13);
    reveal_strlit("renderingIntent");
    assert("renderingIntent"@.len() == 15);
    reveal_strlit("shapeRendering");
    assert("shapeRendering"@.len() == 14);
    reveal_strlit("stopColor");
    assert("stopColor"@.len() == 9);
    reveal_strlit("stopOpacity");
    assert("stopOpacity"@.len() == 11);
    reveal_strlit("strikethroughPosition");
    assert("strikethroughPosition"@.len() == 21);
    reveal_strlit("strikethroughThickness");
    assert("strikethroughThickness"@.len() == 22);
    reveal_strlit("strokeDasharray");
    assert("strokeDasharray"@.len() == 15);
    reveal_strlit("strokeDashoffset");
    assert("strokeDashoffset"@.len() == 16);
    reveal_strlit("strokeLinecap");
    assert("strokeLinecap"@.len() == 13);
    reveal_strlit("strokeLinejoin");
    assert("strokeLinejoin"@.len() == 14);
    reveal_strlit("strokeMiterlimit");
    assert("strokeMiterlimit"@.len() == 16);
    reveal_strlit("strokeOpacity");
    assert("strokeOpacity"@.len() == 13);
    reveal_strlit("strokeWidth");
    assert("strokeWidth"@.len() == 11);
    reveal_strlit("textAnchor");
    assert("textAnchor"@.len() == 10);
    reveal_strlit("textDecoration");
    assert("textDecoration"@.len() == 14);
    reveal_strlit("textRendering");
    assert("textRendering"@.len() == 13);
    reveal_strlit("transformOrigin");
    assert("transformOrigin"@.len() == 15);
    reveal_strlit("underlinePosition");
    assert("underlinePosition"@.len() == 17);
    reveal_strlit("underlineThickness");
    assert("underlineThickness"@.len() == 18);
    reveal_strlit("unicodeBidi");
    assert("unicodeBidi"@.len() == 11);
    reveal_strlit("unicodeRange");
    assert("unicodeRange"@[0] != "xlinkActuate"@[0]);
    reveal_strlit("unitsPerEm");
    assert("unitsPerEm"@.len() == 10);
    reveal_strlit("vAlphabetic");
    assert("vAlphabetic"@.len() == 11);
    reveal_strlit("vHanging");
    assert("vHanging"@.len() == 8);
    reveal_strlit("vIdeographic");
    assert("vIdeographic"@[0] != "xlinkActuate"@[0]);
    reveal_strlit("vMathematical");
    assert("vMathematical"@.len() == 13);
    reveal_strlit("vectorEffect");
    assert("vectorEffect"@[0] != "xlinkActuate"@[0]);
    reveal_strlit("vertAdvY");
    assert("vertAdvY"@.len() == 8);
    reveal_strlit("vertOriginX");
    assert("vertOriginX"@.len() == 11);
    reveal_strlit("vertOriginY");
    assert("vertOriginY"@.len() == 11);
    reveal_strlit("wordSpacing");
    assert("wordSpacing"@.len() == 11);
    reveal_strlit("writingMode");
    assert("writingMode"@.len() == 11);
    reveal_strlit("xHeight");
    assert("xHeight"@.len() == 7);
    reveal_strlit("htmlFor");
    assert("htmlFor"@.len() == 7);
    reveal_strlit("dangerouslySetInnerHTML");
    assert("dangerouslySetInnerHTML"@.len() == 23);
    reveal_strlit("ref");
    assert("ref"@.len() == 3);
    reveal_strlit("key");
    assert("key"@.len() == 3);
    assert("xlinkActuate"@[0] == 'x' && "xlinkActuate"@[1] == 'l');
}

proof fn lemma_table_has_xlink_arcrole()
    ensures
        attr_action("xlinkArcrole"@) == AttrActionView::Use("xlink:arcrole"@),
{
    reveal_strlit("xlinkArcrole");
    assert("xlinkArcrole"@.len() == 12);
    reveal_strlit("xlink:arcrole");
    reveal_strlit("className");
    assert("className"@.len() == 9);
    reveal_strlit("accentHeight");
    assert("accentHeight"@[0] != "xlinkArcrole"@[0]);
    reveal_strlit("alignmentBaseline");
    assert("alignmentBaseline"@.len() == 17);
    reveal_strlit("arabicForm");
    assert("arabicForm"@.len() == 10);
    reveal_strlit("baselineShift");
    assert("baselineShift"@.len() == 13);
    reveal_strlit("capHeight");
    assert("capHeight"@.len() == 9);
    reveal_strlit("clipPath");
    assert("clipPath"@.len() == 8);
    reveal_strlit("clipRule");
    assert("clipRule"@.len() == 8);
    reveal_strlit("colorInterpolation");
    assert("colorInterpolation"@.len() == 18);
    reveal_strlit("colorInterpolationFilters");
    assert("colorInterpolationFilters"@.len() == 25);
    reveal_strlit("colorProfile");
    assert("colorProfile"@[0] != "xlinkArcrole"@[0]);
    reveal_strlit("colorRendering");
    assert("colorRendering"@.len() == 14);
    reveal_strlit("dominantBaseline");
    assert("dominantBaseline"@.len() == 16);
    reveal_strlit("enableBackground");
    assert("enableBackground"@.len() == 16);
    reveal_strlit("fillOpacity");
    assert("fillOpacity"@.len() == 11);
    reveal_strlit("fillRule");
    assert("fillRule"@.len() == 8);
    reveal_strlit("floodColor");
    assert("floodColor"@.len() == 10);
    reveal_strlit("floodOpacity");
    assert("floodOpacity"@[0] != "xlinkArcrole"@[0]);
    reveal_strlit("fontFamily");
    assert("fontFamily"@.len() == 10);
    reveal_strlit("fontSize");
    assert("fontSize"@.len() == 8);
    reveal_strlit("fontSizeAdjust");
    assert("fontSizeAdjust"@.len() == 14);
    reveal_strlit("fontStretch");
    assert("fontStretch"@.len() == 11);
    reveal_strlit("fontStyle");
    assert("fontStyle"@.len() == 9);
    reveal_strlit("fontVariant");
    assert("fontVariant"@.len() == 11);
    reveal_strlit("fontWeight");
    assert("fontWeight"@.len() == 10);
    reveal_strlit("glyphName");
    assert("glyphName"@.len() == 9);
    reveal_strlit("glyphOrientationHorizontal");
    assert("glyphOrientationHorizontal"@.len() == 26);
    reveal_strlit("glyphOrientationVertical");
    assert("glyphOrientationVertical"@.len() == 24);
    reveal_strlit("horizAdvX");
    assert("horizAdvX"@.len() == 9);
    reveal_strlit("horizOriginX");
    assert("horizOriginX"@[0] != "xlinkArcrole"@[0]);
    reveal_strlit("imageRendering");
    assert("imageRendering"@.len() == 14);
    reveal_strlit("letterSpacing");
    assert("letterSpacing"@.len() == 13);
    reveal_strlit("lightingColor");
    assert("lightingColor"@.len() == 13);
    reveal_strlit("markerEnd");
    assert("markerEnd"@.len() == 9);
    reveal_strlit("markerMid");
    assert("markerMid"@.len() == 9);
    reveal_strlit("markerStart");
    assert("markerStart"@.len() == 11);
    reveal_strlit("overlinePosition");
    assert("overlinePosition"@.len() == 16);
    reveal_strlit("overlineThickness");
    assert("overlineThickness"@.len() == 17);
    reveal_strlit("paintOrder");
    assert("paintOrder"@.len() == 10);
    reveal_strlit("panose1");
    assert("panose1"@.len() == 7);
    reveal_strlit("pointerEvents");
    assert("pointerEvents"@.len() == 13);
    reveal_strlit("renderingIntent");
    assert("renderingIntent"@.len() == 15);
    reveal_strlit("shapeRendering");
    assert("shapeRendering"@.len() == 14);
    reveal_strlit("stopColor");
    assert("stopColor"@.len() == 9);
    reveal_strlit("stopOpacity");
    assert("stopOpacity"@.len() == 11);
    reveal_strlit("strikethroughPosition");
    assert("strikethroughPosition"@.len() == 21);
    reveal_strlit("strikethroughThickness");
    assert("strikethroughThickness"@.len() == 22);
    reveal_strlit("strokeDasharray");
    assert("strokeDasharray"@.len() == 15);
    reveal_strlit("strokeDashoffset");
    assert("strokeDashoffset"@.len() == 16);
    reveal_strlit("strokeLinecap");
    assert("strokeLinecap"@.len() == 13);
    reveal_strlit("strokeLinejoin");
    assert("strokeLinejoin"@.len() == 14);
    reveal_strlit("strokeMiterlimit");
    assert("strokeMiterlimit"@.len() == 16);
    reveal_strlit("strokeOpacity");
    assert("strokeOpacity"@.len() == 13);
    reveal_strlit("strokeWidth");
    assert("strokeWidth"@.len() == 11);
    reveal_strlit("textAnchor");
    assert("textAnchor"@.len() == 10);
    reveal_strlit("textDecoration");
    assert("textDecoration"@.len() == 14);
    reveal_strlit("textRendering");
    assert("textRendering"@.len() == 13);
    reveal_strlit("transformOrigin");
    assert("transformOrigin"@.len() == 15);
    reveal_strlit("underlinePosition");
    assert("underlinePosition"@.len() == 17);
    reveal_strlit("underlineThickness");
    assert("underlineThickness"@.len() == 18);
    reveal_strlit("unicodeBidi");
    assert("unicodeBidi"@.len() == 11);
    reveal_strlit("unicodeRange");
    assert("unicodeRange"@[0] != "xlinkArcrole"@[0]);
    reveal_strlit("unitsPerEm");
    assert("unitsPerEm"@.len() == 10);
    reveal_strlit("vAlphabetic");
    assert("vAlphabetic"@.len() == 11);
    reveal_strlit("vHanging");
    assert("vHanging"@.len() == 8);
    reveal_strlit("vIdeographic");
    assert("vIdeographic"@[0] != "xlinkArcrole"@[0]);
    reveal_strlit("vMathematical");
    assert("vMathematical"@.len() == 13);
    reveal_strlit("vectorEffect");
    assert("vectorEffect"@[0] != "xlinkArcrole"@[0]);
    reveal_strlit("vertAdvY");
    assert("vertAdvY"@.len() == 8);
    reveal_strlit("vertOriginX");
    assert("vertOriginX"@.len() == 11);
    reveal_strlit("vertOriginY");
    assert("vertOriginY"@.len() == 11);
    reveal_strlit("wordSpacing");
    assert("wordSpacing"@.len() == 11);
    reveal_strlit("writingMode");
    assert("writingMode"@.len() == 11);
    reveal_strlit("xHeight");
    assert("xHeight"@.len() == 7);
    reveal_strlit("xlinkActuate");
    assert("xlinkActuate"@[6] != "xlinkArcrole"@[6]);
    reveal_strlit("htmlFor");
    assert("htmlFor"@.len() == 7);
    reveal_strlit("dangerouslySetInnerHTML");
    assert("dangerouslySetInnerHTML"@.len() == 23);
    reveal_strlit("ref");
    assert("ref"@.len() == 3);
    reveal_strlit("key");
    assert("key"@.len() == 3);
    assert("xlinkArcrole"@[0] == 'x' && "xlinkArcrole"@[1] == 'l');
}

proof fn lemma_table_has_xlink_href()
    ensures
        attr_action("xlinkHref"@) == AttrActionView::Use("xlink:href"@),
{
    reveal_strlit("xlinkHref");
    assert("xlinkHref"@.len() == 9);
    reveal_strlit("xlink:href");
    reveal_strlit("className");
    assert("className"@[0] != "xlinkHref"@[0]);
    reveal_strlit("accentHeight");
    assert("accentHeight"@.len() == 12);
    reveal_strlit("alignmentBaseline");
    assert("alignmentBaseline"@.len() == 17);
    reveal_strlit("arabicForm");
    assert("arabicForm"@.len() == 10);
    reveal_strlit("baselineShift");
    assert("baselineShift"@.len() == 13);
    reveal_strlit("capHeight");
    assert("capHeight"@[0] != "xlinkHref"@[0]);
    reveal_strlit("clipPath");
    assert("clipPath"@.len() == 8);
    reveal_strlit("clipRule");
    assert("clipRule"@.len() == 8);
    reveal_strlit("colorInterpolation");
    assert("colorInterpolation"@.len() == 18);
    reveal_strlit("colorInterpolationFilters");
    assert("colorInterpolationFilters"@.len() == 25);
    reveal_strlit("colorProfile");
    assert("colorProfile"@.len() == 12);
    reveal_strlit("colorRendering");
    assert("colorRendering"@.len() == 14);
    reveal_strlit("dominantBaseline");
    assert("dominantBaseline"@.len() == 16);
    reveal_strlit("enableBackground");
    assert("enableBackground"@.len() == 16);
    reveal_strlit("fillOpacity");
    assert("fillOpacity"@.len() == 11);
    reveal_strlit("fillRule");
    assert("fillRule"@.len() == 8);
    reveal_strlit("floodColor");
    assert("floodColor"@.len() == 10);
    reveal_strlit("floodOpacity");
    assert("floodOpacity"@.len() == 12);
    reveal_strlit("fontFamily");
    assert("fontFamily"@.len() == 10);
    reveal_strlit("fontSize");
    assert("fontSize"@.len() == 8);
    reveal_strlit("fontSizeAdjust");
    assert("fontSizeAdjust"@.len() == 14);
    reveal_strlit("fontStretch");
    assert("fontStretch"@.len() == 11);
    reveal_strlit("fontStyle");
    assert("fontStyle"@[0] != "xlinkHref"@[0]);
    reveal_strlit("fontVariant");
    assert("fontVariant"@.len() == 11);
    reveal_strlit("fontWeight");
    assert("fontWeight"@.len() == 10);
    reveal_strlit("glyphName");
    assert("glyphName"@[0] != "xlinkHref"@[0]);
    reveal_strlit("glyphOrientationHorizontal");
    assert("glyphOrientationHorizontal"@.len() == 26);
    reveal_strlit("glyphOrientationVertical");
    assert("glyphOrientationVertical"@.len() == 24);
    reveal_strlit("horizAdvX");
    assert("horizAdvX"@[0] != "xlinkHref"@[0]);
    reveal_strlit("horizOriginX");
    assert("horizOriginX"@.len() == 12);
    reveal_strlit("imageRendering");
    assert("imageRendering"@.len() == 14);
    reveal_strlit("letterSpacing");
    assert("letterSpacing"@.len() == 13);
    reveal_strlit("lightingColor");
    assert("lightingColor"@.len() == 13);
    reveal_strlit("markerEnd");
    assert("markerEnd"@[0] != "xlinkHref"@[0]);
    reveal_strlit("markerMid");
    assert("markerMid"@[0] != "xlinkHref"@[0]);
    reveal_strlit("markerStart");
    assert("markerStart"@.len() == 11);
    reveal_strlit("overlinePosition");
    assert("overlinePosition"@.len() == 16);
    reveal_strlit("overlineThickness");
    assert("overlineThickness"@.len() == 17);
    reveal_strlit("paintOrder");
    assert("paintOrder"@.len() == 10);
    reveal_strlit("panose1");
    assert("panose1"@.len() == 7);
    reveal_strlit("pointerEvents");
    assert("pointerEvents"@.len() == 13);
    reveal_strlit("renderingIntent");
    assert("renderingIntent"@.len() == 15);
    reveal_strlit("shapeRendering");
    assert("shapeRendering"@.len() == 14);
    reveal_strlit("stopColor");
    assert("stopColor"@[0] != "xlinkHref"@[0]);
    reveal_strlit("stopOpacity");
    assert("stopOpacity"@.len() == 11);
    reveal_strlit("strikethroughPosition");
    assert("strikethroughPosition"@.len() == 21);
    reveal_strlit("strikethroughThickness");
    assert("strikethroughThickness"@.len() == 22);
    reveal_strlit("strokeDasharray");
    assert("strokeDasharray"@.len() == 15);
    reveal_strlit("strokeDashoffset");
    assert("strokeDashoffset"@.len() == 16);
    reveal_strlit("strokeLinecap");
    assert("strokeLinecap"@.len() == 13);
    reveal_strlit("strokeLinejoin");
    assert("strokeLinejoin"@.len() == 14);
    reveal_strlit("strokeMiterlimit");
    assert("strokeMiterlimit"@.len() == 16);
    reveal_strlit("strokeOpacity");
    assert("strokeOpacity"@.len() == 13);
    reveal_strlit("strokeWidth");
    assert("strokeWidth"@.len() == 11);
    reveal_strlit("textAnchor");
    assert("textAnchor"@.len() == 10);
    reveal_strlit("textDecoration");
    assert("textDecoration"@.len() == 14);
    reveal_strlit("textRendering");
    assert("textRendering"@.len() == 13);
    reveal_strlit("transformOrigin");
    assert("transformOrigin"@.len() == 15);
    reveal_strlit("underlinePosition");
    assert("underlinePosition"@.len() == 17);
    reveal_strlit("underlineThickness");
    assert("underlineThickness"@.len() == 18);
    reveal_strlit("unicodeBidi");
    assert("unicodeBidi"@.len() == 11);
    reveal_strlit("unicodeRange");
    assert("unicodeRange"@.len() == 12);
    reveal_strlit("unitsPerEm");
    assert("unitsPerEm"@.len() == 10);
    reveal_strlit("vAlphabetic");
    assert("vAlphabetic"@.len() == 11);
    reveal_strlit("vHanging");
    assert("vHanging"@.len() == 8);
    reveal_strlit("vIdeographic");
    assert("vIdeographic"@.len() == 12);
    reveal_strlit("vMathematical");
    assert("vMathematical"@.len() == 13);
    reveal_strlit("vectorEffect");
    assert("vectorEffect"@.len() == 12);
    reveal_strlit("vertAdvY");
    assert("vertAdvY"@.len() == 8);
    reveal_strlit("vertOriginX");
    assert("vertOriginX"@.len() == 11);
    reveal_strlit("vertOriginY");
    assert("vertOriginY"@.len() == 11);
    reveal_strlit("wordSpacing");
    assert("wordSpacing"@.len() == 11);
    reveal_strlit("writingMode");
    assert("writingMode"@.len() == 11);
    reveal_strlit("xHeight");
    assert("xHeight"@.len() == 7);
    reveal_strlit("xlinkActuate");
    assert("xlinkActuate"@.len() == 12);
    reveal_strlit("xlinkArcrole");
    assert("xlinkArcrole"@.len() == 12);
    reveal_strlit("htmlFor");
    assert("htmlFor"@.len() == 7);
    reveal_strlit("dangerouslySetInnerHTML");
    assert("dangerouslySetInnerHTML"@.len() == 23);
    reveal_strlit("ref");
    assert("ref"@.len() == 3);
    reveal_strlit("key");
    assert("key"@.len() == 3);
    assert("xlinkHref"@[0] == 'x' && "xlinkHref"@[1] == 'l');
}

proof fn lemma_table_has_xlink_role()
    ensures
        attr_action("xlinkRole"@) == AttrActionView::Use("xlink:role"@),
{
    reveal_strlit("xlinkRole");
    assert("xlinkRole"@.len() == 9);
    reveal_strlit("xlink:role");
    reveal_strlit("className");
    assert("className"@[0] != "xlinkRole"@[0]);
    reveal_strlit("accentHeight");
    assert("accentHeight"@.len() == 12);
    reveal_strlit("alignmentBaseline");
    assert("alignmentBaseline"@.len() == 17);
    reveal_strlit("arabicForm");
    assert("arabicForm"@.len() == 10);
    reveal_strlit("baselineShift");
    assert("baselineShift"@.len() == 13);
    reveal_strlit("capHeight");
    assert("capHeight"@[0] != "xlinkRole"@[0]);
    reveal_strlit("clipPath");
    assert("clipPath"@.len() == 8);
    reveal_strlit("clipRule");
    assert("clipRule"@.len() == 8);
    reveal_strlit("colorInterpolation");
    assert("colorInterpolation"@.len() == 18);
    reveal_strlit("colorInterpolationFilters");
    assert("colorInterpolationFilters"@.len() == 25);
    reveal_strlit("colorProfile");
    assert("colorProfile"@.len() == 12);
    reveal_strlit("colorRendering");
    assert("colorRendering"@.len() == 14);
    reveal_strlit("dominantBaseline");
    assert("dominantBaseline"@.len() == 16);
    reveal_strlit("enableBackground");
    assert("enableBackground"@.len() == 16);
    reveal_strlit("fillOpacity");
    assert("fillOpacity"@.len() == 11);
    reveal_strlit("fillRule");
    assert("fillRule"@.len() == 8);
    reveal_strlit("floodColor");
    assert("floodColor"@.len() == 10);
    reveal_strlit("floodOpacity");
    assert("floodOpacity"@.len() == 12);
    reveal_strlit("fontFamily");
    assert("fontFamily"@.len() == 10);
    reveal_strlit("fontSize");
    assert("fontSize"@.len() == 8);
    reveal_strlit("fontSizeAdjust");
    assert("fontSizeAdjust"@.len() == 14);
    reveal_strlit("fontStretch");
    assert("fontStretch"@.len() == 11);
    reveal_strlit("fontStyle");
    assert("fontStyle"@[0] != "xlinkRole"@[0]);
    reveal_strlit("fontVariant");
    assert("fontVariant"@.len() == 11);
    reveal_strlit("fontWeight");
    assert("fontWeight"@.len() == 10);
    reveal_strlit("glyphName");
    assert("glyphName"@[0] != "xlinkRole"@[0]);
    reveal_strlit("glyphOrientationHorizontal");
    assert("glyphOrientationHorizontal"@.len() == 26);
    reveal_strlit("glyphOrientationVertical");
    assert("glyphOrientationVertical"@.len() == 24);
    reveal_strlit("horizAdvX");
    assert("horizAdvX"@[0] != "xlinkRole"@[0]);
    reveal_strlit("horizOriginX");
    assert("horizOriginX"@.len() == 12);
    reveal_strlit("imageRendering");
    assert("imageRendering"@.len() == 14);
    reveal_strlit("letterSpacing");
    assert("letterSpacing"@.len() == 13);
    reveal_strlit("lightingColor");
    assert("lightingColor"@.len() == 13);
    reveal_strlit("markerEnd");
    assert("markerEnd"@[0] != "xlinkRole"@[0]);
    reveal_strlit("markerMid");
    assert("markerMid"@[0] != "xlinkRole"@[0]);
    reveal_strlit("markerStart");
    assert("markerStart"@.len() == 11);
    reveal_strlit("overlinePosition");
    assert("overlinePosition"@.len() == 16);
    reveal_strlit("overlineThickness");
    assert("overlineThickness"@.len() == 17);
    reveal_strlit("paintOrder");
    assert("paintOrder"@.len() == 10);
    reveal_strlit("panose1");
    assert("panose1"@.len() == 7);
    reveal_strlit("pointerEvents");
    assert("pointerEvents"@.len() == 13);
    reveal_strlit("renderingIntent");
    assert("renderingIntent"@.len() == 15);
    reveal_strlit("shapeRendering");
    assert("shapeRendering"@.len() == 14);
    reveal_strlit("stopColor");
    assert("stopColor"@[0] != "xlinkRole"@[0]);
    reveal_strlit("stopOpacity");
    assert("stopOpacity"@.len() == 11);
    reveal_strlit("strikethroughPosition");
    assert("strikethroughPosition"@.len() == 21);
    reveal_strlit("strikethroughThickness");
    assert("strikethroughThickness"@.len() == 22);
    reveal_strlit("strokeDasharray");
    assert("strokeDasharray"@.len() == 15);
    reveal_strlit("strokeDashoffset");
    assert("strokeDashoffset"@.len() == 16);
    reveal_strlit("strokeLinecap");
    assert("strokeLinecap"@.len() == 13);
    reveal_strlit("strokeLinejoin");
    assert("strokeLinejoin"@.len() == 14);
    reveal_strlit("strokeMiterlimit");
    assert("strokeMiterlimit"@.len() == 16);
    reveal_strlit("strokeOpacity");
    assert("strokeOpacity"@.len() == 13);
    reveal_strlit("strokeWidth");
    assert("strokeWidth"@.len() == 11);
    reveal_strlit("textAnchor");
    assert("textAnchor"@.len() == 10);
    reveal_strlit("textDecoration");
    assert("textDecoration"@.len() == 14);
    reveal_strlit("textRendering");
    assert("textRendering"@.len() == 13);
    reveal_strlit("transformOrigin");
    assert("transformOrigin"@.len() == 15);
    reveal_strlit("underlinePosition");
    assert("underlinePosition"@.len() == 17);
    reveal_strlit("underlineThickness");
    assert("underlineThickness"@.len() == 18);
    reveal_strlit("unicodeBidi");
    assert("unicodeBidi"@.len() == 11);
    reveal_strlit("unicodeRange");
    assert("unicodeRange"@.len() == 12);
    reveal_strlit("unitsPerEm");
    assert("unitsPerEm"@.len() == 10);
    reveal_strlit("vAlphabetic");
    assert("vAlphabetic"@.len() == 11);
    reveal_strlit("vHanging");
    assert("vHanging"@.len() == 8);
    reveal_strlit("vIdeographic");
    assert("vIdeographic"@.len() == 12);
    reveal_strlit("vMathematical");
    assert("vMathematical"@.len() == 13);
    reveal_strlit("vectorEffect");
    assert("vectorEffect"@.len() == 12);
    reveal_strlit("vertAdvY");
    assert("vertAdvY"@.len() == 8);
    reveal_strlit("vertOriginX");
    assert("vertOriginX"@.len() == 11);
    reveal_strlit("vertOriginY");
    assert("vertOriginY"@.len() == 11);
    reveal_strlit("wordSpacing");
    assert("wordSpacing"@.len() == 11);
    reveal_strlit("writingMode");
    assert("writingMode"@.len() == 11);
    reveal_strlit("xHeight");
    assert("xHeight"@.len() == 7);
    reveal_strlit("xlinkActuate");
    assert("xlinkActuate"@.len() == 12);
    reveal_strlit("xlinkArcrole");
    assert("xlinkArcrole"@.len() == 12);
    reveal_strlit("xlinkHref");
    assert("xlinkHref"@[5] != "xlinkRole"@[5]);
    reveal_strlit("htmlFor");
    assert("htmlFor"@.len() == 7);
    reveal_strlit("dangerouslySetInnerHTML");
    assert("dangerouslySetInnerHTML"@.len() == 23);
    reveal_strlit("ref");
    assert("ref"@.len() == 3);
    reveal_strlit("key");
    assert("key"@.len() == 3);
    assert("xlinkRole"@[0] == 'x' && "xlinkRole"@[1] == 'l');
}

proof fn lemma_table_has_xlink_show()
    ensures
        attr_action("xlinkShow"@) == AttrActionView::Use("xlink:show"@),
{
    reveal_strlit("xlinkShow");
    assert("xlinkShow"@.len() == 9);
    reveal_strlit("xlink:show");
    reveal_strlit("className");
    assert("className"@[0] != "xlinkShow"@[0]);
    reveal_strlit("accentHeight");
    assert("accentHeight"@.len() == 12);
    reveal_strlit("alignmentBaseline");
    assert("alignmentBaseline"@.len() == 17);
    reveal_strlit("arabicForm");
    assert("arabicForm"@.len() == 10);
    reveal_strlit("baselineShift");
    assert("baselineShift"@.len() == 13);
    reveal_strlit("capHeight");
    assert("capHeight"@[0] != "xlinkShow"@[0]);
    reveal_strlit("clipPath");
    assert("clipPath"@.len() == 8);
    reveal_strlit("clipRule");
    assert("clipRule"@.len() == 8);
    reveal_strlit("colorInterpolation");
    assert("colorInterpolation"@.len() == 18);
    reveal_strlit("colorInterpolationFilters");
    assert("colorInterpolationFilters"@.len() == 25);
    reveal_strlit("colorProfile");
    assert("colorProfile"@.len() == 12);
    reveal_strlit("colorRendering");
    assert("colorRendering"@.len() == 14);
    reveal_strlit("dominantBaseline");
    assert("dominantBaseline"@.len() == 16);
    reveal_strlit("enableBackground");
    assert("enableBackground"@.len() == 16);
    reveal_strlit("fillOpacity");
    assert("fillOpacity"@.len() == 11);
    reveal_strlit("fillRule");
    assert("fillRule"@.len() == 8);
    reveal_strlit("floodColor");
    assert("floodColor"@.len() == 10);
    reveal_strlit("floodOpacity");
    assert("floodOpacity"@.len() == 12);
    reveal_strlit("fontFamily");
    assert("fontFamily"@.len() == 10);
    reveal_strlit("fontSize");
    assert("fontSize"@.len() == 8);
    reveal_strlit("fontSizeAdjust");
    assert("fontSizeAdjust"@.len() == 14);
    reveal_strlit("fontStretch");
    assert("fontStretch"@.len() == 11);
    reveal_strlit("fontStyle");
    assert("fontStyle"@[0] != "xlinkShow"@[0]);
    reveal_strlit("fontVariant");
    assert("fontVariant"@.len() == 11);
    reveal_strlit("fontWeight");
    assert("fontWeight"@.len() == 10);
    reveal_strlit("glyphName");
    assert("glyphName"@[0] != "xlinkShow"@[0]);
    reveal_strlit("glyphOrientationHorizontal");
    assert("glyphOrientationHorizontal"@.len() == 26);
    reveal_strlit("glyphOrientationVertical");
    assert("glyphOrientationVertical"@.len() == 24);
    reveal_strlit("horizAdvX");
    assert("horizAdvX"@[0] != "xlinkShow"@[0]);
    reveal_strlit("horizOriginX");
    assert("horizOriginX"@.len() == 12);
    reveal_strlit("imageRendering");
    assert("imageRendering"@.len() == 14);
    reveal_strlit("letterSpacing");
    assert("letterSpacing"@.len() == 13);
    reveal_strlit("lightingColor");
    assert("lightingColor"@.len() == 13);
    reveal_strlit("markerEnd");
    assert("markerEnd"@[0] != "xlinkShow"@[0]);
    reveal_strlit("markerMid");
    assert("markerMid"@[0] != "xlinkShow"@[0]);
    reveal_strlit("markerStart");
    assert("markerStart"@.len() == 11);
    reveal_strlit("overlinePosition");
    assert("overlinePosition"@.len() == 16);
    reveal_strlit("overlineThickness");
    assert("overlineThickness"@.len() == 17);
    reveal_strlit("paintOrder");
    assert("paintOrder"@.len() == 10);
    reveal_strlit("panose1");
    assert("panose1"@.len() == 7);
    reveal_strlit("pointerEvents");
    assert("pointerEvents"@.len() == 13);
    reveal_strlit("renderingIntent");
    assert("renderingIntent"@.len() == 15);
    reveal_strlit("shapeRendering");
    assert("shapeRendering"@.len() == 14);
    reveal_strlit("stopColor");
    assert("stopColor"@[0] != "xlinkShow"@[0]);
    reveal_strlit("stopOpacity");
    assert("stopOpacity"@.len() == 11);
    reveal_strlit("strikethroughPosition");
    assert("strikethroughPosition"@.len() == 21);
    reveal_strlit("strikethroughThickness");
    assert("strikethroughThickness"@.len() == 22);
    reveal_strlit("strokeDasharray");
    assert("strokeDasharray"@.len() == 15);
    reveal_strlit("strokeDashoffset");
    assert("strokeDashoffset"@.len() == 16);
    reveal_strlit("strokeLinecap");
    assert("strokeLinecap"@.len() == 13);
    reveal_strlit("strokeLinejoin");
    assert("strokeLinejoin"@.len() == 14);
    reveal_strlit("strokeMiterlimit");
    assert("strokeMiterlimit"@.len() == 16);
    reveal_strlit("strokeOpacity");
    assert("strokeOpacity"@.len() == 13);
    reveal_strlit("strokeWidth");
    assert("strokeWidth"@.len() == 11);
    reveal_strlit("textAnchor");
    assert("textAnchor"@.len() == 10);
    reveal_strlit("textDecoration");
    assert("textDecoration"@.len() == 14);
    reveal_strlit("textRendering");
    assert("textRendering"@.len() == 13);
    reveal_strlit("transformOrigin");
    assert("transformOrigin"@.len() == 15);
    reveal_strlit("underlinePosition");
    assert("underlinePosition"@.len() == 17);
    reveal_strlit("underlineThickness");
    assert("underlineThickness"@.len() == 18);
    reveal_strlit("unicodeBidi");
    assert("unicodeBidi"@.len() == 11);
    reveal_strlit("unicodeRange");
    assert("unicodeRange"@.len() == 12);
    reveal_strlit("unitsPerEm");
    assert("unitsPerEm"@.len() == 10);
    reveal_strlit("vAlphabetic");
    assert("vAlphabetic"@.len() == 11);
    reveal_strlit("vHanging");
    assert("vHanging"@.len() == 8);
    reveal_strlit("vIdeographic");
    assert("vIdeographic"@.len() == 12);
    reveal_strlit("vMathematical");
    assert("vMathematical"@.len() == 13);
    reveal_strlit("vectorEffect");
    assert("vectorEffect"@.len() == 12);
    reveal_strlit("vertAdvY");
    assert("vertAdvY"@.len() == 8);
    reveal_strlit("vertOriginX");
    assert("vertOriginX"@.len() == 11);
    reveal_strlit("vertOriginY");
    assert("vertOriginY"@.len() == 11);
    reveal_strlit("wordSpacing");
    assert("wordSpacing"@.len() == 11);
    reveal_strlit("writingMode");
    assert("writingMode"@.len() == 11);
    reveal_strlit("xHeight");
    assert("xHeight"@.len() == 7);
    reveal_strlit("xlinkActuate");
    assert("xlinkActuate"@.len() == 12);
    reveal_strlit("xlinkArcrole");
    assert("xlinkArcrole"@.len() == 12);
    reveal_strlit("xlinkHref");
    assert("xlinkHref"@[5] != "xlinkShow"@[5]);
    reveal_strlit("xlinkRole");
    assert("xlinkRole"@[5] != "xlinkShow"@[5]);
    reveal_strlit("htmlFor");
    assert("htmlFor"@.len() == 7);
    reveal_strlit("dangerouslySetInnerHTML");
    assert("dangerouslySetInnerHTML"@.len() == 23);
    reveal_strlit("ref");
    assert("ref"@.len() == 3);
    reveal_strlit("key");
    assert("key"@.len() == 3);
    assert("xlinkShow"@[0] == 'x' && "xlinkShow"@[1] == 'l');
}

proof fn lemma_table_has_xlink_title()
    ensures
        attr_action("xlinkTitle"@) == AttrActionView::Use("xlink:title"@),
{
    reveal_strlit("xlinkTitle");
    assert("xlinkTitle"@.len() == 10);
    reveal_strlit("xlink:title");
    reveal_strlit("className");
    assert("className"@.len() == 9);
    reveal_strlit("accentHeight");
    assert("accentHeight"@.len() == 12);
    reveal_strlit("alignmentBaseline");
    assert("alignmentBaseline"@.len() == 17);
    reveal_strlit("arabicForm");
    assert("arabicForm"@[0] != "xlinkTitle"@[0]);
    reveal_strlit("baselineShift");
    assert("baselineShift"@.len() == 13);
    reveal_strlit("capHeight");
    assert("capHeight"@.len() == 9);
    reveal_strlit("clipPath");
    assert("clipPath"@.len() == 8);
    reveal_strlit("clipRule");
    assert("clipRule"@.len() == 8);
    reveal_strlit("colorInterpolation");
    assert("colorInterpolation"@.len() == 18);
    reveal_strlit("colorInterpolationFilters");
    assert("colorInterpolationFilters"@.len() == 25);
    reveal_strlit("colorProfile");
    assert("colorProfile"@.len() == 12);
    reveal_strlit("colorRendering");
    assert("colorRendering"@.len() == 14);
    reveal_strlit("dominantBaseline");
    assert("dominantBaseline"@.len() == 16);
    reveal_strlit("enableBackground");
    assert("enableBackground"@.len() == 16);
    reveal_strlit("fillOpacity");
    assert("fillOpacity"@.len() == 11);
    reveal_strlit("fillRule");
    assert("fillRule"@.len() == 8);
    reveal_strlit("floodColor");
    assert("floodColor"@[0] != "xlinkTitle"@[0]);
    reveal_strlit("floodOpacity");
    assert("floodOpacity"@.len() == 12);
    reveal_strlit("fontFamily");
    assert("fontFamily"@[0] != "xlinkTitle"@[0]);
    reveal_strlit("fontSize");
    assert("fontSize"@.len() == 8);
    reveal_strlit("fontSizeAdjust");
    assert("fontSizeAdjust"@.len() == 14);
    reveal_strlit("fontStretch");
    assert("fontStretch"@.len() == 11);
    reveal_strlit("fontStyle");
    assert("fontStyle"@.len() == 9);
    reveal_strlit("fontVariant");
    assert("fontVariant"@.len() == 11);
    reveal_strlit("fontWeight");
    assert("fontWeight"@[0] != "xlinkTitle"@[0]);
    reveal_strlit("glyphName");
    assert("glyphName"@.len() == 9);
    reveal_strlit("glyphOrientationHorizontal");
    assert("glyphOrientationHorizontal"@.len() == 26);
    reveal_strlit("glyphOrientationVertical");
    assert("glyphOrientationVertical"@.len() == 24);
    reveal_strlit("horizAdvX");
    assert("horizAdvX"@.len() == 9);
    reveal_strlit("horizOriginX");
    assert("horizOriginX"@.len() == 12);
    reveal_strlit("imageRendering");
    assert("imageRendering"@.len() == 14);
    reveal_strlit("letterSpacing");
    assert("letterSpacing"@.len() == 13);
    reveal_strlit("lightingColor");
    assert("lightingColor"@.len() == 13);
    reveal_strlit("markerEnd");
    assert("markerEnd"@.len() == 9);
    reveal_strlit("markerMid");
    assert("markerMid"@.len() == 9);
    reveal_strlit("markerStart");
    assert("markerStart"@.len() == 11);
    reveal_strlit("overlinePosition");
    assert("overlinePosition"@.len() == 16);
    reveal_strlit("overlineThickness");
    assert("overlineThickness"@.len() == 17);
    reveal_strlit("paintOrder");
    assert("paintOrder"@[0] != "xlinkTitle"@[0]);
    reveal_strlit("panose1");
    assert("panose1"@.len() == 7);
    reveal_strlit("pointerEvents");
    assert("pointerEvents"@.len() == 13);
    reveal_strlit("renderingIntent");
    assert("renderingIntent"@.len() == 15);
    reveal_strlit("shapeRendering");
    assert("shapeRendering"@.len() == 14);
    reveal_strlit("stopColor");
    assert("stopColor"@.len() == 9);
    reveal_strlit("stopOpacity");
    assert("stopOpacity"@.len() == 11);
    reveal_strlit("strikethroughPosition");
    assert("strikethroughPosition"@.len() == 21);
    reveal_strlit("strikethroughThickness");
    assert("strikethroughThickness"@.len() == 22);
    reveal_strlit("strokeDasharray");
    assert("strokeDasharray"@.len() == 15);
    reveal_strlit("strokeDashoffset");
    assert("strokeDashoffset"@.len() == 16);
    reveal_strlit("strokeLinecap");
    assert("strokeLinecap"@.len() == 13);
    reveal_strlit("strokeLinejoin");
    assert("strokeLinejoin"@.len() == 14);
    reveal_strlit("strokeMiterlimit");
    assert("strokeMiterlimit"@.len() == 16);
    reveal_strlit("strokeOpacity");
    assert("strokeOpacity"@.len() == 13);
    reveal_strlit("strokeWidth");
    assert("strokeWidth"@.len() == 11);
    reveal_strlit("textAnchor");
    assert("textAnchor"@[0] != "xlinkTitle"@[0]);
    reveal_strlit("textDecoration");
    assert("textDecoration"@.len() == 14);
    reveal_strlit("textRendering");
    assert("textRendering"@.len() == 13);
    reveal_strlit("transformOrigin");
    assert("transformOrigin"@.len() == 15);
    reveal_strlit("underlinePosition");
    assert("underlinePosition"@.len() == 17);
    reveal_strlit("underlineThickness");
    assert("underlineThickness"@.len() == 18);
    reveal_strlit("unicodeBidi");
    assert("unicodeBidi"@.len() == 11);
    reveal_strlit("unicodeRange");
    assert("unicodeRange"@.len() == 12);
    reveal_strlit("unitsPerEm");
    assert("unitsPerEm"@[0] != "xlinkTitle"@[0]);
    reveal_strlit("vAlphabetic");
    assert("vAlphabetic"@.len() == 11);
    reveal_strlit("vHanging");
    assert("vHanging"@.len() == 8);
    reveal_strlit("vIdeographic");
    assert("vIdeographic"@.len() == 12);
    reveal_strlit("vMathematical");
    assert("vMathematical"@.len() == 13);
    reveal_strlit("vectorEffect");
    assert("vectorEffect"@.len() == 12);
    reveal_strlit("vertAdvY");
    assert("vertAdvY"@.len() == 8);
    reveal_strlit("vertOriginX");
    assert("vertOriginX"@.len() == 11);
    reveal_strlit("vertOriginY");
    assert("vertOriginY"@.len() == 11);
    reveal_strlit("wordSpacing");
    assert("wordSpacing"@.len() == 11);
    reveal_strlit("writingMode");
    assert("writingMode"@.len() == 11);
    reveal_strlit("xHeight");
    assert("xHeight"@.len() == 7);
    reveal_strlit("xlinkActuate");
    assert("xlinkActuate"@.len() == 12);
    reveal_strlit("xlinkArcrole");
    assert("xlinkArcrole"@.len() == 12);
    reveal_strlit("xlinkHref");
    assert("xlinkHref"@.len() == 9);
    reveal_strlit("xlinkRole");
    assert("xlinkRole"@.len() == 9);
    reveal_strlit("xlinkShow");
    assert("xlinkShow"@.len() == 9);
    reveal_strlit("htmlFor");
    assert("htmlFor"@.len() == 7);
    reveal_strlit("dangerouslySetInnerHTML");
    assert("dangerouslySetInnerHTML"@.len() == 23);
    reveal_strlit("ref");
    assert("ref"@.len() == 3);
    reveal_strlit("key");
    assert("key"@.len() == 3);
    assert("xlinkTitle"@[0] == 'x' && "xlinkTitle"@[1] == 'l');
}

proof fn lemma_table_has_xlink_type()
    ensures
        attr_action("xlinkType"@) == AttrActionView::Use("xlink:type"@),
{
    reveal_strlit("xlinkType");
    assert("xlinkType"@.len() == 9);
    reveal_strlit("xlink:type");
    reveal_strlit("className");
    assert("className"@[0] != "xlinkType"@[0]);
    reveal_strlit("accentHeight");
    assert("accentHeight"@.len() == 12);
    reveal_strlit("alignmentBaseline");
    assert("alignmentBaseline"@.len() == 17);
    reveal_strlit("arabicForm");
    assert("arabicForm"@.len() == 10);
    reveal_strlit("baselineShift");
    assert("baselineShift"@.len() == 13);
    reveal_strlit("capHeight");
    assert("capHeight"@[0] != "xlinkType"@[0]);
    reveal_strlit("clipPath");
    assert("clipPath"@.len() == 8);
    reveal_strlit("clipRule");
    assert("clipRule"@.len() == 8);
    reveal_strlit("colorInterpolation");
    assert("colorInterpolation"@.len() == 18);
    reveal_strlit("colorInterpolationFilters");
    assert("colorInterpolationFilters"@.len() == 25);
    reveal_strlit("colorProfile");
    assert("colorProfile"@.len() == 12);
    reveal_strlit("colorRendering");
    assert("colorRendering"@.len() == 14);
    reveal_strlit("dominantBaseline");
    assert("dominantBaseline"@.len() == 16);
    reveal_strlit("enableBackground");
    assert("enableBackground"@.len() == 16);
    reveal_strlit("fillOpacity");
    assert("fillOpacity"@.len() == 11);
    reveal_strlit("fillRule");
    assert("fillRule"@.len() == 8);
    reveal_strlit("floodColor");
    assert("floodColor"@.len() == 10);
    reveal_strlit("floodOpacity");
    assert("floodOpacity"@.len() == 12);
    reveal_strlit("fontFamily");
    assert("fontFamily"@.len() == 10);
    reveal_strlit("fontSize");
    assert("fontSize"@.len() == 8);
    reveal_strlit("fontSizeAdjust");
    assert("fontSizeAdjust"@.len() == 14);
    reveal_strlit("fontStretch");
    assert("fontStretch"@.len() == 11);
    reveal_strlit("fontStyle");
    assert("fontStyle"@[0] != "xlinkType"@[0]);
    reveal_strlit("fontVariant");
    assert("fontVariant"@.len() == 11);
    reveal_strlit("fontWeight");
    assert("fontWeight"@.len() == 10);
    reveal_strlit("glyphName");
    assert("glyphName"@[0] != "xlinkType"@[0]);
    reveal_strlit("glyphOrientationHorizontal");
    assert("glyphOrientationHorizontal"@.len() == 26);
    reveal_strlit("glyphOrientationVertical");
    assert("glyphOrientationVertical"@.len() == 24);
    reveal_strlit("horizAdvX");
    assert("horizAdvX"@[0] != "xlinkType"@[0]);
    reveal_strlit("horizOriginX");
    assert("horizOriginX"@.len() == 12);
    reveal_strlit("imageRendering");
    assert("imageRendering"@.len() == 14);
    reveal_strlit("letterSpacing");
    assert("letterSpacing"@.len() == 13);
    reveal_strlit("lightingColor");
    assert("lightingColor"@.len() == 13);
    reveal_strlit("markerEnd");
    assert("markerEnd"@[0] != "xlinkType"@[0]);
    reveal_strlit("markerMid");
    assert("markerMid"@[0] != "xlinkType"@[0]);
    reveal_strlit("markerStart");
    assert("markerStart"@.len() == 11);
    reveal_strlit("overlinePosition");
    assert("overlinePosition"@.len() == 16);
    reveal_strlit("overlineThickness");
    assert("overlineThickness"@.len() == 17);
    reveal_strlit("paintOrder");
    assert("paintOrder"@.len() == 10);
    reveal_strlit("panose1");
    assert("panose1"@.len() == 7);
    reveal_strlit("pointerEvents");
    assert("pointerEvents"@.len() == 13);
    reveal_strlit("renderingIntent");
    assert("renderingIntent"@.len() == 15);
    reveal_strlit("shapeRendering");
    assert("shapeRendering"@.len() == 14);
    reveal_strlit("stopColor");
    assert("stopColor"@[0] != "xlinkType"@[0]);
    reveal_strlit("stopOpacity");
    assert("stopOpacity"@.len() == 11);
    reveal_strlit("strikethroughPosition");
    assert("strikethroughPosition"@.len() == 21);
    reveal_strlit("strikethroughThickness");
    assert("strikethroughThickness"@.len() == 22);
    reveal_strlit("strokeDasharray");
    assert("strokeDasharray"@.len() == 15);
    reveal_strlit("strokeDashoffset");
    assert("strokeDashoffset"@.len() == 16);
    reveal_strlit("strokeLinecap");
    assert("strokeLinecap"@.len() == 13);
    reveal_strlit("strokeLinejoin");
    assert("strokeLinejoin"@.len() == 14);
    reveal_strlit("strokeMiterlimit");
    assert("strokeMiterlimit"@.len() == 16);
    reveal_strlit("strokeOpacity");
    assert("strokeOpacity"@.len() == 13);
    reveal_strlit("strokeWidth");
    assert("strokeWidth"@.len() == 11);
    reveal_strlit("textAnchor");
    assert("textAnchor"@.len() == 10);
    reveal_strlit("textDecoration");
    assert("textDecoration"@.len() == 14);
    reveal_strlit("textRendering");
    assert("textRendering"@.len() == 13);
    reveal_strlit("transformOrigin");
    assert("transformOrigin"@.len() == 15);
    reveal_strlit("underlinePosition");
    assert("underlinePosition"@.len() == 17);
    reveal_strlit("underlineThickness");
    assert("underlineThickness"@.len() == 18);
    reveal_strlit("unicodeBidi");
    assert("unicodeBidi"@.len() == 11);
    reveal_strlit("unicodeRange");
    assert("unicodeRange"@.len() == 12);
    reveal_strlit("unitsPerEm");
    assert("unitsPerEm"@.len() == 10);
    reveal_strlit("vAlphabetic");
    assert("vAlphabetic"@.len() == 11);
    reveal_strlit("vHanging");
    assert("vHanging"@.len() == 8);
    reveal_strlit("vIdeographic");
    assert("vIdeographic"@.len() == 12);
    reveal_strlit("vMathematical");
    assert("vMathematical"@.len() == 13);
    reveal_strlit("vectorEffect");
    assert("vectorEffect"@.len() == 12);
    reveal_strlit("vertAdvY");
    assert("vertAdvY"@.len() == 8);
    reveal_strlit("vertOriginX");
    assert("vertOriginX"@.len() == 11);
    reveal_strlit("vertOriginY");
    assert("vertOriginY"@.len() == 11);
    reveal_strlit("wordSpacing");
    assert("wordSpacing"@.len() == 11);
    reveal_strlit("writingMode");
    assert("writingMode"@.len() == 11);
    reveal_strlit("xHeight");
    assert("xHeight"@.len() == 7);
    reveal_strlit("xlinkActuate");
    assert("xlinkActuate"@.len() == 12);
    reveal_strlit("xlinkArcrole");
    assert("xlinkArcrole"@.len() == 12);
    reveal_strlit("xlinkHref");
    assert("xlinkHref"@[5] != "xlinkType"@[5]);
    reveal_strlit("xlinkRole");
    assert("xlinkRole"@[5] != "xlinkType"@[5]);
    reveal_strlit("xlinkShow");
    assert("xlinkShow"@[5] != "xlinkType"@[5]);
    reveal_strlit("xlinkTitle");
    assert("xlinkTitle"@.len() == 10);
    reveal_strlit("htmlFor");
    assert("htmlFor"@.len() == 7);
    reveal_strlit("dangerouslySetInnerHTML");
    assert("dangerouslySetInnerHTML"@.len() == 23);
    reveal_strlit("ref");
    assert("ref"@.len() == 3);
    reveal_strlit("key");
    assert("key"@.len() == 3);
    assert("xlinkType"@[0] == 'x' && "xlinkType"@[1] == 'l');
}

proof fn lemma_table_has_xmlns_xlink()
    ensures
        attr_action("xmlnsXlink"@) == AttrActionView::Use("xmlns:xlink"@),
{
    reveal_strlit("xmlnsXlink");
    assert("xmlnsXlink"@.len() == 10);
    reveal_strlit("xmlns:xlink");
    reveal_strlit("className");
    assert("className"@.len() == 9);
    reveal_strlit("accentHeight");
    assert("accentHeight"@.len() == 12);
    reveal_strlit("alignmentBaseline");
    assert("alignmentBaseline"@.len() == 17);
    reveal_strlit("arabicForm");
    assert("arabicForm"@[0] != "xmlnsXlink"@[0]);
    reveal_strlit("baselineShift");
    assert("baselineShift"@.len() == 13);
    reveal_strlit("capHeight");
    assert("capHeight"@.len() == 9);
    reveal_strlit("clipPath");
    assert("clipPath"@.len() == 8);
    reveal_strlit("clipRule");
    assert("clipRule"@.len() == 8);
    reveal_strlit("colorInterpolation");
    assert("colorInterpolation"@.len() == 18);
    reveal_strlit("colorInterpolationFilters");
    assert("colorInterpolationFilters"@.len() == 25);
    reveal_strlit("colorProfile");
    assert("colorProfile"@.len() == 12);
    reveal_strlit("colorRendering");
    assert("colorRendering"@.len() == 14);
    reveal_strlit("dominantBaseline");
    assert("dominantBaseline"@.len() == 16);
    reveal_strlit("enableBackground");
    assert("enableBackground"@.len() == 16);
    reveal_strlit("fillOpacity");
    assert("fillOpacity"@.len() == 11);
    reveal_strlit("fillRule");
    assert("fillRule"@.len() == 8);
    reveal_strlit("floodColor");
    assert("floodColor"@[0] != "xmlnsXlink"@[0]);
    reveal_strlit("floodOpacity");
    assert("floodOpacity"@.len() == 12);
    reveal_strlit("fontFamily");
    assert("fontFamily"@[0] != "xmlnsXlink"@[0]);
    reveal_strlit("fontSize");
    assert("fontSize"@.len() == 8);
    reveal_strlit("fontSizeAdjust");
    assert("fontSizeAdjust"@.len() == 14);
    reveal_strlit("fontStretch");
    assert("fontStretch"@.len() == 11);
    reveal_strlit("fontStyle");
    assert("fontStyle"@.len() == 9);
    reveal_strlit("fontVariant");
    assert("fontVariant"@.len() == 11);
    reveal_strlit("fontWeight");
    assert("fontWeight"@[0] != "xmlnsXlink"@[0]);
    reveal_strlit("glyphName");
    assert("glyphName"@.len() == 9);
    reveal_strlit("glyphOrientationHorizontal");
    assert("glyphOrientationHorizontal"@.len() == 26);
    reveal_strlit("glyphOrientationVertical");
    assert("glyphOrientationVertical"@.len() == 24);
    reveal_strlit("horizAdvX");
    assert("horizAdvX"@.len() == 9);
    reveal_strlit("horizOriginX");
    assert("horizOriginX"@.len() == 12);
    reveal_strlit("imageRendering");
    assert("imageRendering"@.len() == 14);
    reveal_strlit("letterSpacing");
    assert("letterSpacing"@.len() == 13);
    reveal_strlit("lightingColor");
    assert("lightingColor"@.len() == 13);
    reveal_strlit("markerEnd");
    assert("markerEnd"@.len() == 9);
    reveal_strlit("markerMid");
    assert("markerMid"@.len() == 9);
    reveal_strlit("markerStart");
    assert("markerStart"@.len() == 11);
    reveal_strlit("overlinePosition");
    assert("overlinePosition"@.len() == 16);
    reveal_strlit("overlineThickness");
    assert("overlineThickness"@.len() == 17);
    reveal_strlit("paintOrder");
    assert("paintOrder"@[0] != "xmlnsXlink"@[0]);
    reveal_strlit("panose1");
    assert("panose1"@.len() == 7);
    reveal_strlit("pointerEvents");
    assert("pointerEvents"@.len() == 13);
    reveal_strlit("renderingIntent");
    assert("renderingIntent"@.len() == 15);
    reveal_strlit("shapeRendering");
    assert("shapeRendering"@.len() == 14);
    reveal_strlit("stopColor");
    assert("stopColor"@.len() == 9);
    reveal_strlit("stopOpacity");
    assert("stopOpacity"@.len() == 11);
    reveal_strlit("strikethroughPosition");
    assert("strikethroughPosition"@.len() == 21);
    reveal_strlit("strikethroughThickness");
    assert("strikethroughThickness"@.len() == 22);
    reveal_strlit("strokeDasharray");
    assert("strokeDasharray"@.len() == 15);
    reveal_strlit("strokeDashoffset");
    assert("strokeDashoffset"@.len() == 16);
    reveal_strlit("strokeLinecap");
    assert("strokeLinecap"@.len() == 13);
    reveal_strlit("strokeLinejoin");
    assert("strokeLinejoin"@.len() == 14);
    reveal_strlit("strokeMiterlimit");
    assert("strokeMiterlimit"@.len() == 16);
    reveal_strlit("strokeOpacity");
    assert("strokeOpacity"@.len() == 13);
    reveal_strlit("strokeWidth");
    assert("strokeWidth"@.len() == 11);
    reveal_strlit("textAnchor");
    assert("textAnchor"@[0] != "xmlnsXlink"@[0]);
    reveal_strlit("textDecoration");
    assert("textDecoration"@.len() == 14);
    reveal_strlit("textRendering");
    assert("textRendering"@.len() == 13);
    reveal_strlit("transformOrigin");
    assert("transformOrigin"@.len() == 15);
    reveal_strlit("underlinePosition");
    assert("underlinePosition"@.len() == 17);
    reveal_strlit("underlineThickness");
    assert("underlineThickness"@.len() == 18);
    reveal_strlit("unicodeBidi");
    assert("unicodeBidi"@.len() == 11);
    reveal_strlit("unicodeRange");
    assert("unicodeRange"@.len() == 12);
    reveal_strlit("unitsPerEm");
    assert("unitsPerEm"@[0] != "xmlnsXlink"@[0]);
    reveal_strlit("vAlphabetic");
    assert("vAlphabetic"@.len() == 11);
    reveal_strlit("vHanging");
    assert("vHanging"@.len() == 8);
    reveal_strlit("vIdeographic");
    assert("vIdeographic"@.len() == 12);
    reveal_strlit("vMathematical");
    assert("vMathematical"@.len() == 13);
    reveal_strlit("vectorEffect");
    assert("vectorEffect"@.len() == 12);
    reveal_strlit("vertAdvY");
    assert("vertAdvY"@.len() == 8);
    reveal_strlit("vertOriginX");
    assert("vertOriginX"@.len() == 11);
    reveal_strlit("vertOriginY");
    assert("vertOriginY"@.len() == 11);
    reveal_strlit("wordSpacing");
    assert("wordSpacing"@.len() == 11);
    reveal_strlit("writingMode");
    assert("writingMode"@.len() == 11);
    reveal_strlit("xHeight");
    assert("xHeight"@.len() == 7);
    reveal_strlit("xlinkActuate");
    assert("xlinkActuate"@.len() == 12);
    reveal_strlit("xlinkArcrole");
    assert("xlinkArcrole"@.len() == 12);
    reveal_strlit("xlinkHref");
    assert("xlinkHref"@.len() == 9);
    reveal_strlit("xlinkRole");
    assert("xlinkRole"@.len() == 9);
    reveal_strlit("xlinkShow");
    assert("xlinkShow"@.len() == 9);
    reveal_strlit("xlinkTitle");
    assert("xlinkTitle"@[1] != "xmlnsXlink"@[1]);
    reveal_strlit("xlinkType");
    assert("xlinkType"@.len() == 9);
    reveal_strlit("htmlFor");
    assert("htmlFor"@.len() == 7);
    reveal_strlit("dangerouslySetInnerHTML");
    assert("dangerouslySetInnerHTML"@.len() == 23);
    reveal_strlit("ref");
    assert("ref"@.len() == 3);
    reveal_strlit("key");
    assert("key"@.len() == 3);
    assert("xmlnsXlink"@[0] == 'x' && "xmlnsXlink"@[1] == 'm');
}

proof fn lemma_table_has_xml_base()
    ensures
        attr_action("xmlBase"@) == AttrActionView::Use("xml:base"@),
{
    reveal_strlit("xmlBase");
    assert("xmlBase"@.len() == 7);
    reveal_strlit("xml:base");
    reveal_strlit("className");
    assert("className"@.len() == 9);
    reveal_strlit("accentHeight");
    assert("accentHeight"@.len() == 12);
    reveal_strlit("alignmentBaseline");
    assert("alignmentBaseline"@.len() == 17);
    reveal_strlit("arabicForm");
    assert("arabicForm"@.len() == 10);
    reveal_strlit("baselineShift");
    assert("baselineShift"@.len() == 13);
    reveal_strlit("capHeight");
    assert("capHeight"@.len() == 9);
    reveal_strlit("clipPath");
    assert("clipPath"@.len() == 8);
    reveal_strlit("clipRule");
    assert("clipRule"@.len() == 8);
    reveal_strlit("colorInterpolation");
    assert("colorInterpolation"@.len() == 18);
    reveal_strlit("colorInterpolationFilters");
    assert("colorInterpolationFilters"@.len() == 25);
    reveal_strlit("colorProfile");
    assert("colorProfile"@.len() == 12);
    reveal_strlit("colorRendering");
    assert("colorRendering"@.len() == 14);
    reveal_strlit("dominantBaseline");
    assert("dominantBaseline"@.len() == 16);
    reveal_strlit("enableBackground");
    assert("enableBackground"@.len() == 16);
    reveal_strlit("fillOpacity");
    assert("fillOpacity"@.len() == 11);
    reveal_strlit("fillRule");
    assert("fillRule"@.len() == 8);
    reveal_strlit("floodColor");
    assert("floodColor"@.len() == 10);
    reveal_strlit("floodOpacity");
    assert("floodOpacity"@.len() == 12);
    reveal_strlit("fontFamily");
    assert("fontFamily"@.len() == 10);
    reveal_strlit("fontSize");
    assert("fontSize"@.len() == 8);
    reveal_strlit("fontSizeAdjust");
    assert("fontSizeAdjust"@.len() == 14);
    reveal_strlit("fontStretch");
    assert("fontStretch"@.len() == 11);
    reveal_strlit("fontStyle");
    assert("fontStyle"@.len() == 9);
    reveal_strlit("fontVariant");
    assert("fontVariant"@.len() == 11);
    reveal_strlit("fontWeight");
    assert("fontWeight"@.len() == 10);
    reveal_strlit("glyphName");
    assert("glyphName"@.len() == 9);
    reveal_strlit("glyphOrientationHorizontal");
    assert("glyphOrientationHorizontal"@.len() == 26);
    reveal_strlit("glyphOrientationVertical");
    assert("glyphOrientationVertical"@.len() == 24);
    reveal_strlit("horizAdvX");
    assert("horizAdvX"@.len() == 9);
    reveal_strlit("horizOriginX");
    assert("horizOriginX"@.len() == 12);
    reveal_strlit("imageRendering");
    assert("imageRendering"@.len() == 14);
    reveal_strlit("letterSpacing");
    assert("letterSpacing"@.len() == 13);
    reveal_strlit("lightingColor");
    assert("lightingColor"@.len() == 13);
    reveal_strlit("markerEnd");
    assert("markerEnd"@.len() == 9);
    reveal_strlit("markerMid");
    assert("markerMid"@.len() == 9);
    reveal_strlit("markerStart");
    assert("markerStart"@.len() == 11);
    reveal_strlit("overlinePosition");
    assert("overlinePosition"@.len() == 16);
    reveal_strlit("overlineThickness");
    assert("overlineThickness"@.len() == 17);
    reveal_strlit("paintOrder");
    assert("paintOrder"@.len() == 10);
    reveal_strlit("panose1");
    assert("panose1"@[0] != "xmlBase"@[0]);
    reveal_strlit("pointerEvents");
    assert("pointerEvents"@.len() == 13);
    reveal_strlit("renderingIntent");
    assert("renderingIntent"@.len() == 15);
    reveal_strlit("shapeRendering");
    assert("shapeRendering"@.len() == 14);
    reveal_strlit("stopColor");
    assert("stopColor"@.len() == 9);
    reveal_strlit("stopOpacity");
    assert("stopOpacity"@.len() == 11);
    reveal_strlit("strikethroughPosition");
    assert("strikethroughPosition"@.len() == 21);
    reveal_strlit("strikethroughThickness");
    assert("strikethroughThickness"@.len() == 22);
    reveal_strlit("strokeDasharray");
    assert("strokeDasharray"@.len() == 15);
    reveal_strlit("strokeDashoffset");
    assert("strokeDashoffset"@.len() == 16);
    reveal_strlit("strokeLinecap");
    assert("strokeLinecap"@.len() == 13);
    reveal_strlit("strokeLinejoin");
    assert("strokeLinejoin"@.len() == 14);
    reveal_strlit("strokeMiterlimit");
    assert("strokeMiterlimit"@.len() == 16);
    reveal_strlit("strokeOpacity");
    assert("strokeOpacity"@.len() == 13);
    reveal_strlit("strokeWidth");
    assert("strokeWidth"@.len() == 11);
    reveal_strlit("textAnchor");
    assert("textAnchor"@.len() == 10);
    reveal_strlit("textDecoration");
    assert("textDecoration"@.len() == 14);
    reveal_strlit("textRendering");
    assert("textRendering"@.len() == 13);
    reveal_strlit("transformOrigin");
    assert("transformOrigin"@.len() == 15);
    reveal_strlit("underlinePosition");
    assert("underlinePosition"@.len() == 17);
    reveal_strlit("underlineThickness");
    assert("underlineThickness"@.len() == 18);
    reveal_strlit("unicodeBidi");
    assert("unicodeBidi"@.len() == 11);
    reveal_strlit("unicodeRange");
    assert("unicodeRange"@.len() == 12);
    reveal_strlit("unitsPerEm");
    assert("unitsPerEm"@.len() == 10);
    reveal_strlit("vAlphabetic");
    assert("vAlphabetic"@.len() == 11);
    reveal_strlit("vHanging");
    assert("vHanging"@.len() == 8);
    reveal_strlit("vIdeographic");
    assert("vIdeographic"@.len() == 12);
    reveal_strlit("vMathematical");
    assert("vMathematical"@.len() == 13);
    reveal_strlit("vectorEffect");
    assert("vectorEffect"@.len() == 12);
    reveal_strlit("vertAdvY");
    assert("vertAdvY"@.len() == 8);
    reveal_strlit("vertOriginX");
    assert("vertOriginX"@.len() == 11);
    reveal_strlit("vertOriginY");
    assert("vertOriginY"@.len() == 11);
    reveal_strlit("wordSpacing");
    assert("wordSpacing"@.len() == 11);
    reveal_strlit("writingMode");
    assert("writingMode"@.len() == 11);
    reveal_strlit("xHeight");
    assert("xHeight"@[1] != "xmlBase"@[1]);
    reveal_strlit("xlinkActuate");
    assert("xlinkActuate"@.len() == 12);
    reveal_strlit("xlinkArcrole");
    assert("xlinkArcrole"@.len() == 12);
    reveal_strlit("xlinkHref");
    assert("xlinkHref"@.len() == 9);
    reveal_strlit("xlinkRole");
    assert("xlinkRole"@.len() == 9);
    reveal_strlit("xlinkShow");
    assert("xlinkShow"@.len() == 9);
    reveal_strlit("xlinkTitle");
    assert("xlinkTitle"@.len() == 10);
    reveal_strlit("xlinkType");
    assert("xlinkType"@.len() == 9);
    reveal_strlit("xmlnsXlink");
    assert("xmlnsXlink"@.len() == 10);
    reveal_strlit("htmlFor");
    assert("htmlFor"@[0] != "xmlBase"@[0]);
    reveal_strlit("dangerouslySetInnerHTML");
    assert("dangerouslySetInnerHTML"@.len() == 23);
    reveal_strlit("ref");
    assert("ref"@.len() == 3);
    reveal_strlit("key");
    assert("key"@.len() == 3);
    assert("xmlBase"@[0] == 'x' && "xmlBase"@[1] == 'm');
}

proof fn lemma_table_has_xml_lang()
    ensures
        attr_action("xmlLang"@) == AttrActionView::Use("xml:lang"@),
{
    reveal_strlit("xmlLang");
    assert("xmlLang"@.len() == 7);
    reveal_strlit("xml:lang");
    reveal_strlit("className");
    assert("className"@.len() == 9);
    reveal_strlit("accentHeight");
    assert("accentHeight"@.len() == 12);
    reveal_strlit("alignmentBaseline");
    assert("alignmentBaseline"@.len() == 17);
    reveal_strlit("arabicForm");
    assert("arabicForm"@.len() == 10);
    reveal_strlit("baselineShift");
    assert("baselineShift"@.len() == 13);
    reveal_strlit("capHeight");
    assert("capHeight"@.len() == 9);
    reveal_strlit("clipPath");
    assert("clipPath"@.len() == 8);
    reveal_strlit("clipRule");
    assert("clipRule"@.len() == 8);
    reveal_strlit("colorInterpolation");
    assert("colorInterpolation"@.len() == 18);
    reveal_strlit("colorInterpolationFilters");
    assert("colorInterpolationFilters"@.len() == 25);
    reveal_strlit("colorProfile");
    assert("colorProfile"@.len() == 12);
    reveal_strlit("colorRendering");
    assert("colorRendering"@.len() == 14);
    reveal_strlit("dominantBaseline");
    assert("dominantBaseline"@.len() == 16);
    reveal_strlit("enableBackground");
    assert("enableBackground"@.len() == 16);
    reveal_strlit("fillOpacity");
    assert("fillOpacity"@.len() == 11);
    reveal_strlit("fillRule");
    assert("fillRule"@.len() == 8);
    reveal_strlit("floodColor");
    assert("floodColor"@.len() == 10);
    reveal_strlit("floodOpacity");
    assert("floodOpacity"@.len() == 12);
    reveal_strlit("fontFamily");
    assert("fontFamily"@.len() == 10);
    reveal_strlit("fontSize");
    assert("fontSize"@.len() == 8);
    reveal_strlit("fontSizeAdjust");
    assert("fontSizeAdjust"@.len() == 14);
    reveal_strlit("fontStretch");
    assert("fontStretch"@.len() == 11);
    reveal_strlit("fontStyle");
    assert("fontStyle"@.len() == 9);
    reveal_strlit("fontVariant");
    assert("fontVariant"@.len() == 11);
    reveal_strlit("fontWeight");
    assert("fontWeight"@.len() == 10);
    reveal_strlit("glyphName");
    assert("glyphName"@.len() == 9);
    reveal_strlit("glyphOrientationHorizontal");
    assert("glyphOrientationHorizontal"@.len() == 26);
    reveal_strlit("glyphOrientationVertical");
    assert("glyphOrientationVertical"@.len() == 24);
    reveal_strlit("horizAdvX");
    assert("horizAdvX"@.len() == 9);
    reveal_strlit("horizOriginX");
    assert("horizOriginX"@.len() == 12);
    reveal_strlit("imageRendering");
    assert("imageRendering"@.len() == 14);
    reveal_strlit("letterSpacing");
    assert("letterSpacing"@.len() == 13);
    reveal_strlit("lightingColor");
    assert("lightingColor"@.len() == 13);
    reveal_strlit("markerEnd");
    assert("markerEnd"@.len() == 9);
    reveal_strlit("markerMid");
    assert("markerMid"@.len() == 9);
    reveal_strlit("markerStart");
    assert("markerStart"@.len() == 11);
    reveal_strlit("overlinePosition");
    assert("overlinePosition"@.len() == 16);
    reveal_strlit("overlineThickness");
    assert("overlineThickness"@.len() == 17);
    reveal_strlit("paintOrder");
    assert("paintOrder"@.len() == 10);
    reveal_strlit("panose1");
    assert("panose1"@[0] != "xmlLang"@[0]);
    reveal_strlit("pointerEvents");
    assert("pointerEvents"@.len() == 13);
    reveal_strlit("renderingIntent");
    assert("renderingIntent"@.len() == 15);
    reveal_strlit("shapeRendering");
    assert("shapeRendering"@.len() == 14);
    reveal_strlit("stopColor");
    assert("stopColor"@.len() == 9);
    reveal_strlit("stopOpacity");
    assert("stopOpacity"@.len() == 11);
    reveal_strlit("strikethroughPosition");
    assert("strikethroughPosition"@.len() == 21);
    reveal_strlit("strikethroughThickness");
    assert("strikethroughThickness"@.len() == 22);
    reveal_strlit("strokeDasharray");
    assert("strokeDasharray"@.len() == 15);
    reveal_strlit("strokeDashoffset");
    assert("strokeDashoffset"@.len() == 16);
    reveal_strlit("strokeLinecap");
    assert("strokeLinecap"@.len() == 13);
    reveal_strlit("strokeLinejoin");
    assert("strokeLinejoin"@.len() == 14);
    reveal_strlit("strokeMiterlimit");
    assert("strokeMiterlimit"@.len() == 16);
    reveal_strlit("strokeOpacity");
    assert("strokeOpacity"@.len() == 13);
    reveal_strlit("strokeWidth");
    assert("strokeWidth"@.len() == 11);
    reveal_strlit("textAnchor");
    assert("textAnchor"@.len() == 10);
    reveal_strlit("textDecoration");
    assert("textDecoration"@.len() == 14);
    reveal_strlit("textRendering");
    assert("textRendering"@.len() == 13);
    reveal_strlit("transformOrigin");
    assert("transformOrigin"@.len() == 15);
    reveal_strlit("underlinePosition");
    assert("underlinePosition"@.len() == 17);
    reveal_strlit("underlineThickness");
    assert("underlineThickness"@.len() == 18);
    reveal_strlit("unicodeBidi");
    assert("unicodeBidi"@.len() == 11);
    reveal_strlit("unicodeRange");
    assert("unicodeRange"@.len() == 12);
    reveal_strlit("unitsPerEm");
    assert("unitsPerEm"@.len() == 10);
    reveal_strlit("vAlphabetic");
    assert("vAlphabetic"@.len() == 11);
    reveal_strlit("vHanging");
    assert("vHanging"@.len() == 8);
    reveal_strlit("vIdeographic");
    assert("vIdeographic"@.len() == 12);
    reveal_strlit("vMathematical");
    assert("vMathematical"@.len() == 13);
    reveal_strlit("vectorEffect");
    assert("vectorEffect"@.len() == 12);
    reveal_strlit("vertAdvY");
    assert("vertAdvY"@.len() == 8);
    reveal_strlit("vertOriginX");
    assert("vertOriginX"@.len() == 11);
    reveal_strlit("vertOriginY");
    assert("vertOriginY"@.len() == 11);
    reveal_strlit("wordSpacing");
    assert("wordSpacing"@.len() == 11);
    reveal_strlit("writingMode");
    assert("writingMode"@.len() == 11);
    reveal_strlit("xHeight");
    assert("xHeight"@[1] != "xmlLang"@[1]);
    reveal_strlit("xlinkActuate");
    assert("xlinkActuate"@.len() == 12);
    reveal_strlit("xlinkArcrole");
    assert("xlinkArcrole"@.len() == 12);
    reveal_strlit("xlinkHref");
    assert("xlinkHref"@.len() == 9);
    reveal_strlit("xlinkRole");
    assert("xlinkRole"@.len() == 9);
    reveal_strlit("xlinkShow");
    assert("xlinkShow"@.len() == 9);
    reveal_strlit("xlinkTitle");
    assert("xlinkTitle"@.len() == 10);
    reveal_strlit("xlinkType");
    assert("xlinkType"@.len() == 9);
    reveal_strlit("xmlnsXlink");
    assert("xmlnsXlink"@.len() == 10);
    reveal_strlit("xmlBase");
    assert("xmlBase"@[3] != "xmlLang"@[3]);
    reveal_strlit("htmlFor");
    assert("htmlFor"@[0] != "xmlLang"@[0]);
    reveal_strlit("dangerouslySetInnerHTML");
    assert("dangerouslySetInnerHTML"@.len() == 23);
    reveal_strlit("ref");
    assert("ref"@.len() == 3);
    reveal_strlit("key");
    assert("key"@.len() == 3);
    assert("xmlLang"@[0] == 'x' && "xmlLang"@[1] == 'm');
}

proof fn lemma_table_has_xml_space()
    ensures
        attr_action("xmlSpace"@) == AttrActionView::Use("xml:space"@),
{
    reveal_strlit("xmlSpace");
    assert("xmlSpace"@.len() == 8);
    reveal_strlit("xml:space");
    reveal_strlit("className");
    assert("className"@.len() == 9);
    reveal_strlit("accentHeight");
    assert("accentHeight"@.len() == 12);
    reveal_strlit("alignmentBaseline");
    assert("alignmentBaseline"@.len() == 17);
    reveal_strlit("arabicForm");
    assert("arabicForm"@.len() == 10);
    reveal_strlit("baselineShift");
    assert("baselineShift"@.len() == 13);
    reveal_strlit("capHeight");
    assert("capHeight"@.len() == 9);
    reveal_strlit("clipPath");
    assert("clipPath"@[0] != "xmlSpace"@[0]);
    reveal_strlit("clipRule");
    assert("clipRule"@[0] != "xmlSpace"@[0]);
    reveal_strlit("colorInterpolation");
    assert("colorInterpolation"@.len() == 18);
    reveal_strlit("colorInterpolationFilters");
    assert("colorInterpolationFilters"@.len() == 25);
    reveal_strlit("colorProfile");
    assert("colorProfile"@.len() == 12);
    reveal_strlit("colorRendering");
    assert("colorRendering"@.len() == 14);
    reveal_strlit("dominantBaseline");
    assert("dominantBaseline"@.len() == 16);
    reveal_strlit("enableBackground");
    assert("enableBackground"@.len() == 16);
    reveal_strlit("fillOpacity");
    assert("fillOpacity"@.len() == 11);
    reveal_strlit("fillRule");
    assert("fillRule"@[0] != "xmlSpace"@[0]);
    reveal_strlit("floodColor");
    assert("floodColor"@.len() == 10);
    reveal_strlit("floodOpacity");
    assert("floodOpacity"@.len() == 12);
    reveal_strlit("fontFamily");
    assert("fontFamily"@.len() == 10);
    reveal_strlit("fontSize");
    assert("fontSize"@[0] != "xmlSpace"@[0]);
    reveal_strlit("fontSizeAdjust");
    assert("fontSizeAdjust"@.len() == 14);
    reveal_strlit("fontStretch");
    assert("fontStretch"@.len() == 11);
    reveal_strlit("fontStyle");
    assert("fontStyle"@.len() == 9);
    reveal_strlit("fontVariant");
    assert("fontVariant"@.len() == 11);
    reveal_strlit("fontWeight");
    assert("fontWeight"@.len() == 10);
    reveal_strlit("glyphName");
    assert("glyphName"@.len() == 9);
    reveal_strlit("glyphOrientationHorizontal");
    assert("glyphOrientationHorizontal"@.len() == 26);
    reveal_strlit("glyphOrientationVertical");
    assert("glyphOrientationVertical"@.len() == 24);
    reveal_strlit("horizAdvX");
    assert("horizAdvX"@.len() == 9);
    reveal_strlit("horizOriginX");
    assert("horizOriginX"@.len() == 12);
    reveal_strlit("imageRendering");
    assert("imageRendering"@.len() == 14);
    reveal_strlit("letterSpacing");
    assert("letterSpacing"@.len() == 13);
    reveal_strlit("lightingColor");
    assert("lightingColor"@.len() == 13);
    reveal_strlit("markerEnd");
    assert("markerEnd"@.len() == 9);
    reveal_strlit("markerMid");
    assert("markerMid"@.len() == 9);
    reveal_strlit("markerStart");
    assert("markerStart"@.len() == 11);
    reveal_strlit("overlinePosition");
    assert("overlinePosition"@.len() == 16);
    reveal_strlit("overlineThickness");
    assert("overlineThickness"@.len() == 17);
    reveal_strlit("paintOrder");
    assert("paintOrder"@.len() == 10);
    reveal_strlit("panose1");
    assert("panose1"@.len() == 7);
    reveal_strlit("pointerEvents");
    assert("pointerEvents"@.len() == 13);
    reveal_strlit("renderingIntent");
    assert("renderingIntent"@.len() == 15);
    reveal_strlit("shapeRendering");
    assert("shapeRendering"@.len() == 14);
    reveal_strlit("stopColor");
    assert("stopColor"@.len() == 9);
    reveal_strlit("stopOpacity");
    assert("stopOpacity"@.len() == 11);
    reveal_strlit("strikethroughPosition");
    assert("strikethroughPosition"@.len() == 21);
    reveal_strlit("strikethroughThickness");
    assert("strikethroughThickness"@.len() == 22);
    reveal_strlit("strokeDasharray");
    assert("strokeDasharray"@.len() == 15);
    reveal_strlit("strokeDashoffset");
    assert("strokeDashoffset"@.len() == 16);
    reveal_strlit("strokeLinecap");
    assert("strokeLinecap"@.len() == 13);
    reveal_strlit("strokeLinejoin");
    assert("strokeLinejoin"@.len() == 14);
    reveal_strlit("strokeMiterlimit");
    assert("strokeMiterlimit"@.len() == 16);
    reveal_strlit("strokeOpacity");
    assert("strokeOpacity"@.len() == 13);
    reveal_strlit("strokeWidth");
    assert("strokeWidth"@.len() == 11);
    reveal_strlit("textAnchor");
    assert("textAnchor"@.len() == 10);
    reveal_strlit("textDecoration");
    assert("textDecoration"@.len() == 14);
    reveal_strlit("textRendering");
    assert("textRendering"@.len() == 13);
    reveal_strlit("transformOrigin");
    assert("transformOrigin"@.len() == 15);
    reveal_strlit("underlinePosition");
    assert("underlinePosition"@.len() == 17);
    reveal_strlit("underlineThickness");
    assert("underlineThickness"@.len() == 18);
    reveal_strlit("unicodeBidi");
    assert("unicodeBidi"@.len() == 11);
    reveal_strlit("unicodeRange");
    assert("unicodeRange"@.len() == 12);
    reveal_strlit("unitsPerEm");
    assert("unitsPerEm"@.len() == 10);
    reveal_strlit("vAlphabetic");
    assert("vAlphabetic"@.len() == 11);
    reveal_strlit("vHanging");
    assert("vHanging"@[0] != "xmlSpace"@[0]);
    reveal_strlit("vIdeographic");
    assert("vIdeographic"@.len() == 12);
    reveal_strlit("vMathematical");
    assert("vMathematical"@.len() == 13);
    reveal_strlit("vectorEffect");
    assert("vectorEffect"@.len() == 12);
    reveal_strlit("vertAdvY");
    assert("vertAdvY"@[0] != "xmlSpace"@[0]);
    reveal_strlit("vertOriginX");
    assert("vertOriginX"@.len() == 11);
    reveal_strlit("vertOriginY");
    assert("vertOriginY"@.len() == 11);
    reveal_strlit("wordSpacing");
    assert("wordSpacing"@.len() == 11);
    reveal_strlit("writingMode");
    assert("writingMode"@.len() == 11);
    reveal_strlit("xHeight");
    assert("xHeight"@.len() == 7);
    reveal_strlit("xlinkActuate");
    assert("xlinkActuate"@.len() == 12);
    reveal_strlit("xlinkArcrole");
    assert("xlinkArcrole"@.len() == 12);
    reveal_strlit("xlinkHref");
    assert("xlinkHref"@.len() == 9);
    reveal_strlit("xlinkRole");
    assert("xlinkRole"@.len() == 9);
    reveal_strlit("xlinkShow");
    assert("xlinkShow"@.len() == 9);
    reveal_strlit("xlinkTitle");
    assert("xlinkTitle"@.len() == 10);
    reveal_strlit("xlinkType");
    assert("xlinkType"@.len() == 9);
    reveal_strlit("xmlnsXlink");
    assert("xmlnsXlink"@.len() == 10);
    reveal_strlit("xmlBase");
    assert("xmlBase"@.len() == 7);
    reveal_strlit("xmlLang");
    assert("xmlLang"@.len() == 7);
    reveal_strlit("htmlFor");
    assert("htmlFor"@.len() == 7);
    reveal_strlit("dangerouslySetInnerHTML");
    assert("dangerouslySetInnerHTML"@.len() == 23);
    reveal_strlit("ref");
    assert("ref"@.len() == 3);
    reveal_strlit("key");
    assert("key"@.len() == 3);
    assert("xmlSpace"@[0] == 'x' && "xmlSpace"@[1] == 'm');
}

/// The table is complete and exact: it respells precisely the listed names, and
/// [`map_attr`](crate::attr_map::map_attr) keeps each of them under its SVG
/// spelling by the rule of [`svg_spelling`] (`strokeLinejoin` as
/// `stroke-linejoin`, `xlinkHref` as `xlink:href`, `className` as `class`).
pub proof fn lemma_table_is_complete(name: Seq<char>)
    ensures
        svg_attr_name(name) is Some <==> is_respelled_name(name),
        is_respelled_name(name) ==> attr_action(name) == AttrActionView::Use(svg_spelling(name)),
{
    lemma_table_has_class();
    lemma_table_has_accent_height();
    lemma_table_has_alignment_baseline();
    lemma_table_has_arabic_form();
    lemma_table_has_baseline_shift();
    lemma_table_has_cap_height();
    lemma_table_has_clip_path();
    lemma_table_has_clip_rule();
    lemma_table_has_color_interpolation();
    lemma_table_has_color_interpolation_filters();
    lemma_table_has_color_profile();
    lemma_table_has_color_rendering();
    lemma_table_has_dominant_baseline();
    lemma_table_has_enable_background();
    lemma_table_has_fill_opacity();
    lemma_table_has_fill_rule();
    lemma_table_has_flood_color();
    lemma_table_has_flood_opacity();
    lemma_table_has_font_family();
    lemma_table_has_font_size();
    lemma_table_has_font_size_adjust();
    lemma_table_has_font_stretch();
    lemma_table_has_font_style();
    lemma_table_has_font_variant();
    lemma_table_has_font_weight();
    lemma_table_has_glyph_name();
    lemma_table_has_glyph_orientation_horizontal();
    lemma_table_has_glyph_orientation_vertical();
    lemma_table_has_horiz_adv_x();
    lemma_table_has_horiz_origin_x();
    lemma_table_has_image_rendering();
    lemma_table_has_letter_spacing();
    lemma_table_has_lighting_color();
    lemma_table_has_marker_end();
    lemma_table_has_marker_mid();
    lemma_table_has_marker_start();
    lemma_table_has_overline_position();
    lemma_table_has_overline_thickness();
    lemma_table_has_paint_order();
    lemma_table_has_panose_1();
    lemma_table_has_pointer_events();
    lemma_table_has_rendering_intent();
    lemma_table_has_shape_rendering();
    lemma_table_has_stop_color();
    lemma_table_has_stop_opacity();
    lemma_table_has_strikethrough_position();
    lemma_table_has_strikethrough_thickness();
    lemma_table_has_stroke_dasharray();
    lemma_table_has_stroke_dashoffset();
    lemma_table_has_stroke_linecap();
    lemma_table_has_stroke_linejoin();
    lemma_table_has_stroke_miterlimit();
    lemma_table_has_stroke_opacity();
    lemma_table_has_stroke_width();
    lemma_table_has_text_anchor();
    lemma_table_has_text_decoration();
    lemma_table_has_text_rendering();
    lemma_table_has_transform_origin();
    lemma_table_has_underline_position();
    lemma_table_has_underline_thickness();
    lemma_table_has_unicode_bidi();
    lemma_table_has_unicode_range();
    lemma_table_has_units_per_em();
    lemma_table_has_v_alphabetic();
    lemma_table_has_v_hanging();
    lemma_table_has_v_ideographic();
    lemma_table_has_v_mathematical();
    lemma_table_has_vector_effect();
    lemma_table_has_vert_adv_y();
    lemma_table_has_vert_origin_x();
    lemma_table_has_vert_origin_y();
    lemma_table_has_word_spacing();
    lemma_table_has_writing_mode();
    lemma_table_has_x_height();
    lemma_table_has_xlink_actuate();
    lemma_table_has_xlink_arcrole();
    lemma_table_has_xlink_href();
    lemma_table_has_xlink_role();
    lemma_table_has_xlink_show();
    lemma_table_has_xlink_title();
    lemma_table_has_xlink_type();
    lemma_table_has_xmlns_xlink();
    lemma_table_has_xml_base();
    lemma_table_has_xml_lang();
    lemma_table_has_xml_space();
    lemma_svg_names_follow_rule(name);
}

} // verus!
