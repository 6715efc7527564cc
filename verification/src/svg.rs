//! A surface that writes SVG markup.
//!
//! The document is text that grows by one element for each path and each
//! clip path. The numbers that a path's style and geometry hold come as
//! text; what is decided here is which attributes an element gets.

use vstd::prelude::*;
use vstd::string::*;
use crate::geometry::{vector_coords, Vector};
use crate::style::{FillRule, Rgba8};
use crate::text::{append_decimal, append_hex_pair, decimal, hex_pair};

verus! {

/// The text by which a coordinate with the given bit pattern is shown: the
/// shortest decimal number that reads back as the same value.
pub uninterp spec fn number_text(bits: u32) -> Seq<char>;

/// Formats `Vector2F::x` as `{}` shows it. Trusted: the text is what
/// `number_text` names for the coordinate's bit pattern.
#[verifier::external_body]
fn x_text(v: Vector) -> (text: String)
    ensures
        text@ == number_text(vector_coords(v).x),
{
    format!("{}", v.x())
}

/// Formats `Vector2F::y` as `{}` shows it. Trusted: the text is what
/// `number_text` names for the coordinate's bit pattern.
#[verifier::external_body]
fn y_text(v: Vector) -> (text: String)
    ensures
        text@ == number_text(vector_coords(v).y),
{
    format!("{}", v.y())
}

/// A solid paint for markup: the color, and its alpha as a fraction of one
/// in text.
pub struct SvgPaint {
    pub color: Rgba8,
    pub opacity: String,
}

/// The style of a path for markup. A line width comes as text.
pub struct SvgStyle {
    pub fill: Option<SvgPaint>,
    pub stroke: Option<(SvgPaint, String)>,
    pub fill_rule: FillRule,
}

/// The name of a fill rule in markup.
pub open spec fn fill_rule_text(rule: FillRule) -> Seq<char> {
    match rule {
        FillRule::NonZero => "nonzero"@,
        FillRule::EvenOdd => "evenodd"@,
    }
}

/// A color as `#rrggbb`.
pub open spec fn color_text(color: Rgba8) -> Seq<char> {
    "#"@ + hex_pair(color.0) + hex_pair(color.1) + hex_pair(color.2)
}

/// The opacity of a paint, under the given property name; nothing for an
/// opaque paint.
pub open spec fn opacity_text(name: Seq<char>, paint: SvgPaint) -> Seq<char> {
    if paint.color.3 != 255 {
        name + paint.opacity@
    } else {
        Seq::empty()
    }
}

/// The fill of a path. A paint that is fully transparent fills nothing.
pub open spec fn fill_text(fill: Option<SvgPaint>) -> Seq<char> {
    match fill {
        Some(paint) if paint.color.3 != 0 => "fill: "@ + color_text(paint.color) + "; "@
            + opacity_text("fill-opacity: "@, paint),
        _ => "fill: none; "@,
    }
}

/// The stroke of a path; nothing where there is none.
pub open spec fn stroke_text(stroke: Option<(SvgPaint, String)>) -> Seq<char> {
    match stroke {
        Some((paint, width)) => "stroke: "@ + color_text(paint.color) + "; stroke-width: "@
            + width@ + "; "@ + opacity_text("stroke-opacity: "@, paint),
        None => Seq::empty(),
    }
}

/// The reference to a clip path; nothing where there is none.
pub open spec fn clip_text(clip: Option<usize>) -> Seq<char> {
    match clip {
        Some(id) => " clip-path=\"clip_"@ + decimal(id as nat) + "\""@,
        None => Seq::empty(),
    }
}

/// The element that draws a path.
pub open spec fn path_element(style: SvgStyle, clip: Option<usize>, data: Seq<char>) -> Seq<char> {
    "<path style=\""@ + fill_text(style.fill) + stroke_text(style.stroke) + "\" fill-rule=\""@
        + fill_rule_text(style.fill_rule) + "\""@ + clip_text(clip) + " d=\""@ + data
        + "\" />\n"@
}

/// The element that defines the clip path with the number `id`.
pub open spec fn clip_element(id: usize, rule: FillRule, data: Seq<char>) -> Seq<char> {
    "<clipPath id=\"clip_"@ + decimal(id as nat) + "\"><path clip-rule=\""@ + fill_rule_text(rule)
        + "\" d=\""@ + data + "\" /></clipPath>\n"@
}

/// The opening tag of a document with the view box from the origin to the
/// point with the given coordinates.
pub open spec fn header(width: Seq<char>, height: Seq<char>) -> Seq<char> {
    "<svg xmlns=\"http://www.w3.org/2000/svg\" viewBox=\"0 0 "@ + width + " "@ + height
        + "\">\n"@
}

/// The name of a fill rule in markup.
pub fn fill_rule_str(r: FillRule) -> (s: &'static str)
    ensures
        s@ == fill_rule_text(r),
{
    match r {
        FillRule::NonZero => "nonzero",
        FillRule::EvenOdd => "evenodd",
    }
}

fn append_color(text: &mut String, color: Rgba8)
    ensures
        final(text)@ == old(text)@ + color_text(color),
{
    text.append("#");
    append_hex_pair(text, color.0);
    append_hex_pair(text, color.1);
    append_hex_pair(text, color.2);
    assert(text@ =~= old(text)@ + color_text(color));
}

fn append_opacity(text: &mut String, name: &str, paint: &SvgPaint)
    ensures
        final(text)@ == old(text)@ + opacity_text(name@, *paint),
{
    if paint.color.3 != 255 {
        text.append(name);
        text.append(paint.opacity.as_str());
    }
    assert(text@ =~= old(text)@ + opacity_text(name@, *paint));
}

fn append_fill(text: &mut String, fill: &Option<SvgPaint>)
    ensures
        final(text)@ == old(text)@ + fill_text(*fill),
{
    match fill {
        Some(paint) if paint.color.3 != 0 => {
            text.append("fill: ");
            append_color(text, paint.color);
            text.append("; ");
            append_opacity(text, "fill-opacity: ", paint);
        },
        _ => {
            text.append("fill: none; ");
        },
    }
    assert(text@ =~= old(text)@ + fill_text(*fill));
}

fn append_stroke(text: &mut String, stroke: &Option<(SvgPaint, String)>)
    ensures
        final(text)@ == old(text)@ + stroke_text(*stroke),
{
    match stroke {
        Some((paint, width)) => {
            text.append("stroke: ");
            append_color(text, paint.color);
            text.append("; stroke-width: ");
            text.append(width.as_str());
            text.append("; ");
            append_opacity(text, "stroke-opacity: ", paint);
        },
        None => {},
    }
    assert(text@ =~= old(text)@ + stroke_text(*stroke));
}

fn append_clip(text: &mut String, clip: Option<usize>)
    ensures
        final(text)@ == old(text)@ + clip_text(clip),
{
    match clip {
        Some(id) => {
            text.append(" clip-path=\"clip_");
            append_decimal(text, id);
            text.append("\"");
        },
        None => {},
    }
    assert(text@ =~= old(text)@ + clip_text(clip));
}

/// An SVG document that is being written.
pub struct Svg(String, usize);

impl Svg {
    /// The markup written so far.
    pub closed spec fn markup(&self) -> Seq<char> {
        self.0@
    }

    /// The number of clip paths defined so far.
    pub closed spec fn clip_paths(&self) -> nat {
        self.1 as nat
    }

    /// The number of clip paths defined so far.
    pub fn clip_count(&self) -> (n: usize)
        ensures
            n == self.clip_paths(),
    {
        self.1
    }

    /// Opens a document with the view box from the origin to `size`.
    pub fn new(size: Vector) -> (svg: Svg)
        ensures
            svg.markup() == header(
                number_text(vector_coords(size).x),
                number_text(vector_coords(size).y),
            ),
            svg.clip_paths() == 0,
    {
        let mut text = String::new();
        text.append("<svg xmlns=\"http://www.w3.org/2000/svg\" viewBox=\"0 0 ");
        text.append(x_text(size).as_str());
        text.append(" ");
        text.append(y_text(size).as_str());
        text.append("\">\n");
        assert(text@ =~= header(
            number_text(vector_coords(size).x),
            number_text(vector_coords(size).y),
        ));
        Svg(text, 0)
    }

    /// Writes the element for a path with the path data `data`.
    pub fn draw_path(&mut self, data: &str, style: &SvgStyle, clip: Option<usize>)
        ensures
            final(self).markup() == old(self).markup() + path_element(*style, clip, data@),
            final(self).clip_paths() == old(self).clip_paths(),
    {
        self.0.append("<path style=\"");
        append_fill(&mut self.0, &style.fill);
        append_stroke(&mut self.0, &style.stroke);
        self.0.append("\" fill-rule=\"");
        self.0.append(fill_rule_str(style.fill_rule));
        self.0.append("\"");
        append_clip(&mut self.0, clip);
        self.0.append(" d=\"");
        self.0.append(data);
        self.0.append("\" />\n");
        assert(self.0@ =~= old(self).0@ + path_element(*style, clip, data@));
    }

    /// Writes the definition of a clip path with the path data `data` and
    /// gives its number. The numbers count up from zero.
    pub fn clip_path(&mut self, data: &str, fill_rule: FillRule) -> (id: usize)
        requires
            old(self).clip_paths() < usize::MAX,
        ensures
            id == old(self).clip_paths(),
            final(self).clip_paths() == old(self).clip_paths() + 1,
            final(self).markup() == old(self).markup() + clip_element(id, fill_rule, data@),
    {
        let id = self.1;
        self.1 += 1;
        self.0.append("<clipPath id=\"clip_");
        append_decimal(&mut self.0, id);
        self.0.append("\"><path clip-rule=\"");
        self.0.append(fill_rule_str(fill_rule));
        self.0.append("\" d=\"");
        self.0.append(data);
        self.0.append("\" /></clipPath>\n");
        assert(self.0@ =~= old(self).0@ + clip_element(id, fill_rule, data@));
        id
    }

    /// Closes the document and hands out its markup.
    pub fn finish(self) -> (text: String)
        ensures
            text@ == self.markup() + "</svg>\n"@,
    {
        let mut text = self.0;
        text.append("</svg>\n");
        text
    }
}

} // verus!
