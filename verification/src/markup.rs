//! Pango-style markup: wrapping a text fragment in a styled `<span>`.
//!
//! Attributes that are not supplied are omitted entirely; the ones that are
//! supplied appear in a fixed order (color, font family, font size, weight),
//! each followed by a single space, so that rendered output is stable.

use vstd::prelude::*;

verus! {

/// One optional span attribute rendered as `name="value" `, or nothing.
pub open spec fn spec_attr(name: Seq<char>, value: Option<Seq<char>>) -> Seq<char> {
    match value {
        Option::None => Seq::empty(),
        Option::Some(v) => name + "=\""@ + v + "\" "@,
    }
}

/// The opening `<span ...>` tag for the given optional attributes.
pub open spec fn spec_open_tag(
    color: Option<Seq<char>>,
    font_family: Option<Seq<char>>,
    font_size: Option<Seq<char>>,
    weight: Option<Seq<char>>,
) -> Seq<char> {
    "<span "@ + spec_attr("color"@, color) + spec_attr("font_family"@, font_family) + spec_attr(
        "font_size"@,
        font_size,
    ) + spec_attr("weight"@, weight) + ">"@
}

/// A text fragment wrapped in a styled span.
pub open spec fn spec_span(
    color: Option<Seq<char>>,
    font_family: Option<Seq<char>>,
    font_size: Option<Seq<char>>,
    weight: Option<Seq<char>>,
    text: Seq<char>,
) -> Seq<char> {
    spec_open_tag(color, font_family, font_size, weight) + text + "</span>"@
}

/// The view of an optional string.
pub open spec fn opt_view(v: Option<String>) -> Option<Seq<char>> {
    match v {
        Option::None => Option::None,
        Option::Some(s) => Option::Some(s@),
    }
}

fn push_attr(s: &mut String, name: &str, value: &Option<String>)
    ensures
        final(s)@ == old(s)@ + spec_attr(name@, opt_view(*value)),
{
    if let Some(v) = value {
        s.append(name);
        s.append("=\"");
        s.append(v.as_str());
        s.append("\" ");
        proof {
            assert(s@ =~= old(s)@ + spec_attr(name@, opt_view(*value)));
        }
    } else {
        proof {
            assert(s@ =~= old(s)@ + spec_attr(name@, opt_view(*value)));
        }
    }
}

/// A set of optional style attributes for one text fragment.
pub struct PangoSpan {
    pub color: Option<String>,
    pub font_family: Option<String>,
    pub font_size: Option<String>,
    pub weight: Option<String>,
}

impl Default for PangoSpan {
    /// A span with no attributes supplied.
    fn default() -> (r: Self)
        ensures
            r.color is None,
            r.font_family is None,
            r.font_size is None,
            r.weight is None,
    {
        PangoSpan { color: None, font_family: None, font_size: None, weight: None }
    }
}

impl PangoSpan {
    /// The opening tag this span renders to.
    pub open spec fn open_markup(&self) -> Seq<char> {
        spec_open_tag(
            opt_view(self.color),
            opt_view(self.font_family),
            opt_view(self.font_size),
            opt_view(self.weight),
        )
    }

    /// `text` wrapped in this span.
    pub open spec fn spec_render(&self, text: Seq<char>) -> Seq<char> {
        self.open_markup() + text + "</span>"@
    }

    /// Renders the opening `<span ...>` tag.
    pub fn open_tag(&self) -> (r: String)
        ensures
            r@ == self.open_markup(),
    {
        let mut s = String::new();
        s.append("<span ");
        proof {
            assert(s@ =~= "<span "@);
        }
        push_attr(&mut s, "color", &self.color);
        push_attr(&mut s, "font_family", &self.font_family);
        push_attr(&mut s, "font_size", &self.font_size);
        push_attr(&mut s, "weight", &self.weight);
        s.append(">");
        proof {
            assert(s@ =~= self.open_markup());
        }
        s
    }

    /// Wraps `text` in this span: the opening tag, the fragment unchanged,
    /// and the closing tag.
    pub fn render(&self, text: &str) -> (r: String)
        ensures
            r@ == self.spec_render(text@),
    {
        let mut s = self.open_tag();
        s.append(text);
        s.append("</span>");
        proof {
            assert(s@ =~= self.spec_render(text@));
        }
        s
    }
}

/// An icon fragment: a span at 120% font size with no other attributes.
pub fn icon_span(text: &str) -> (r: String)
    ensures
        r@ == spec_span(
            Option::None,
            Option::None,
            Option::Some("120%"@),
            Option::None,
            text@,
        ),
{
    let span = PangoSpan {
        color: None,
        font_family: None,
        font_size: Some(String::from_str("120%")),
        weight: None,
    };
    span.render(text)
}

/// A plainly colored fragment.
pub fn colored_span(color: &str, text: &str) -> (r: String)
    ensures
        r@ == spec_span(
            Option::Some(color@),
            Option::None,
            Option::None,
            Option::None,
            text@,
        ),
{
    let span = PangoSpan {
        color: Some(String::from_str(color)),
        font_family: None,
        font_size: None,
        weight: None,
    };
    span.render(text)
}

/// An emphasized value fragment: colored, ultrabold, at the given font size.
pub fn value_span_sized(color: &str, size: &str, text: &str) -> (r: String)
    ensures
        r@ == spec_span(
            Option::Some(color@),
            Option::None,
            Option::Some(size@),
            Option::Some("ultrabold"@),
            text@,
        ),
{
    let span = PangoSpan {
        color: Some(String::from_str(color)),
        font_family: None,
        font_size: Some(String::from_str(size)),
        weight: Some(String::from_str("ultrabold")),
    };
    span.render(text)
}

} // verus!
