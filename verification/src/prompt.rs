//! Assembly of the prompt text from ordered, styled segments.

use vstd::prelude::*;
use vstd::string::*;

use crate::style::{paint, painted, Style};

verus! {

/// One piece of prompt text with its display attributes.
pub struct Segment {
    pub text: String,
    pub style: Style,
}

impl View for Segment {
    type V = (Seq<char>, Style);

    open spec fn view(&self) -> (Seq<char>, Style) {
        (self.text@, self.style)
    }
}

/// The display of one segment: its text painted with its style.
pub open spec fn seg_display(seg: (Seq<char>, Style)) -> Seq<char> {
    painted(seg.0, seg.1)
}

/// The displays of several segments, concatenated without separators.
pub open spec fn part_display(segs: Seq<(Seq<char>, Style)>) -> Seq<char>
    decreases segs.len(),
{
    if segs.len() == 0 {
        Seq::empty()
    } else {
        part_display(segs.drop_last()) + seg_display(segs.last())
    }
}

/// An ordered group of segments rendered back to back.
pub struct Part(pub Vec<Segment>);

impl View for Part {
    type V = Seq<(Seq<char>, Style)>;

    open spec fn view(&self) -> Seq<(Seq<char>, Style)> {
        self.0@.map_values(|s: Segment| s@)
    }
}

impl Part {
    /// An empty group.
    pub fn new() -> (r: Part)
        ensures
            r@ =~= Seq::<(Seq<char>, Style)>::empty(),
    {
        Part(Vec::new())
    }

    /// Appends one segment.
    pub fn push(&mut self, segment: Segment)
        ensures
            final(self)@ =~= old(self)@.push(segment@),
    {
        let ghost s = segment@;
        self.0.push(segment);
        proof {
            assert(self@ =~= old(self)@.push(s));
        }
    }

    /// The group's display: each segment painted, concatenated in order.
    pub fn render(&self) -> (r: String)
        ensures
            r@ == part_display(self@),
    {
        let ghost all = self@;
        let mut r = String::new();
        let n = self.0.len();
        let mut i: usize = 0;
        while i < n
            invariant
                0 <= i <= n,
                n == self.0@.len(),
                all == self@,
                n == all.len(),
                r@ == part_display(all.take(i as int)),
            decreases n - i,
        {
            let p = paint(self.0[i].text.as_str(), self.0[i].style);
            r.append(p.as_str());
            proof {
                assert(all.take(i + 1).drop_last() =~= all.take(i as int));
                assert(all.take(i + 1).last() == all[i as int]);
                assert(r@ =~= part_display(all.take(i + 1)));
            }
            i = i + 1;
        }
        proof {
            assert(all.take(n as int) =~= all);
        }
        r
    }
}

impl Default for Part {
    fn default() -> (r: Part)
        ensures
            r@ =~= Seq::<(Seq<char>, Style)>::empty(),
    {
        Part::new()
    }
}

/// The separator actually used between segments: the configured one, or a
/// single space.
pub open spec fn sep_text(sep: Option<Seq<char>>) -> Seq<char> {
    match sep {
        Some(s) => s,
        None => seq![' '],
    }
}

/// The displays of the segments joined by the separator, which is painted
/// with the prompt's own style.
pub open spec fn segments_display(
    segs: Seq<(Seq<char>, Style)>,
    sep: Seq<char>,
    style: Style,
) -> Seq<char>
    decreases segs.len(),
{
    if segs.len() == 0 {
        Seq::empty()
    } else if segs.len() == 1 {
        seg_display(segs[0])
    } else {
        segments_display(segs.drop_last(), sep, style) + painted(sep, style) + seg_display(
            segs.last(),
        )
    }
}

/// The whole prompt: ordered segments plus optional decoration around them.
pub struct Prompt {
    segments: Part,
    separator: Option<String>,
    prefix: Option<String>,
    suffix: Option<String>,
    style: Style,
}

impl Prompt {
    /// The segments pushed so far.
    pub closed spec fn segments_view(&self) -> Seq<(Seq<char>, Style)> {
        self.segments@
    }

    /// The configured separator, if one was set.
    pub closed spec fn separator_view(&self) -> Option<Seq<char>> {
        match self.separator {
            Some(ref s) => Some(s@),
            None => None,
        }
    }

    /// The configured prefix, if one was set.
    pub closed spec fn prefix_view(&self) -> Option<Seq<char>> {
        match self.prefix {
            Some(ref s) => Some(s@),
            None => None,
        }
    }

    /// The configured suffix, if one was set.
    pub closed spec fn suffix_view(&self) -> Option<Seq<char>> {
        match self.suffix {
            Some(ref s) => Some(s@),
            None => None,
        }
    }

    /// The style the decoration (prefix, separator, suffix) is painted with.
    pub closed spec fn style_view(&self) -> Style {
        self.style
    }

    /// An undecorated prompt with no segments.
    pub fn new() -> (r: Prompt)
        ensures
            r.segments_view() =~= Seq::<(Seq<char>, Style)>::empty(),
            r.separator_view() is None,
            r.prefix_view() is None,
            r.suffix_view() is None,
            r.style_view().fg is None,
            !r.style_view().bold,
    {
        Prompt {
            segments: Part::new(),
            separator: None,
            prefix: None,
            suffix: None,
            style: Style::new(),
        }
    }

    /// The same prompt with the given separator between segments.
    pub fn with_separator(self, separator: &str) -> (r: Prompt)
        ensures
            r.separator_view() == Some(separator@),
            r.segments_view() == self.segments_view(),
            r.prefix_view() == self.prefix_view(),
            r.suffix_view() == self.suffix_view(),
            r.style_view() == self.style_view(),
    {
        Prompt { separator: Some(separator.to_owned()), ..self }
    }

    /// The same prompt with the given prefix before the first segment.
    pub fn with_prefix(self, prefix: &str) -> (r: Prompt)
        ensures
            r.prefix_view() == Some(prefix@),
            r.segments_view() == self.segments_view(),
            r.separator_view() == self.separator_view(),
            r.suffix_view() == self.suffix_view(),
            r.style_view() == self.style_view(),
    {
        Prompt { prefix: Some(prefix.to_owned()), ..self }
    }

    /// The same prompt with the given suffix after the last segment.
    pub fn with_suffix(self, suffix: &str) -> (r: Prompt)
        ensures
            r.suffix_view() == Some(suffix@),
            r.segments_view() == self.segments_view(),
            r.separator_view() == self.separator_view(),
            r.prefix_view() == self.prefix_view(),
            r.style_view() == self.style_view(),
    {
        Prompt { suffix: Some(suffix.to_owned()), ..self }
    }

    /// The same prompt with the given decoration style.
    pub fn with_style(self, style: Style) -> (r: Prompt)
        ensures
            r.style_view() == style,
            r.segments_view() == self.segments_view(),
            r.separator_view() == self.separator_view(),
            r.prefix_view() == self.prefix_view(),
            r.suffix_view() == self.suffix_view(),
    {
        Prompt { style, ..self }
    }

    /// Appends one segment of text with its style.
    pub fn push(&mut self, text: String, style: Style)
        ensures
            final(self).segments_view() =~= old(self).segments_view().push((text@, style)),
            final(self).separator_view() == old(self).separator_view(),
            final(self).prefix_view() == old(self).prefix_view(),
            final(self).suffix_view() == old(self).suffix_view(),
            final(self).style_view() == old(self).style_view(),
    {
        self.segments.push(Segment { text, style });
    }

    /// Appends one prepared segment.
    pub fn push_segment(&mut self, segment: Segment)
        ensures
            final(self).segments_view() =~= old(self).segments_view().push(segment@),
            final(self).separator_view() == old(self).separator_view(),
            final(self).prefix_view() == old(self).prefix_view(),
            final(self).suffix_view() == old(self).suffix_view(),
            final(self).style_view() == old(self).style_view(),
    {
        self.segments.push(segment);
    }

    /// Appends several prepared segments in order.
    pub fn push_segments(&mut self, segments: Vec<Segment>)
        ensures
            final(self).segments_view() =~= old(self).segments_view() + segments@.map_values(
                |s: Segment| s@,
            ),
            final(self).separator_view() == old(self).separator_view(),
            final(self).prefix_view() == old(self).prefix_view(),
            final(self).suffix_view() == old(self).suffix_view(),
            final(self).style_view() == old(self).style_view(),
    {
        let ghost added = segments@.map_values(|s: Segment| s@);
        let mut rest = segments;
        self.segments.0.append(&mut rest);
        proof {
            assert(self.segments_view() =~= old(self).segments_view() + added);
        }
    }

    /// Appends a segment when the text is present; otherwise does nothing.
    pub fn push_if(&mut self, text: Option<String>, style: Style)
        ensures
            final(self).segments_view() =~= match text {
                Some(t) => old(self).segments_view().push((t@, style)),
                None => old(self).segments_view(),
            },
            final(self).separator_view() == old(self).separator_view(),
            final(self).prefix_view() == old(self).prefix_view(),
            final(self).suffix_view() == old(self).suffix_view(),
            final(self).style_view() == old(self).style_view(),
    {
        if let Some(text) = text {
            self.push(text, style);
        }
    }

    /// Appends a segment when one is present; otherwise does nothing.
    pub fn push_if_segment(&mut self, segment: Option<Segment>)
        ensures
            final(self).segments_view() =~= match segment {
                Some(s) => old(self).segments_view().push(s@),
                None => old(self).segments_view(),
            },
            final(self).separator_view() == old(self).separator_view(),
            final(self).prefix_view() == old(self).prefix_view(),
            final(self).suffix_view() == old(self).suffix_view(),
            final(self).style_view() == old(self).style_view(),
    {
        if let Some(segment) = segment {
            self.push_segment(segment);
        }
    }

    /// Appends several segments when they are present; otherwise does nothing.
    pub fn push_if_segments(&mut self, segments: Option<Vec<Segment>>)
        ensures
            final(self).segments_view() =~= match segments {
                Some(s) => old(self).segments_view() + s@.map_values(|x: Segment| x@),
                None => old(self).segments_view(),
            },
            final(self).separator_view() == old(self).separator_view(),
            final(self).prefix_view() == old(self).prefix_view(),
            final(self).suffix_view() == old(self).suffix_view(),
            final(self).style_view() == old(self).style_view(),
    {
        if let Some(segments) = segments {
            self.push_segments(segments);
        }
    }

    /// The segments pushed so far, in order.
    pub fn segments(&self) -> (r: &Part)
        ensures
            r@ == self.segments_view(),
    {
        &self.segments
    }

    /// The prompt's full display: the painted prefix, the painted segments
    /// joined by the painted separator, and the painted suffix.
    pub open spec fn display(&self) -> Seq<char> {
        let pre = match self.prefix_view() {
            Some(t) => painted(t, self.style_view()),
            None => Seq::<char>::empty(),
        };
        let post = match self.suffix_view() {
            Some(t) => painted(t, self.style_view()),
            None => Seq::<char>::empty(),
        };
        pre + segments_display(
            self.segments_view(),
            sep_text(self.separator_view()),
            self.style_view(),
        ) + post
    }

    /// Renders the prompt to its display text.
    pub fn render(&self) -> (r: String)
        ensures
            r@ == self.display(),
    {
        let ghost segs = self.segments_view();
        let ghost sep_spec = sep_text(self.separator_view());
        let mut r = String::new();
        if let Some(prefix) = &self.prefix {
            let p = paint(prefix.as_str(), self.style);
            r.append(p.as_str());
        }
        let ghost pre = r@;
        let sep: &str = match &self.separator {
            Some(s) => s.as_str(),
            None => " ",
        };
        proof {
            reveal_strlit(" ");
            assert(sep@ =~= sep_spec);
        }
        let n = self.segments.0.len();
        let mut i: usize = 0;
        while i < n
            invariant
                0 <= i <= n,
                n == self.segments.0@.len(),
                segs == self.segments_view(),
                n == segs.len(),
                sep@ == sep_spec,
                r@ == pre + segments_display(segs.take(i as int), sep_spec, self.style_view()),
            decreases n - i,
        {
            if i > 0 {
                let p = paint(sep, self.style);
                r.append(p.as_str());
            }
            let p = paint(self.segments.0[i].text.as_str(), self.segments.0[i].style);
            r.append(p.as_str());
            proof {
                assert(segs.take(i + 1).drop_last() =~= segs.take(i as int));
                assert(segs.take(i + 1).last() == segs[i as int]);
                if i == 0 {
                    assert(segments_display(segs.take(1), sep_spec, self.style_view())
                        == seg_display(segs[0]));
                    assert(r@ =~= pre + segments_display(
                        segs.take(1),
                        sep_spec,
                        self.style_view(),
                    ));
                } else {
                    assert(r@ =~= pre + segments_display(
                        segs.take(i + 1),
                        sep_spec,
                        self.style_view(),
                    ));
                }
            }
            i = i + 1;
        }
        if let Some(suffix) = &self.suffix {
            let p = paint(suffix.as_str(), self.style);
            r.append(p.as_str());
        }
        proof {
            assert(segs.take(n as int) =~= segs);
            assert(r@ =~= self.display());
        }
        r
    }
}

impl Default for Prompt {
    fn default() -> (r: Prompt)
        ensures
            r.segments_view() =~= Seq::<(Seq<char>, Style)>::empty(),
            r.separator_view() is None,
            r.prefix_view() is None,
            r.suffix_view() is None,
            r.style_view().fg is None,
            !r.style_view().bold,
    {
        Prompt::new()
    }
}

} // verus!
