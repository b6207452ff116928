//! Segmented footer rows: colored or dimmed runs of text that are drawn side
//! by side, and the pill built from them.
use crate::theme::ThemeColor;
use vstd::prelude::*;

verus! {

/// The color vocabulary of footer segments.
#[derive(Clone, Copy, Debug, PartialEq, Eq, Structural)]
pub enum NotificationColor {
    Error,
    Warning,
    Success,
    Claude,
    Text,
    Ide,
    Suggestion,
    FastMode,
}

/// One run of text in a footer row.
#[derive(Clone, Debug, PartialEq, Eq)]
pub struct NotificationSegment {
    pub text: String,
    pub color: Option<NotificationColor>,
    pub dim: bool,
}

/// What a segment shows, with its text as a character sequence.
pub struct SegmentView {
    pub text: Seq<char>,
    pub color: Option<NotificationColor>,
    pub dim: bool,
}

impl View for NotificationSegment {
    type V = SegmentView;

    open spec fn view(&self) -> SegmentView {
        SegmentView { text: self.text@, color: self.color, dim: self.dim }
    }
}

impl NotificationSegment {
    /// A plain segment: no color of its own, not dimmed.
    pub fn text(text: String) -> (s: Self)
        ensures
            s@ == (SegmentView { text: text@, color: None, dim: false }),
    {
        NotificationSegment { text, color: None, dim: false }
    }

    /// The same segment, dimmed or not.
    pub fn with_dim(self, dim: bool) -> (s: Self)
        ensures
            s@ == (SegmentView { dim, ..self@ }),
    {
        NotificationSegment { dim, ..self }
    }

    /// The same segment in the given color.
    pub fn with_color(self, color: NotificationColor) -> (s: Self)
        ensures
            s@ == (SegmentView { color: Some(color), ..self@ }),
    {
        NotificationSegment { color: Some(color), ..self }
    }
}

/// The texts of `segments`, one after the other.
pub open spec fn segments_text(segments: Seq<SegmentView>) -> Seq<char>
    decreases segments.len(),
{
    if segments.len() == 0 {
        Seq::empty()
    } else {
        segments_text(segments.drop_last()) + segments.last().text
    }
}

/// The views of a list of segments.
pub open spec fn segment_views(segments: Seq<NotificationSegment>) -> Seq<SegmentView> {
    segments.map_values(|s: NotificationSegment| s@)
}

/// A footer pill: its segments, their joined text, and whether it is drawn
/// inverted (a selected pill).
#[derive(Clone, Debug, PartialEq, Eq)]
pub struct PromptFooterIndicator {
    pub text: String,
    pub segments: Vec<NotificationSegment>,
    pub inverse: bool,
}

/// What a footer pill shows.
pub struct IndicatorView {
    pub text: Seq<char>,
    pub segments: Seq<SegmentView>,
    pub inverse: bool,
}

impl View for PromptFooterIndicator {
    type V = IndicatorView;

    open spec fn view(&self) -> IndicatorView {
        IndicatorView {
            text: self.text@,
            segments: segment_views(self.segments@),
            inverse: self.inverse,
        }
    }
}

/// The pill made of `segments`, whose text is their texts joined.
pub open spec fn indicator_from(segments: Seq<SegmentView>, inverse: bool) -> IndicatorView {
    IndicatorView { text: segments_text(segments), segments, inverse }
}

impl PromptFooterIndicator {
    /// A pill that is not inverted.
    pub fn from_segments(segments: Vec<NotificationSegment>) -> (r: Self)
        ensures
            r@ == indicator_from(segment_views(segments@), false),
    {
        Self::from_segments_with_inverse(segments, false)
    }

    /// A pill whose text is the segments' texts joined.
    pub fn from_segments_with_inverse(segments: Vec<NotificationSegment>, inverse: bool) -> (r:
        Self)
        ensures
            r@ == indicator_from(segment_views(segments@), inverse),
    {
        let mut text = String::new();
        let n = segments.len();
        let mut i: usize = 0;
        while i < n
            invariant
                n == segments@.len(),
                i <= n,
                text@ == segments_text(segment_views(segments@).take(i as int)),
            decreases n - i,
        {
            let ghost views = segment_views(segments@);
            text.append(segments[i].text.as_str());
            assert(views.take(i + 1).drop_last() =~= views.take(i as int));
            i = i + 1;
        }
        assert(segment_views(segments@).take(n as int) =~= segment_views(segments@));
        PromptFooterIndicator { text, segments, inverse }
    }

    /// A pill of one dimmed segment.
    pub fn dim(text: String) -> (r: Self)
        ensures
            r@ == indicator_from(
                seq![SegmentView { text: text@, color: None, dim: true }],
                false,
            ),
    {
        let segments = vec![NotificationSegment::text(text).with_dim(true)];
        let r = Self::from_segments(segments);
        assert(segment_views(segments@) =~= seq![SegmentView { text: text@, color: None, dim: true }]);
        r
    }

    /// A pill of one plain segment.
    pub fn inactive(text: String) -> (r: Self)
        ensures
            r@ == indicator_from(
                seq![SegmentView { text: text@, color: None, dim: false }],
                false,
            ),
    {
        let segments = vec![NotificationSegment::text(text)];
        let r = Self::from_segments(segments);
        assert(segment_views(segments@) =~= seq![SegmentView { text: text@, color: None, dim: false }]);
        r
    }

    /// A pill of one segment in the given color.
    pub fn colored(text: String, color: NotificationColor) -> (r: Self)
        ensures
            r@ == indicator_from(
                seq![SegmentView { text: text@, color: Some(color), dim: false }],
                false,
            ),
    {
        let segments = vec![NotificationSegment::text(text).with_color(color)];
        let r = Self::from_segments(segments);
        assert(segment_views(segments@) =~= seq![SegmentView { text: text@, color: Some(color), dim: false }]);
        r
    }
}

/// The theme slot a segment color is drawn in; a segment without a color is
/// drawn in the inactive color.
pub open spec fn indicator_color_spec(color: Option<NotificationColor>) -> ThemeColor {
    match color {
        Some(NotificationColor::Error) => ThemeColor::Error,
        Some(NotificationColor::Warning) => ThemeColor::Warning,
        Some(NotificationColor::Success) => ThemeColor::Success,
        Some(NotificationColor::Claude) => ThemeColor::Claude,
        Some(NotificationColor::Text) => ThemeColor::Text,
        Some(NotificationColor::Ide) => ThemeColor::Ide,
        Some(NotificationColor::Suggestion) => ThemeColor::Suggestion,
        Some(NotificationColor::FastMode) => ThemeColor::FastMode,
        None => ThemeColor::Inactive,
    }
}

/// The theme slot a segment color is drawn in.
pub fn indicator_color(color: Option<NotificationColor>) -> (c: ThemeColor)
    ensures
        c == indicator_color_spec(color),
{
    match color {
        Some(NotificationColor::Error) => ThemeColor::Error,
        Some(NotificationColor::Warning) => ThemeColor::Warning,
        Some(NotificationColor::Success) => ThemeColor::Success,
        Some(NotificationColor::Claude) => ThemeColor::Claude,
        Some(NotificationColor::Text) => ThemeColor::Text,
        Some(NotificationColor::Ide) => ThemeColor::Ide,
        Some(NotificationColor::Suggestion) => ThemeColor::Suggestion,
        Some(NotificationColor::FastMode) => ThemeColor::FastMode,
        None => ThemeColor::Inactive,
    }
}

/// The theme slot a segment of a pill is drawn in: an inverted (selected)
/// pill draws every segment in the background color, which the inversion
/// turns into its fill.
pub fn pill_segment_color(inverse: bool, color: Option<NotificationColor>) -> (c: ThemeColor)
    ensures
        c == (if inverse {
            ThemeColor::Background
        } else {
            indicator_color_spec(color)
        }),
{
    if inverse {
        ThemeColor::Background
    } else {
        indicator_color(color)
    }
}

} // verus!
