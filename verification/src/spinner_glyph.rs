//! The spinner glyph: an animated frame, or under reduced motion a dot that
//! dims and brightens on a fixed cycle.
use vstd::prelude::*;

verus! {

/// The glyph drawn under reduced motion.
pub const REDUCED_MOTION_DOT: &'static str = "●";

/// Length of one bright-then-dim cycle of the reduced-motion dot.
pub const REDUCED_MOTION_CYCLE_MS: u64 = 2000;

/// The animation frames: the glyph grows, then shrinks back.
pub open spec fn spinner_frames() -> Seq<Seq<char>> {
    seq!["·"@, "✢"@, "✳"@, "✶"@, "✻"@, "✽"@, "✽"@, "✻"@, "✶"@, "✳"@, "✢"@, "·"@]
}

/// The glyph of animation frame `frame`; the frames repeat.
pub fn spinner_frame(frame: usize) -> (s: &'static str)
    ensures
        s@ == spinner_frames()[(frame % 12) as int],
{
    let i = frame % 12;
    if i == 0 {
        "·"
    } else if i == 1 {
        "✢"
    } else if i == 2 {
        "✳"
    } else if i == 3 {
        "✶"
    } else if i == 4 {
        "✻"
    } else if i == 5 {
        "✽"
    } else if i == 6 {
        "✽"
    } else if i == 7 {
        "✻"
    } else if i == 8 {
        "✶"
    } else if i == 9 {
        "✳"
    } else if i == 10 {
        "✢"
    } else {
        "·"
    }
}

/// Which glyph the spinner cell shows.
#[derive(Clone, Copy, Debug, PartialEq, Eq, Structural)]
pub enum SpinnerGlyphKind {
    ReducedMotionDot,
    /// The animation frame with this index.
    Frame(usize),
}

impl SpinnerGlyphKind {
    /// The glyph's text.
    pub fn text(&self) -> (s: &'static str)
        ensures
            s@ == (match *self {
                SpinnerGlyphKind::ReducedMotionDot => REDUCED_MOTION_DOT@,
                SpinnerGlyphKind::Frame(f) => spinner_frames()[(f % 12) as int],
            }),
    {
        match self {
            SpinnerGlyphKind::ReducedMotionDot => REDUCED_MOTION_DOT,
            SpinnerGlyphKind::Frame(f) => spinner_frame(*f),
        }
    }
}

/// How the spinner cell is drawn.
#[derive(Clone, Copy, Debug, PartialEq, Eq, Structural)]
pub struct SpinnerGlyphLayout {
    pub glyph: SpinnerGlyphKind,
    pub dim: bool,
    /// The color fades toward the error color as the spinner stalls; under
    /// reduced motion the base color is kept.
    pub fades_when_stalled: bool,
}

/// Reduced motion shows the dot, dimmed during the second half of every
/// cycle; otherwise the frame is shown, never dimmed, and fades as it stalls.
pub open spec fn spinner_glyph_spec(frame: usize, reduced_motion: bool, time_ms: u64) -> SpinnerGlyphLayout {
    SpinnerGlyphLayout {
        glyph: if reduced_motion {
            SpinnerGlyphKind::ReducedMotionDot
        } else {
            SpinnerGlyphKind::Frame(frame)
        },
        dim: reduced_motion && (time_ms / (REDUCED_MOTION_CYCLE_MS / 2)) % 2 == 1,
        fades_when_stalled: !reduced_motion,
    }
}

/// How the spinner cell is drawn for the given frame, motion setting and
/// time.
pub fn spinner_glyph(frame: usize, reduced_motion: bool, time_ms: u64) -> (r: SpinnerGlyphLayout)
    ensures
        r == spinner_glyph_spec(frame, reduced_motion, time_ms),
{
    let glyph = if reduced_motion {
        SpinnerGlyphKind::ReducedMotionDot
    } else {
        SpinnerGlyphKind::Frame(frame)
    };
    let dim = reduced_motion && (time_ms / (REDUCED_MOTION_CYCLE_MS / 2)) % 2 == 1;
    SpinnerGlyphLayout { glyph, dim, fades_when_stalled: !reduced_motion }
}

} // verus!
