use prompt_footer::spinner_glyph::{
    spinner_frame, spinner_glyph, SpinnerGlyphKind, REDUCED_MOTION_DOT,
};

#[test]
fn spinner_glyph_uses_official_reduced_motion_dot_without_frame_animation() {
    let layout = spinner_glyph(3, true, 0);
    assert_eq!(layout.glyph, SpinnerGlyphKind::ReducedMotionDot);
    assert_eq!(layout.glyph.text().trim_end(), REDUCED_MOTION_DOT);
    assert_eq!(REDUCED_MOTION_DOT, "●");
}

#[test]
fn reduced_motion_dot_dims_every_other_second() {
    assert!(!spinner_glyph(0, true, 999).dim);
    assert!(spinner_glyph(0, true, 1000).dim);
    assert!(spinner_glyph(0, true, 1999).dim);
    assert!(!spinner_glyph(0, true, 2000).dim);
    assert!(spinner_glyph(0, true, 3500).dim);
}

#[test]
fn animated_spinner_shows_the_frame_and_never_dims() {
    let layout = spinner_glyph(5, false, 1500);
    assert_eq!(layout.glyph, SpinnerGlyphKind::Frame(5));
    assert!(!layout.dim);
    assert!(layout.fades_when_stalled);
    assert!(!spinner_glyph(5, true, 1500).fades_when_stalled);
}

#[test]
fn spinner_frames_grow_then_shrink_and_repeat() {
    assert_eq!(spinner_frame(0), "·");
    assert_eq!(spinner_frame(5), "✽");
    assert_eq!(spinner_frame(6), "✽");
    assert_eq!(spinner_frame(11), "·");
    assert_eq!(spinner_frame(12), "·");
    assert_eq!(spinner_frame(13), "✢");
    assert_eq!(SpinnerGlyphKind::Frame(2).text(), "✳");
}
