//! The theme slots that the components pick colors from. The palette itself
//! belongs to the renderer.
use vstd::prelude::*;

verus! {

/// A named color slot of the active theme.
#[derive(Clone, Copy, Debug, PartialEq, Eq, Structural)]
pub enum ThemeColor {
    Text,
    Inactive,
    InverseText,
    Background,
    Suggestion,
    BashBorder,
    AutoAccept,
    PlanMode,
    Warning,
    Error,
    Success,
    Claude,
    Ide,
    FastMode,
}

} // verus!
