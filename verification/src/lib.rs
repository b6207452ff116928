//! Prompt-footer logic of a terminal prompt: footer row budgeting, the
//! left-side composition, the bridge status pill, the inline history search
//! state machine, the language picker's submission rule and the spinner glyph
//! choice, each with its contract.
pub mod text;
pub mod theme;
pub mod permission;
pub mod notifications;
pub mod footer;
pub mod bridge;
pub mod left_side;
pub mod history_search;
pub mod language_picker;
pub mod history_search_input;
pub mod spinner_glyph;
