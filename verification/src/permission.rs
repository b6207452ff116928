//! Permission modes and prompt input modes, with the footer's symbol, label
//! and color for each permission mode.
use crate::theme::ThemeColor;
use vstd::prelude::*;

verus! {

/// How tool permissions are granted in the session.
#[derive(Clone, Copy, Debug, PartialEq, Eq, Structural, Default)]
pub enum PermissionMode {
    #[default]
    Default,
    AcceptEdits,
    Plan,
    BypassPermissions,
    DontAsk,
    Auto,
    Bubble,
}

/// What the prompt input is currently taking: a prompt, or a shell command.
#[derive(Clone, Copy, Debug, PartialEq, Eq, Structural, Default)]
pub enum PromptInputMode {
    #[default]
    Prompt,
    Bash,
}

/// Only the `Default` mode is the default mode.
pub fn is_default_mode(mode: PermissionMode) -> (b: bool)
    ensures
        b == (mode == PermissionMode::Default),
{
    mode == PermissionMode::Default
}

/// The symbol shown before a permission mode's label.
pub open spec fn permission_mode_symbol_spec(mode: PermissionMode) -> Seq<char> {
    match mode {
        PermissionMode::Default | PermissionMode::Bubble => ""@,
        PermissionMode::Plan => "⏸"@,
        PermissionMode::AcceptEdits
        | PermissionMode::BypassPermissions
        | PermissionMode::DontAsk
        | PermissionMode::Auto => "⏵⏵"@,
    }
}

/// The lower-case label of a permission mode in the footer.
pub open spec fn permission_mode_label_spec(mode: PermissionMode) -> Seq<char> {
    match mode {
        PermissionMode::Default | PermissionMode::Bubble => "default"@,
        PermissionMode::AcceptEdits => "accept edits"@,
        PermissionMode::Plan => "plan mode"@,
        PermissionMode::BypassPermissions => "bypass permissions"@,
        PermissionMode::DontAsk => "don't ask"@,
        PermissionMode::Auto => "auto mode"@,
    }
}

/// The theme slot a permission mode's label is drawn in. `Bubble` has no
/// entry of its own and is drawn like `Default`; `Auto` uses the warning
/// color.
pub open spec fn permission_mode_color_spec(mode: PermissionMode) -> ThemeColor {
    match mode {
        PermissionMode::Default | PermissionMode::Bubble => ThemeColor::Text,
        PermissionMode::AcceptEdits => ThemeColor::AutoAccept,
        PermissionMode::Plan => ThemeColor::PlanMode,
        PermissionMode::Auto => ThemeColor::Warning,
        PermissionMode::DontAsk | PermissionMode::BypassPermissions => ThemeColor::Error,
    }
}

/// The symbol shown before a permission mode's label (empty for the default
/// mode).
pub fn permission_mode_symbol(mode: PermissionMode) -> (s: &'static str)
    ensures
        s@ == permission_mode_symbol_spec(mode),
{
    match mode {
        PermissionMode::Default | PermissionMode::Bubble => "",
        PermissionMode::Plan => "⏸",
        PermissionMode::AcceptEdits
        | PermissionMode::BypassPermissions
        | PermissionMode::DontAsk
        | PermissionMode::Auto => "⏵⏵",
    }
}

/// The lower-case label of a permission mode in the footer.
pub fn permission_mode_display_label(mode: PermissionMode) -> (s: &'static str)
    ensures
        s@ == permission_mode_label_spec(mode),
{
    match mode {
        PermissionMode::Default | PermissionMode::Bubble => "default",
        PermissionMode::AcceptEdits => "accept edits",
        PermissionMode::Plan => "plan mode",
        PermissionMode::BypassPermissions => "bypass permissions",
        PermissionMode::DontAsk => "don't ask",
        PermissionMode::Auto => "auto mode",
    }
}

/// The theme slot a permission mode's label is drawn in.
pub fn permission_mode_color(mode: PermissionMode) -> (c: ThemeColor)
    ensures
        c == permission_mode_color_spec(mode),
{
    match mode {
        PermissionMode::Default | PermissionMode::Bubble => ThemeColor::Text,
        PermissionMode::AcceptEdits => ThemeColor::AutoAccept,
        PermissionMode::Plan => ThemeColor::PlanMode,
        PermissionMode::Auto => ThemeColor::Warning,
        PermissionMode::DontAsk | PermissionMode::BypassPermissions => ThemeColor::Error,
    }
}

} // verus!
