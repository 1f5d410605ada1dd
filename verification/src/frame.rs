//! The render callback's decisions. The host framework calls the application
//! once per redraw; everything that run decides — which glyph the toggle
//! button shows, what the theme becomes if the button was clicked, and what
//! the debug label under the name reads — is a plain function of the theme
//! boolean read at the start of the frame and of whether the button was
//! clicked.

use vstd::prelude::*;
use vstd::string::StringExecFns;
use crate::Portfolio;
use crate::theme::glyph_for;
use crate::theme::theme_after_click;
use crate::theme::toggle_glyph;
use crate::theme::toggled_times;

verus! {

/// Heading text size installed once at startup, in points.
pub const HEADING_FONT_POINTS: u32 = 35;

/// Size of the toggle button's icon, in points.
pub const TOGGLE_ICON_POINTS: u32 = 30;

/// Size of the centered name label, in points.
pub const NAME_FONT_POINTS: u32 = 32;

/// Horizontal spacing around the top bar's contents, in points.
pub const BAR_SPACING_POINTS: u32 = 5;

/// What one run of the render callback decides: the glyph the toggle button
/// showed, the theme mode left active when the run ends, and the text of the
/// debug label drawn under the name.
pub struct FramePlan {
    /// Icon shown on the toggle button, chosen from the mode read at the
    /// start of the frame.
    pub glyph: char,
    /// Theme mode active after the frame: flipped when the button was
    /// clicked, unchanged otherwise.
    pub next_dark_mode: bool,
    /// Text of the debug label, which echoes the active theme boolean.
    pub debug_label: String,
}

/// The debug label's text for a theme mode.
pub open spec fn label_for(dark_mode: bool) -> Seq<char> {
    if dark_mode {
        "true"@
    } else {
        "false"@
    }
}

/// The debug label drawn under the name: the active theme boolean, spelled
/// out.
pub fn debug_label(dark_mode: bool) -> (label: String)
    ensures
        label@ == label_for(dark_mode),
{
    if dark_mode {
        String::from_str("true")
    } else {
        String::from_str("false")
    }
}

/// The centered name label's text.
pub open spec fn name_text() -> Seq<char> {
    "I'M JORGE ALEJANDRO JIM\u{c9}NEZ LUNA"@
}

/// The text of the centered name label.
pub fn name_label() -> (text: &'static str)
    ensures
        text@ == name_text(),
{
    "I'M JORGE ALEJANDRO JIM\u{c9}NEZ LUNA"
}

impl Portfolio {
    /// The decisions of one run of the render callback, from the theme mode
    /// read at the start of the frame and whether the toggle button was
    /// clicked during it: the button's glyph follows the mode read at the
    /// start, a click flips the active theme, and the debug label echoes the
    /// theme boolean left active.
    pub fn update_plan(&self, dark_mode: bool, toggle_clicked: bool) -> (plan: FramePlan)
        ensures
            plan.glyph == glyph_for(dark_mode),
            plan.next_dark_mode == (if toggle_clicked {
                !dark_mode
            } else {
                dark_mode
            }),
            plan.next_dark_mode == toggled_times(
                dark_mode,
                if toggle_clicked {
                    1nat
                } else {
                    0nat
                },
            ),
            plan.debug_label@ == label_for(plan.next_dark_mode),
    {
        let glyph = toggle_glyph(dark_mode);
        let next_dark_mode = if toggle_clicked {
            theme_after_click(dark_mode)
        } else {
            dark_mode
        };
        let label = debug_label(next_dark_mode);
        FramePlan { glyph, next_dark_mode, debug_label: label }
    }
}

} // verus!
