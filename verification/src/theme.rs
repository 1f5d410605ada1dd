//! The theme mode: a single boolean, `true` for the dark palette and `false`
//! for the light one. The toggle button flips it; its icon shows a sun glyph
//! in dark mode and a moon glyph in light mode.

use vstd::prelude::*;

verus! {

/// The icon the toggle button shows for a given mode: the sun glyph when the
/// dark palette is active, the moon glyph when the light palette is.
pub open spec fn glyph_for(dark_mode: bool) -> char {
    if dark_mode {
        '\u{1F505}'
    } else {
        '\u{1F319}'
    }
}

/// The theme mode after `clicks` presses of the toggle button.
pub open spec fn toggled_times(dark_mode: bool, clicks: nat) -> bool
    decreases clicks,
{
    if clicks == 0 {
        dark_mode
    } else {
        !toggled_times(dark_mode, (clicks - 1) as nat)
    }
}

/// The glyph drawn on the toggle button while `dark_mode` is active.
pub fn toggle_glyph(dark_mode: bool) -> (glyph: char)
    ensures
        glyph == glyph_for(dark_mode),
{
    if dark_mode {
        '\u{1F505}'
    } else {
        '\u{1F319}'
    }
}

/// The theme mode a press of the toggle button switches to.
pub fn theme_after_click(dark_mode: bool) -> (next: bool)
    ensures
        next == !dark_mode,
        next == toggled_times(dark_mode, 1),
{
    proof {
        assert(toggled_times(dark_mode, 0) == dark_mode);
    }
    !dark_mode
}

/// Toggling the theme an even number of times returns the mode to its
/// original value; an odd number of times flips it.
pub proof fn lemma_toggle_parity(dark_mode: bool, clicks: nat)
    ensures
        clicks % 2 == 0 ==> toggled_times(dark_mode, clicks) == dark_mode,
        clicks % 2 == 1 ==> toggled_times(dark_mode, clicks) == !dark_mode,
    decreases clicks,
{
    if clicks > 0 {
        lemma_toggle_parity(dark_mode, (clicks - 1) as nat);
    }
}

} // verus!
