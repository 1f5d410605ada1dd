//! A minimal personal-portfolio application core: a single window shows a
//! name label and a light/dark theme toggle. The host GUI framework owns the
//! event loop and the widgets; this crate holds the decisions the window
//! makes each frame (which glyph the toggle shows, what the theme becomes on
//! a click, what the debug label reads) and the font-fallback ordering that
//! the startup bootstrap installs.

use vstd::prelude::*;

pub mod fonts;
pub mod frame;
pub mod theme;

verus! {

/// The application object. It carries no state of its own: the single theme
/// boolean lives in the host framework's style object, is handed in each
/// frame and handed back as part of the frame plan.
#[derive(Default)]
pub struct Portfolio;

} // verus!
