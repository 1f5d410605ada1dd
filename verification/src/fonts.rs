//! Font bootstrap: the startup step registers one custom font family under a
//! fixed name, placing it first in the proportional fallback list and last in
//! the monospace fallback list. The host framework's font tables are rebuilt
//! from its defaults on every run of the bootstrap, so the step is modelled
//! here on the plain fallback lists: names in, names out.

use vstd::prelude::*;
use vstd::string::StringExecFns;

verus! {

/// The two font fallback lists the bootstrap fills: one per font family kind.
pub struct FontFallbacks {
    /// Fallback order for the proportional family.
    pub proportional: Vec<String>,
    /// Fallback order for the monospace family.
    pub monospace: Vec<String>,
}

impl FontFallbacks {
    /// The proportional fallback names, as character sequences.
    pub open spec fn prop_names(self) -> Seq<Seq<char>> {
        self.proportional.deep_view()
    }

    /// The monospace fallback names, as character sequences.
    pub open spec fn mono_names(self) -> Seq<Seq<char>> {
        self.monospace.deep_view()
    }
}

/// The fixed name the custom font family is registered under.
pub open spec fn font_name() -> Seq<char> {
    "MesloLGS"@
}

/// The name the custom font family is registered under, for the caller that
/// keys the font data table by it.
pub fn font_family_name() -> (name: &'static str)
    ensures
        name@ == font_name(),
{
    "MesloLGS"
}

/// The proportional fallback list after the bootstrap: the custom family
/// first, then the default names in their order.
pub open spec fn registered_proportional(defaults: Seq<Seq<char>>) -> Seq<Seq<char>> {
    defaults.insert(0, font_name())
}

/// The monospace fallback list after the bootstrap: the default names in
/// their order, then the custom family last.
pub open spec fn registered_monospace(defaults: Seq<Seq<char>>) -> Seq<Seq<char>> {
    defaults.push(font_name())
}

/// The fallback lists one run of the bootstrap installs. The bootstrap
/// rebuilds the font tables from the framework defaults, so what it installs
/// does not depend on the lists installed before it ran.
pub open spec fn bootstrap_installs(
    installed: (Seq<Seq<char>>, Seq<Seq<char>>),
    default_prop: Seq<Seq<char>>,
    default_mono: Seq<Seq<char>>,
) -> (Seq<Seq<char>>, Seq<Seq<char>>) {
    (registered_proportional(default_prop), registered_monospace(default_mono))
}

/// The fallback lists the bootstrap installs, computed from the framework's
/// default lists.
pub fn planned_fonts(defaults: FontFallbacks) -> (r: FontFallbacks)
    ensures
        r.prop_names() == registered_proportional(defaults.prop_names()),
        r.mono_names() == registered_monospace(defaults.mono_names()),
{
    let name = font_family_name();
    let prop_entry = String::from_str(name);
    let mono_entry = prop_entry.clone();
    let FontFallbacks { mut proportional, mut monospace } = defaults;
    let ghost default_prop = proportional.deep_view();
    let ghost default_mono = monospace.deep_view();
    proportional.insert(0, prop_entry);
    monospace.push(mono_entry);
    let r = FontFallbacks { proportional, monospace };
    proof {
        assert(r.prop_names() =~= registered_proportional(default_prop));
        assert(r.mono_names() =~= registered_monospace(default_mono));
    }
    r
}

/// Font registration is idempotent: a second run of the bootstrap installs
/// exactly the lists the first run installed — the custom family once at the
/// front of the proportional fallbacks and once at the end of the monospace
/// fallbacks — because each run starts over from the framework defaults.
pub proof fn lemma_bootstrap_idempotent(
    installed: (Seq<Seq<char>>, Seq<Seq<char>>),
    default_prop: Seq<Seq<char>>,
    default_mono: Seq<Seq<char>>,
)
    ensures
        bootstrap_installs(
            bootstrap_installs(installed, default_prop, default_mono),
            default_prop,
            default_mono,
        ) == bootstrap_installs(installed, default_prop, default_mono),
{
}

/// After the bootstrap the custom family stands first among the proportional
/// fallbacks and last among the monospace ones, and every default name keeps
/// its place: nothing is dropped and nothing is added twice.
pub proof fn lemma_bootstrap_ordering(default_prop: Seq<Seq<char>>, default_mono: Seq<Seq<char>>)
    ensures
        registered_proportional(default_prop).len() == default_prop.len() + 1,
        registered_proportional(default_prop)[0] == font_name(),
        forall|i: int|
            0 <= i < default_prop.len() ==> registered_proportional(default_prop)[i + 1]
                == default_prop[i],
        registered_monospace(default_mono).len() == default_mono.len() + 1,
        registered_monospace(default_mono).last() == font_name(),
        forall|i: int|
            0 <= i < default_mono.len() ==> registered_monospace(default_mono)[i]
                == default_mono[i],
{
}

} // verus!
