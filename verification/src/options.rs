//! Resolution of the raw flag set into the canonical transformation set.
//!
//! `-a` enables every visualization unconditionally; `-t` and `-e` enable
//! one each; `-T` and `-E` are partial flags that take effect only when the
//! non-printing gate `-v` is also set. Setting a partial flag without the
//! gate has no effect.

use crate::args::Args;
use vstd::prelude::*;

verus! {

/// The resolved, canonical transformation set: which substitutions the
/// transformer applies.
pub struct OutputOptions {
    pub show_tabs: bool,
    pub show_ends: bool,
}

/// Whether the flag set enables tab visualization: `-a`, or `-t`, or the
/// partial flag `-T` when `-v` is also set.
pub open spec fn resolved_show_tabs(args: Args) -> bool {
    args.all || args.show_tab || (args.show_non_printing && args.show_tab_partial)
}

/// Whether the flag set enables end-of-line visualization: `-a`, or `-e`,
/// or the partial flag `-E` when `-v` is also set.
pub open spec fn resolved_show_ends(args: Args) -> bool {
    args.all || args.show_end || (args.show_non_printing && args.show_end_partial)
}

impl OutputOptions {
    /// Resolve a raw flag set into the transformations it enables. Total
    /// over every combination of flags, and a pure function of the six
    /// booleans alone.
    pub fn from_args(args: &Args) -> (r: OutputOptions)
        ensures
            r.show_tabs == resolved_show_tabs(*args),
            r.show_ends == resolved_show_ends(*args),
    {
        let show_tabs = args.all || args.show_tab || (args.show_non_printing
            && args.show_tab_partial);
        let show_ends = args.all || args.show_end || (args.show_non_printing
            && args.show_end_partial);
        OutputOptions { show_tabs, show_ends }
    }
}

/// Resolution is deterministic: two flag sets that agree on every flag
/// resolve to the same transformation set, whatever their input paths.
pub proof fn lemma_resolve_deterministic(a: Args, b: Args)
    requires
        a.all == b.all,
        a.show_end == b.show_end,
        a.show_tab == b.show_tab,
        a.show_end_partial == b.show_end_partial,
        a.show_tab_partial == b.show_tab_partial,
        a.show_non_printing == b.show_non_printing,
    ensures
        resolved_show_tabs(a) == resolved_show_tabs(b),
        resolved_show_ends(a) == resolved_show_ends(b),
{
}

} // verus!
