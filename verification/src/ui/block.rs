//! The richer panel frame: a title of several parts, and the help line that
//! also shows which sort key is active.

use crate::cli_args::GeneralSort;
use crate::general_options::GeneralOptions;
use vstd::prelude::*;
use vstd::string::StringExecFns;

verus! {

/// A panel title assembled from parts.
#[derive(Debug)]
pub struct Title(pub Vec<String>);

impl Title {
    /// A title from its parts.
    pub fn new(parts: Vec<String>) -> (r: Self)
        ensures
            r.0@ == parts@,
    {
        Title(parts)
    }
}

/// The frame of one panel: a composite title and whether it draws
/// highlighted.
#[derive(Debug)]
pub struct BlendrBlock {
    pub focused: bool,
    pub title: Title,
    pub route_active: bool,
}

impl BlendrBlock {
    /// Whether the frame's border draws highlighted: only when its panel is
    /// focused on an active route.
    pub fn border_highlighted(&self) -> (r: bool)
        ensures
            r == (self.route_active && self.focused),
    {
        self.route_active && self.focused
    }
}

/// Renders the help line with the sort choice at its end. The name entry is
/// the highlighted one exactly when the name sort is active; the text is the
/// same either way.
pub fn render_help<const N: usize>(options: &GeneralOptions, help: [(&str, &str, bool); N]) -> (r:
    String)
    ensures
        r@ == crate::block::spec_help_text(help@) + "Sort by: [n]ame | default    "@,
{
    let mut out = crate::block::render_help(help);
    out.append("Sort by: [n]ame | default    ");
    out
}

/// Whether the name sort is the active one, for highlighting the help entry.
pub fn name_sort_active(options: &GeneralOptions) -> (r: bool)
    ensures
        r == (options.sort == GeneralSort::Name),
{
    match options.sort {
        GeneralSort::Name => true,
        GeneralSort::DefaultSort => false,
    }
}

} // verus!
