//! The titled frame every panel draws, and the help line under it.

use vstd::prelude::*;
use vstd::string::StrSliceExecFns;
use vstd::string::StringExecFns;

verus! {

/// The frame of one panel: a title and whether it draws highlighted.
#[derive(Debug)]
pub struct BlendrBlock {
    pub focused: bool,
    pub title: String,
    pub route_active: bool,
}

impl BlendrBlock {
    /// Whether the frame's border draws highlighted: only when its panel is
    /// focused on an active route.
    pub fn border_highlighted(&self) -> (r: bool)
        ensures
            r == (self.route_active && self.focused),
    {
        self.route_active && self.focused
    }
}

/// One help entry as shown: the key in brackets, the explanation, spacing.
pub open spec fn spec_help_entry(key: Seq<char>, text: Seq<char>) -> Seq<char> {
    "["@ + key + "] "@ + text + "    "@
}

/// The whole help line for a list of entries.
pub open spec fn spec_help_text(entries: Seq<(&str, &str, bool)>) -> Seq<char>
    decreases entries.len(),
{
    if entries.len() == 0 {
        Seq::empty()
    } else {
        spec_help_text(entries.drop_last()) + spec_help_entry(
            entries.last().0@,
            entries.last().1@,
        )
    }
}

/// Renders the help line: each entry as `[key] text`, space-separated. The
/// third component says whether the entry draws highlighted; the text is the
/// same either way.
pub fn render_help<const N: usize>(help: [(&str, &str, bool); N]) -> (r: String)
    ensures
        r@ == spec_help_text(help@),
{
    let mut out = String::new();
    let mut i: usize = 0;
    proof {
        assert(help@.take(0) =~= Seq::<(&str, &str, bool)>::empty());
    }
    while i < N
        invariant
            0 <= i <= N,
            help@.len() == N,
            out@ == spec_help_text(help@.take(i as int)),
        decreases N - i,
    {
        let (key, text, _bold) = help[i];
        out.append("[");
        out.append(key);
        out.append("] ");
        out.append(text);
        out.append("    ");
        proof {
            let t = help@.take(i + 1 as int);
            assert(t.drop_last() =~= help@.take(i as int));
            assert(t.last() == help@[i as int]);
        }
        i += 1;
    }
    proof {
        assert(help@.take(N as int) =~= help@);
    }
    out
}

} // verus!
