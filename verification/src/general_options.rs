//! Options an operator can flip while the application runs.

use crate::cli_args::Args;
use crate::cli_args::GeneralSort;
use vstd::prelude::*;

verus! {

/// The live options every view consults.
#[derive(PartialEq, Eq, Structural, Debug, Clone, Copy)]
pub struct GeneralOptions {
    /// The active sort key.
    pub sort: GeneralSort,
}

impl GeneralOptions {
    /// The options at startup: the configured sort key, or the default one.
    pub fn new(args: &Args) -> (r: Self)
        ensures
            r.sort == match args.sort {
                Some(s) => s,
                None => GeneralSort::DefaultSort,
            },
    {
        GeneralOptions {
            sort: match args.sort {
                Some(s) => s,
                None => GeneralSort::DefaultSort,
            },
        }
    }
}

} // verus!

verus! {

use crate::keys::Key;
use crate::Ctx;

impl GeneralOptions {
    /// The sort-toggle input: `n` flips between the name order and the
    /// default order and is consumed; every other key is not.
    pub fn handle_keystroke(key: &Key, ctx: &mut Ctx) -> (r: bool)
        ensures
            *key == Key::Char('n') ==> r == true && *final(ctx) == (Ctx {
                general_options: GeneralOptions {
                    sort: (match old(ctx).general_options.sort {
                        GeneralSort::Name => GeneralSort::DefaultSort,
                        GeneralSort::DefaultSort => GeneralSort::Name,
                    }),
                },
                ..*old(ctx)
            }),
            *key != Key::Char('n') ==> r == false && *final(ctx) == *old(ctx),
    {
        match key {
            Key::Char('n') => {
                ctx.general_options.sort = match ctx.general_options.sort {
                    GeneralSort::Name => GeneralSort::DefaultSort,
                    GeneralSort::DefaultSort => GeneralSort::Name,
                };
                true
            },
            _ => false,
        }
    }
}

} // verus!
