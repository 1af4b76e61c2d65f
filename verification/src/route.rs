//! The multi-name binary: called `atlaspack`, or as `apvm atlaspack ...`,
//! it hands its arguments to the active Atlaspack; otherwise it runs the
//! version manager's own commands.
use vstd::prelude::*;
use crate::install::args_view;
use crate::text::str_eq;

verus! {

/// What an invocation runs.
#[derive(Debug, PartialEq, Eq)]
pub enum Route {
    /// The active Atlaspack, with these arguments.
    Proxy(Vec<String>),
    /// A command of the version manager.
    Commands,
}

/// The arguments handed to Atlaspack, or `None` for a command of the version
/// manager, given the executable's file stem and its arguments (without the
/// program name).
pub open spec fn spec_route(exe_stem: Seq<char>, argv: Seq<Seq<char>>) -> Option<Seq<Seq<char>>> {
    if exe_stem == "atlaspack"@ {
        Some(argv)
    } else if argv.len() > 0 && argv[0] == "atlaspack"@ {
        Some(argv.drop_first())
    } else {
        None
    }
}

/// Decides what an invocation runs.
pub fn route(exe_stem: &str, argv: Vec<String>) -> (res: Route)
    ensures
        match spec_route(exe_stem@, args_view(argv@)) {
            Some(args) => res matches Route::Proxy(v) && args_view(v@) == args,
            None => res == Route::Commands,
        },
{
    if str_eq(exe_stem, "atlaspack") {
        return Route::Proxy(argv);
    }
    if argv.len() > 0 && str_eq(argv[0].as_str(), "atlaspack") {
        let mut rest = argv;
        let ghost before = rest@;
        rest.remove(0);
        assert(args_view(rest@) =~= args_view(before).drop_first());
        return Route::Proxy(rest);
    }
    Route::Commands
}

} // verus!
