//! Command-line option parsing: the pure computation behind the host front
//! ends' argument handling.

use vstd::prelude::*;

verus! {

/// The options a host front end accepts: `-d` switches the debug overlay on,
/// `-f <path>` names the ROM file to load, and `--sdl` picks the windowed
/// backend over the terminal one.
pub struct CliOptions {
    pub debug: bool,
    pub filepath: Option<String>,
    pub use_sdl: bool,
}

/// Some argument equals `flag`.
pub open spec fn spec_has_flag(args: Seq<Seq<char>>, flag: Seq<char>) -> bool {
    exists|i: int| 0 <= i < args.len() && args[i] == flag
}

/// The ROM path after the first `k` arguments are processed: the argument
/// following the last `-f` that has one. A trailing `-f` with nothing after
/// it changes nothing.
pub open spec fn spec_filepath(args: Seq<Seq<char>>, k: int) -> Option<Seq<char>>
    decreases k,
{
    if k <= 0 {
        None
    } else if args[k - 1] == "-f"@ && k < args.len() {
        Some(args[k])
    } else {
        spec_filepath(args, k - 1)
    }
}

/// Scan the host arguments for the `-d` and `--sdl` switches and the ROM
/// path named by `-f`; a repeated `-f` keeps the last path.
pub fn parse_args(args: &Vec<String>) -> (opts: CliOptions)
    ensures
        opts.debug == spec_has_flag(args.deep_view(), "-d"@),
        opts.use_sdl == spec_has_flag(args.deep_view(), "--sdl"@),
        opts.filepath.deep_view() == spec_filepath(
            args.deep_view(),
            args.deep_view().len() as int,
        ),
{
    let ghost va = args.deep_view();
    proof {
        assert(va.len() == args@.len());
        assert(forall|j: int| 0 <= j < va.len() ==> #[trigger] va[j] == args@[j]@);
    }
    let dash_d: String = "-d".to_owned();
    let dash_f: String = "-f".to_owned();
    let dash_sdl: String = "--sdl".to_owned();
    let mut debug = false;
    let mut use_sdl = false;
    let mut filepath: Option<String> = None;
    let mut i: usize = 0;
    while i < args.len()
        invariant
            va == args.deep_view(),
            va.len() == args@.len(),
            forall|j: int| 0 <= j < va.len() ==> #[trigger] va[j] == args@[j]@,
            dash_d@ == "-d"@,
            dash_f@ == "-f"@,
            dash_sdl@ == "--sdl"@,
            i <= va.len(),
            debug == (exists|j: int| 0 <= j < i && #[trigger] va[j] == "-d"@),
            use_sdl == (exists|j: int| 0 <= j < i && #[trigger] va[j] == "--sdl"@),
            filepath.deep_view() == spec_filepath(va, i as int),
        decreases va.len() - i,
    {
        if args[i] == dash_d {
            debug = true;
            proof {
                assert(va[i as int] == "-d"@);
            }
        }
        if args[i] == dash_sdl {
            use_sdl = true;
            proof {
                assert(va[i as int] == "--sdl"@);
            }
        }
        if args[i] == dash_f {
            if i + 1 < args.len() {
                filepath = Some(args[i + 1].clone());
            }
        }
        i += 1;
    }
    CliOptions { debug, filepath, use_sdl }
}

} // verus!
