use vstd::prelude::*;

verus! {

/// What the command line asks the program to do.
#[derive(Debug, PartialEq, Eq)]
pub enum CliAction {
    /// Print the usage text and stop.
    Help,
    /// Print the version and stop.
    Version,
    /// Open the viewer, in overlay mode or not, on the file named last if any.
    Run { overlay: bool, file: Option<String> },
    /// An option that is not known: print it with the usage text and fail.
    Unknown(String),
}

/// `CliAction` with its strings seen as character sequences.
pub enum CliOutcome {
    Help,
    Version,
    Run { overlay: bool, file: Option<Seq<char>> },
    Unknown(Seq<char>),
}

impl CliAction {
    /// The action with its strings seen as character sequences.
    pub open spec fn outcome(&self) -> CliOutcome {
        match self {
            CliAction::Help => CliOutcome::Help,
            CliAction::Version => CliOutcome::Version,
            CliAction::Run { overlay, file } => CliOutcome::Run {
                overlay: *overlay,
                file: match file {
                    Some(f) => Some(f@),
                    None => None,
                },
            },
            CliAction::Unknown(a) => CliOutcome::Unknown(a@),
        }
    }
}

/// Whether an argument reads as an option: it starts with a dash.
pub open spec fn is_option(arg: Seq<char>) -> bool {
    arg.len() > 0 && arg[0] == '-'
}

/// The outcome of reading `args` from index `i` on, with the overlay flag and
/// the file seen so far. Arguments are read left to right: help and version stop
/// the reading at once, as does an unknown option; a plain argument names the
/// file, a later one replacing an earlier one.
pub open spec fn parse_from(args: Seq<Seq<char>>, i: int, overlay: bool, file: Option<Seq<char>>) -> CliOutcome
    decreases args.len() - i,
{
    if i < 0 || i >= args.len() {
        CliOutcome::Run { overlay, file }
    } else {
        let a = args[i];
        if a == "-o"@ || a == "--overlay"@ {
            parse_from(args, i + 1, true, file)
        } else if a == "-h"@ || a == "--help"@ {
            CliOutcome::Help
        } else if a == "-v"@ || a == "--version"@ {
            CliOutcome::Version
        } else if !is_option(a) {
            parse_from(args, i + 1, overlay, Some(a))
        } else {
            CliOutcome::Unknown(a)
        }
    }
}

/// The outcome of a whole argument list (program name excluded).
pub open spec fn parse_spec(args: Seq<Seq<char>>) -> CliOutcome {
    parse_from(args, 0, false, None)
}

/// The arguments as character sequences.
pub open spec fn arg_views(args: Seq<String>) -> Seq<Seq<char>> {
    args.map_values(|s: String| s@)
}

fn str_eq(a: &str, b: &str) -> (r: bool)
    ensures
        r == (a@ == b@),
{
    let n = a.unicode_len();
    if n != b.unicode_len() {
        return false;
    }
    let mut i: usize = 0;
    while i < n
        invariant
            n == a@.len(),
            n == b@.len(),
            0 <= i <= n,
            a@.subrange(0, i as int) == b@.subrange(0, i as int),
        decreases n - i,
    {
        if a.get_char(i) != b.get_char(i) {
            return false;
        }
        assert(a@.subrange(0, i + 1) == a@.subrange(0, i as int).push(a@[i as int]));
        assert(b@.subrange(0, i + 1) == b@.subrange(0, i as int).push(b@[i as int]));
        i = i + 1;
    }
    assert(a@ == a@.subrange(0, n as int));
    assert(b@ == b@.subrange(0, n as int));
    true
}

fn starts_with_dash(a: &str) -> (r: bool)
    ensures
        r == is_option(a@),
{
    a.unicode_len() > 0 && a.get_char(0) == '-'
}

/// Reads the command-line arguments that follow the program name.
pub fn parse_args(args: &Vec<String>) -> (r: CliAction)
    ensures
        r.outcome() == parse_spec(arg_views(args@)),
{
    let ghost views = arg_views(args@);
    let mut overlay = false;
    let mut file: Option<String> = None;
    let mut i: usize = 0;
    while i < args.len()
        invariant
            0 <= i <= args@.len(),
            views == arg_views(args@),
            views.len() == args@.len(),
            parse_spec(views) == parse_from(
                views,
                i as int,
                overlay,
                match file {
                    Some(f) => Some(f@),
                    None => None,
                },
            ),
        decreases args@.len() - i,
    {
        let a = args[i].as_str();
        assert(a@ == views[i as int]);
        if str_eq(a, "-o") || str_eq(a, "--overlay") {
            overlay = true;
        } else if str_eq(a, "-h") || str_eq(a, "--help") {
            return CliAction::Help;
        } else if str_eq(a, "-v") || str_eq(a, "--version") {
            return CliAction::Version;
        } else if !starts_with_dash(a) {
            file = Some(args[i].clone());
        } else {
            return CliAction::Unknown(args[i].clone());
        }
        i = i + 1;
    }
    CliAction::Run { overlay, file }
}

} // verus!
