//! Command-line arguments: the prompt flag, the help flag, and the usage
//! errors with their messages.

use vstd::prelude::*;
use vstd::string::StringExecFns;

verus! {

/// What a well-formed argument list asks for.
pub enum Command {
    /// Show the usage text and stop.
    Help,
    /// Go on with this prompt, which may still be empty.
    Run(String),
}

/// A malformed or missing argument.
pub enum UsageError {
    /// `-p` was the last argument.
    MissingValue,
    /// An argument that is neither `-p` nor `-h`.
    InvalidOption(String),
    /// No prompt, or an empty one, was given.
    MissingPrompt,
}

/// The outcome of reading an argument list, over plain values.
pub enum Scan {
    Help,
    Run(Seq<char>),
    MissingValue,
    InvalidOption(Seq<char>),
}

/// Reads the arguments from index `i` on, left to right, where `prompt` is
/// the value of the last `-p` before `i`. The first `-h` or fault stops it.
pub open spec fn scan(args: Seq<String>, i: int, prompt: Seq<char>) -> Scan
    decreases args.len() - i,
{
    if i < 0 || i >= args.len() {
        Scan::Run(prompt)
    } else if args[i]@ == "-p"@ {
        if i + 1 >= args.len() {
            Scan::MissingValue
        } else {
            scan(args, i + 2, args[i + 1]@)
        }
    } else if args[i]@ == "-h"@ {
        Scan::Help
    } else {
        Scan::InvalidOption(args[i]@)
    }
}

/// The outcome of the whole argument list (without the program name).
pub open spec fn scan_args(args: Seq<String>) -> Scan {
    scan(args, 0, Seq::empty())
}

/// Whether `r` is the value that stands for `s`.
pub open spec fn parse_result_is(r: Result<Command, UsageError>, s: Scan) -> bool {
    match r {
        Ok(Command::Help) => s == Scan::Help,
        Ok(Command::Run(p)) => s == Scan::Run(p@),
        Err(UsageError::MissingValue) => s == Scan::MissingValue,
        Err(UsageError::InvalidOption(t)) => s == Scan::InvalidOption(t@),
        Err(UsageError::MissingPrompt) => false,
    }
}

/// The text shown on a usage error.
pub open spec fn usage_error_message(e: UsageError) -> Seq<char> {
    match e {
        UsageError::MissingValue => "Error: -p requires an argument"@,
        UsageError::InvalidOption(t) => "Invalid option "@ + t@,
        UsageError::MissingPrompt => "Error: Prompt (-p) is required."@,
    }
}

/// The usage text, one line per row, each ended by a newline.
pub open spec fn usage_spec() -> Seq<char> {
    "Usage: lai -p <prompt>\n       command | lai -p <prompt>\n\nOptions:\n  -p <prompt>    User prompt to include with the piped/inline data\n  -h             Show help\n"@
}

/// The first `k` arguments are whole `-p <value>` pairs, so a left-to-right
/// reading reaches index `k` without stopping.
pub open spec fn prompt_pairs_before(args: Seq<String>, k: int) -> bool {
    &&& 0 <= k <= args.len()
    &&& k % 2 == 0
    &&& forall|j: int| 0 <= j < k && j % 2 == 0 ==> (#[trigger] args[j])@ == "-p"@
}

proof fn lemma_pairs_lead_to(args: Seq<String>, j: int, k: int, prompt: Seq<char>, s: Scan)
    requires
        prompt_pairs_before(args, k),
        0 <= j <= k,
        j % 2 == 0,
        forall|q: Seq<char>| #[trigger] scan(args, k, q) == s,
    ensures
        scan(args, j, prompt) == s,
    decreases k - j,
{
    if j < k {
        assert(args[j]@ == "-p"@);
        lemma_pairs_lead_to(args, j + 2, k, args[j + 1]@, s);
    } else {
        assert(scan(args, k, prompt) == s);
    }
}

/// A `-h` that the reading reaches ends it with a request for help, whatever
/// follows it.
pub proof fn lemma_help_wins_when_reached(args: Seq<String>, k: int)
    requires
        prompt_pairs_before(args, k),
        k < args.len(),
        args[k]@ == "-h"@,
    ensures
        scan_args(args) == Scan::Help,
{
    reveal_strlit("-p");
    reveal_strlit("-h");
    assert("-h"@[1] != "-p"@[1]);
    assert(args[k]@ != "-p"@);
    assert forall|q: Seq<char>| #[trigger] scan(args, k, q) == Scan::Help by {}
    lemma_pairs_lead_to(args, 0, k, Seq::empty(), Scan::Help);
}

/// A `-p` with nothing after it is a missing value.
pub proof fn lemma_prompt_flag_needs_value(args: Seq<String>, k: int)
    requires
        prompt_pairs_before(args, k),
        k == args.len() - 1,
        args[k]@ == "-p"@,
    ensures
        scan_args(args) == Scan::MissingValue,
{
    assert forall|q: Seq<char>| #[trigger] scan(args, k, q) == Scan::MissingValue by {}
    lemma_pairs_lead_to(args, 0, k, Seq::empty(), Scan::MissingValue);
}

/// The first argument that the reading reaches and that is neither `-p` nor
/// `-h` is reported as an invalid option, by its own text.
pub proof fn lemma_unknown_option_rejected(args: Seq<String>, k: int)
    requires
        prompt_pairs_before(args, k),
        k < args.len(),
        args[k]@ != "-p"@,
        args[k]@ != "-h"@,
    ensures
        scan_args(args) == Scan::InvalidOption(args[k]@),
{
    let s = Scan::InvalidOption(args[k]@);
    assert forall|q: Seq<char>| #[trigger] scan(args, k, q) == s by {}
    lemma_pairs_lead_to(args, 0, k, Seq::empty(), s);
}

fn is_flag(arg: &String, flag: &str) -> (r: bool)
    ensures
        r == (arg@ == flag@),
{
    let f = String::from_str(flag);
    *arg == f
}

/// Reads the argument list, program name left out: `-p` takes the next
/// argument as the prompt (the last one wins), `-h` asks for help at once,
/// and anything else is an invalid option.
pub fn parse_args(args: &Vec<String>) -> (r: Result<Command, UsageError>)
    ensures
        parse_result_is(r, scan_args(args@)),
{
    let mut prompt = String::new();
    let mut i: usize = 0;
    while i < args.len()
        invariant
            i <= args@.len(),
            scan_args(args@) == scan(args@, i as int, prompt@),
        decreases args@.len() - i,
    {
        if is_flag(&args[i], "-p") {
            if i + 1 >= args.len() {
                return Err(UsageError::MissingValue);
            }
            prompt = args[i + 1].clone();
            i = i + 2;
        } else if is_flag(&args[i], "-h") {
            return Ok(Command::Help);
        } else {
            return Err(UsageError::InvalidOption(args[i].clone()));
        }
    }
    Ok(Command::Run(prompt))
}

impl UsageError {
    /// The diagnostic printed for this error.
    pub fn message(&self) -> (r: String)
        ensures
            r@ == usage_error_message(*self),
    {
        match self {
            UsageError::MissingValue => String::from_str("Error: -p requires an argument"),
            UsageError::InvalidOption(t) => {
                let r = String::from_str("Invalid option ");
                r.concat(t.as_str())
            },
            UsageError::MissingPrompt => String::from_str("Error: Prompt (-p) is required."),
        }
    }
}

/// The usage text, shown for `-h` and after each usage error.
pub fn usage_text() -> (r: String)
    ensures
        r@ == usage_spec(),
{
    String::from_str(
        "Usage: lai -p <prompt>\n       command | lai -p <prompt>\n\nOptions:\n  -p <prompt>    User prompt to include with the piped/inline data\n  -h             Show help\n",
    )
}

} // verus!
