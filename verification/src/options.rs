//! The option grammar: the `Colorize` policy, the `Options` configuration,
//! a mathematical model of the single left-to-right scan over the argument
//! tokens, and the executable interpreter proved against that model.

use vstd::prelude::*;
use vstd::string::StrSliceExecFns;

verus! {

/// The user's colorization directive, parsed case-sensitively from the
/// literal tokens `"always"`, `"auto"` and `"never"`.  `Auto` is the default.
#[derive(Debug, Clone, Copy, PartialEq, Eq, Structural)]
pub enum Colorize {
    Always,
    Auto,
    Never,
}

/// The colorization policy a token names, if any.
pub open spec fn color_of(s: Seq<char>) -> Option<Colorize> {
    if s == "always"@ {
        Some(Colorize::Always)
    } else if s == "auto"@ {
        Some(Colorize::Auto)
    } else if s == "never"@ {
        Some(Colorize::Never)
    } else {
        None
    }
}

/// String equality by characters, stated over the views.
fn str_eq(a: &str, b: &str) -> (r: bool)
    ensures
        r == (a@ == b@),
{
    let an = a.unicode_len();
    let bn = b.unicode_len();
    if an != bn {
        return false;
    }
    let mut i: usize = 0;
    while i < an
        invariant
            0 <= i <= an,
            an == a@.len(),
            an == b@.len(),
            forall|j: int| 0 <= j < i ==> a@[j] == b@[j],
        decreases an - i,
    {
        if a.get_char(i) != b.get_char(i) {
            return false;
        }
        i = i + 1;
    }
    proof {
        assert(a@ =~= b@);
    }
    true
}

impl Colorize {
    /// Parse a color token; `Err(())` when it is none of the three literals.
    pub fn from_str(s: &str) -> (r: Result<Colorize, ()>)
        ensures
            (match color_of(s@) {
                Some(c) => r == Ok::<Colorize, ()>(c),
                None => r == Err::<Colorize, ()>(()),
            }),
    {
        if str_eq(s, "always") {
            Ok(Colorize::Always)
        } else if str_eq(s, "auto") {
            Ok(Colorize::Auto)
        } else if str_eq(s, "never") {
            Ok(Colorize::Never)
        } else {
            Err(())
        }
    }
}

impl Default for Colorize {
    /// The policy used when `--color` is never supplied.
    fn default() -> (r: Colorize)
        ensures
            r == Colorize::Auto,
    {
        Colorize::Auto
    }
}

/// The interpreter's output: the file to read paths from (absent means
/// standard input) and the colorization policy.
#[derive(Debug)]
pub struct Options {
    pub filename: Option<String>,
    pub colorize: Colorize,
}

impl Default for Options {
    /// The configuration before any token has been interpreted.
    fn default() -> (r: Options)
        ensures
            r.filename is None,
            r.colorize == Colorize::Auto,
    {
        Options { filename: None, colorize: Colorize::Auto }
    }
}

/// Ghost image of `Options`: the filename and policy as plain values.
pub struct OptionsModel {
    pub filename: Option<Seq<char>>,
    pub colorize: Colorize,
}

impl View for Options {
    type V = OptionsModel;

    open spec fn view(&self) -> OptionsModel {
        OptionsModel { filename: self.filename.deep_view(), colorize: self.colorize }
    }
}

/// Ghost image of a diagnostic: the fixed message and the offending token.
pub struct DiagnosticModel {
    pub message: Seq<char>,
    pub token: Seq<char>,
}

/// A user-facing diagnostic: a fixed message and a single-quoted echo of the
/// offending token, to be followed by a blank line and the usage text on the
/// error stream.
#[derive(Debug)]
pub struct Diagnostic {
    pub message: String,
    pub token: String,
}

impl View for Diagnostic {
    type V = DiagnosticModel;

    open spec fn view(&self) -> DiagnosticModel {
        DiagnosticModel { message: self.message@, token: self.token@ }
    }
}

/// What one invocation comes to, in the model.
pub enum Interpretation {
    /// The argument list was completely empty: usage on standard output,
    /// exit status 1.
    NoTokens,
    /// `-h` or `--help` was reached: usage on standard output, exit status 0.
    Help,
    /// A malformed token was reached: the diagnostic, then the usage text,
    /// on the error stream, exit status 1.
    Rejected(DiagnosticModel),
    /// Every token was consumed: the configuration.
    Accepted(OptionsModel),
}

/// One left-to-right scan over the tokens after the program name, carrying
/// the configuration built so far.  `--color` consumes two tokens; every
/// other token consumes one.
pub open spec fn scan(
    rest: Seq<Seq<char>>,
    filename: Option<Seq<char>>,
    colorize: Colorize,
) -> Interpretation
    decreases rest.len(),
{
    if rest.len() == 0 {
        Interpretation::Accepted(OptionsModel { filename, colorize })
    } else {
        let t = rest[0];
        if t.len() == 0 {
            Interpretation::Rejected(
                DiagnosticModel { message: "Unrecognized argument:"@, token: t },
            )
        } else if t == "-h"@ || t == "--help"@ {
            Interpretation::Help
        } else if t == "--color"@ {
            if rest.len() == 1 {
                Interpretation::Rejected(
                    DiagnosticModel { message: "Unrecognized option:"@, token: t },
                )
            } else if color_of(rest[1]) is Some {
                scan(rest.skip(2), filename, color_of(rest[1])->0)
            } else {
                Interpretation::Rejected(
                    DiagnosticModel { message: "Unrecognized option: --color"@, token: rest[1] },
                )
            }
        } else if t[0] == '-' {
            Interpretation::Rejected(
                DiagnosticModel { message: "Unrecognized option:"@, token: t },
            )
        } else if filename is Some {
            Interpretation::Rejected(DiagnosticModel { message: "Extra argument:"@, token: t })
        } else {
            scan(rest.skip(1), Some(t), colorize)
        }
    }
}

/// What the whole token list (program name first) comes to.
pub open spec fn interpret(tokens: Seq<Seq<char>>) -> Interpretation {
    if tokens.len() == 0 {
        Interpretation::NoTokens
    } else {
        scan(tokens.skip(1), None, Colorize::Auto)
    }
}

/// The usage block, as a sequence of characters.
pub open spec fn spec_usage() -> Seq<char> {
    "Print a list of paths as a tree of paths.\n\nUsage:\n  as-tree [options] [<filename>]\n\nArguments:\n  <filename>        The file to read from. When omitted, reads from stdin.\n\nOptions:\n  --color (always|auto|never)\n                    Whether to colorize the output [default: auto]\n  -h, --help        Print this help message\n\nExample:\n  find . -name '*.txt' | as-tree\n"@
}

/// The fixed usage text, printed verbatim on help requests and on every
/// error path.
pub fn usage_text() -> (s: &'static str)
    ensures
        s@ == spec_usage(),
{
    "Print a list of paths as a tree of paths.\n\nUsage:\n  as-tree [options] [<filename>]\n\nArguments:\n  <filename>        The file to read from. When omitted, reads from stdin.\n\nOptions:\n  --color (always|auto|never)\n                    Whether to colorize the output [default: auto]\n  -h, --help        Print this help message\n\nExample:\n  find . -name '*.txt' | as-tree\n"
}

/// The interpreter's result, one variant per way an invocation can end.
/// The caller alone performs the corresponding side effect (streams, exit).
#[derive(Debug)]
pub enum ParseOutcome {
    /// The argument list was completely empty.
    NoTokens,
    /// A help flag was reached.
    Help,
    /// A malformed token was reached.
    Rejected(Diagnostic),
    /// The tokens formed a valid invocation.
    Accepted(Options),
}

impl View for ParseOutcome {
    type V = Interpretation;

    open spec fn view(&self) -> Interpretation {
        match self {
            ParseOutcome::NoTokens => Interpretation::NoTokens,
            ParseOutcome::Help => Interpretation::Help,
            ParseOutcome::Rejected(d) => Interpretation::Rejected(d@),
            ParseOutcome::Accepted(o) => Interpretation::Accepted(o@),
        }
    }
}

/// Interpret the full process argument list, program name first.  The result
/// is exactly what the scan model assigns to the token list; no token is
/// looked at beyond the one that ends the scan.
pub fn parse_tokens(tokens: &Vec<String>) -> (r: ParseOutcome)
    ensures
        r@ == interpret(tokens.deep_view()),
{
    let ghost whole: Seq<Seq<char>> = tokens.deep_view();
    if tokens.len() == 0 {
        return ParseOutcome::NoTokens;
    }
    let mut filename: Option<String> = None;
    let mut colorize = Colorize::Auto;
    let mut i: usize = 1;
    while i < tokens.len()
        invariant
            1 <= i <= tokens@.len(),
            whole == tokens.deep_view(),
            whole.len() == tokens@.len(),
            interpret(whole) == scan(whole.skip(i as int), filename.deep_view(), colorize),
        decreases tokens@.len() - i,
    {
        proof {
            assert(whole.skip(i as int)[0] == whole[i as int]);
        }
        let t = &tokens[i];
        if t.as_str().is_empty() {
            return ParseOutcome::Rejected(
                Diagnostic {
                    message: String::from_str("Unrecognized argument:"),
                    token: t.clone(),
                },
            );
        }
        if str_eq(t.as_str(), "-h") || str_eq(t.as_str(), "--help") {
            return ParseOutcome::Help;
        }
        if str_eq(t.as_str(), "--color") {
            if i + 1 == tokens.len() {
                return ParseOutcome::Rejected(
                    Diagnostic {
                        message: String::from_str("Unrecognized option:"),
                        token: t.clone(),
                    },
                );
            }
            proof {
                assert(whole.skip(i as int)[1] == whole[i + 1]);
            }
            let value = &tokens[i + 1];
            match Colorize::from_str(value.as_str()) {
                Ok(c) => {
                    colorize = c;
                    proof {
                        assert(whole.skip(i as int).skip(2) =~= whole.skip(i + 2));
                    }
                    i = i + 2;
                },
                Err(()) => {
                    return ParseOutcome::Rejected(
                        Diagnostic {
                            message: String::from_str("Unrecognized option: --color"),
                            token: value.clone(),
                        },
                    );
                },
            }
            continue;
        }
        if t.as_str().get_char(0) == '-' {
            return ParseOutcome::Rejected(
                Diagnostic { message: String::from_str("Unrecognized option:"), token: t.clone() },
            );
        }
        if filename.is_some() {
            return ParseOutcome::Rejected(
                Diagnostic { message: String::from_str("Extra argument:"), token: t.clone() },
            );
        }
        filename = Some(t.clone());
        proof {
            assert(whole.skip(i as int).skip(1) =~= whole.skip(i + 1));
        }
        i = i + 1;
    }
    proof {
        assert(whole.skip(i as int) =~= Seq::<Seq<char>>::empty());
    }
    ParseOutcome::Accepted(Options { filename, colorize })
}

} // verus!
