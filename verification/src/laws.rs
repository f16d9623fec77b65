//! Laws of the interpreter, stated over the scan model and proved once for
//! all token lists.  Each law speaks of `interpret`, the model that
//! `parse_tokens` is proved to return exactly.

use vstd::prelude::*;

use crate::options::{
    color_of, interpret, scan, Colorize, DiagnosticModel, Interpretation, OptionsModel,
};

verus! {

/// A scan that accepts a token sequence consumes it in whole steps, so a
/// longer list beginning with that sequence scans on, over the rest of the
/// list, from the configuration the accepted prefix built.
pub proof fn lemma_scan_append(
    a: Seq<Seq<char>>,
    b: Seq<Seq<char>>,
    filename: Option<Seq<char>>,
    colorize: Colorize,
)
    ensures
        scan(a, filename, colorize) matches Interpretation::Accepted(o) ==> scan(
            a + b,
            filename,
            colorize,
        ) == scan(b, o.filename, o.colorize),
    decreases a.len(),
{
    if scan(a, filename, colorize) is Accepted {
        if a.len() == 0 {
            assert(a + b =~= b);
        } else {
            let t = a[0];
            assert((a + b)[0] == t);
            if t.len() == 0 {
                // rejected: nothing to show
            } else if t == "-h"@ || t == "--help"@ {
                // help: nothing to show
            } else if t == "--color"@ {
                if a.len() == 1 {
                    // rejected: nothing to show
                } else if color_of(a[1]) is Some {
                    assert((a + b)[1] == a[1]);
                    assert(a.skip(2) + b =~= (a + b).skip(2));
                    lemma_scan_append(a.skip(2), b, filename, color_of(a[1])->0);
                }
            } else if t[0] == '-' {
                // rejected: nothing to show
            } else if filename is Some {
                // rejected: nothing to show
            } else {
                assert(a.skip(1) + b =~= (a + b).skip(1));
                lemma_scan_append(a.skip(1), b, Some(t), colorize);
            }
        }
    }
}

/// An empty invocation, without even a program name, asks only for usage.
pub proof fn lemma_empty_invocation()
    ensures
        interpret(Seq::<Seq<char>>::empty()) == Interpretation::NoTokens,
{
}

/// A bare program name overrides nothing: no input file, default policy.
pub proof fn lemma_program_name_only(tokens: Seq<Seq<char>>)
    requires
        tokens.len() == 1,
    ensures
        (interpret(tokens) == Interpretation::Accepted(
            OptionsModel { filename: None, colorize: Colorize::Auto },
        )),
{
    assert(tokens.skip(1) =~= Seq::<Seq<char>>::empty());
}

/// A help flag short-circuits: after any prefix of valid tokens, `-h` or
/// `--help` turns the whole invocation into a help request, whatever follows.
pub proof fn lemma_help_short_circuits(
    prog: Seq<char>,
    pre: Seq<Seq<char>>,
    h: Seq<char>,
    rest: Seq<Seq<char>>,
)
    requires
        h == "-h"@ || h == "--help"@,
        scan(pre, None, Colorize::Auto) is Accepted,
    ensures
        interpret(seq![prog] + pre + seq![h] + rest) == Interpretation::Help,
{
    reveal_strlit("-h");
    reveal_strlit("--help");
    let tail = seq![h] + rest;
    assert((seq![prog] + pre + seq![h] + rest).skip(1) =~= pre + tail);
    lemma_scan_append(pre, tail, None, Colorize::Auto);
    assert(tail[0] == h);
}

/// `--color` with a recognized literal yields the corresponding policy.
pub proof fn lemma_color_valid(prog: Seq<char>, v: Seq<char>)
    requires
        color_of(v) is Some,
    ensures
        (interpret(seq![prog, "--color"@, v]) == Interpretation::Accepted(
            OptionsModel { filename: None, colorize: color_of(v)->0 },
        )),
{
    reveal_strlit("-h");
    reveal_strlit("--help");
    reveal_strlit("--color");
    let toks = seq![prog, "--color"@, v];
    assert(toks.skip(1) =~= seq!["--color"@, v]);
    assert(toks.skip(1).skip(2) =~= Seq::<Seq<char>>::empty());
    assert(scan(toks.skip(1), None, Colorize::Auto) == scan(
        Seq::<Seq<char>>::empty(),
        None,
        color_of(v)->0,
    ));
}

/// `--color` with any other value is rejected, naming that value.
pub proof fn lemma_color_invalid(prog: Seq<char>, v: Seq<char>)
    requires
        color_of(v) is None,
    ensures
        (interpret(seq![prog, "--color"@, v]) == Interpretation::Rejected(
            DiagnosticModel { message: "Unrecognized option: --color"@, token: v },
        )),
{
    reveal_strlit("-h");
    reveal_strlit("--help");
    reveal_strlit("--color");
    let toks = seq![prog, "--color"@, v];
    assert(toks.skip(1) =~= seq!["--color"@, v]);
}

/// `--color` as the final token is rejected, naming the flag itself.
pub proof fn lemma_color_missing_value(prog: Seq<char>, pre: Seq<Seq<char>>)
    requires
        scan(pre, None, Colorize::Auto) is Accepted,
    ensures
        (interpret(seq![prog] + pre + seq!["--color"@]) == Interpretation::Rejected(
            DiagnosticModel { message: "Unrecognized option:"@, token: "--color"@ },
        )),
{
    reveal_strlit("-h");
    reveal_strlit("--help");
    reveal_strlit("--color");
    let tail = seq!["--color"@];
    assert((seq![prog] + pre + tail).skip(1) =~= pre + tail);
    lemma_scan_append(pre, tail, None, Colorize::Auto);
    assert(tail[0] == "--color"@);
}

/// Exactly one non-flag token names the input file.
pub proof fn lemma_single_positional(prog: Seq<char>, t: Seq<char>)
    requires
        t.len() > 0,
        t[0] != '-',
    ensures
        (interpret(seq![prog, t]) == Interpretation::Accepted(
            OptionsModel { filename: Some(t), colorize: Colorize::Auto },
        )),
{
    reveal_strlit("-h");
    reveal_strlit("--help");
    reveal_strlit("--color");
    let toks = seq![prog, t];
    assert(toks.skip(1) =~= seq![t]);
    assert(toks.skip(1).skip(1) =~= Seq::<Seq<char>>::empty());
    assert(scan(toks.skip(1), None, Colorize::Auto) == scan(
        Seq::<Seq<char>>::empty(),
        Some(t),
        Colorize::Auto,
    ));
}

/// A second non-flag token is an extra argument, and the rejection names the
/// second token, not the first.
pub proof fn lemma_extra_argument(prog: Seq<char>, t1: Seq<char>, t2: Seq<char>)
    requires
        t1.len() > 0,
        t1[0] != '-',
        t2.len() > 0,
        t2[0] != '-',
    ensures
        (interpret(seq![prog, t1, t2]) == Interpretation::Rejected(
            DiagnosticModel { message: "Extra argument:"@, token: t2 },
        )),
{
    reveal_strlit("-h");
    reveal_strlit("--help");
    reveal_strlit("--color");
    let toks = seq![prog, t1, t2];
    assert(toks.skip(1) =~= seq![t1, t2]);
    assert(toks.skip(1).skip(1) =~= seq![t2]);
    assert(scan(toks.skip(1), None, Colorize::Auto) == scan(seq![t2], Some(t1), Colorize::Auto));
}

/// An empty token after any prefix of valid tokens is an unrecognized
/// argument, whatever follows it.
pub proof fn lemma_empty_token(prog: Seq<char>, pre: Seq<Seq<char>>, rest: Seq<Seq<char>>)
    requires
        scan(pre, None, Colorize::Auto) is Accepted,
    ensures
        (interpret(seq![prog] + pre + seq![""@] + rest) == Interpretation::Rejected(
            DiagnosticModel { message: "Unrecognized argument:"@, token: ""@ },
        )),
{
    reveal_strlit("");
    let tail = seq![""@] + rest;
    assert((seq![prog] + pre + seq![""@] + rest).skip(1) =~= pre + tail);
    lemma_scan_append(pre, tail, None, Colorize::Auto);
    assert(tail[0] == ""@);
}

/// A token that begins with `-` and is none of the recognized flags is an
/// unrecognized option.
pub proof fn lemma_unknown_option(prog: Seq<char>, t: Seq<char>)
    requires
        t.len() > 0,
        t[0] == '-',
        t != "-h"@,
        t != "--help"@,
        t != "--color"@,
    ensures
        (interpret(seq![prog, t]) == Interpretation::Rejected(
            DiagnosticModel { message: "Unrecognized option:"@, token: t },
        )),
{
    let toks = seq![prog, t];
    assert(toks.skip(1) =~= seq![t]);
}

/// Of a repeated `--color`, the last occurrence wins.
pub proof fn lemma_color_last_wins(prog: Seq<char>, v1: Seq<char>, v2: Seq<char>)
    requires
        color_of(v1) is Some,
        color_of(v2) is Some,
    ensures
        (interpret(seq![prog, "--color"@, v1, "--color"@, v2]) == Interpretation::Accepted(
            OptionsModel { filename: None, colorize: color_of(v2)->0 },
        )),
{
    reveal_strlit("-h");
    reveal_strlit("--help");
    reveal_strlit("--color");
    let toks = seq![prog, "--color"@, v1, "--color"@, v2];
    let pre = seq!["--color"@, v1];
    let tail = seq!["--color"@, v2];
    assert(toks.skip(1) =~= pre + tail);
    assert(pre.skip(2) =~= Seq::<Seq<char>>::empty());
    assert(scan(pre, None, Colorize::Auto) == scan(
        Seq::<Seq<char>>::empty(),
        None,
        color_of(v1)->0,
    ));
    lemma_scan_append(pre, tail, None, Colorize::Auto);
    assert(tail.skip(2) =~= Seq::<Seq<char>>::empty());
    assert(scan(tail, None, color_of(v1)->0) == scan(
        Seq::<Seq<char>>::empty(),
        None,
        color_of(v2)->0,
    ));
}

} // verus!

