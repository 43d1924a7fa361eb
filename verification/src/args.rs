//! Construction of the argument vector handed to `bridge-cli`.
//!
//! The vector is built in a fixed order: `--dry-run` when requested, then
//! `--no-email` when requested, then `-i` followed by the input verbatim,
//! then `--config` followed by the configuration path verbatim when one is
//! present. Each value travels as one discrete argument element; nothing is
//! quoted, escaped or concatenated.

use vstd::prelude::*;

use crate::request::InvocationRequest;

verus! {

/// The argument vector for one invocation, as a sequence of character
/// sequences: flags first, then `-i` with the input, then the optional
/// `--config` pair.
pub open spec fn spec_args(
    input: Seq<char>,
    dry_run: bool,
    no_email: bool,
    config: Option<Seq<char>>,
) -> Seq<Seq<char>> {
    (if dry_run {
        seq!["--dry-run"@]
    } else {
        Seq::<Seq<char>>::empty()
    }) + (if no_email {
        seq!["--no-email"@]
    } else {
        Seq::<Seq<char>>::empty()
    }) + seq!["-i"@, input] + (match config {
        Option::Some(c) => seq!["--config"@, c],
        Option::None => Seq::<Seq<char>>::empty(),
    })
}

/// The argument vector that a given request translates to.
pub open spec fn request_args(req: &InvocationRequest) -> Seq<Seq<char>> {
    spec_args(req.input@, req.dry_run, req.no_email, req.config_view())
}

/// Build the argument vector for `req`.
pub fn build_args(req: &InvocationRequest) -> (args: Vec<String>)
    ensures
        args.deep_view() == request_args(req),
{
    let mut args: Vec<String> = Vec::new();
    if req.dry_run {
        args.push("--dry-run".to_owned());
    }
    if req.no_email {
        args.push("--no-email".to_owned());
    }
    args.push("-i".to_owned());
    args.push(req.input.clone());
    match &req.config_path {
        Option::Some(c) => {
            args.push("--config".to_owned());
            args.push(c.clone());
        },
        Option::None => {},
    }
    proof {
        assert(args.deep_view() =~= request_args(req));
    }
    args
}

/// How many elements of `s` equal `x`.
pub open spec fn count_matching(s: Seq<Seq<char>>, x: Seq<char>) -> nat
    decreases s.len(),
{
    if s.len() == 0 {
        0
    } else {
        (if s.last() == x {
            1nat
        } else {
            0nat
        }) + count_matching(s.drop_last(), x)
    }
}

proof fn lemma_count_matching_add(a: Seq<Seq<char>>, b: Seq<Seq<char>>, x: Seq<char>)
    ensures
        count_matching(a + b, x) == count_matching(a, x) + count_matching(b, x),
    decreases b.len(),
{
    if b.len() == 0 {
        assert(a + b =~= a);
    } else {
        assert((a + b).drop_last() =~= a + b.drop_last());
        assert((a + b).last() == b.last());
        lemma_count_matching_add(a, b.drop_last(), x);
    }
}

proof fn lemma_count_singleton(y: Seq<char>, x: Seq<char>)
    ensures
        count_matching(seq![y], x) == (if y == x {
            1nat
        } else {
            0nat
        }),
{
    assert(count_matching(Seq::<Seq<char>>::empty(), x) == 0);
    assert(seq![y].drop_last() =~= Seq::<Seq<char>>::empty());
    assert(seq![y].last() == y);
}

proof fn lemma_count_pair(y: Seq<char>, z: Seq<char>, x: Seq<char>)
    ensures
        count_matching(seq![y, z], x) == (if y == x {
            1nat
        } else {
            0nat
        }) + (if z == x {
            1nat
        } else {
            0nat
        }),
{
    assert(seq![y, z].drop_last() =~= seq![y]);
    lemma_count_singleton(y, x);
}

/// The four literals of the argument grammar are pairwise distinct (their
/// lengths already differ).
proof fn lemma_flag_literals_distinct()
    ensures
        "--dry-run"@ != "--no-email"@,
        "--dry-run"@ != "-i"@,
        "--dry-run"@ != "--config"@,
        "--no-email"@ != "-i"@,
        "--no-email"@ != "--config"@,
        "-i"@ != "--config"@,
{
    reveal_strlit("--dry-run");
    reveal_strlit("--no-email");
    reveal_strlit("-i");
    reveal_strlit("--config");
    assert("--dry-run"@.len() == 9);
    assert("--no-email"@.len() == 10);
    assert("-i"@.len() == 2);
    assert("--config"@.len() == 8);
}

/// How often each possible element occurs in the constructed vector,
/// chunk by chunk.
proof fn lemma_count_spec_args(
    input: Seq<char>,
    dry_run: bool,
    no_email: bool,
    config: Option<Seq<char>>,
    x: Seq<char>,
)
    ensures
        count_matching(spec_args(input, dry_run, no_email, config), x) == (if dry_run
            && "--dry-run"@ == x {
            1nat
        } else {
            0nat
        }) + (if no_email && "--no-email"@ == x {
            1nat
        } else {
            0nat
        }) + (if "-i"@ == x {
            1nat
        } else {
            0nat
        }) + (if input == x {
            1nat
        } else {
            0nat
        }) + (match config {
            Option::Some(c) => ((if "--config"@ == x {
                1nat
            } else {
                0nat
            }) + (if c == x {
                1nat
            } else {
                0nat
            })),
            Option::None => 0nat,
        }),
{
    let a1 = if dry_run {
        seq!["--dry-run"@]
    } else {
        Seq::<Seq<char>>::empty()
    };
    let a2 = if no_email {
        seq!["--no-email"@]
    } else {
        Seq::<Seq<char>>::empty()
    };
    let a3 = seq!["-i"@, input];
    let a4 = match config {
        Option::Some(c) => seq!["--config"@, c],
        Option::None => Seq::<Seq<char>>::empty(),
    };
    assert(spec_args(input, dry_run, no_email, config) == a1 + a2 + a3 + a4);
    lemma_count_matching_add(a1 + a2 + a3, a4, x);
    lemma_count_matching_add(a1 + a2, a3, x);
    lemma_count_matching_add(a1, a2, x);
    lemma_count_singleton("--dry-run"@, x);
    lemma_count_singleton("--no-email"@, x);
    lemma_count_pair("-i"@, input, x);
    match config {
        Option::Some(c) => lemma_count_pair("--config"@, c, x),
        Option::None => {},
    }
}

proof fn lemma_count_zero_absent(s: Seq<Seq<char>>, x: Seq<char>)
    requires
        count_matching(s, x) == 0,
    ensures
        forall|j: int| 0 <= j < s.len() ==> s[j] != x,
    decreases s.len(),
{
    if s.len() > 0 {
        lemma_count_zero_absent(s.drop_last(), x);
        assert forall|j: int| 0 <= j < s.len() implies s[j] != x by {
            if j < s.len() - 1 {
                assert(s.drop_last()[j] == s[j]);
            }
        }
    }
}

/// When a dry run is requested, `--dry-run` stands exactly once in the
/// vector, at the front, and an `-i` element stands after it. An input or
/// configuration value that is itself the text `--dry-run` would add a
/// second occurrence, so those are left out.
pub proof fn lemma_dry_run_flag(input: Seq<char>, no_email: bool, config: Option<Seq<char>>)
    requires
        input != "--dry-run"@,
        config matches Option::Some(c) ==> c != "--dry-run"@,
    ensures
        spec_args(input, true, no_email, config)[0] == "--dry-run"@,
        count_matching(spec_args(input, true, no_email, config), "--dry-run"@) == 1,
        spec_args(input, true, no_email, config)[if no_email {
            2int
        } else {
            1int
        }] == "-i"@,
{
    lemma_flag_literals_distinct();
    lemma_count_spec_args(input, true, no_email, config, "--dry-run"@);
}

/// When mail is suppressed, `--no-email` stands exactly once in the vector,
/// directly before the `-i` element. An input or configuration value that
/// is itself the text `--no-email` would add a second occurrence, so those
/// are left out.
pub proof fn lemma_no_email_flag(input: Seq<char>, dry_run: bool, config: Option<Seq<char>>)
    requires
        input != "--no-email"@,
        config matches Option::Some(c) ==> c != "--no-email"@,
    ensures
        spec_args(input, dry_run, true, config)[if dry_run {
            1int
        } else {
            0int
        }] == "--no-email"@,
        count_matching(spec_args(input, dry_run, true, config), "--no-email"@) == 1,
        spec_args(input, dry_run, true, config)[if dry_run {
            2int
        } else {
            1int
        }] == "-i"@,
{
    lemma_flag_literals_distinct();
    lemma_count_spec_args(input, dry_run, true, config, "--no-email"@);
}

/// Every argument vector holds `-i` immediately followed by the input,
/// verbatim: whatever the input text holds travels unchanged as the very
/// next element.
pub proof fn lemma_input_follows_marker(
    input: Seq<char>,
    dry_run: bool,
    no_email: bool,
    config: Option<Seq<char>>,
)
    ensures
        ({
            let args = spec_args(input, dry_run, no_email, config);
            let k = (if dry_run {
                1int
            } else {
                0int
            }) + (if no_email {
                1int
            } else {
                0int
            });
            &&& 0 <= k
            &&& k + 1 < args.len()
            &&& args[k] == "-i"@
            &&& args[k + 1] == input
        }),
{
}

/// When a configuration path is present, the final two elements of the
/// vector are `--config` followed by that path, verbatim.
pub proof fn lemma_config_trailing(input: Seq<char>, dry_run: bool, no_email: bool, c: Seq<char>)
    ensures
        ({
            let args = spec_args(input, dry_run, no_email, Option::Some(c));
            &&& args.len() >= 4
            &&& args[args.len() - 2] == "--config"@
            &&& args[args.len() - 1] == c
        }),
{
}

/// When no configuration path is present, no `--config` element appears
/// anywhere in the vector. An input that is itself the text `--config`
/// would appear as an element, so that input is left out.
pub proof fn lemma_config_absent(input: Seq<char>, dry_run: bool, no_email: bool)
    requires
        input != "--config"@,
    ensures
        forall|j: int|
            0 <= j < spec_args(input, dry_run, no_email, Option::None).len() ==> spec_args(
                input,
                dry_run,
                no_email,
                Option::None,
            )[j] != "--config"@,
{
    lemma_flag_literals_distinct();
    lemma_count_spec_args(input, dry_run, no_email, Option::None, "--config"@);
    lemma_count_zero_absent(spec_args(input, dry_run, no_email, Option::None), "--config"@);
}

} // verus!
