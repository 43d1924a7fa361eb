//! Translation of a finished child process's raw outcome into the
//! structured result handed back to the caller.
//!
//! The captured byte streams are decoded as UTF-8; a stream whose bytes are
//! not valid UTF-8 becomes empty text rather than failing the call. The exit
//! status becomes its decimal text, or empty text when the process was ended
//! by a signal and reported no code. Exactly one result is produced per
//! finished process; the only failure the adapter itself knows is that the
//! process could not be started at all.

use vstd::prelude::*;
use vstd::string::StringExecFns;
use vstd::utf8::decode_utf8;
use vstd::utf8::valid_utf8;

verus! {

/// The structured outcome of one adapter call. Every field is always
/// present; absence (no output, no exit code) is represented by empty text.
pub struct InvocationResult {
    /// The child's standard output, decoded as UTF-8, or empty text.
    pub stdout: String,
    /// The child's standard error, decoded as UTF-8, or empty text.
    pub stderr: String,
    /// The child's exit code in decimal, or empty text after a signal.
    pub status: String,
}

/// The text a captured stream decodes to: the UTF-8 decoding when the bytes
/// are valid UTF-8, and empty text otherwise. Garbled tool output is
/// deliberately replaced by empty-but-available text instead of failing the
/// whole call, which conflates "no output" with "undecodable output".
pub open spec fn decoded_or_empty(bytes: Seq<u8>) -> Seq<char> {
    if valid_utf8(bytes) {
        decode_utf8(bytes)
    } else {
        Seq::<char>::empty()
    }
}

/// The character for one decimal digit.
pub open spec fn digit_char(d: nat) -> char {
    if d == 0 {
        '0'
    } else if d == 1 {
        '1'
    } else if d == 2 {
        '2'
    } else if d == 3 {
        '3'
    } else if d == 4 {
        '4'
    } else if d == 5 {
        '5'
    } else if d == 6 {
        '6'
    } else if d == 7 {
        '7'
    } else if d == 8 {
        '8'
    } else {
        '9'
    }
}

/// The decimal digits of `n`, most significant first, with no leading zero
/// except for `n == 0` itself.
pub open spec fn dec_digits(n: nat) -> Seq<char>
    decreases n,
{
    if n < 10 {
        seq![digit_char(n)]
    } else {
        dec_digits(n / 10) + seq![digit_char(n % 10)]
    }
}

/// The text form of an exit status: the decimal exit code, sign included,
/// when the process exited with one, and empty text when it was ended by a
/// signal. The empty text deliberately mirrors the absent code rather than
/// introducing a distinct marker.
pub open spec fn status_text(status: Option<i32>) -> Seq<char> {
    match status {
        Option::Some(code) => if code >= 0 {
            dec_digits(code as nat)
        } else {
            seq!['-'] + dec_digits((-(code as int)) as nat)
        },
        Option::None => Seq::<char>::empty(),
    }
}

/// Relies on `String::from_utf8`: it returns `Ok` exactly when the bytes
/// are valid UTF-8, then carrying their decoding, and `Err` otherwise,
/// without panicking.
#[verifier::external_body]
fn utf8_text(bytes: Vec<u8>) -> (r: Option<String>)
    ensures
        r is Some <==> valid_utf8(bytes@),
        r matches Some(s) ==> s@ == decode_utf8(bytes@),
{
    String::from_utf8(bytes).ok()
}

/// Decode one captured stream, substituting empty text for bytes that are
/// not valid UTF-8.
pub fn decode_stream(bytes: Vec<u8>) -> (s: String)
    ensures
        s@ == decoded_or_empty(bytes@),
{
    match utf8_text(bytes) {
        Option::Some(s) => s,
        Option::None => String::new(),
    }
}

/// The one-character text for a decimal digit.
fn digit_str(d: u64) -> (s: &'static str)
    requires
        d < 10,
    ensures
        s@ == seq![digit_char(d as nat)],
{
    proof {
        reveal_strlit("0");
        reveal_strlit("1");
        reveal_strlit("2");
        reveal_strlit("3");
        reveal_strlit("4");
        reveal_strlit("5");
        reveal_strlit("6");
        reveal_strlit("7");
        reveal_strlit("8");
        reveal_strlit("9");
    }
    if d == 0 {
        proof {
            assert("0"@ =~= seq![digit_char(d as nat)]);
        }
        "0"
    } else if d == 1 {
        proof {
            assert("1"@ =~= seq![digit_char(d as nat)]);
        }
        "1"
    } else if d == 2 {
        proof {
            assert("2"@ =~= seq![digit_char(d as nat)]);
        }
        "2"
    } else if d == 3 {
        proof {
            assert("3"@ =~= seq![digit_char(d as nat)]);
        }
        "3"
    } else if d == 4 {
        proof {
            assert("4"@ =~= seq![digit_char(d as nat)]);
        }
        "4"
    } else if d == 5 {
        proof {
            assert("5"@ =~= seq![digit_char(d as nat)]);
        }
        "5"
    } else if d == 6 {
        proof {
            assert("6"@ =~= seq![digit_char(d as nat)]);
        }
        "6"
    } else if d == 7 {
        proof {
            assert("7"@ =~= seq![digit_char(d as nat)]);
        }
        "7"
    } else if d == 8 {
        proof {
            assert("8"@ =~= seq![digit_char(d as nat)]);
        }
        "8"
    } else {
        proof {
            assert("9"@ =~= seq![digit_char(d as nat)]);
        }
        "9"
    }
}

/// Append the decimal digits of `n` to `out`, most significant first.
fn append_dec_digits(n: u64, out: &mut String)
    ensures
        final(out)@ == old(out)@ + dec_digits(n as nat),
    decreases n,
{
    if n >= 10 {
        append_dec_digits(n / 10, out);
    }
    let d = digit_str(n % 10);
    out.append(d);
    proof {
        if n >= 10 {
            assert(old(out)@ + dec_digits((n / 10) as nat) + seq![digit_char((n % 10) as nat)]
                =~= old(out)@ + dec_digits(n as nat));
        } else {
            assert(old(out)@ + seq![digit_char((n % 10) as nat)] =~= old(out)@ + dec_digits(
                n as nat,
            ));
        }
    }
}

/// Render an exit status as text: the decimal exit code, or empty text when
/// the process reported none.
pub fn status_code_text(status: Option<i32>) -> (s: String)
    ensures
        s@ == status_text(status),
{
    match status {
        Option::Some(code) => {
            let mut out = String::new();
            if code >= 0 {
                append_dec_digits(code as u64, &mut out);
                proof {
                    assert(out@ =~= status_text(status));
                }
            } else {
                out.append("-");
                let magnitude: u64 = (-(code as i64)) as u64;
                append_dec_digits(magnitude, &mut out);
                proof {
                    reveal_strlit("-");
                    assert(magnitude as nat == (-(code as int)) as nat);
                    assert(out@ =~= status_text(status));
                }
            }
            out
        },
        Option::None => String::new(),
    }
}

/// Translate the raw outcome of a finished child process — its captured
/// output bytes and its exit status — into the structured result.
pub fn interpret_output(stdout: Vec<u8>, stderr: Vec<u8>, status: Option<i32>) -> (r:
    InvocationResult)
    ensures
        r.stdout@ == decoded_or_empty(stdout@),
        r.stderr@ == decoded_or_empty(stderr@),
        r.status@ == status_text(status),
{
    InvocationResult {
        stdout: decode_stream(stdout),
        stderr: decode_stream(stderr),
        status: status_code_text(status),
    }
}

/// The error text reported when the tool could not be started: a fixed
/// prefix followed by the operating system's own description.
pub fn spawn_failure_message(detail: &str) -> (m: String)
    ensures
        m@ == "failed to spawn bridge-cli: "@ + detail@,
{
    let mut m = "failed to spawn bridge-cli: ".to_owned();
    m.append(detail);
    m
}

/// Every spawn-failure message begins with the text `failed to spawn`,
/// whatever description the operating system supplies.
pub proof fn lemma_spawn_message_names_spawn(detail: Seq<char>)
    ensures
        ("failed to spawn bridge-cli: "@ + detail).len() >= "failed to spawn"@.len(),
        ("failed to spawn bridge-cli: "@ + detail).subrange(
            0,
            "failed to spawn"@.len() as int,
        ) == "failed to spawn"@,
{
    reveal_strlit("failed to spawn bridge-cli: ");
    reveal_strlit("failed to spawn");
    assert(("failed to spawn bridge-cli: "@ + detail).subrange(0, "failed to spawn"@.len() as int)
        =~= "failed to spawn"@);
}

} // verus!
