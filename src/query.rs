//! Reading the outcome of one external command.

use vstd::prelude::*;
use vstd::utf8::{decode_utf8, valid_utf8};

verus! {

/// What came back from running one external command.
pub enum QueryOutcome {
    /// The process ran to completion with the given exit status and output.
    Exited { success: bool, stdout: Vec<u8> },
    /// The process could not be started, or it missed its deadline.
    NotRun,
}

/// Unicode's `White_Space` property.
pub open spec fn is_white_space(c: char) -> bool {
    let v = c as u32;
    ||| 0x09 <= v <= 0x0D
    ||| v == 0x20 || v == 0x85 || v == 0xA0 || v == 0x1680
    ||| 0x2000 <= v <= 0x200A
    ||| v == 0x2028 || v == 0x2029 || v == 0x202F || v == 0x205F || v == 0x3000
}

/// The characters of `s` that are not white space, in order.
pub open spec fn strip_white_space(s: Seq<char>) -> Seq<char>
    decreases s.len(),
{
    if s.len() == 0 {
        s
    } else {
        let rest = strip_white_space(s.drop_last());
        if is_white_space(s.last()) {
            rest
        } else {
            rest.push(s.last())
        }
    }
}

/// The value a query yields: the output of a successful run, decoded and
/// stripped of all white space, unless nothing is left of it.
pub open spec fn query_value(o: QueryOutcome) -> Option<Seq<char>> {
    match o {
        QueryOutcome::Exited { success, stdout } => {
            if success && valid_utf8(stdout@) && strip_white_space(decode_utf8(stdout@)).len() > 0 {
                Some(strip_white_space(decode_utf8(stdout@)))
            } else {
                None
            }
        },
        QueryOutcome::NotRun => None,
    }
}

/// The process ran and wrote nothing at all, whatever its exit status.
pub open spec fn printed_nothing(o: QueryOutcome) -> bool {
    o matches QueryOutcome::Exited { stdout, .. } && stdout@.len() == 0
}

/// The process ran and exited with status zero.
pub open spec fn exited_cleanly(o: QueryOutcome) -> bool {
    o matches QueryOutcome::Exited { success, .. } && success
}

/// The characters of an optional string.
pub open spec fn text_of(s: Option<String>) -> Option<Seq<char>> {
    match s {
        Some(t) => Some(t@),
        None => None,
    }
}

pub proof fn lemma_strip_leaves_no_white_space(s: Seq<char>)
    ensures
        forall|i: int|
            0 <= i < strip_white_space(s).len() ==> !is_white_space(
                #[trigger] strip_white_space(s)[i],
            ),
    decreases s.len(),
{
    if s.len() > 0 {
        let rest = strip_white_space(s.drop_last());
        lemma_strip_leaves_no_white_space(s.drop_last());
        if !is_white_space(s.last()) {
            assert forall|i: int| 0 <= i < rest.len() + 1 implies !is_white_space(
                #[trigger] rest.push(s.last())[i],
            ) by {
                if i < rest.len() {
                    assert(rest.push(s.last())[i] == rest[i]);
                }
            }
        }
    }
}

/// Relies on `core::str::from_utf8`: `Ok` exactly when the bytes are valid
/// UTF-8, and then the text they encode.
#[verifier::external_body]
fn utf8_text(bytes: &[u8]) -> (r: Option<&str>)
    ensures
        r is Some <==> valid_utf8(bytes@),
        r matches Some(t) ==> t@ == decode_utf8(bytes@),
{
    core::str::from_utf8(bytes).ok()
}

/// Relies on `String::push`: appends one character at the end.
#[verifier::external_body]
pub(crate) fn push_char(s: &mut String, c: char)
    ensures
        final(s)@ == old(s)@.push(c),
{
    s.push(c)
}

/// Whether `c` is white space, as `char::is_whitespace` decides it.
pub fn is_white_space_char(c: char) -> (r: bool)
    ensures
        r == is_white_space(c),
{
    let v = c as u32;
    (0x09 <= v && v <= 0x0D) || v == 0x20 || v == 0x85 || v == 0xA0 || v == 0x1680 || (0x2000
        <= v && v <= 0x200A) || v == 0x2028 || v == 0x2029 || v == 0x202F || v == 0x205F || v
        == 0x3000
}

/// Copies `s` without its white space.
pub fn remove_white_space(s: &str) -> (r: String)
    ensures
        r@ == strip_white_space(s@),
{
    let n = s.unicode_len();
    let mut r = String::new();
    let mut i: usize = 0;
    while i < n
        invariant
            n == s@.len(),
            i <= n,
            r@ == strip_white_space(s@.take(i as int)),
        decreases n - i,
    {
        let c = s.get_char(i);
        assert(s@.take(i as int + 1).drop_last() =~= s@.take(i as int));
        assert(s@.take(i as int + 1).last() == c);
        if !is_white_space_char(c) {
            push_char(&mut r, c);
        }
        i += 1;
    }
    assert(s@.take(n as int) =~= s@);
    r
}

/// The value of a query: `None` when the process did not run, exited with a
/// non-zero status, wrote something that is not UTF-8, or wrote only white
/// space; else its output with every white-space character removed.
pub fn parse_output(outcome: &QueryOutcome) -> (r: Option<String>)
    ensures
        text_of(r) == query_value(*outcome),
        !exited_cleanly(*outcome) ==> r is None,
        r matches Some(v) ==> v@.len() > 0 && forall|i: int|
            0 <= i < v@.len() ==> !is_white_space(#[trigger] v@[i]),
{
    match outcome {
        QueryOutcome::Exited { success, stdout } => {
            if !*success {
                return None;
            }
            match utf8_text(stdout.as_slice()) {
                Some(text) => {
                    let compact = remove_white_space(text);
                    proof {
                        lemma_strip_leaves_no_white_space(text@);
                    }
                    if compact.unicode_len() == 0 {
                        None
                    } else {
                        Some(compact)
                    }
                },
                None => None,
            }
        },
        QueryOutcome::NotRun => None,
    }
}

/// Whether the process ran and wrote nothing at all.
pub fn is_silent(outcome: &QueryOutcome) -> (r: bool)
    ensures
        r == printed_nothing(*outcome),
{
    match outcome {
        QueryOutcome::Exited { stdout, .. } => stdout.len() == 0,
        QueryOutcome::NotRun => false,
    }
}

/// Whether the process ran and exited with status zero.
pub fn succeeded(outcome: &QueryOutcome) -> (r: bool)
    ensures
        r == exited_cleanly(*outcome),
{
    match outcome {
        QueryOutcome::Exited { success, .. } => *success,
        QueryOutcome::NotRun => false,
    }
}

} // verus!
