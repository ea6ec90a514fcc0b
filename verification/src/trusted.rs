//! The calls that leave the verified code.
//!
//! Each function here hands its arguments to a function of another crate or
//! of the standard library. Its contract is believed, not proved: it says
//! what the called function's documentation and source say. Where the result
//! is a fixed function of the arguments that takes pages to write down, the
//! contract gives it a name, and adds at most a short fact that the source
//! plainly shows.

use vstd::prelude::*;
use crate::text::texts;
use crate::urls::ParsedUrl;
use crate::variables::{pairs, variable_or_empty};

verus! {

/// The lower-case form of a text by the Unicode rules that
/// `str::to_lowercase` follows.
pub uninterp spec fn lowercased(text: Seq<char>) -> Seq<char>;

/// What `url::Url::parse` makes of `input`: nothing where it reports an
/// error, else the serialization of the URL and, unless the URL cannot be a
/// base, the segments of its path in order.
pub uninterp spec fn url_parts(input: Seq<char>) -> Option<(Seq<char>, Option<Seq<Seq<char>>>)>;

/// The text that `humansize::format_size` writes for a number of bytes with
/// its `DECIMAL` options: the number scaled by powers of 1000, then a unit.
pub uninterp spec fn decimal_size_text(bytes: u64) -> Seq<char>;

/// Calls `str::to_lowercase`, which returns the lower-case equivalent of a
/// string as a new `String`. The contract names the result.
#[verifier::external_body]
pub(crate) fn lowercase(text: &str) -> (out: String)
    ensures
        out@ == lowercased(text@),
{
    text.to_lowercase()
}

/// Whether no entry holds the character `/`.
pub open spec fn no_slash(segments: Seq<Seq<char>>) -> bool {
    forall|i: int| 0 <= i < segments.len() ==> !(#[trigger] segments[i]).contains('/')
}

/// Calls `url::Url::parse` and, on the URL that it returns, `to_string` and
/// `path_segments`. `parse` returns an error for a text that is no absolute
/// URL; `to_string` gives the serialization; `path_segments` gives `None` for
/// a URL that cannot be a base and else the segments of the path, which it
/// gets by splitting the path at every `/`. The contract names the three
/// results together, and says that no segment holds a `/`.
#[verifier::external_body]
pub(crate) fn parse_url(input: &str) -> (out: Option<ParsedUrl>)
    ensures
        out matches Some(p) && p.path_segments matches Some(segments) ==> no_slash(
            texts(segments@),
        ),
        match out {
            Some(p) => url_parts(input@) == Some(
                (
                    p.href@,
                    match p.path_segments {
                        Some(segments) => Some(texts(segments@)),
                        None => None,
                    },
                ),
            ),
            None => url_parts(input@) is None,
        },
{
    match url::Url::parse(input) {
        Ok(parsed) => Some(
            ParsedUrl {
                href: parsed.to_string(),
                path_segments: parsed.path_segments().map(
                    |segments| segments.map(|segment| segment.to_string()).collect(),
                ),
            },
        ),
        Err(_) => None,
    }
}

/// Calls `humansize::format_size` with the options `humansize::DECIMAL`. The
/// contract names the result.
#[verifier::external_body]
pub(crate) fn format_decimal_size(bytes: u64) -> (out: String)
    ensures
        out@ == decimal_size_text(bytes),
{
    humansize::format_size(bytes, humansize::DECIMAL)
}

/// Calls `rand::random_range` on the range `low..high`, which draws a value
/// of the range from the generator of the thread and panics on an empty
/// range. The contract says that the value lies in the range.
#[verifier::external_body]
pub(crate) fn random_between(low: u64, high: u64) -> (out: u64)
    requires
        low < high,
    ensures
        low <= out < high,
{
    rand::random_range(low..high)
}

/// What `shellexpand::tilde` can make of `input`: `output` is `input`
/// itself, or `input` starts with `~` followed by nothing, by `/` or by `\`
/// and `output` is some home directory followed by what follows the `~`.
pub open spec fn tilde_expansion(input: Seq<char>, output: Seq<char>) -> bool {
    ||| output == input
    ||| {
        &&& input.len() > 0
        &&& input[0] == '~'
        &&& input.len() > 1 ==> input[1] == '/' || input[1] == '\\'
        &&& output.len() + 1 >= input.len()
        &&& output.skip(output.len() + 1 - input.len()) == input.skip(1)
    }
}

/// Calls `shellexpand::tilde`, which replaces a leading `~` that stands alone
/// or before a path separator by the home directory of the user, if there is
/// one, and returns every other input as it is. The contract says that much;
/// which directory it is depends on the machine.
#[verifier::external_body]
pub(crate) fn expand_tilde(input: &str) -> (out: String)
    ensures
        tilde_expansion(input@, out@),
{
    shellexpand::tilde(input).to_string()
}

/// What `shellexpand::full_with_context_no_errors` makes of `input` where the
/// home directory is `home` and every variable has the value that `vars`
/// gives it, the empty text where they give none: each `$NAME` and `${NAME}`
/// replaced by the value of the variable, then a leading `~` by the home
/// directory.
pub uninterp spec fn full_expansion(
    input: Seq<char>,
    home: Option<Seq<char>>,
    vars: Seq<(Seq<char>, Seq<char>)>,
) -> Seq<char>;

/// The text of an optional string.
pub open spec fn text_of(text: Option<&str>) -> Option<Seq<char>> {
    match text {
        Some(t) => Some(t@),
        None => None,
    }
}

/// The inputs that are expanded alike on every machine: all but those that
/// start with `~` followed by a backslash, which only some machines take for
/// a path separator, or by a `$`, whose value may start with one.
pub open spec fn expands_alike_everywhere(input: Seq<char>) -> bool {
    !(input.len() >= 2 && input[0] == '~' && (input[1] == '\\' || input[1] == '$'))
}

/// Calls `shellexpand::full_with_context_no_errors`, which replaces the
/// variables of the input by what the second closure answers and then a
/// leading `~` by what the first closure answers. The first closure hands out
/// `home`; the second looks the variable up with
/// [`variable_or_empty`](crate::variables::variable_or_empty). The contract
/// names the result, for the inputs on which it does not depend on the
/// machine.
#[verifier::external_body]
pub(crate) fn expand_full(input: &str, home: Option<&str>, vars: &Vec<(String, String)>) -> (out:
    String)
    ensures
        expands_alike_everywhere(input@) ==> out@ == full_expansion(
            input@,
            text_of(home),
            pairs(vars@),
        ),
{
    shellexpand::full_with_context_no_errors(
        input,
        || home,
        |name: &str| Some(variable_or_empty(vars, name)),
    ).to_string()
}

} // verus!
