//! URLs as the library reads them: the normal form of a URL and the segments
//! of its path, as an outside parser reports them, and what follows from
//! them: the name of the file that a URL is downloaded to, and the URLs of a
//! list that can be downloaded at all.

use vstd::prelude::*;
use crate::text::{texts, trim, trimmed};
use crate::trusted::{no_slash, parse_url, url_parts};

verus! {

/// What the library reads of a parsed URL.
#[derive(Clone, Debug, PartialEq, Eq)]
pub struct ParsedUrl {
    /// The URL in its normal form.
    pub href: String,
    /// The segments of its path, for a URL that has such a path.
    pub path_segments: Option<Vec<String>>,
}

/// The mathematical value of a [`ParsedUrl`].
pub ghost struct ParsedUrlView {
    pub href: Seq<char>,
    pub path_segments: Option<Seq<Seq<char>>>,
}

impl View for ParsedUrl {
    type V = ParsedUrlView;

    open spec fn view(&self) -> ParsedUrlView {
        ParsedUrlView {
            href: self.href@,
            path_segments: match self.path_segments {
                Some(segments) => Some(texts(segments@)),
                None => None,
            },
        }
    }
}

/// What parsing `input` as a URL gives, if it can be parsed.
pub open spec fn parsed(input: Seq<char>) -> Option<ParsedUrlView> {
    match url_parts(input) {
        Some((href, path_segments)) => Some(ParsedUrlView { href, path_segments }),
        None => None,
    }
}

/// The normal form of `input` as a URL, if it can be parsed.
pub open spec fn normal_form(input: Seq<char>) -> Option<Seq<char>> {
    match parsed(input) {
        Some(p) => Some(p.href),
        None => None,
    }
}

/// The name of the file for a URL of which nothing better is known.
pub open spec fn fallback_filename() -> Seq<char> {
    "downloaded_file"@
}

/// The name of the file that a URL is downloaded to, given what parsing the
/// URL gave: the last segment of its path, or the fallback name where the URL
/// could not be parsed or has no such path.
pub open spec fn filename_in(parsed: Option<ParsedUrlView>) -> Seq<char> {
    match parsed {
        Some(p) => match p.path_segments {
            Some(segments) => if segments.len() > 0 {
                segments.last()
            } else {
                fallback_filename()
            },
            None => fallback_filename(),
        },
        None => fallback_filename(),
    }
}

/// The mathematical value of what parsing gave.
pub open spec fn view_of(parsed: Option<ParsedUrl>) -> Option<ParsedUrlView> {
    match parsed {
        Some(p) => Some(p@),
        None => None,
    }
}

/// Whether no segment of the path holds a `/`, as is the case for every URL
/// that the parser gave.
pub open spec fn plain_segments(parsed: Option<ParsedUrlView>) -> bool {
    match parsed {
        Some(p) => match p.path_segments {
            Some(segments) => no_slash(segments),
            None => true,
        },
        None => true,
    }
}

/// The fallback name holds no `/`.
pub proof fn lemma_fallback_filename_is_plain()
    ensures
        !fallback_filename().contains('/'),
{
    reveal_strlit("downloaded_file");
    let name = fallback_filename();
    assert(name.len() == 15);
    assert forall|i: int| 0 <= i < name.len() implies name[i] != '/' by {
        if i == 0 {
        } else if i == 1 {
        } else if i == 2 {
        } else if i == 3 {
        } else if i == 4 {
        } else if i == 5 {
        } else if i == 6 {
        } else if i == 7 {
        } else if i == 8 {
        } else if i == 9 {
        } else if i == 10 {
        } else if i == 11 {
        } else if i == 12 {
        } else if i == 13 {
        } else {
        }
    }
}

/// The name of the file that a URL is downloaded to, given what parsing the
/// URL gave. Where no segment holds a `/`, the name holds none: the file lies
/// directly inside the directory that it is put in.
pub fn filename_of(parsed: &Option<ParsedUrl>) -> (out: String)
    ensures
        out@ == filename_in(view_of(*parsed)),
        plain_segments(view_of(*parsed)) ==> !out@.contains('/'),
{
    proof {
        lemma_fallback_filename_is_plain();
    }
    match parsed {
        Some(p) => match &p.path_segments {
            Some(segments) => {
                let n = segments.len();
                if n > 0 {
                    assert(texts(segments@)[n - 1] == segments@[n - 1]@);
                    segments[n - 1].clone()
                } else {
                    String::from_str("downloaded_file")
                }
            },
            None => String::from_str("downloaded_file"),
        },
        None => String::from_str("downloaded_file"),
    }
}

/// The name of the file that `url` is downloaded to: the last segment of its
/// path, or `downloaded_file` where `url` cannot be parsed or has no such
/// path.
///
/// The name holds no `/`.
pub fn get_filename(url: &str) -> (out: String)
    ensures
        out@ == filename_in(parsed(url@)),
        !out@.contains('/'),
{
    let p = parse_url(url);
    filename_of(&p)
}

/// The normal form of `input` as a URL, if it can be parsed.
pub fn normalize(input: &str) -> (out: Option<String>)
    ensures
        match out {
            Some(href) => normal_form(input@) == Some(href@),
            None => normal_form(input@) is None,
        },
{
    match parse_url(input) {
        Some(p) => Some(p.href),
        None => None,
    }
}

/// The entries of a list that are left once each is trimmed and the empty
/// ones are dropped.
pub open spec fn candidates(entries: Seq<Seq<char>>) -> Seq<Seq<char>>
    decreases entries.len(),
{
    if entries.len() == 0 {
        Seq::empty()
    } else {
        let rest = candidates(entries.drop_last());
        let entry = trimmed(entries.last());
        if entry.len() > 0 {
            rest.push(entry)
        } else {
            rest
        }
    }
}

/// The normal forms of the URLs among what parsing a list gave, in the order
/// of the list.
pub open spec fn hrefs_of_some(parsed: Seq<Option<ParsedUrlView>>) -> Seq<Seq<char>>
    decreases parsed.len(),
{
    if parsed.len() == 0 {
        Seq::empty()
    } else {
        let rest = hrefs_of_some(parsed.drop_last());
        match parsed.last() {
            Some(p) => rest.push(p.href),
            None => rest,
        }
    }
}

/// What parsing each entry of a list gives.
pub open spec fn parsed_all(entries: Seq<Seq<char>>) -> Seq<Option<ParsedUrlView>> {
    entries.map_values(|entry: Seq<char>| parsed(entry))
}

/// The mathematical values of what parsing a list gave.
pub open spec fn views_of(parsed: Seq<Option<ParsedUrl>>) -> Seq<Option<ParsedUrlView>> {
    parsed.map_values(|p: Option<ParsedUrl>| view_of(p))
}

/// The normal forms of the entries of a list that can be parsed as URLs, in
/// the order of the list.
pub open spec fn normal_forms(entries: Seq<Seq<char>>) -> Seq<Seq<char>> {
    hrefs_of_some(parsed_all(entries))
}

/// The URLs that a list of entries gives: each entry is trimmed, empty
/// entries and entries that cannot be parsed are dropped, and the others are
/// put in normal form.
pub open spec fn accepted_urls(entries: Seq<Seq<char>>) -> Seq<Seq<char>> {
    normal_forms(candidates(entries))
}

/// Trims each entry and drops the empty ones.
pub fn keep_candidates(entries: &Vec<String>) -> (out: Vec<String>)
    ensures
        texts(out@) == candidates(texts(entries@)),
{
    let mut out: Vec<String> = Vec::new();
    let mut i: usize = 0;
    assert(texts(entries@).take(0) =~= Seq::<Seq<char>>::empty());
    assert(texts(out@) =~= Seq::<Seq<char>>::empty());
    while i < entries.len()
        invariant
            i <= entries.len(),
            texts(out@) == candidates(texts(entries@).take(i as int)),
        decreases entries.len() - i,
    {
        let entry = trim(entries[i].as_str());
        let ghost before = texts(out@);
        proof {
            let prefix = texts(entries@).take(i + 1);
            assert(prefix.drop_last() =~= texts(entries@).take(i as int));
            assert(prefix.last() == entries@[i as int]@);
        }
        if entry.as_str().unicode_len() > 0 {
            out.push(entry);
            assert(texts(out@) =~= before.push(entry@));
        }
        i += 1;
    }
    assert(texts(entries@).take(entries@.len() as int) =~= texts(entries@));
    out
}

/// Parses each entry of a list as a URL.
pub fn parse_all(entries: &Vec<String>) -> (out: Vec<Option<ParsedUrl>>)
    ensures
        views_of(out@) == parsed_all(texts(entries@)),
{
    let mut out: Vec<Option<ParsedUrl>> = Vec::new();
    let mut i: usize = 0;
    while i < entries.len()
        invariant
            i <= entries.len(),
            out@.len() == i,
            forall|j: int| 0 <= j < i ==> view_of(#[trigger] out@[j]) == parsed(entries@[j]@),
        decreases entries.len() - i,
    {
        let p = parse_url(entries[i].as_str());
        out.push(p);
        i += 1;
    }
    assert(views_of(out@) =~= parsed_all(texts(entries@)));
    out
}

/// The normal forms of the URLs among what parsing a list gave, in the order
/// of the list: the entries that could not be parsed are dropped.
pub fn kept_hrefs(parsed: &Vec<Option<ParsedUrl>>) -> (out: Vec<String>)
    ensures
        texts(out@) == hrefs_of_some(views_of(parsed@)),
{
    let mut out: Vec<String> = Vec::new();
    let mut i: usize = 0;
    assert(views_of(parsed@).take(0) =~= Seq::<Option<ParsedUrlView>>::empty());
    assert(texts(out@) =~= Seq::<Seq<char>>::empty());
    while i < parsed.len()
        invariant
            i <= parsed.len(),
            texts(out@) == hrefs_of_some(views_of(parsed@).take(i as int)),
        decreases parsed.len() - i,
    {
        let ghost before = texts(out@);
        proof {
            let prefix = views_of(parsed@).take(i + 1);
            assert(prefix.drop_last() =~= views_of(parsed@).take(i as int));
            assert(prefix.last() == view_of(parsed@[i as int]));
        }
        match &parsed[i] {
            Some(p) => {
                let href = p.href.clone();
                out.push(href);
                assert(texts(out@) =~= before.push(href@));
            },
            None => {},
        }
        i += 1;
    }
    assert(views_of(parsed@).take(parsed@.len() as int) =~= views_of(parsed@));
    out
}

/// Puts each entry that can be parsed as a URL in normal form and drops the
/// others.
pub fn keep_urls(entries: &Vec<String>) -> (out: Vec<String>)
    ensures
        texts(out@) == normal_forms(texts(entries@)),
{
    let parsed = parse_all(entries);
    kept_hrefs(&parsed)
}

/// The URLs that a list of entries gives, see [`accepted_urls`].
pub fn accept_urls(entries: &Vec<String>) -> (out: Vec<String>)
    ensures
        texts(out@) == accepted_urls(texts(entries@)),
{
    let kept = keep_candidates(entries);
    keep_urls(&kept)
}

} // verus!
