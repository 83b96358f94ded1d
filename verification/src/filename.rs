//! The name of the output file.
//!
//! The name is the last segment of the URL's path where there is one, and
//! otherwise a name made from the time of day.

use crate::clock::unix_seconds;
use crate::decimal::{
    decimal, decimal_string, is_digit, lemma_decimal_injective, lemma_decimal_is_digits,
};
use vstd::prelude::*;
use vstd::std_specs::iter::IteratorSpec;
use vstd::string::*;

verus! {

/// The URL without its query: everything before the first `?`.
pub open spec fn url_path(url: Seq<char>) -> Seq<char> {
    match url.index_of_first('?') {
        Some(cut) => url.subrange(0, cut),
        None => url,
    }
}

/// What follows the last `/` of `path`; empty where `path` holds no `/`.
pub open spec fn last_segment(path: Seq<char>) -> Seq<char> {
    match path.index_of_last('/') {
        Some(slash) => path.subrange(slash + 1, path.len() as int),
        None => Seq::empty(),
    }
}

/// The part of `url` that names a file: the last segment of its path.
pub open spec fn url_stem(url: Seq<char>) -> Seq<char> {
    last_segment(url_path(url))
}

/// The name given to a download whose URL names no file, at `secs` whole
/// seconds after the Unix epoch.
pub open spec fn fallback_name(secs: nat) -> Seq<char> {
    "download_"@ + decimal(secs)
}

/// The file name for `url` at `secs` whole seconds after the Unix epoch.
pub open spec fn resolved_name(url: Seq<char>, secs: nat) -> Seq<char> {
    if url_stem(url).len() > 0 {
        url_stem(url)
    } else {
        fallback_name(secs)
    }
}

/// `cut` is where the path of `url` ends: the index of the first `?`, or
/// the length of `url` where there is none.
proof fn lemma_path_cut(url: Seq<char>, cut: int)
    requires
        0 <= cut <= url.len(),
        forall|j: int| 0 <= j < cut ==> url[j] != '?',
        cut < url.len() ==> url[cut] == '?',
    ensures
        url_path(url) == url.subrange(0, cut),
{
    url.index_of_first_ensures('?');
    if cut == url.len() {
        assert(url.subrange(0, cut) == url);
    }
}

/// `start` is where the last segment of `path` begins, given that a `/`
/// stands just before it and none after it.
proof fn lemma_segment_start(path: Seq<char>, start: int)
    requires
        0 < start <= path.len(),
        path[start - 1] == '/',
        forall|j: int| start <= j < path.len() ==> path[j] != '/',
    ensures
        last_segment(path) == path.subrange(start, path.len() as int),
{
    path.index_of_last_ensures('/');
}

/// A path without any `/` has no last segment.
proof fn lemma_no_segment(path: Seq<char>)
    requires
        forall|j: int| 0 <= j < path.len() ==> path[j] != '/',
    ensures
        last_segment(path) == Seq::<char>::empty(),
{
    path.index_of_last_ensures('/');
}

/// The part of `url` that names a file; empty where the URL names none.
pub fn file_stem(url: &str) -> (stem: &str)
    ensures
        stem@ == url_stem(url@),
{
    let len = url.unicode_len();
    let mut chars = url.chars();
    let mut pos: usize = 0;
    let mut start: usize = 0;
    loop
        invariant_except_break
            chars.remaining() == url@.subrange(pos as int, len as int),
        invariant
            0 <= start <= pos <= len == url@.len(),
            forall|j: int| 0 <= j < pos ==> url@[j] != '?',
            start > 0 ==> url@[start - 1] == '/',
            forall|j: int| start <= j < pos ==> url@[j] != '/',
        ensures
            pos < len ==> url@[pos as int] == '?',
        decreases len - pos,
    {
        let next = chars.next();
        proof {
            broadcast use group_string_axioms;

        }
        match next {
            None => {
                break ;
            },
            Some(c) => {
                assert(c == url@[pos as int]);
                if c == '?' {
                    break ;
                }
                pos = pos + 1;
                if c == '/' {
                    start = pos;
                }
                assert(chars.remaining() == url@.subrange(pos as int, len as int));
            },
        }
    }
    proof {
        lemma_path_cut(url@, pos as int);
        let path = url@.subrange(0, pos as int);
        if start > 0 {
            lemma_segment_start(path, start as int);
            assert(path.subrange(start as int, path.len() as int) == url@.subrange(
                start as int,
                pos as int,
            ));
        } else {
            lemma_no_segment(path);
        }
    }
    if start == 0 {
        url.substring_char(pos, pos)
    } else {
        url.substring_char(start, pos)
    }
}

/// The name for a download whose URL names no file: `download_` followed
/// by `secs` in decimal.
pub fn fallback_filename(secs: u64) -> (name: String)
    ensures
        name@ == fallback_name(secs as nat),
{
    let mut name = String::from_str("download_");
    let digits = decimal_string(secs);
    name.append(digits.as_str());
    name
}

/// The file name for `url`, given the time as `secs` whole seconds after
/// the Unix epoch: the last segment of the URL's path, or, where that is
/// empty, `download_` followed by `secs` in decimal.
pub fn resolve_filename(url: &str, secs: u64) -> (name: String)
    ensures
        name@ == resolved_name(url@, secs as nat),
        name@.len() > 0,
{
    let stem = file_stem(url);
    if stem.is_empty() {
        proof {
            lemma_decimal_is_digits(secs as nat);
        }
        fallback_filename(secs)
    } else {
        String::from_str(stem)
    }
}

/// The file name for `url`: the last segment of the URL's path, or, where
/// that is empty, the fallback name for the second in which the clock is
/// read. The clock is read only where the fallback is needed.
pub fn extract_filename(url: &str) -> (name: String)
    ensures
        url_stem(url@).len() > 0 ==> name@ == url_stem(url@),
        url_stem(url@).len() == 0 ==> exists|secs: u64| name@ == #[trigger] fallback_name(secs as nat),
        name@.len() > 0,
{
    let stem = file_stem(url);
    if stem.is_empty() {
        let secs = unix_seconds();
        proof {
            lemma_decimal_is_digits(secs as nat);
        }
        fallback_filename(secs)
    } else {
        String::from_str(stem)
    }
}

/// A URL made of a query-free `front`, a `/`, a non-empty `segment` without
/// `/` or `?`, and a `tail` that is empty or begins the query, is named
/// after `segment`, whatever the time.
pub proof fn lemma_named_after_last_segment(
    front: Seq<char>,
    segment: Seq<char>,
    tail: Seq<char>,
    secs: nat,
)
    requires
        !front.contains('?'),
        segment.len() > 0,
        !segment.contains('/'),
        !segment.contains('?'),
        tail.len() > 0 ==> tail[0] == '?',
    ensures
        url_stem(front + seq!['/'] + segment + tail) == segment,
        resolved_name(front + seq!['/'] + segment + tail, secs) == segment,
{
    let path = front + seq!['/'] + segment;
    let url = path + tail;
    assert forall|j: int| 0 <= j < path.len() implies path[j] != '?' by {
        if j < front.len() {
            assert(front[j] == path[j]);
        } else if j > front.len() {
            assert(segment[j - front.len() - 1] == path[j]);
        }
    }
    lemma_path_cut(url, path.len() as int);
    assert(url.subrange(0, path.len() as int) == path);
    assert forall|j: int| front.len() + 1 <= j < path.len() implies path[j] != '/' by {
        assert(segment[j - front.len() - 1] == path[j]);
    }
    lemma_segment_start(path, front.len() as int + 1);
    assert(path.subrange(front.len() as int + 1, path.len() as int) == segment);
}

/// A URL whose path ends in `/` is given the fallback name: `download_`
/// followed by the digits of the time. The path is `front` and the `/`;
/// `tail` is empty or begins the query.
pub proof fn lemma_fallback_after_trailing_slash(front: Seq<char>, tail: Seq<char>, secs: nat)
    requires
        !front.contains('?'),
        tail.len() > 0 ==> tail[0] == '?',
    ensures
        url_stem(front + seq!['/'] + tail).len() == 0,
        resolved_name(front + seq!['/'] + tail, secs) == "download_"@ + decimal(secs),
{
    let path = front + seq!['/'];
    let url = path + tail;
    assert forall|j: int| 0 <= j < path.len() implies path[j] != '?' by {
        if j < front.len() {
            assert(front[j] == path[j]);
        }
    }
    lemma_path_cut(url, path.len() as int);
    assert(url.subrange(0, path.len() as int) == path);
    lemma_segment_start(path, path.len() as int);
}

/// A URL whose path holds no `/` at all is given the fallback name. The
/// path is `front`; `tail` is empty or begins the query.
pub proof fn lemma_fallback_without_slash(front: Seq<char>, tail: Seq<char>, secs: nat)
    requires
        !front.contains('?'),
        !front.contains('/'),
        tail.len() > 0 ==> tail[0] == '?',
    ensures
        url_stem(front + tail).len() == 0,
        resolved_name(front + tail, secs) == "download_"@ + decimal(secs),
{
    let url = front + tail;
    assert forall|j: int| 0 <= j < front.len() implies front[j] != '?' && front[j] != '/' by {}
    lemma_path_cut(url, front.len() as int);
    assert(url.subrange(0, front.len() as int) == front);
    lemma_no_segment(front);
}

/// A fallback name is `download_` followed by one or more decimal digits.
pub proof fn lemma_fallback_shape(secs: nat)
    ensures
        fallback_name(secs).len() > 9,
        fallback_name(secs).subrange(0, 9) == "download_"@,
        forall|i: int| 9 <= i < fallback_name(secs).len() ==> is_digit(#[trigger] fallback_name(secs)[i]),
{
    reveal_strlit("download_");
    lemma_decimal_is_digits(secs);
    assert(fallback_name(secs).subrange(0, 9) == "download_"@);
    assert forall|i: int| 9 <= i < fallback_name(secs).len() implies is_digit(
        #[trigger] fallback_name(secs)[i],
    ) by {
        assert(fallback_name(secs)[i] == decimal(secs)[i - 9]);
    }
}

/// Two resolutions of one URL give the same name exactly when the URL
/// names a file or the two are made in the same second.
pub proof fn lemma_same_name_same_second(url: Seq<char>, first: nat, second: nat)
    ensures
        resolved_name(url, first) == resolved_name(url, second) <==> (url_stem(url).len() > 0
            || first == second),
{
    if url_stem(url).len() == 0 && fallback_name(first) == fallback_name(second) {
        let prefix = "download_"@;
        assert(decimal(first) == fallback_name(first).subrange(
            prefix.len() as int,
            fallback_name(first).len() as int,
        ));
        assert(decimal(second) == fallback_name(second).subrange(
            prefix.len() as int,
            fallback_name(second).len() as int,
        ));
        lemma_decimal_injective(first, second);
    }
}

} // verus!
