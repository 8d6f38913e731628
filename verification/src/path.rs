//! The path of a URL and its segments.
//!
//! A path that starts with `/` is a list of segments separated by `/`; the
//! first names the owner of a repository, the second the repository.

use crate::text::chars_of;
use vstd::prelude::*;
use vstd::string::*;

verus! {

/// How many characters of `text` come before its first `/`: all of them where
/// it has none.
pub open spec fn segment_len(text: Seq<char>) -> nat
    decreases text.len(),
{
    if text.len() == 0 || text[0] == '/' {
        0
    } else {
        1 + segment_len(text.skip(1))
    }
}

/// The pieces of `text` between its `/` characters. There is always at least
/// one, and a piece may be empty.
pub open spec fn split_segments(text: Seq<char>) -> Seq<Seq<char>>
    decreases text.len(),
{
    let n = segment_len(text) as int;
    if n >= text.len() {
        seq![text]
    } else {
        seq![text.take(n)] + split_segments(text.skip(n + 1))
    }
}

/// The segments of a path: those of what follows its leading `/`. A path
/// that does not start with `/` has none.
pub open spec fn path_segments(path: Seq<char>) -> Option<Seq<Seq<char>>> {
    if path.len() > 0 && path[0] == '/' {
        Some(split_segments(path.skip(1)))
    } else {
        None
    }
}

/// The second segment of a path, where it has two.
pub open spec fn second_segment(path: Seq<char>) -> Option<Seq<char>> {
    match path_segments(path) {
        Some(segments) => if segments.len() >= 2 {
            Some(segments[1])
        } else {
            None
        },
        None => None,
    }
}

/// `segment_len` is the position of the first `/`, or the length.
pub proof fn lemma_segment_len(text: Seq<char>, k: int)
    requires
        0 <= k <= text.len(),
        forall|j: int| 0 <= j < k ==> text[j] != '/',
        k == text.len() || text[k] == '/',
    ensures
        segment_len(text) == k,
    decreases k,
{
    if k > 0 {
        let rest = text.skip(1);
        assert forall|j: int| 0 <= j < k - 1 implies rest[j] != '/' by {
            assert(rest[j] == text[j + 1]);
        }
        lemma_segment_len(rest, k - 1);
    }
}

/// The position of the first `/` of `chars` at or after `from`, or the length
/// where there is none.
pub fn find_slash(chars: &Vec<char>, from: usize) -> (at: usize)
    requires
        from <= chars@.len(),
    ensures
        at == from + segment_len(chars@.skip(from as int)),
        from <= at <= chars@.len(),
{
    let mut at: usize = from;
    while at < chars.len() && chars[at] != '/'
        invariant
            from <= at <= chars.len(),
            forall|j: int| from <= j < at ==> chars@[j] != '/',
        decreases chars.len() - at,
    {
        at += 1;
    }
    proof {
        let rest = chars@.skip(from as int);
        assert forall|j: int| 0 <= j < at - from implies rest[j] != '/' by {
            assert(rest[j] == chars@[from + j]);
        }
        lemma_segment_len(rest, at - from);
    }
    at
}

/// The second segment of `path`, where it has two.
pub fn second_segment_of(path: &str) -> (segment: Option<String>)
    ensures
        match segment {
            Some(s) => second_segment(path@) == Some(s@),
            None => second_segment(path@) is None,
        },
{
    let chars = chars_of(path);
    if chars.len() == 0 || chars[0] != '/' {
        return None;
    }
    let first_end = find_slash(&chars, 1);
    if first_end >= chars.len() {
        return None;
    }
    let start = first_end + 1;
    let end = find_slash(&chars, start);
    proof {
        let body = path@.skip(1);
        let n = segment_len(body) as int;
        let rest = body.skip(n + 1);
        assert(rest =~= path@.skip(start as int));
        let m = segment_len(rest) as int;
        let tail = if m >= rest.len() {
            Seq::<Seq<char>>::empty()
        } else {
            split_segments(rest.skip(m + 1))
        };
        let second = if m >= rest.len() {
            rest
        } else {
            rest.take(m)
        };
        assert(split_segments(rest) == seq![second] + tail);
        assert(split_segments(body) == seq![body.take(n)] + split_segments(rest));
        assert(split_segments(body)[1] == second);
        assert(second =~= path@.subrange(start as int, end as int));
    }
    Some(path.substring_char(start, end).to_owned())
}

/// A text without `/` is its own single segment.
pub proof fn lemma_split_single(head: Seq<char>)
    requires
        !head.contains('/'),
    ensures
        split_segments(head) == seq![head],
{
    assert forall|j: int| 0 <= j < head.len() implies head[j] != '/' by {
        assert(head.contains(head[j]));
    }
    lemma_segment_len(head, head.len() as int);
}

/// A text without `/`, then `/`, then anything: the first segment is that
/// text, and the others are those of what follows the `/`.
pub proof fn lemma_split_first(head: Seq<char>, tail: Seq<char>)
    requires
        !head.contains('/'),
    ensures
        split_segments(head + seq!['/'] + tail) == seq![head] + split_segments(tail),
{
    let text = head + seq!['/'] + tail;
    let k = head.len() as int;
    assert forall|j: int| 0 <= j < k implies text[j] != '/' by {
        assert(head.contains(head[j]));
    }
    assert(text[k] == '/');
    lemma_segment_len(text, k);
    assert(text.take(k) =~= head);
    assert(text.skip(k + 1) =~= tail);
}

/// In a path made of `/`, an owner, `/` and a repository, with or without
/// more segments behind, the second segment is the repository.
pub proof fn lemma_second_segment_is_repository(
    owner: Seq<char>,
    repository: Seq<char>,
    rest: Seq<char>,
)
    requires
        !owner.contains('/'),
        !repository.contains('/'),
    ensures
        second_segment(seq!['/'] + owner + seq!['/'] + repository) == Some(repository),
        second_segment(seq!['/'] + owner + seq!['/'] + repository + seq!['/'] + rest) == Some(
            repository,
        ),
{
    let short = seq!['/'] + owner + seq!['/'] + repository;
    assert(short.skip(1) =~= owner + seq!['/'] + repository);
    lemma_split_first(owner, repository);
    lemma_split_single(repository);

    let long = short + seq!['/'] + rest;
    let behind = repository + seq!['/'] + rest;
    assert(long.skip(1) =~= owner + seq!['/'] + behind);
    lemma_split_first(owner, behind);
    lemma_split_first(repository, rest);
}

/// A path with a single segment (no `/` after the leading one) has no second
/// segment, and neither has a path that does not start with `/`.
pub proof fn lemma_no_second_segment(path: Seq<char>)
    requires
        path.len() == 0 || path[0] != '/' || !path.skip(1).contains('/'),
    ensures
        second_segment(path) is None,
{
    if path.len() > 0 && path[0] == '/' {
        lemma_split_single(path.skip(1));
    }
}

/// The first segment of a text holds no `/`.
pub proof fn lemma_first_segment_has_no_slash(text: Seq<char>)
    ensures
        segment_len(text) <= text.len(),
        !text.take(segment_len(text) as int).contains('/'),
    decreases text.len(),
{
    if text.len() == 0 || text[0] == '/' {
    } else {
        let rest = text.skip(1);
        lemma_first_segment_has_no_slash(rest);
        let n = segment_len(text) as int;
        let first = text.take(n);
        if first.contains('/') {
            let j = choose|j: int| 0 <= j < first.len() && first[j] == '/';
            assert(j > 0);
            assert(rest.take(n - 1)[j - 1] == first[j]);
            assert(rest.take(n - 1).contains('/'));
        }
    }
}

/// The second segment of a path holds no `/`.
pub proof fn lemma_second_segment_has_no_slash(path: Seq<char>)
    requires
        second_segment(path) is Some,
    ensures
        !second_segment(path)->Some_0.contains('/'),
{
    let body = path.skip(1);
    let n = segment_len(body) as int;
    lemma_first_segment_has_no_slash(body);
    let rest = body.skip(n + 1);
    lemma_first_segment_has_no_slash(rest);
    let m = segment_len(rest) as int;
    if m >= rest.len() {
        assert(rest.take(m) =~= rest);
    }
    assert(split_segments(body) == seq![body.take(n)] + split_segments(rest));
    assert(split_segments(body)[1] == split_segments(rest)[0]);
}

} // verus!
