//! Tags: from a comma-separated string to an ordered list without repeats.

use vstd::prelude::*;
use vstd::string::StringExecFns;
use vstd::string::StrSliceExecFns;
use crate::config::strings_view;
use crate::text::{chars_of, pieces, split, split_bounds, str_eq, trim, trim_bounds};

verus! {

/// `tags` with `tag` at its end, unless `tag` is empty or already among them.
pub open spec fn keep_tag(tags: Seq<Seq<char>>, tag: Seq<char>) -> Seq<Seq<char>> {
    if tag.len() == 0 || tags.contains(tag) {
        tags
    } else {
        tags.push(tag)
    }
}

/// The tags that a sequence of trimmed pieces gives: the pieces in order,
/// empty ones left out, and of equal ones only the first.
pub open spec fn kept(trimmed: Seq<Seq<char>>) -> Seq<Seq<char>>
    decreases trimmed.len(),
{
    if trimmed.len() == 0 {
        Seq::empty()
    } else {
        keep_tag(kept(trimmed.drop_last()), trimmed.last())
    }
}

/// Each of the pieces without the whitespace around it.
pub open spec fn all_trimmed(segments: Seq<Seq<char>>) -> Seq<Seq<char>> {
    segments.map_values(|p: Seq<char>| trim(p))
}

/// The tags that a sequence of pieces gives: each piece without the
/// whitespace around it, in order, empty ones left out, and of equal ones
/// only the first.
pub open spec fn tags_of(segments: Seq<Seq<char>>) -> Seq<Seq<char>> {
    kept(all_trimmed(segments))
}

/// The tags that a comma-separated string names.
pub open spec fn parse_tags_spec(s: Seq<char>) -> Seq<Seq<char>> {
    tags_of(split(s, ','))
}

/// The tags of an optional string: none where there is no string.
pub open spec fn tags_from(s: Option<Seq<char>>) -> Seq<Seq<char>> {
    match s {
        Some(t) => parse_tags_spec(t),
        None => Seq::empty(),
    }
}

/// No tag is empty, and no tag occurs twice.
pub proof fn law_tags_are_distinct_and_not_empty(trimmed: Seq<Seq<char>>)
    ensures
        forall|i: int| 0 <= i < kept(trimmed).len() ==> (#[trigger] kept(trimmed)[i]).len() > 0,
        forall|i: int, j: int|
            0 <= i < j < kept(trimmed).len() ==> kept(trimmed)[i] != kept(trimmed)[j],
    decreases trimmed.len(),
{
    if trimmed.len() > 0 {
        let front = kept(trimmed.drop_last());
        let last = trimmed.last();
        let tags = kept(trimmed);
        law_tags_are_distinct_and_not_empty(trimmed.drop_last());
        assert forall|i: int| 0 <= i < tags.len() implies (#[trigger] tags[i]).len() > 0 by {
            if i < front.len() {
                assert(tags[i] == front[i]);
            }
        }
        assert forall|i: int, j: int| 0 <= i < j < tags.len() implies tags[i] != tags[j] by {
            assert(tags[i] == front[i]);
            if j < front.len() {
                assert(tags[j] == front[j]);
            } else {
                assert(!front.contains(last));
                assert(tags[j] == last);
            }
        }
    }
}

/// Every tag is one of the trimmed pieces, and every trimmed piece that is
/// not empty is among the tags.
pub proof fn law_tags_are_the_trimmed_pieces(trimmed: Seq<Seq<char>>)
    ensures
        forall|i: int|
            0 <= i < kept(trimmed).len() ==> trimmed.contains(#[trigger] kept(trimmed)[i]),
        forall|k: int|
            0 <= k < trimmed.len() && (#[trigger] trimmed[k]).len() > 0 ==> kept(trimmed).contains(
                trimmed[k],
            ),
    decreases trimmed.len(),
{
    if trimmed.len() > 0 {
        let front = trimmed.drop_last();
        let last = trimmed.last();
        law_tags_are_the_trimmed_pieces(front);
        let tags = kept(trimmed);
        assert forall|i: int| 0 <= i < tags.len() implies trimmed.contains(#[trigger] tags[i]) by {
            if i < kept(front).len() {
                assert(tags[i] == kept(front)[i]);
                let k = choose|k: int| 0 <= k < front.len() && front[k] == kept(front)[i];
                assert(trimmed[k] == tags[i]);
            } else {
                assert(trimmed[trimmed.len() - 1] == tags[i]);
            }
        }
        assert forall|k: int|
            0 <= k < trimmed.len() && (#[trigger] trimmed[k]).len() > 0 implies tags.contains(
            trimmed[k],
        ) by {
            if k < front.len() {
                assert(front[k] == trimmed[k]);
                let at = choose|at: int| 0 <= at < kept(front).len() && kept(front)[at] == front[k];
                assert(tags[at] == trimmed[k]);
            } else {
                if kept(front).contains(last) {
                    let at = choose|at: int| 0 <= at < kept(front).len() && kept(front)[at] == last;
                    assert(tags[at] == last);
                } else {
                    assert(tags[tags.len() - 1] == last);
                }
            }
        }
    }
}

/// Whether `tag` is among `tags`.
pub fn has_tag(tags: &Vec<String>, tag: &str) -> (r: bool)
    ensures
        r == strings_view(tags@).contains(tag@),
{
    let mut i: usize = 0;
    while i < tags.len()
        invariant
            i <= tags.len(),
            forall|j: int| 0 <= j < i ==> strings_view(tags@)[j] != tag@,
        decreases tags.len() - i,
    {
        if str_eq(tags[i].as_str(), tag) {
            assert(strings_view(tags@)[i as int] == tag@);
            return true;
        }
        i += 1;
    }
    false
}

/// The tags that trimmed pieces give: the pieces in order, empty ones left
/// out, and of equal ones only the first.
pub fn collect_tags(trimmed: &Vec<String>) -> (r: Vec<String>)
    ensures
        strings_view(r@) == kept(strings_view(trimmed@)),
{
    let ghost all = strings_view(trimmed@);
    let mut tags: Vec<String> = Vec::new();
    let mut i: usize = 0;
    assert(all.take(0) =~= Seq::<Seq<char>>::empty());
    assert(strings_view(tags@) =~= Seq::<Seq<char>>::empty());
    while i < trimmed.len()
        invariant
            i <= trimmed.len(),
            all == strings_view(trimmed@),
            strings_view(tags@) == kept(all.take(i as int)),
        decreases trimmed.len() - i,
    {
        let piece = trimmed[i].as_str();
        let ghost before = strings_view(tags@);
        proof {
            assert(all.take(i + 1).drop_last() =~= all.take(i as int));
            assert(all.take(i + 1).last() == piece@);
        }
        if !piece.is_empty() && !has_tag(&tags, piece) {
            tags.push(String::from_str(piece));
            assert(strings_view(tags@) =~= before.push(piece@));
        }
        i += 1;
    }
    assert(all.take(i as int) =~= all);
    tags
}

/// The pieces of a comma-separated string, each without the whitespace
/// around it.
pub fn trimmed_pieces(s: &str) -> (r: Vec<String>)
    ensures
        strings_view(r@) == all_trimmed(split(s@, ',')),
{
    let chars = chars_of(s);
    let bounds = split_bounds(&chars, ',');
    let ghost segments = split(s@, ',');
    let mut out: Vec<String> = Vec::new();
    let mut i: usize = 0;
    while i < bounds.len()
        invariant
            i <= bounds.len(),
            chars@ == s@,
            pieces(chars@, bounds@) == segments,
            forall|k: int|
                0 <= k < bounds@.len() ==> (#[trigger] bounds@[k]).0 <= bounds@[k].1
                    <= chars@.len(),
            out@.len() == i,
            forall|k: int| 0 <= k < i ==> (#[trigger] out@[k])@ == trim(segments[k]),
        decreases bounds.len() - i,
    {
        let (from, to) = bounds[i];
        let (a, b) = trim_bounds(&chars, from, to);
        assert(segments[i as int] == chars@.subrange(from as int, to as int));
        out.push(String::from_str(s.substring_char(a, b)));
        i += 1;
    }
    assert(strings_view(out@) =~= all_trimmed(segments));
    out
}

/// Reads the tags that a comma-separated string names.
pub fn parse_tags(s: &str) -> (r: Vec<String>)
    ensures
        strings_view(r@) == parse_tags_spec(s@),
{
    let trimmed = trimmed_pieces(s);
    collect_tags(&trimmed)
}

} // verus!
