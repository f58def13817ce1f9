//! Dotted paths: chains of field names separated by `.`.

use crate::identifier::{identifier, is_identifier};
use vstd::prelude::*;
use vstd::string::StrSliceExecFns;
use vstd::string::StringExecFns;

verus! {

/// The segments of a dotted path, read character by character: a `.` closes
/// the segment being read and opens an empty one, any other character
/// extends the segment being read. The empty path has one empty segment.
pub open spec fn segments(path: Seq<char>) -> Seq<Seq<char>>
    decreases path.len(),
{
    if path.len() == 0 {
        seq![Seq::<char>::empty()]
    } else {
        let before = segments(path.drop_last());
        if path.last() == '.' {
            before.push(Seq::<char>::empty())
        } else {
            before.drop_last().push(before.last().push(path.last()))
        }
    }
}

/// A text without `.`.
pub open spec fn dot_free(text: Seq<char>) -> bool {
    forall|i: int| 0 <= i < text.len() ==> #[trigger] text[i] != '.'
}

/// The segments written one after the other with a `.` between neighbours.
pub open spec fn dotted(parts: Seq<Seq<char>>) -> Seq<char>
    decreases parts.len(),
{
    if parts.len() == 0 {
        Seq::<char>::empty()
    } else if parts.len() == 1 {
        parts[0]
    } else {
        dotted(parts.drop_last()) + seq!['.'] + parts.last()
    }
}

/// A dotted path each of whose segments is an identifier.
pub open spec fn identifier_chain(path: Seq<char>) -> bool {
    forall|k: int| 0 <= k < segments(path).len() ==> identifier(#[trigger] segments(path)[k])
}

/// A path has at least one segment.
pub proof fn lemma_segments_nonempty(path: Seq<char>)
    ensures
        segments(path).len() >= 1,
    decreases path.len(),
{
    if path.len() > 0 {
        lemma_segments_nonempty(path.drop_last());
    }
}

/// Splitting undoes nothing: no segment holds a `.`, and writing the
/// segments with dots between them gives the path back.
pub proof fn lemma_segments_dotted(path: Seq<char>)
    ensures
        segments(path).len() >= 1,
        forall|k: int| 0 <= k < segments(path).len() ==> dot_free(#[trigger] segments(path)[k]),
        dotted(segments(path)) == path,
    decreases path.len(),
{
    if path.len() > 0 {
        let shorter = path.drop_last();
        let before = segments(shorter);
        lemma_segments_dotted(shorter);
        if path.last() == '.' {
            assert(before.push(Seq::<char>::empty()).drop_last() =~= before);
        } else {
            let grown = before.last().push(path.last());
            assert(before.drop_last().push(grown).drop_last() =~= before.drop_last());
            assert(shorter.push(path.last()) =~= path);
        }
    }
}

/// Appending a text without `.` to a path extends the path's last segment.
pub proof fn lemma_segments_extend(path: Seq<char>, tail: Seq<char>)
    requires
        dot_free(tail),
    ensures
        segments(path).len() >= 1,
        segments(path + tail) == segments(path).drop_last().push(segments(path).last() + tail),
    decreases tail.len(),
{
    lemma_segments_nonempty(path);
    if tail.len() > 0 {
        let shorter = tail.drop_last();
        assert(dot_free(shorter));
        lemma_segments_extend(path, shorter);
        assert((path + tail).drop_last() =~= path + shorter);
        assert(segments(path + shorter).last().push(tail.last()) =~= segments(path).last()
            + tail);
    }
}

/// Segments without `.` are what their dotted path splits into.
pub proof fn lemma_dotted_segments(parts: Seq<Seq<char>>)
    requires
        parts.len() >= 1,
        forall|k: int| 0 <= k < parts.len() ==> dot_free(#[trigger] parts[k]),
    ensures
        segments(dotted(parts)) == parts,
    decreases parts.len(),
{
    if parts.len() == 1 {
        lemma_segments_extend(Seq::<char>::empty(), parts[0]);
    } else {
        let front = parts.drop_last();
        assert forall|k: int| 0 <= k < front.len() implies dot_free(#[trigger] front[k]) by {
        }
        lemma_dotted_segments(front);
        let head = dotted(front).push('.');
        assert(head.drop_last() =~= dotted(front));
        lemma_segments_extend(head, parts.last());
        assert(head + parts.last() =~= dotted(parts));
    }
}

/// Splits a dotted path into its segments.
pub fn split_path(path: &str) -> (parts: Vec<String>)
    ensures
        parts.deep_view() == segments(path@),
{
    let length: usize = path.unicode_len();
    let mut parts: Vec<String> = Vec::new();
    let mut start: usize = 0;
    let mut index: usize = 0;
    assert(path@.take(0) =~= Seq::<char>::empty());
    while index < length
        invariant
            start <= index <= length,
            length == path@.len(),
            segments(path@.take(index as int)) == parts.deep_view().push(
                path@.subrange(start as int, index as int),
            ),
        decreases length - index,
    {
        assert(path@.take(index + 1).drop_last() =~= path@.take(index as int));
        if path.get_char(index) == '.' {
            parts.push(String::from_str(path.substring_char(start, index)));
            start = index + 1;
            assert(path@.subrange(start as int, start as int) =~= Seq::<char>::empty());
        } else {
            assert(path@.subrange(start as int, index as int).push(path@[index as int])
                =~= path@.subrange(start as int, index + 1));
        }
        index += 1;
    }
    assert(path@.take(length as int) =~= path@);
    parts.push(String::from_str(path.substring_char(start, length)));
    parts
}

/// Decides whether every segment of a dotted path is an identifier.
pub fn is_identifier_chain(path: &str) -> (ok: bool)
    ensures
        ok == identifier_chain(path@),
{
    let parts = split_path(path);
    let mut index: usize = 0;
    while index < parts.len()
        invariant
            index <= parts.len(),
            parts.deep_view() == segments(path@),
            forall|k: int| 0 <= k < index ==> identifier(#[trigger] segments(path@)[k]),
        decreases parts.len() - index,
    {
        assert(parts.deep_view()[index as int] == parts@[index as int]@);
        if !is_identifier(parts[index].as_str()) {
            return false;
        }
        index += 1;
    }
    true
}

} // verus!
