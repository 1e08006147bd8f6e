//! Paths as bytes.
//!
//! A path is a sequence of segments between `/` separators. Segments that are
//! empty or `.` do not count, so `a/b`, `a//b` and `a/b/.` name the same entry.

use vstd::prelude::*;
use vstd::slice::slice_subrange;

verus! {

/// The byte `/`, which separates the segments of a path.
pub const SEPARATOR: u8 = 0x2f;

/// The byte `.`.
pub const DOT: u8 = 0x2e;

/// The index at which the last segment of `path` starts: just after the last
/// separator, or 0 if there is none.
pub open spec fn last_segment_start(path: Seq<u8>) -> int
    decreases path.len(),
{
    if path.len() == 0 {
        0
    } else if path.last() == SEPARATOR {
        path.len() as int
    } else {
        last_segment_start(path.drop_last())
    }
}

/// Whether a segment leaves the entry that a path names unchanged.
pub open spec fn is_skipped(segment: Seq<u8>) -> bool {
    segment.len() == 0 || segment == seq![DOT]
}

/// Whether a segment refers to the parent directory.
pub open spec fn is_parent(segment: Seq<u8>) -> bool {
    segment == seq![DOT, DOT]
}

/// The name of the entry that `path` names: its last segment that counts.
/// There is none if no segment counts (`/`, `.`), or if the last one that does
/// is `..`.
pub open spec fn file_name_of(path: Seq<u8>) -> Option<Seq<u8>>
    decreases path.len(),
{
    proof {
        lemma_last_segment_start_bounds(path);
    }
    let start = last_segment_start(path);
    let segment = path.skip(start);
    if is_skipped(segment) {
        if start == 0 {
            None
        } else {
            file_name_of(path.take(start - 1))
        }
    } else if is_parent(segment) {
        None
    } else {
        Some(segment)
    }
}

/// The path of the entry `name` in the folder `folder`.
pub open spec fn joined(folder: Seq<u8>, name: Seq<u8>) -> Seq<u8> {
    if folder.len() == 0 || folder.last() == SEPARATOR {
        folder + name
    } else {
        folder.push(SEPARATOR) + name
    }
}

pub proof fn lemma_last_segment_start_bounds(path: Seq<u8>)
    ensures
        0 <= last_segment_start(path) <= path.len(),
    decreases path.len(),
{
    if path.len() != 0 && path.last() != SEPARATOR {
        lemma_last_segment_start_bounds(path.drop_last());
    }
}

/// What precedes a separator has no influence on where the segment behind it
/// starts, if no further separator follows.
proof fn lemma_last_segment_of_join(dir: Seq<u8>, name: Seq<u8>)
    requires
        !name.contains(SEPARATOR),
    ensures
        last_segment_start(dir.push(SEPARATOR) + name) == dir.len() + 1,
    decreases name.len(),
{
    let path = dir.push(SEPARATOR) + name;
    if name.len() == 0 {
        assert(path.last() == SEPARATOR);
    } else {
        assert(name.contains(name.last()));
        assert(path.last() == name.last());
        assert(path.drop_last() =~= dir.push(SEPARATOR) + name.drop_last());
        assert forall|b: u8| name.drop_last().contains(b) implies name.contains(b) by {
            let i = choose|i: int| 0 <= i < name.drop_last().len() && name.drop_last()[i] == b;
            assert(name[i] == b);
        }
        lemma_last_segment_of_join(dir, name.drop_last());
    }
}

/// A path without separators is one segment.
proof fn lemma_segment_without_separator(path: Seq<u8>)
    requires
        !path.contains(SEPARATOR),
    ensures
        last_segment_start(path) == 0,
    decreases path.len(),
{
    if path.len() != 0 {
        assert(path.contains(path.last()));
        assert forall|b: u8| path.drop_last().contains(b) implies path.contains(b) by {
            let i = choose|i: int| 0 <= i < path.drop_last().len() && path.drop_last()[i] == b;
            assert(path[i] == b);
        }
        lemma_segment_without_separator(path.drop_last());
    }
}

/// The last segment of a folder and a name joined is the name.
pub proof fn lemma_last_segment_of_joined(folder: Seq<u8>, name: Seq<u8>)
    requires
        !name.contains(SEPARATOR),
    ensures
        ({
            let path = joined(folder, name);
            path.skip(last_segment_start(path)) == name
        }),
{
    let path = joined(folder, name);
    if folder.len() == 0 {
        lemma_segment_without_separator(name);
        assert(path =~= name);
        assert(path.skip(0) =~= name);
    } else {
        let dir = if folder.last() == SEPARATOR {
            folder.drop_last()
        } else {
            folder
        };
        lemma_last_segment_of_join(dir, name);
        assert(path =~= dir.push(SEPARATOR) + name);
        assert(path.skip(dir.len() as int + 1) =~= name);
    }
}

/// Before the last segment stands a separator, unless it is all of the path.
pub proof fn lemma_separator_before_last_segment(path: Seq<u8>)
    ensures
        last_segment_start(path) > 0 ==> path[last_segment_start(path) - 1] == SEPARATOR,
    decreases path.len(),
{
    if path.len() != 0 && path.last() != SEPARATOR {
        lemma_last_segment_start_bounds(path.drop_last());
        lemma_separator_before_last_segment(path.drop_last());
    }
}

/// Joining a folder and any name gives a path with that file name, unless the
/// name is `.` or `..`. So does the name alone.
pub proof fn law_joined_name_is_file_name(folder: Seq<u8>, name: Seq<u8>)
    requires
        !name.contains(SEPARATOR),
        name.len() > 0,
        name != seq![DOT],
        name != seq![DOT, DOT],
    ensures
        file_name_of(folder.push(SEPARATOR) + name) == Some(name),
        file_name_of(name) == Some(name),
        file_name_of(joined(folder, name)) == Some(name),
{
    lemma_last_segment_of_join(folder, name);
    assert((folder.push(SEPARATOR) + name).skip(folder.len() as int + 1) =~= name);
    lemma_segment_without_separator(name);
    assert(name.skip(0) =~= name);
    lemma_last_segment_of_joined(folder, name);
}

/// The file name of a path is decided by its last segment: `..` leaves none, an
/// empty segment and `.` leave what the path before them has, and any other
/// segment is the file name itself.
pub proof fn law_last_segment_decides(folder: Seq<u8>, segment: Seq<u8>)
    requires
        !segment.contains(SEPARATOR),
    ensures
        segment.len() == 0 || segment == seq![DOT] ==> {
            &&& file_name_of(folder.push(SEPARATOR) + segment) == file_name_of(folder)
            &&& file_name_of(segment) is None
        },
        segment == seq![DOT, DOT] ==> {
            &&& file_name_of(folder.push(SEPARATOR) + segment) is None
            &&& file_name_of(segment) is None
        },
        segment.len() > 0 && segment != seq![DOT] && segment != seq![DOT, DOT] ==> {
            &&& file_name_of(folder.push(SEPARATOR) + segment) == Some(segment)
            &&& file_name_of(segment) == Some(segment)
        },
{
    let path = folder.push(SEPARATOR) + segment;
    lemma_last_segment_of_join(folder, segment);
    assert(path.skip(folder.len() as int + 1) =~= segment);
    assert(path.take(folder.len() as int) =~= folder);
    lemma_segment_without_separator(segment);
    assert(segment.skip(0) =~= segment);
}

/// A path that ends in `/..` has no file name.
pub proof fn law_parent_has_no_file_name(dir: Seq<u8>)
    ensures
        file_name_of(dir + seq![SEPARATOR, DOT, DOT]) is None,
{
    let name = seq![DOT, DOT];
    assert forall|i: int| 0 <= i < name.len() implies name[i] != SEPARATOR by {}
    lemma_last_segment_of_join(dir, name);
    assert(dir.push(SEPARATOR) + name =~= dir + seq![SEPARATOR, DOT, DOT]);
    assert((dir.push(SEPARATOR) + name).skip(dir.len() as int + 1) =~= name);
}

/// A trailing `/` or `/.` does not change the file name.
pub proof fn law_trailing_separator_is_ignored(path: Seq<u8>)
    ensures
        file_name_of(path.push(SEPARATOR)) == file_name_of(path),
        file_name_of(path + seq![SEPARATOR, DOT]) == file_name_of(path),
{
    let empty = Seq::<u8>::empty();
    lemma_last_segment_of_join(path, empty);
    assert(path.push(SEPARATOR) + empty =~= path.push(SEPARATOR));
    assert(path.push(SEPARATOR).skip(path.len() as int + 1) =~= empty);
    assert(path.push(SEPARATOR).take(path.len() as int) =~= path);

    let dot = seq![DOT];
    lemma_last_segment_of_join(path, dot);
    let dotted = path + seq![SEPARATOR, DOT];
    assert(path.push(SEPARATOR) + dot =~= dotted);
    assert(dotted.skip(path.len() as int + 1) =~= dot);
    assert(dotted.take(path.len() as int) =~= path);
}

/// A file name is never empty, `.` or `..`, and holds no separator.
pub proof fn law_file_name_is_a_name(path: Seq<u8>)
    ensures
        file_name_of(path) matches Some(name) ==> {
            &&& name.len() > 0
            &&& !name.contains(SEPARATOR)
            &&& name != seq![DOT]
            &&& name != seq![DOT, DOT]
        },
    decreases path.len(),
{
    lemma_last_segment_start_bounds(path);
    let start = last_segment_start(path);
    if is_skipped(path.skip(start)) {
        if start != 0 {
            law_file_name_is_a_name(path.take(start - 1));
        }
    } else {
        lemma_no_separator_behind_start(path);
    }
}

proof fn lemma_no_separator_behind_start(path: Seq<u8>)
    ensures
        forall|i: int| last_segment_start(path) <= i < path.len() ==> path[i] != SEPARATOR,
    decreases path.len(),
{
    if path.len() != 0 && path.last() != SEPARATOR {
        lemma_last_segment_start_bounds(path);
        lemma_no_separator_behind_start(path.drop_last());
        assert forall|i: int| last_segment_start(path) <= i < path.len() implies path[i]
            != SEPARATOR by {
            if i < path.len() - 1 {
                assert(path.drop_last()[i] == path[i]);
            }
        }
    }
}

/// The file name of `path`, as the part of it that holds the name.
pub fn file_name(path: &[u8]) -> (name: Option<&[u8]>)
    ensures
        match name {
            Some(name) => file_name_of(path@) == Some(name@),
            None => file_name_of(path@) is None,
        },
        name matches Some(name) ==> {
            &&& name@.len() > 0
            &&& !name@.contains(SEPARATOR)
            &&& name@ != seq![DOT]
            &&& name@ != seq![DOT, DOT]
        },
{
    let mut end: usize = path.len();
    assert(path@.take(end as int) =~= path@);
    loop
        invariant
            end <= path.len(),
            file_name_of(path@) == file_name_of(path@.take(end as int)),
        decreases end,
    {
        let ghost head = path@.take(end as int);
        let mut start: usize = end;
        while start > 0 && path[start - 1] != SEPARATOR
            invariant
                start <= end <= path.len(),
                head == path@.take(end as int),
                last_segment_start(head) == last_segment_start(path@.take(start as int)),
            decreases start,
        {
            assert(path@.take(start as int).drop_last() =~= path@.take(start - 1));
            start = start - 1;
        }
        assert(last_segment_start(head) == start);
        let segment = slice_subrange(path, start, end);
        assert(segment@ =~= head.skip(start as int));
        if segment.len() == 0 || (segment.len() == 1 && segment[0] == DOT) {
            assert(is_skipped(segment@)) by {
                if segment.len() == 1 {
                    assert(segment@ =~= seq![DOT]);
                }
            }
            if start == 0 {
                return None;
            }
            assert(head.take(start - 1) =~= path@.take(start - 1));
            end = start - 1;
        } else if segment.len() == 2 && segment[0] == DOT && segment[1] == DOT {
            assert(segment@ =~= seq![DOT, DOT]);
            return None;
        } else {
            proof {
                law_file_name_is_a_name(path@);
            }
            return Some(segment);
        }
    }
}

} // verus!
