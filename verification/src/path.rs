//! The name of a file, taken from its path.

use vstd::prelude::*;
use vstd::std_specs::iter::IteratorSpec;
use vstd::string::StrSliceExecFns;
use vstd::string::StringExecFns;

verus! {

/// The character that parts the components of a path.
pub open spec fn separator() -> char {
    '\\'
}

/// Where the last component of `path` starts: behind its last separator, or at
/// the front where it holds none.
pub open spec fn file_name_start(path: Seq<char>) -> int
    decreases path.len(),
{
    if path.len() == 0 {
        0
    } else if path.last() == separator() {
        path.len() as int
    } else {
        file_name_start(path.drop_last())
    }
}

/// The last component of `path`: what follows its last separator, and all of
/// it where it holds none.
pub open spec fn file_name(path: Seq<char>) -> Seq<char> {
    path.subrange(file_name_start(path), path.len() as int)
}

/// The last component starts inside the path, directly behind a separator
/// unless it starts at the front, and holds no separator itself.
pub proof fn lemma_file_name_start(path: Seq<char>)
    ensures
        0 <= file_name_start(path) <= path.len(),
        file_name_start(path) > 0 ==> path[file_name_start(path) - 1] == separator(),
        forall|i: int| file_name_start(path) <= i < path.len() ==> path[i] != separator(),
    decreases path.len(),
{
    if path.len() > 0 && path.last() != separator() {
        let front = path.drop_last();
        lemma_file_name_start(front);
        assert forall|i: int| file_name_start(path) <= i < path.len() implies path[i]
            != separator() by {
            if i < front.len() {
                assert(path[i] == front[i]);
            }
        }
        if file_name_start(path) > 0 {
            assert(path[file_name_start(path) - 1] == front[file_name_start(front) - 1]);
        }
    }
}

/// Only one place in a path lies directly behind a separator, or at the front,
/// with no separator after it: where the last component starts.
pub proof fn lemma_file_name_start_unique(path: Seq<char>, start: int)
    requires
        0 <= start <= path.len(),
        start > 0 ==> path[start - 1] == separator(),
        forall|i: int| start <= i < path.len() ==> path[i] != separator(),
    ensures
        start == file_name_start(path),
{
    lemma_file_name_start(path);
    let found: int = file_name_start(path);
    if start < found {
        assert(path[found - 1] == separator());
    } else if found < start {
        assert(path[start - 1] == separator());
    }
}

/// A path without a separator is its own file name.
pub proof fn lemma_file_name_of_plain(path: Seq<char>)
    requires
        !path.contains(separator()),
    ensures
        file_name(path) == path,
{
    assert forall|i: int| 0 <= i < path.len() implies path[i] != separator() by {
        if path[i] == separator() {
            assert(path.contains(separator()));
        }
    }
    lemma_file_name_start_unique(path, 0);
    assert(path.subrange(0, path.len() as int) =~= path);
}

/// What follows the last separator of `directory + separator + name` is `name`,
/// where `name` holds no separator.
pub proof fn lemma_file_name_of_joined(directory: Seq<char>, name: Seq<char>)
    requires
        !name.contains(separator()),
    ensures
        file_name(directory.push(separator()) + name) == name,
{
    let path = directory.push(separator()) + name;
    let start: int = directory.len() as int + 1;
    assert forall|i: int| start <= i < path.len() implies path[i] != separator() by {
        assert(path[i] == name[i - start]);
        if name[i - start] == separator() {
            assert(name.contains(separator()));
        }
    }
    assert(path[start - 1] == separator());
    lemma_file_name_start_unique(path, start);
    assert(path.subrange(start, path.len() as int) =~= name);
}

/// The name of the file at `path`: what follows the last backslash in it, and
/// all of it where it holds none.
pub fn file_from_path(path: String) -> (name: String)
    ensures
        name@ == file_name(path@),
{
    let whole = path.as_str();
    let len: usize = whole.unicode_len();
    let mut chars = whole.chars();
    let mut seen: usize = 0;
    let mut start: usize = 0;
    loop
        invariant
            whole@ == path@,
            len == path@.len(),
            start <= seen <= len,
            chars.remaining() == path@.skip(seen as int),
            start > 0 ==> path@[start - 1] == separator(),
            forall|i: int| start <= i < seen ==> path@[i] != separator(),
        ensures
            seen == len,
        decreases len - seen,
    {
        match chars.next() {
            Some(c) => {
                seen += 1;
                if c == '\\' {
                    start = seen;
                }
            },
            None => {
                break ;
            },
        }
    }
    proof {
        lemma_file_name_start_unique(path@, start as int);
    }
    String::from_str(whole.substring_char(start, len))
}

} // verus!
