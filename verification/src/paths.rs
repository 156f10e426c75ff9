//! Paths as text: components separated by `/`.
//!
//! The library never asks the file system what a path means. A path is the
//! text that the caller handed over, and two paths are the same file exactly
//! when they are the same text. A caller that wants links and `.` resolved
//! does so before it hands a path over.

use vstd::prelude::*;
use vstd::string::StringExecFns;

verus! {

/// The character that separates the components of a path.
pub const SEPARATOR: char = '/';

/// The position of the last separator in `path`, or -1 where it has none.
pub open spec fn last_separator(path: Seq<char>) -> int
    decreases path.len(),
{
    if path.len() == 0 {
        -1
    } else if path.last() == SEPARATOR {
        path.len() - 1
    } else {
        last_separator(path.drop_last())
    }
}

/// What follows the last separator of `path`: all of it where it has none.
pub open spec fn base_name(path: Seq<char>) -> Seq<char> {
    path.skip(last_separator(path) + 1)
}

/// What `path` holds up to and including its last separator.
pub open spec fn directory_part(path: Seq<char>) -> Seq<char> {
    path.take(last_separator(path) + 1)
}

/// Whether `name` can name a file in a directory: it is not empty, holds no
/// separator, and is neither `.` nor `..`.
pub open spec fn is_file_name(name: Seq<char>) -> bool {
    &&& name.len() > 0
    &&& forall|i: int| 0 <= i < name.len() ==> name[i] != SEPARATOR
    &&& name != seq!['.']
    &&& name != seq!['.', '.']
}

/// The file name that `path` ends in, if it ends in one.
pub open spec fn file_name_of(path: Seq<char>) -> Option<Seq<char>> {
    if is_file_name(base_name(path)) {
        Some(base_name(path))
    } else {
        None
    }
}

/// Whether `path` starts at the root.
pub open spec fn is_absolute(path: Seq<char>) -> bool {
    path.len() > 0 && path[0] == SEPARATOR
}

/// `tail` seen from `base`: `tail` itself where it is absolute, and otherwise
/// `base` and `tail` with exactly one separator between them, none being
/// added where `base` is empty or already ends in one.
pub open spec fn joined(base: Seq<char>, tail: Seq<char>) -> Seq<char> {
    if is_absolute(tail) {
        tail
    } else if base.len() == 0 || base.last() == SEPARATOR {
        base + tail
    } else {
        base + seq![SEPARATOR] + tail
    }
}

/// The last separator lies inside the path, and nothing after it is one.
pub proof fn lemma_last_separator(path: Seq<char>)
    ensures
        -1 <= last_separator(path) < path.len(),
        last_separator(path) >= 0 ==> path[last_separator(path)] == SEPARATOR,
        forall|i: int| last_separator(path) < i < path.len() ==> path[i] != SEPARATOR,
    decreases path.len(),
{
    if path.len() > 0 && path.last() != SEPARATOR {
        let front = path.drop_last();
        lemma_last_separator(front);
        assert forall|i: int| last_separator(path) < i < path.len() implies path[i]
            != SEPARATOR by {
            if i < front.len() {
                assert(path[i] == front[i]);
            }
        }
    }
}

/// A separator with no separator after it is the last one.
pub proof fn lemma_last_separator_is_unique(path: Seq<char>, at: int)
    requires
        -1 <= at < path.len(),
        at >= 0 ==> path[at] == SEPARATOR,
        forall|i: int| at < i < path.len() ==> path[i] != SEPARATOR,
    ensures
        last_separator(path) == at,
{
    lemma_last_separator(path);
}

/// A path is its directory part followed by its base name, and the base
/// name holds no separator.
pub proof fn lemma_path_splits(path: Seq<char>)
    ensures
        path == directory_part(path) + base_name(path),
        forall|i: int| 0 <= i < base_name(path).len() ==> base_name(path)[i] != SEPARATOR,
        directory_part(path).len() == 0 || directory_part(path).last() == SEPARATOR,
{
    lemma_last_separator(path);
}

/// Joining a directory and a file name gives a path that ends in that file
/// name: only the directory of a file changes when it is placed.
pub proof fn lemma_join_keeps_file_name(base: Seq<char>, name: Seq<char>)
    requires
        is_file_name(name),
    ensures
        base_name(joined(base, name)) == name,
        file_name_of(joined(base, name)) == Some(name),
{
    let whole = joined(base, name);
    let at = whole.len() - name.len() - 1;
    assert(!is_absolute(name));
    assert forall|i: int| at < i < whole.len() implies whole[i] != SEPARATOR by {
        assert(whole[i] == name[i - at - 1]);
    }
    if base.len() == 0 {
        assert(whole == name);
    } else if base.last() == SEPARATOR {
        assert(whole[at] == base.last());
    } else {
        assert(whole[at] == SEPARATOR);
    }
    lemma_last_separator_is_unique(whole, at);
    assert(whole.skip(at + 1) == name);
}

/// The position of the last separator of `path`.
fn find_last_separator(path: &str) -> (found: Option<usize>)
    ensures
        match found {
            Some(at) => at == last_separator(path@),
            None => last_separator(path@) == -1,
        },
{
    let length = path.unicode_len();
    let mut found: Option<usize> = None;
    let mut index: usize = 0;
    for c in it: path.chars()
        invariant
            it.seq() == path@,
            index == it.index(),
            length == path@.len(),
            match found {
                Some(at) => at == last_separator(path@.take(index as int)),
                None => last_separator(path@.take(index as int)) == -1,
            },
    {
        assert(c == path@[index as int]);
        assert(path@.take(index + 1).drop_last() == path@.take(index as int));
        if c == SEPARATOR {
            found = Some(index);
        }
        index = index + 1;
    }
    assert(path@.take(index as int) == path@);
    found
}

/// The file name that `path` ends in: what follows its last separator, if
/// that can name a file.
pub fn file_name(path: &str) -> (name: Option<String>)
    ensures
        match name {
            Some(text) => file_name_of(path@) == Some(text@),
            None => file_name_of(path@) is None,
        },
{
    proof {
        lemma_last_separator(path@);
    }
    let length = path.unicode_len();
    let start: usize = match find_last_separator(path) {
        Some(at) => at + 1,
        None => 0,
    };
    let name = path.substring_char(start, length);
    assert(name@ == base_name(path@));
    let size = length - start;
    if size == 0 {
        return None;
    }
    if size == 1 && name.get_char(0) == '.' {
        assert(name@ == seq!['.']);
        return None;
    }
    if size == 2 && name.get_char(0) == '.' && name.get_char(1) == '.' {
        assert(name@ == seq!['.', '.']);
        return None;
    }
    assert(name@ != seq!['.']) by {
        if name@ == seq!['.'] {
            assert(name@[0] == '.');
        }
    }
    assert(name@ != seq!['.', '.']) by {
        if name@ == seq!['.', '.'] {
            assert(name@[0] == '.');
            assert(name@[1] == '.');
        }
    }
    Some(name.to_owned())
}

/// Whether `path` starts at the root.
pub fn starts_at_root(path: &str) -> (absolute: bool)
    ensures
        absolute == is_absolute(path@),
{
    path.unicode_len() > 0 && path.get_char(0) == SEPARATOR
}

/// `tail` seen from `base`, as `joined` says.
pub fn join(base: &str, tail: &str) -> (whole: String)
    ensures
        whole@ == joined(base@, tail@),
{
    if starts_at_root(tail) {
        return tail.to_owned();
    }
    let mut whole = base.to_owned();
    let length = base.unicode_len();
    if length > 0 && base.get_char(length - 1) != SEPARATOR {
        proof {
            reveal_strlit("/");
        }
        whole.append("/");
        assert(whole@ == base@ + seq![SEPARATOR]);
    }
    whole.append(tail);
    whole
}

} // verus!
