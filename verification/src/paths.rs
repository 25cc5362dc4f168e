//! Paths as text.
//!
//! A path is a sequence of characters in which `/` and `\` part the
//! components. This module gives the last component of a path, its extension,
//! and the path that mirrors a file of one tree under the root of another.

use vstd::prelude::*;
use crate::text::{chars_of, string_of_range};

verus! {

/// Whether `c` parts two components of a path.
pub open spec fn is_separator(c: char) -> bool {
    c == '/' || c == '\\'
}

/// Tells whether `c` parts two components of a path.
pub fn char_is_separator(c: char) -> (b: bool)
    ensures
        b == is_separator(c),
{
    c == '/' || c == '\\'
}

/// Where the last component of `path` begins: just behind the last
/// separator, or at 0 where the path holds none.
pub open spec fn component_start(path: Seq<char>) -> int
    decreases path.len(),
{
    if path.len() == 0 {
        0
    } else if is_separator(path.last()) {
        path.len() as int
    } else {
        component_start(path.drop_last())
    }
}

/// The last component of `path`: what follows its last separator. It is
/// empty where the path ends in a separator.
pub open spec fn final_component(path: Seq<char>) -> Seq<char> {
    path.skip(component_start(path))
}

/// The last component of a path holds no separator, and it begins either at
/// the start of the path or just behind a separator.
pub proof fn lemma_final_component(path: Seq<char>)
    ensures
        0 <= component_start(path) <= path.len(),
        component_start(path) > 0 ==> is_separator(path[component_start(path) - 1]),
        forall|k: int| component_start(path) <= k < path.len() ==> !is_separator(path[k]),
        forall|k: int|
            0 <= k < final_component(path).len() ==> !is_separator(
                #[trigger] final_component(path)[k],
            ),
    decreases path.len(),
{
    if path.len() > 0 && !is_separator(path.last()) {
        let front = path.drop_last();
        lemma_final_component(front);
        assert forall|k: int| component_start(path) <= k < path.len() implies !is_separator(
            path[k],
        ) by {
            if k < front.len() {
                assert(front[k] == path[k]);
            }
        }
        if component_start(path) > 0 {
            assert(front[component_start(path) - 1] == path[component_start(path) - 1]);
        }
    }
    assert forall|k: int| 0 <= k < final_component(path).len() implies !is_separator(
        #[trigger] final_component(path)[k],
    ) by {
        assert(final_component(path)[k] == path[component_start(path) + k]);
    }
}

/// The index of the last `.` in `name`, or -1 where it holds none.
pub open spec fn last_dot(name: Seq<char>) -> int
    decreases name.len(),
{
    if name.len() == 0 {
        -1
    } else if name.last() == '.' {
        name.len() - 1
    } else {
        last_dot(name.drop_last())
    }
}

/// The extension of `path`: what follows the last `.` of its last component.
/// There is none where that component holds no `.`, where its only `.` is its
/// first character, and where it is `..`.
pub open spec fn extension(path: Seq<char>) -> Option<Seq<char>> {
    let name = final_component(path);
    let dot = last_dot(name);
    if dot <= 0 || name == seq!['.', '.'] {
        None
    } else {
        Some(name.skip(dot + 1))
    }
}

/// An extension holds neither a `.` nor a separator, and the path ends with
/// a `.` followed by it.
pub proof fn lemma_extension(path: Seq<char>)
    ensures
        extension(path) matches Some(e) ==> {
            &&& forall|k: int| 0 <= k < e.len() ==> e[k] != '.' && !is_separator(#[trigger] e[k])
            &&& e.len() < path.len()
            &&& path.skip(path.len() - e.len()) == e
            &&& path[path.len() - e.len() - 1] == '.'
        },
{
    let name = final_component(path);
    lemma_final_component(path);
    lemma_last_dot(name);
    if let Some(e) = extension(path) {
        let dot = last_dot(name);
        assert forall|k: int| 0 <= k < e.len() implies e[k] != '.' && !is_separator(
            #[trigger] e[k],
        ) by {
            assert(e[k] == name[dot + 1 + k]);
        }
        assert(path.skip(path.len() - e.len()) == e);
        assert(name[dot] == path[component_start(path) + dot]);
    }
}

/// `last_dot` points at a `.` behind which no other `.` stands.
pub proof fn lemma_last_dot(name: Seq<char>)
    ensures
        -1 <= last_dot(name) < name.len(),
        last_dot(name) >= 0 ==> name[last_dot(name)] == '.',
        forall|k: int| last_dot(name) < k < name.len() ==> name[k] != '.',
    decreases name.len(),
{
    if name.len() > 0 && name.last() != '.' {
        let front = name.drop_last();
        lemma_last_dot(front);
        assert forall|k: int| last_dot(name) < k < name.len() implies name[k] != '.' by {
            if k < front.len() {
                assert(front[k] == name[k]);
            }
        }
        if last_dot(name) >= 0 {
            assert(front[last_dot(name)] == name[last_dot(name)]);
        }
    }
}

/// The index at which the last component of `chars` begins.
pub fn component_start_of(chars: &Vec<char>) -> (start: usize)
    ensures
        start == component_start(chars@),
        start <= chars.len(),
{
    let mut j: usize = chars.len();
    assert(chars@.take(j as int) == chars@);
    while 0 < j && !char_is_separator(chars[j - 1])
        invariant
            j <= chars.len(),
            component_start(chars@) == component_start(chars@.take(j as int)),
        decreases j,
    {
        proof {
            let cur = chars@.take(j as int);
            assert(cur.last() == chars@[j - 1]);
            assert(cur.drop_last() == chars@.take(j - 1));
        }
        j -= 1;
    }
    proof {
        if 0 < j {
            assert(chars@.take(j as int).last() == chars@[j - 1]);
        }
    }
    j
}

/// The last component of `path`, as a new string.
pub fn file_name_of(path: &str) -> (name: String)
    ensures
        name@ == final_component(path@),
{
    let chars = chars_of(path);
    let start = component_start_of(&chars);
    let name = string_of_range(&chars, start, chars.len());
    assert(chars@.subrange(start as int, chars@.len() as int) == chars@.skip(start as int));
    name
}

/// The extension of `path`, as a new string.
pub fn file_extension(path: &str) -> (ext: Option<String>)
    ensures
        match ext {
            Some(e) => extension(path@) == Some(e@),
            None => extension(path@) is None,
        },
{
    let chars = chars_of(path);
    let start = component_start_of(&chars);
    let ghost name = chars@.skip(start as int);
    let mut j: usize = chars.len();
    assert(chars@.subrange(start as int, j as int) == name);
    while start < j && chars[j - 1] != '.'
        invariant
            start <= j <= chars.len(),
            name == chars@.skip(start as int),
            last_dot(name) == last_dot(chars@.subrange(start as int, j as int)),
        decreases j,
    {
        proof {
            let cur = chars@.subrange(start as int, j as int);
            assert(cur.last() == chars@[j - 1]);
            assert(cur.drop_last() == chars@.subrange(start as int, j - 1));
        }
        j -= 1;
    }
    proof {
        if start < j {
            assert(chars@.subrange(start as int, j as int).last() == chars@[j - 1]);
        }
    }
    // The last `.` stands at `j - 1`, or there is none and `j == start`.
    assert(last_dot(name) == j - 1 - start);
    if j - start <= 1 {
        return None;
    }
    if chars.len() - start == 2 && chars[start] == '.' && chars[start + 1] == '.' {
        assert(name =~= seq!['.', '.']);
        return None;
    }
    assert(name != seq!['.', '.']) by {
        if name == seq!['.', '.'] {
            assert(name.len() == 2);
            assert(name[0] == chars@[start as int]);
            assert(name[1] == chars@[start + 1]);
        }
    }
    let ext = string_of_range(&chars, j, chars.len());
    assert(chars@.subrange(j as int, chars@.len() as int) == name.skip(j - start));
    Some(ext)
}

/// `s` without the separators at its start.
pub open spec fn without_leading_separators(s: Seq<char>) -> Seq<char>
    decreases s.len(),
{
    if s.len() > 0 && is_separator(s.first()) {
        without_leading_separators(s.drop_first())
    } else {
        s
    }
}

/// Whether `file` lies under `root`: the path begins with the root, and the
/// root ends where a component of the path ends.
pub open spec fn is_under(file: Seq<char>, root: Seq<char>) -> bool {
    &&& root.len() <= file.len()
    &&& file.take(root.len() as int) == root
    &&& (root.len() == 0 || is_separator(root.last()) || root.len() == file.len() || is_separator(
        file[root.len() as int],
    ))
}

/// The separator that joins a new root to what `file` holds behind `root`:
/// the one that `file` has at that place, else the one that ends `root`, else
/// `/`.
pub open spec fn joining_separator(file: Seq<char>, root: Seq<char>) -> char {
    if root.len() < file.len() && is_separator(file[root.len() as int]) {
        file[root.len() as int]
    } else if root.len() > 0 && is_separator(root.last()) {
        root.last()
    } else {
        '/'
    }
}

/// `relative` placed under `base`, with `separator` between the two where
/// `base` does not end in one. An empty `base` gives `relative` itself.
pub open spec fn joined(base: Seq<char>, separator: char, relative: Seq<char>) -> Seq<char> {
    if base.len() == 0 {
        relative
    } else if is_separator(base.last()) {
        base + relative
    } else {
        base.push(separator) + relative
    }
}

/// What `file` holds behind `root`, without the separators in front of it.
pub open spec fn relative_part(file: Seq<char>, root: Seq<char>) -> Seq<char> {
    without_leading_separators(file.skip(root.len() as int))
}

/// The path under `target_root` that mirrors `file` of `source_root`: the
/// source root at the front of the path is replaced by the target root and
/// the rest is kept. There is none where `file` does not lie under
/// `source_root`.
pub open spec fn mirrored_path(
    file: Seq<char>,
    source_root: Seq<char>,
    target_root: Seq<char>,
) -> Option<Seq<char>> {
    if is_under(file, source_root) {
        Some(
            joined(
                target_root,
                joining_separator(file, source_root),
                relative_part(file, source_root),
            ),
        )
    } else {
        None
    }
}

/// A mirrored path begins with the target root and ends with the part of the
/// file's path that lies behind the source root.
pub proof fn lemma_mirrored_path_keeps_remainder(
    file: Seq<char>,
    source_root: Seq<char>,
    target_root: Seq<char>,
)
    ensures
        mirrored_path(file, source_root, target_root) matches Some(m) ==> {
            let rel = relative_part(file, source_root);
            &&& m.len() >= target_root.len() + rel.len()
            &&& m.take(target_root.len() as int) == target_root
            &&& m.skip(m.len() - rel.len()) == rel
        },
{
}

/// Tells whether `file` lies under `root`.
fn lies_under(file: &Vec<char>, root: &Vec<char>) -> (b: bool)
    ensures
        b == is_under(file@, root@),
{
    if root.len() > file.len() {
        return false;
    }
    let mut i: usize = 0;
    while i < root.len()
        invariant
            i <= root.len() <= file.len(),
            forall|k: int| 0 <= k < i ==> file@[k] == root@[k],
        decreases root.len() - i,
    {
        if file[i] != root[i] {
            assert(file@.take(root@.len() as int)[i as int] != root@[i as int]);
            return false;
        }
        i += 1;
    }
    assert(file@.take(root@.len() as int) =~= root@);
    root.len() == 0 || char_is_separator(root[root.len() - 1]) || root.len() == file.len()
        || char_is_separator(file[root.len()])
}

/// The path under `target_root` that mirrors `file` of `source_root`, or
/// `None` where `file` does not lie under `source_root`.
pub fn mirror_path(file: &str, source_root: &str, target_root: &str) -> (mirrored: Option<String>)
    ensures
        match mirrored {
            Some(m) => mirrored_path(file@, source_root@, target_root@) == Some(m@),
            None => mirrored_path(file@, source_root@, target_root@) is None,
        },
{
    let path = chars_of(file);
    let root = chars_of(source_root);
    let base = chars_of(target_root);
    if !lies_under(&path, &root) {
        return None;
    }
    let separator = if root.len() < path.len() && char_is_separator(path[root.len()]) {
        path[root.len()]
    } else if root.len() > 0 && char_is_separator(root[root.len() - 1]) {
        root[root.len() - 1]
    } else {
        '/'
    };
    let ghost rest = path@.skip(root@.len() as int);
    let mut i: usize = root.len();
    while i < path.len() && char_is_separator(path[i])
        invariant
            root.len() <= i <= path.len(),
            rest == path@.skip(root@.len() as int),
            without_leading_separators(rest) == without_leading_separators(path@.skip(i as int)),
        decreases path.len() - i,
    {
        proof {
            let cur = path@.skip(i as int);
            assert(cur.first() == path@[i as int]);
            assert(cur.drop_first() == path@.skip(i + 1));
        }
        i += 1;
    }
    proof {
        if i < path.len() {
            assert(path@.skip(i as int).first() == path@[i as int]);
        }
    }
    let relative = string_of_range(&path, i, path.len());
    assert(path@.subrange(i as int, path@.len() as int) == path@.skip(i as int));
    let mut out = String::from_str(target_root);
    if base.len() > 0 && !char_is_separator(base[base.len() - 1]) {
        out.push(separator);
    }
    out.append(relative.as_str());
    assert(out@ == joined(base@, separator, relative@)) by {
        if base@.len() == 0 {
            assert(base@ + relative@ == relative@);
        }
    }
    Some(out)
}

} // verus!
