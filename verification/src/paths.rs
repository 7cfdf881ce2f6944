//! Paths as character sequences: the last component of a path, its stem,
//! and the names under which captures are stored.

use vstd::prelude::*;
use vstd::string::StringExecFns;
use crate::text::{chars_of, push_char, string_of};

verus! {

/// How many leading characters of a screenshot's file name are dropped
/// when it is stored.
pub const SCREENSHOT_PREFIX_LEN: usize = 11;

/// Whether `c` separates the components of a path.
pub open spec fn is_separator(c: char) -> bool {
    c == '/' || c == '\\'
}

/// The position just behind the last separator of `path`, or 0 where it has none.
pub open spec fn file_name_start(path: Seq<char>) -> int
    decreases path.len(),
{
    if path.len() == 0 {
        0
    } else if is_separator(path.last()) {
        path.len() as int
    } else {
        file_name_start(path.drop_last())
    }
}

/// The last component of `path`: what follows its last separator.
pub open spec fn spec_file_name(path: Seq<char>) -> Seq<char> {
    path.subrange(file_name_start(path), path.len() as int)
}

/// Whether the last component of `path` names a file: it is not empty and
/// is neither `.` nor `..`.
pub open spec fn spec_has_file_name(path: Seq<char>) -> bool {
    let name = spec_file_name(path);
    &&& name.len() > 0
    &&& !(name.len() == 1 && name[0] == '.')
    &&& !(name.len() == 2 && name[0] == '.' && name[1] == '.')
}

/// The position of the last dot of `name`, or -1 where it has none.
pub open spec fn last_dot(name: Seq<char>) -> int
    decreases name.len(),
{
    if name.len() == 0 {
        -1
    } else if name.last() == '.' {
        name.len() - 1
    } else {
        last_dot(name.drop_last())
    }
}

/// The stem of a file name: the part before its last dot. A name without a
/// dot, or whose only dot is its first character, is its own stem.
pub open spec fn spec_file_stem(name: Seq<char>) -> Seq<char> {
    let dot = last_dot(name);
    if dot <= 0 {
        name
    } else {
        name.subrange(0, dot)
    }
}

/// `base` followed by `segment`, with one `/` between them unless `base` is
/// empty or already ends in a separator.
pub open spec fn spec_join(base: Seq<char>, segment: Seq<char>) -> Seq<char> {
    if base.len() == 0 || is_separator(base.last()) {
        base + segment
    } else {
        base.push('/') + segment
    }
}

/// The extension given to stored screenshots.
pub open spec fn jpg() -> Seq<char> {
    seq!['j', 'p', 'g']
}

/// The name under which a screenshot with file name `name` is stored: the
/// name without its first eleven characters, its extension replaced by `jpg`.
pub open spec fn spec_screenshot_name(name: Seq<char>) -> Seq<char> {
    spec_file_stem(name.subrange(SCREENSHOT_PREFIX_LEN as int, name.len() as int)).push('.')
        + jpg()
}

/// From the last separator on, a path holds no separator.
pub proof fn lemma_file_name_start(path: Seq<char>)
    ensures
        0 <= file_name_start(path) <= path.len(),
        file_name_start(path) > 0 ==> is_separator(path[file_name_start(path) - 1]),
        forall|i: int| file_name_start(path) <= i < path.len() ==> !is_separator(#[trigger] path[i]),
    decreases path.len(),
{
    if path.len() > 0 && !is_separator(path.last()) {
        let front = path.drop_last();
        lemma_file_name_start(front);
        assert forall|i: int| file_name_start(path) <= i < path.len() implies !is_separator(
            #[trigger] path[i],
        ) by {
            if i < front.len() {
                assert(path[i] == front[i]);
            }
        }
    }
}

/// The last dot of a name is a dot, and none follows it.
pub proof fn lemma_last_dot(name: Seq<char>)
    ensures
        -1 <= last_dot(name) < name.len(),
        last_dot(name) >= 0 ==> name[last_dot(name)] == '.',
        forall|i: int| last_dot(name) < i < name.len() ==> #[trigger] name[i] != '.',
    decreases name.len(),
{
    if name.len() > 0 && name.last() != '.' {
        let front = name.drop_last();
        lemma_last_dot(front);
        assert forall|i: int| last_dot(name) < i < name.len() implies #[trigger] name[i]
            != '.' by {
            if i < front.len() {
                assert(name[i] == front[i]);
            }
        }
    }
}

fn is_separator_char(c: char) -> (sep: bool)
    ensures
        sep == is_separator(c),
{
    c == '/' || c == '\\'
}

fn find_name_start(path: &Vec<char>) -> (start: usize)
    ensures
        start == file_name_start(path@),
        start <= path@.len(),
{
    let n = path.len();
    let mut i: usize = n;
    assert(path@.subrange(0, n as int) =~= path@);
    while i > 0
        invariant
            i <= n,
            n == path@.len(),
            file_name_start(path@) == file_name_start(path@.subrange(0, i as int)),
        decreases i,
    {
        if is_separator_char(path[i - 1]) {
            return i;
        }
        assert(path@.subrange(0, i as int).drop_last() =~= path@.subrange(0, i - 1));
        i -= 1;
    }
    0
}

fn find_last_dot(name: &Vec<char>) -> (dot: Option<usize>)
    ensures
        match dot {
            Some(at) => at == last_dot(name@) && at < name@.len(),
            None => last_dot(name@) == -1,
        },
{
    let n = name.len();
    let mut i: usize = n;
    assert(name@.subrange(0, n as int) =~= name@);
    while i > 0
        invariant
            i <= n,
            n == name@.len(),
            last_dot(name@) == last_dot(name@.subrange(0, i as int)),
        decreases i,
    {
        if name[i - 1] == '.' {
            return Some(i - 1);
        }
        assert(name@.subrange(0, i as int).drop_last() =~= name@.subrange(0, i - 1));
        i -= 1;
    }
    None
}

/// The last component of `path`, or `None` where it names no file.
pub fn file_name_of(path: &str) -> (name: Option<String>)
    ensures
        name is Some <==> spec_has_file_name(path@),
        name is Some ==> name.unwrap()@ == spec_file_name(path@),
        name is Some ==> forall|i: int|
            0 <= i < name.unwrap()@.len() ==> !is_separator(#[trigger] name.unwrap()@[i]),
{
    let chars = chars_of(path);
    let n = chars.len();
    let start = find_name_start(&chars);
    proof {
        lemma_file_name_start(path@);
    }
    let len = n - start;
    if len == 0 {
        return None;
    }
    if len == 1 && chars[start] == '.' {
        return None;
    }
    if len == 2 && chars[start] == '.' && chars[start + 1] == '.' {
        return None;
    }
    Some(string_of(&chars, start, n))
}

/// The stem of the file name `name`.
pub fn file_stem_of(name: &str) -> (stem: String)
    ensures
        stem@ == spec_file_stem(name@),
        stem@.len() <= name@.len(),
        stem@ == name@.subrange(0, stem@.len() as int),
{
    let chars = chars_of(name);
    let n = chars.len();
    proof {
        lemma_last_dot(name@);
        assert(name@.subrange(0, n as int) =~= name@);
    }
    match find_last_dot(&chars) {
        Some(dot) => if dot == 0 {
            string_of(&chars, 0, n)
        } else {
            string_of(&chars, 0, dot)
        },
        None => string_of(&chars, 0, n),
    }
}

/// Appends `segment` to `base` as a further path component.
pub fn join(base: &str, segment: &str) -> (path: String)
    ensures
        path@ == spec_join(base@, segment@),
{
    let chars = chars_of(base);
    let n = chars.len();
    let mut path = String::from_str(base);
    if n > 0 && !is_separator_char(chars[n - 1]) {
        push_char(&mut path, '/');
    }
    path.append(segment);
    path
}

/// The name under which a screenshot with file name `name` is stored, or
/// `None` where `name` has no character beyond the dropped prefix.
pub fn screenshot_name(name: &str) -> (stored: Option<String>)
    ensures
        stored is Some <==> name@.len() > SCREENSHOT_PREFIX_LEN,
        stored is Some ==> stored.unwrap()@ == spec_screenshot_name(name@),
{
    let chars = chars_of(name);
    let n = chars.len();
    if n <= SCREENSHOT_PREFIX_LEN {
        return None;
    }
    let rest = string_of(&chars, SCREENSHOT_PREFIX_LEN, n);
    let mut stored = file_stem_of(rest.as_str());
    push_char(&mut stored, '.');
    push_char(&mut stored, 'j');
    push_char(&mut stored, 'p');
    push_char(&mut stored, 'g');
    assert(stored@ =~= spec_screenshot_name(name@));
    Some(stored)
}

} // verus!
