//! Unix paths as texts.

use vstd::prelude::*;

use crate::text::{
    chars_of, concat, concat3, ends_with, find_char, place_in_range, place_of, same_texts, starts_with,
    text_between, texts,
};

verus! {

/// A path that begins at the root.
pub open spec fn absolute(path: Seq<char>) -> bool {
    "/"@.is_prefix_of(path)
}

/// A path below another: an absolute one replaces it.
pub open spec fn joined(path: Seq<char>, name: Seq<char>) -> Seq<char> {
    if absolute(name) {
        name
    } else if path.len() == 0 || "/"@.is_suffix_of(path) {
        path + name
    } else {
        path + "/"@ + name
    }
}

pub fn is_absolute(path: &str) -> (yes: bool)
    ensures
        yes == absolute(path@),
{
    starts_with(path, "/")
}

/// A path below another.
pub fn join(path: &str, name: &str) -> (whole: String)
    ensures
        whole@ == joined(path@, name@),
{
    if is_absolute(name) {
        name.to_owned()
    } else if path.is_empty() || ends_with(path, "/") {
        concat(path, name)
    } else {
        concat3(path, "/", name)
    }
}

/// The names that a path goes through from a place on: what stands between solidi, but for
/// nothing and a single full stop.
pub open spec fn names_from(path: Seq<char>, from: int) -> Seq<Seq<char>>
    decreases path.len() + 1 - from,
    when 0 <= from <= path.len()
{
    let end = place_of(path, '/', from);
    proof {
        place_in_range(path, '/', from);
    }
    let name = path.subrange(from, end);
    let first = if name.len() == 0 || name == seq!['.'] {
        Seq::<Seq<char>>::empty()
    } else {
        seq![name]
    };
    if end >= path.len() {
        first
    } else {
        first + names_from(path, end + 1)
    }
}

/// The names that a path goes through.
pub open spec fn path_names(path: Seq<char>) -> Seq<Seq<char>> {
    names_from(path, 0)
}

/// The names that a path goes through.
pub fn components(path: &str) -> (names: Vec<String>)
    ensures
        texts(names@) == path_names(path@),
{
    let chars = chars_of(path);
    let mut names: Vec<String> = Vec::new();
    let mut from: usize = 0;
    assert(texts(names@) + names_from(path@, 0) =~= path_names(path@));
    loop
        invariant
            chars@ == path@,
            from <= chars@.len(),
            texts(names@) + names_from(path@, from as int) == path_names(path@),
        decreases chars@.len() - from,
    {
        let end = find_char(&chars, '/', from);
        proof {
            place_in_range(path@, '/', from as int);
        }
        let ghost before = names@;
        let name = text_between(&chars, from, end);
        let single = end - from == 1 && chars[from] == '.';
        proof {
            assert(single == (name@ == seq!['.'])) by {
                if single {
                    assert(name@ =~= seq!['.']);
                }
                if name@ == seq!['.'] {
                    assert(name@.len() == 1);
                    assert(name@[0] == chars@[from as int]);
                }
            }
        }
        let ghost rest = if end >= path@.len() {
            Seq::<Seq<char>>::empty()
        } else {
            names_from(path@, end + 1)
        };
        if end > from && !single {
            let ghost found = name@;
            names.push(name);
            assert(texts(names@) =~= texts(before) + seq![found]);
            assert(texts(before) + (seq![found] + rest) =~= texts(names@) + rest);
            assert(texts(before) + seq![found] + Seq::<Seq<char>>::empty() =~= texts(names@));
        } else {
            assert(Seq::<Seq<char>>::empty() + rest =~= rest);
            assert(names_from(path@, from as int) == rest);
        }
        if end >= chars.len() {
            assert(texts(names@) + rest =~= texts(names@));
            return names;
        }
        from = end + 1;
    }
}

/// Whether a path goes through a directory above.
pub open spec fn goes_up(path: Seq<char>) -> bool {
    path_names(path).contains(seq!['.', '.'])
}

/// Whether a path goes through a directory above.
pub fn has_parent(path: &str) -> (up: bool)
    ensures
        up == goes_up(path@),
{
    let names = components(path);
    let mut i: usize = 0;
    while i < names.len()
        invariant
            i <= names@.len(),
            texts(names@) == path_names(path@),
            forall|j: int| 0 <= j < i ==> #[trigger] texts(names@)[j] != seq!['.', '.'],
        decreases names.len() - i,
    {
        let found = crate::text::same_text(names[i].as_str(), "..");
        proof {
            reveal_strlit("..");
            assert(".."@ =~= seq!['.', '.']);
        }
        if found {
            assert(texts(names@)[i as int] == seq!['.', '.']);
            return true;
        }
        i += 1;
    }
    false
}

/// A path by which something can be found for good: it is not empty and never goes up.
pub open spec fn steady(path: Seq<char>) -> bool {
    path.len() > 0 && !goes_up(path)
}

pub fn is_steady(path: &str) -> (yes: bool)
    ensures
        yes == steady(path@),
{
    path.unicode_len() > 0 && !has_parent(path)
}

/// Whether a path begins with the current directory: its first part is a single full stop.
pub open spec fn from_here(path: Seq<char>) -> bool {
    path.len() > 0 && path[0] == '.' && (path.len() == 1 || path[1] == '/')
}

/// What a path is told apart by: whether it begins at the root, whether it begins with the
/// current directory, and the names that it goes through.
pub open spec fn path_parts(path: Seq<char>) -> (bool, bool, Seq<Seq<char>>) {
    (absolute(path), from_here(path), path_names(path))
}

/// Two spellings of one path: repeated solidi and a full stop in between make no difference.
pub open spec fn same_path(a: Seq<char>, b: Seq<char>) -> bool {
    path_parts(a) == path_parts(b)
}

fn is_from_here(path: &str) -> (yes: bool)
    ensures
        yes == from_here(path@),
{
    let chars = chars_of(path);
    chars.len() > 0 && chars[0] == '.' && (chars.len() == 1 || chars[1] == '/')
}

/// Whether two texts spell one path.
pub fn is_same_path(a: &str, b: &str) -> (same: bool)
    ensures
        same == same_path(a@, b@),
{
    let left = components(a);
    let right = components(b);
    is_absolute(a) == is_absolute(b) && is_from_here(a) == is_from_here(b) && same_texts(&left, &right)
}

/// Where the names of a path begin: behind the root or the current directory.
pub open spec fn names_start(path: Seq<char>) -> int {
    if absolute(path) || from_here(path) {
        1
    } else {
        0
    }
}

/// Where the last part of a path's beginning begins.
pub open spec fn last_part(path: Seq<char>, start: int, end: int) -> int
    decreases end - start,
{
    if end <= start {
        start
    } else if path[end - 1] == '/' {
        end
    } else {
        last_part(path, start, end - 1)
    }
}

/// Where a path's beginning ends without its last part.
pub open spec fn before_part(start: int, part: int) -> int {
    if part > start {
        part - 1
    } else {
        start
    }
}

/// A part of a path that is no name: nothing, or a single full stop.
pub open spec fn no_name(part: Seq<char>) -> bool {
    part.len() == 0 || part == seq!['.']
}

/// Where the last name of a path's beginning ends.
pub open spec fn names_end(path: Seq<char>, start: int, end: int) -> int
    decreases end - start,
{
    let part = last_part(path, start, end);
    proof {
        last_part_in_range(path, start, end);
    }
    if end <= start || !no_name(path.subrange(part, end)) {
        end
    } else {
        names_end(path, start, before_part(start, part))
    }
}

pub proof fn last_part_in_range(path: Seq<char>, start: int, end: int)
    ensures
        start <= end ==> start <= last_part(path, start, end) <= end,
    decreases end - start,
{
    if end > start && path[end - 1] != '/' {
        last_part_in_range(path, start, end - 1);
    }
}

fn find_last_part(chars: &Vec<char>, start: usize, end: usize) -> (part: usize)
    requires
        start <= end <= chars@.len(),
    ensures
        part == last_part(chars@, start as int, end as int),
        start <= part <= end,
{
    let mut i: usize = end;
    while i > start && chars[i - 1] != '/'
        invariant
            start <= i <= end <= chars@.len(),
            last_part(chars@, start as int, end as int) == last_part(
                chars@,
                start as int,
                i as int,
            ),
        decreases i,
    {
        i -= 1;
    }
    i
}

fn is_no_name(chars: &Vec<char>, from: usize, end: usize) -> (yes: bool)
    requires
        from <= end <= chars@.len(),
    ensures
        yes == no_name(chars@.subrange(from as int, end as int)),
{
    let yes = from == end || (end - from == 1 && chars[from] == '.');
    proof {
        let part = chars@.subrange(from as int, end as int);
        if end - from == 1 {
            assert(part[0] == chars@[from as int]);
            if chars@[from as int] == '.' {
                assert(part =~= seq!['.']);
            }
        }
        assert(part == seq!['.'] ==> part.len() == 1 && part[0] == '.');
    }
    yes
}

fn find_names_end(chars: &Vec<char>, start: usize, end: usize) -> (last: usize)
    requires
        start <= end <= chars@.len(),
    ensures
        last == names_end(chars@, start as int, end as int),
        start <= last <= end,
{
    let mut last: usize = end;
    while last > start
        invariant
            start <= last <= end <= chars@.len(),
            names_end(chars@, start as int, end as int) == names_end(
                chars@,
                start as int,
                last as int,
            ),
        decreases last,
    {
        let part = find_last_part(chars, start, last);
        if !is_no_name(chars, part, last) {
            return last;
        }
        last = if part > start {
            part - 1
        } else {
            start
        };
    }
    last
}

/// The directory that a path lies in, if it lies in one: the path up to the name before its
/// last one.
pub open spec fn parent_of(path: Seq<char>) -> Option<Seq<char>> {
    let start = names_start(path);
    let end = names_end(path, start, path.len() as int);
    if end > start {
        let before = before_part(start, last_part(path, start, end));
        Some(path.take(names_end(path, start, before)))
    } else if from_here(path) {
        Some(Seq::empty())
    } else {
        None
    }
}

fn find_names_start(path: &str) -> (start: usize)
    ensures
        start == names_start(path@),
        start <= path@.len(),
{
    proof {
        reveal_strlit("/");
    }
    if is_absolute(path) || is_from_here(path) {
        1
    } else {
        0
    }
}

/// The directory that a path lies in, if it lies in one.
pub fn parent(path: &str) -> (above: Option<String>)
    ensures
        crate::text::opt_text(above) == parent_of(path@),
{
    let chars = chars_of(path);
    let start = find_names_start(path);
    let end = find_names_end(&chars, start, chars.len());
    if end > start {
        let part = find_last_part(&chars, start, end);
        let before = if part > start {
            part - 1
        } else {
            start
        };
        let last = find_names_end(&chars, start, before);
        Some(text_between(&chars, 0, last))
    } else if is_from_here(path) {
        Some(String::new())
    } else {
        None
    }
}

/// Where the first name at or behind a place of a path's beginning begins.
pub open spec fn next_name(path: Seq<char>, from: int, end: int) -> int
    decreases end - from,
    when 0 <= from && end <= path.len()
{
    if from >= end {
        end
    } else {
        let place = place_of(path, '/', from);
        proof {
            place_in_range(path, '/', from);
        }
        if !no_name(path.subrange(from, place)) {
            from
        } else if place >= end {
            end
        } else {
            next_name(path, place + 1, end)
        }
    }
}

/// What follows the first name of a path.
pub open spec fn below_first(path: Seq<char>) -> Seq<char> {
    let end = names_end(path, 0, path.len() as int);
    let behind = place_of(path, '/', 0) + 1;
    if behind >= end {
        Seq::empty()
    } else {
        path.subrange(next_name(path, behind, end), end)
    }
}

/// What follows the first name of a path.
pub fn rest_below(path: &str) -> (rest: String)
    ensures
        rest@ == below_first(path@),
{
    let chars = chars_of(path);
    let end = find_names_end(&chars, 0, chars.len());
    let slash = find_char(&chars, '/', 0);
    if slash >= end || slash + 1 >= end {
        return String::new();
    }
    let mut from: usize = slash + 1;
    while from < end
        invariant
            chars@ == path@,
            slash == place_of(path@, '/', 0),
            slash < from <= end <= chars@.len(),
            slash + 1 < end,
            end == names_end(path@, 0, path@.len() as int),
            next_name(path@, slash + 1, end as int) == next_name(path@, from as int, end as int),
        decreases end - from,
    {
        let place = find_char(&chars, '/', from);
        if !is_no_name(&chars, from, place) {
            return text_between(&chars, from, end);
        }
        if place >= end {
            return text_between(&chars, end, end);
        }
        from = place + 1;
    }
    text_between(&chars, from, end)
}

} // verus!
