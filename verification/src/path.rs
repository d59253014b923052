//! The grammar of path strings: components separated by `/`, the final
//! component of a path, and the extension of that component.

use vstd::prelude::*;

verus! {

/// The position of the last occurrence of `c` in `s`, or -1 where `s` holds none.
pub open spec fn last_index_of(s: Seq<char>, c: char) -> int
    decreases s.len(),
{
    if s.len() == 0 {
        -1
    } else if s.last() == c {
        s.len() - 1
    } else {
        last_index_of(s.drop_last(), c)
    }
}

/// A component that names nothing: the empty one between two separators, and `.`.
pub open spec fn is_skipped_component(component: Seq<char>) -> bool {
    component.len() == 0 || component =~= seq!['.']
}

/// The component that names the parent directory.
pub open spec fn is_parent_component(component: Seq<char>) -> bool {
    component =~= seq!['.', '.']
}

/// The final component of a path: the last one that is neither empty nor `.`,
/// unless that one is `..`. Trailing separators and trailing `.` components
/// are passed over, so `a/b.jpg/` and `a/b.jpg/.` both end in `b.jpg`.
pub open spec fn final_component(path: Seq<char>) -> Option<Seq<char>>
    decreases path.len(),
{
    let start = last_index_of(path, '/') + 1;
    let last = path.skip(start);
    if is_skipped_component(last) {
        if start == 0 {
            None
        } else {
            proof {
                lemma_last_index_of(path, '/');
            }
            final_component(path.take(start - 1))
        }
    } else if is_parent_component(last) {
        None
    } else {
        Some(last)
    }
}

/// The final component of a path as a file name: empty where the path has none.
pub open spec fn file_name(path: Seq<char>) -> Seq<char> {
    match final_component(path) {
        Some(name) => name,
        None => Seq::empty(),
    }
}

/// The extension of a file name: what follows its last dot, where that dot is
/// not the name's first character.
pub open spec fn name_extension(name: Seq<char>) -> Option<Seq<char>> {
    let dot = last_index_of(name, '.');
    if dot <= 0 {
        None
    } else {
        Some(name.skip(dot + 1))
    }
}

/// The extension of a path: that of its final component.
pub open spec fn extension(path: Seq<char>) -> Option<Seq<char>> {
    match final_component(path) {
        Some(name) => name_extension(name),
        None => None,
    }
}

/// The lower-case form of an ASCII letter; every other character stays.
pub open spec fn ascii_lower(c: char) -> char {
    if 'A' <= c && c <= 'Z' {
        ((c as u8) + 32) as char
    } else {
        c
    }
}

/// A string with each ASCII upper-case letter replaced by its lower-case form.
pub open spec fn ascii_lowercase(s: Seq<char>) -> Seq<char> {
    Seq::new(s.len(), |i: int| ascii_lower(s[i]))
}

/// `last_index_of` gives an index of `c`, and no later index holds `c`.
pub proof fn lemma_last_index_of(s: Seq<char>, c: char)
    ensures
        -1 <= last_index_of(s, c) < s.len(),
        last_index_of(s, c) >= 0 ==> s[last_index_of(s, c)] == c,
        forall|j: int| last_index_of(s, c) < j < s.len() ==> s[j] != c,
    decreases s.len(),
{
    if s.len() > 0 && s.last() != c {
        let shorter = s.drop_last();
        lemma_last_index_of(shorter, c);
        assert forall|j: int| last_index_of(s, c) < j < s.len() implies s[j] != c by {
            if j < shorter.len() {
                assert(shorter[j] == s[j]);
            }
        }
    }
}

/// An index that holds `c` with no `c` after it is the one `last_index_of` gives;
/// -1 is given where no index holds `c`.
pub proof fn lemma_last_index_of_unique(s: Seq<char>, c: char, k: int)
    requires
        -1 <= k < s.len(),
        k >= 0 ==> s[k] == c,
        forall|j: int| k < j < s.len() ==> s[j] != c,
    ensures
        last_index_of(s, c) == k,
{
    lemma_last_index_of(s, c);
}

/// The characters of a string, in order.
pub fn chars_of(s: &str) -> (out: Vec<char>)
    ensures
        out@ == s@,
{
    let mut out: Vec<char> = Vec::new();
    for c in it: s.chars()
        invariant
            out@ == it.seq().take(it.index() as int),
            it.seq() == s@,
    {
        out.push(c);
    }
    out
}

/// Finds the last `c` among the first `end` characters.
fn find_last(chars: &Vec<char>, end: usize, c: char) -> (r: Option<usize>)
    requires
        end <= chars.len(),
    ensures
        match r {
            Some(i) => i < end && last_index_of(chars@.take(end as int), c) == i,
            None => last_index_of(chars@.take(end as int), c) == -1,
        },
{
    let ghost prefix = chars@.take(end as int);
    let mut i: usize = end;
    while i > 0
        invariant
            i <= end <= chars.len(),
            prefix == chars@.take(end as int),
            forall|j: int| i <= j < end ==> chars@[j] != c,
        decreases i,
    {
        i = i - 1;
        if chars[i] == c {
            proof {
                lemma_last_index_of_unique(prefix, c, i as int);
            }
            return Some(i);
        }
    }
    proof {
        lemma_last_index_of_unique(prefix, c, -1);
    }
    None
}

/// The bounds of the final component among the first `end` characters.
fn final_component_bounds(chars: &Vec<char>, end: usize) -> (r: Option<(usize, usize)>)
    requires
        end <= chars.len(),
    ensures
        match r {
            Some((from, to)) => from < to <= end && final_component(chars@.take(end as int))
                == Some(chars@.subrange(from as int, to as int)),
            None => final_component(chars@.take(end as int)) is None,
        },
{
    let mut to: usize = end;
    loop
        invariant
            to <= end <= chars.len(),
            final_component(chars@.take(end as int)) == final_component(chars@.take(to as int)),
        decreases to,
    {
        let ghost prefix = chars@.take(to as int);
        let from: usize = match find_last(chars, to, '/') {
            Some(i) => i + 1,
            None => 0,
        };
        let ghost last = chars@.subrange(from as int, to as int);
        assert(prefix.skip(from as int) =~= last);
        assert(is_skipped_component(last) <==> to - from == 0 || (to - from == 1
            && chars@[from as int] == '.')) by {
            if to - from == 1 && last[0] == '.' {
                assert(last =~= seq!['.']);
            }
            if last =~= seq!['.'] {
                assert(last.len() == 1 && seq!['.'][0] == '.');
            }
        }
        assert(is_parent_component(last) <==> to - from == 2 && chars@[from as int] == '.'
            && chars@[from + 1] == '.') by {
            if to - from == 2 && last[0] == '.' && last[1] == '.' {
                assert(last =~= seq!['.', '.']);
            }
            if last =~= seq!['.', '.'] {
                assert(last.len() == 2 && seq!['.', '.'][0] == '.' && seq!['.', '.'][1] == '.');
            }
        }
        let skipped = to - from == 0 || (to - from == 1 && chars[from] == '.');
        let parent = to - from == 2 && chars[from] == '.' && chars[from + 1] == '.';
        if skipped {
            if from == 0 {
                return None;
            }
            assert(prefix.take(from - 1) =~= chars@.take(from - 1));
            to = from - 1;
        } else if parent {
            return None;
        } else {
            return Some((from, to));
        }
    }
}

/// The bounds of a path's final component within its characters.
pub fn file_name_bounds(chars: &Vec<char>) -> (r: Option<(usize, usize)>)
    ensures
        match r {
            Some((from, to)) => from < to <= chars.len() && final_component(chars@) == Some(
                chars@.subrange(from as int, to as int),
            ),
            None => final_component(chars@) is None,
        },
{
    assert(chars@.take(chars.len() as int) =~= chars@);
    final_component_bounds(chars, chars.len())
}

/// The bounds of a path's extension within its characters.
pub fn extension_bounds(chars: &Vec<char>) -> (r: Option<(usize, usize)>)
    ensures
        match r {
            Some((from, to)) => from <= to <= chars.len() && extension(chars@) == Some(
                chars@.subrange(from as int, to as int),
            ),
            None => extension(chars@) is None,
        },
{
    match file_name_bounds(chars) {
        None => None,
        Some((from, to)) => {
            let ghost name = chars@.subrange(from as int, to as int);
            let mut i: usize = to;
            while i > from
                invariant
                    from <= i <= to <= chars.len(),
                    name == chars@.subrange(from as int, to as int),
                    final_component(chars@) == Some(name),
                    forall|j: int| i - from <= j < name.len() ==> name[j] != '.',
                decreases i,
            {
                i = i - 1;
                if chars[i] == '.' {
                    proof {
                        assert(name[i - from] == chars@[i as int]);
                        lemma_last_index_of_unique(name, '.', i - from);
                        assert(name.skip(i - from + 1) =~= chars@.subrange(i + 1, to as int));
                    }
                    if i == from {
                        return None;
                    }
                    return Some((i + 1, to));
                }
            }
            proof {
                lemma_last_index_of_unique(name, '.', -1);
            }
            None
        },
    }
}

/// The file name of a path, as a string of its own.
pub fn file_name_of(path: &str) -> (name: String)
    ensures
        name@ == file_name(path@),
{
    let chars = chars_of(path);
    match file_name_bounds(&chars) {
        Some((from, to)) => path.substring_char(from, to).to_owned(),
        None => String::new(),
    }
}

/// Lower-cases one character the ASCII way.
pub fn to_ascii_lower(c: char) -> (r: char)
    ensures
        r == ascii_lower(c),
{
    if 'A' <= c && c <= 'Z' {
        ((c as u8) + 32) as char
    } else {
        c
    }
}

/// The ASCII lower-case form of the characters from `from` up to `to`.
pub fn lowercase_range(chars: &Vec<char>, from: usize, to: usize) -> (lower: Vec<char>)
    requires
        from <= to <= chars.len(),
    ensures
        lower@ == ascii_lowercase(chars@.subrange(from as int, to as int)),
{
    let mut lower: Vec<char> = Vec::new();
    let mut i: usize = from;
    while i < to
        invariant
            from <= i <= to <= chars.len(),
            lower@ == ascii_lowercase(chars@.subrange(from as int, i as int)),
        decreases to - i,
    {
        lower.push(to_ascii_lower(chars[i]));
        i = i + 1;
        assert(lower@ =~= ascii_lowercase(chars@.subrange(from as int, i as int)));
    }
    lower
}

/// Whether the characters spell exactly `word`.
pub fn spells(chars: &Vec<char>, word: &str) -> (r: bool)
    ensures
        r == (chars@ == word@),
{
    let letters = chars_of(word);
    if letters.len() != chars.len() {
        return false;
    }
    let mut i: usize = 0;
    while i < chars.len()
        invariant
            i <= chars.len(),
            letters.len() == chars.len(),
            letters@ == word@,
            forall|j: int| 0 <= j < i ==> chars@[j] == letters@[j],
        decreases chars.len() - i,
    {
        if chars[i] != letters[i] {
            return false;
        }
        i = i + 1;
    }
    assert(chars@ =~= letters@);
    true
}

} // verus!
