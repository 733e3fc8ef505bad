//! File names: extensions, case-insensitive matching and target names.
//!
//! A name here is a single path component as a directory listing gives it.

use vstd::prelude::*;

verus! {

/// ASCII lower-casing of one character; any other character is left alone.
pub open spec fn lower(c: char) -> char {
    if 'A' <= c && c <= 'Z' {
        (((c as u8) + 32) as u8) as char
    } else {
        c
    }
}

/// Two texts are equal once ASCII letters are lower-cased.
pub open spec fn same_ignoring_case(a: Seq<char>, b: Seq<char>) -> bool {
    &&& a.len() == b.len()
    &&& forall|i: int| 0 <= i < a.len() ==> lower(#[trigger] a[i]) == lower(b[i])
}

/// Index of the last `.` of `name`, or -1 where it has none.
pub open spec fn last_dot(name: Seq<char>) -> int
    decreases name.len(),
{
    if name.len() == 0 {
        -1
    } else if name.last() == '.' {
        name.len() - 1
    } else {
        last_dot(name.drop_last())
    }
}

/// A name has an extension when its last dot is not its first character;
/// the name `..` has none.
pub open spec fn has_dot_extension(name: Seq<char>) -> bool {
    last_dot(name) > 0 && name != seq!['.', '.']
}

/// The extension of a file name: what follows its last dot.
pub open spec fn extension_of(name: Seq<char>) -> Option<Seq<char>> {
    if has_dot_extension(name) {
        Some(name.subrange(last_dot(name) + 1, name.len() as int))
    } else {
        None
    }
}

/// The stem of a file name: what precedes the dot of its extension, or the
/// whole name where it has no extension.
pub open spec fn stem_of(name: Seq<char>) -> Seq<char> {
    if has_dot_extension(name) {
        name.subrange(0, last_dot(name))
    } else {
        name
    }
}

/// The name with its extension replaced by `ext`.
pub open spec fn renamed(name: Seq<char>, ext: Seq<char>) -> Seq<char> {
    stem_of(name) + seq!['.'] + ext
}

/// The name's extension equals `ext`, ASCII case ignored.
pub open spec fn matches_extension(name: Seq<char>, ext: Seq<char>) -> bool {
    match extension_of(name) {
        Some(e) => same_ignoring_case(e, ext),
        None => false,
    }
}

/// The last dot is a dot, and no dot follows it.
pub proof fn lemma_last_dot(name: Seq<char>)
    ensures
        -1 <= last_dot(name) < name.len(),
        last_dot(name) >= 0 ==> name[last_dot(name)] == '.',
        forall|j: int| last_dot(name) < j < name.len() ==> name[j] != '.',
    decreases name.len(),
{
    if name.len() > 0 && name.last() != '.' {
        let front = name.drop_last();
        lemma_last_dot(front);
        assert forall|j: int| last_dot(name) < j < name.len() implies name[j] != '.' by {
            if j < front.len() {
                assert(front[j] == name[j]);
            }
        }
    }
}

pub fn to_lower(c: char) -> (r: char)
    ensures
        r == lower(c),
{
    if 'A' <= c && c <= 'Z' {
        let code: u8 = c as u8 + 32;
        code as char
    } else {
        c
    }
}

pub fn eq_ignore_case(a: &str, b: &str) -> (r: bool)
    ensures
        r == same_ignoring_case(a@, b@),
{
    let n: usize = a.unicode_len();
    if b.unicode_len() != n {
        return false;
    }
    let mut i: usize = 0;
    while i < n
        invariant
            i <= n,
            n == a@.len(),
            n == b@.len(),
            forall|j: int| 0 <= j < i ==> lower(#[trigger] a@[j]) == lower(b@[j]),
        decreases n - i,
    {
        if to_lower(a.get_char(i)) != to_lower(b.get_char(i)) {
            return false;
        }
        i += 1;
    }
    true
}

/// Position of the last dot of `name`, if it has one.
fn find_last_dot(name: &str) -> (r: Option<usize>)
    ensures
        match r {
            Some(d) => d as int == last_dot(name@),
            None => last_dot(name@) == -1,
        },
{
    let n: usize = name.unicode_len();
    let mut found: Option<usize> = None;
    let mut i: usize = 0;
    assert(name@.take(0) =~= Seq::<char>::empty());
    while i < n
        invariant
            i <= n,
            n == name@.len(),
            match found {
                Some(d) => d < i && d as int == last_dot(name@.take(i as int)),
                None => last_dot(name@.take(i as int)) == -1,
            },
        decreases n - i,
    {
        let c = name.get_char(i);
        proof {
            let next = name@.take(i + 1);
            assert(next.last() == c);
            assert(next.drop_last() =~= name@.take(i as int));
        }
        if c == '.' {
            found = Some(i);
        }
        i += 1;
    }
    assert(name@.take(n as int) =~= name@);
    found
}

/// Where the extension of `name` starts: the index just past its dot.
fn extension_start(name: &str) -> (r: Option<usize>)
    ensures
        r is Some == has_dot_extension(name@),
        r matches Some(s) ==> s as int == last_dot(name@) + 1 && s <= name@.len(),
{
    let n: usize = name.unicode_len();
    proof {
        lemma_last_dot(name@);
    }
    match find_last_dot(name) {
        None => None,
        Some(d) => {
            if d == 0 {
                None
            } else if d == 1 && n == 2 && name.get_char(0) == '.' {
                assert(name@ =~= seq!['.', '.']);
                None
            } else {
                assert(name@ != seq!['.', '.']) by {
                    if name@ == seq!['.', '.'] {
                        assert(seq!['.', '.'].len() == 2);
                        assert(seq!['.', '.'][0] == '.');
                    }
                }
                Some(d + 1)
            }
        },
    }
}

/// The extension of a file name, as `std::path::Path::extension` gives it
/// for a single component.
pub fn extension(name: &str) -> (r: Option<String>)
    ensures
        match r {
            Some(e) => extension_of(name@) == Some(e@),
            None => extension_of(name@) is None,
        },
{
    match extension_start(name) {
        None => None,
        Some(s) => {
            let n: usize = name.unicode_len();
            Some(String::from_str(name.substring_char(s, n)))
        },
    }
}

/// Does the name end in the extension `ext`, ASCII case ignored?
pub fn has_extension(name: &str, ext: &str) -> (r: bool)
    ensures
        r == matches_extension(name@, ext@),
{
    match extension_start(name) {
        None => false,
        Some(s) => {
            let n: usize = name.unicode_len();
            eq_ignore_case(name.substring_char(s, n), ext)
        },
    }
}

/// The name with its extension replaced by `ext`; a name without an
/// extension gets `ext` appended after a dot.
pub fn with_extension(name: &str, ext: &str) -> (r: String)
    ensures
        r@ == renamed(name@, ext@),
{
    let stem: &str = match extension_start(name) {
        None => name,
        Some(s) => name.substring_char(0, s - 1),
    };
    let mut out = String::from_str(stem);
    proof {
        reveal_strlit(".");
        assert("."@ =~= seq!['.']);
    }
    out.append(".");
    out.append(ext);
    out
}

} // verus!
