//! Path text handling: base names, extensions, and the file names that
//! an item's artifacts are stored under.

use vstd::prelude::*;

verus! {

/// Index of the last occurrence of `c` in `s`, or `-1` when `c` does not
/// occur.
pub open spec fn last_index_of(s: Seq<char>, c: char) -> int
    decreases s.len(),
{
    if s.len() == 0 {
        -1
    } else if s.last() == c {
        s.len() - 1
    } else {
        last_index_of(s.drop_last(), c)
    }
}

/// What `last_index_of` finds: the position holds `c` and nothing after it
/// does, or there is no `c` at all.
pub proof fn lemma_last_index_of(s: Seq<char>, c: char)
    ensures
        -1 <= last_index_of(s, c) < s.len(),
        last_index_of(s, c) >= 0 ==> s[last_index_of(s, c)] == c,
        forall|j: int| last_index_of(s, c) < j < s.len() ==> s[j] != c,
    decreases s.len(),
{
    if s.len() > 0 && s.last() != c {
        lemma_last_index_of(s.drop_last(), c);
        assert(forall|j: int| 0 <= j < s.len() - 1 ==> s[j] == s.drop_last()[j]);
    }
}

/// The base name of a path: the characters after the last `/`, possibly
/// empty.
pub open spec fn spec_base_name(path: Seq<char>) -> Seq<char> {
    path.subrange(last_index_of(path, '/') + 1, path.len() as int)
}

/// The extension of a path: the characters of its base name after the last
/// `.`, empty when the base name has no `.` past its first character.
pub open spec fn spec_extension_of(path: Seq<char>) -> Seq<char> {
    let b = spec_base_name(path);
    let d = last_index_of(b, '.');
    if d <= 0 {
        Seq::empty()
    } else {
        b.subrange(d + 1, b.len() as int)
    }
}

/// The characters of `name` before its first `.`, or all of it when it has
/// none.
pub open spec fn spec_id_part(name: Seq<char>) -> Seq<char> {
    name.subrange(0, first_index_of(name, '.'))
}

/// Index of the first occurrence of `c` in `s`, or `s.len()` when `c` does
/// not occur.
pub open spec fn first_index_of(s: Seq<char>, c: char) -> int
    decreases s.len(),
{
    if s.len() == 0 {
        0
    } else if s.first() == c {
        0
    } else {
        1 + first_index_of(s.drop_first(), c)
    }
}

/// What `first_index_of` finds: nothing before the position holds `c`, and
/// the position itself does unless `c` is absent altogether.
pub proof fn lemma_first_index_of(s: Seq<char>, c: char)
    ensures
        0 <= first_index_of(s, c) <= s.len(),
        first_index_of(s, c) < s.len() ==> s[first_index_of(s, c)] == c,
        forall|j: int| 0 <= j < first_index_of(s, c) ==> s[j] != c,
    decreases s.len(),
{
    if s.len() > 0 && s.first() != c {
        lemma_first_index_of(s.drop_first(), c);
        assert forall|j: int| 0 <= j < first_index_of(s, c) implies s[j] != c by {
            if j > 0 {
                assert(s.drop_first()[j - 1] == s[j]);
            }
        }
    }
}

/// Scans for the last occurrence of `c`, returning one past it, or `0` when
/// `c` never occurs.
fn scan_after_last(s: &str, c: char) -> (r: usize)
    ensures
        r == last_index_of(s@, c) + 1,
{
    let n = s.unicode_len();
    let mut i: usize = 0;
    let mut after: usize = 0;
    proof {
        lemma_last_index_of(s@, c);
    }
    while i < n
        invariant
            n == s@.len(),
            i <= n,
            after <= i,
            after >= 1 ==> s@[after - 1] == c,
            forall|j: int| after <= j < i ==> s@[j] != c,
            -1 <= last_index_of(s@, c) < n,
            last_index_of(s@, c) >= 0 ==> s@[last_index_of(s@, c)] == c,
            forall|j: int| last_index_of(s@, c) < j < n ==> s@[j] != c,
        decreases n - i,
    {
        if s.get_char(i) == c {
            after = i + 1;
        }
        i = i + 1;
    }
    proof {
        let l = last_index_of(s@, c);
        if after >= 1 && after - 1 != l {
            if after - 1 < l {
                assert(s@[l] != c);
            } else {
                assert(s@[after - 1] != c);
            }
            assert(false);
        }
        if after == 0 && l >= 0 {
            assert(s@[l] != c);
            assert(false);
        }
    }
    after
}

/// The base name of a path: everything after its last `/`. Empty when the
/// path ends in `/` or is itself empty; callers reject that as an invalid
/// file name.
pub fn base_name(path: &str) -> (r: String)
    ensures
        r@ == spec_base_name(path@),
{
    let n = path.unicode_len();
    let start = scan_after_last(path, '/');
    proof {
        lemma_last_index_of(path@, '/');
    }
    String::from_str(path.substring_char(start, n))
}

/// The extension of a path, `""` when it has none.
pub fn extension_of(path: &str) -> (r: String)
    ensures
        r@ == spec_extension_of(path@),
{
    let base = base_name(path);
    let b = base.as_str();
    let n = b.unicode_len();
    let after = scan_after_last(b, '.');
    proof {
        lemma_last_index_of(b@, '.');
    }
    if after <= 1 {
        proof {
            assert(Seq::<char>::empty() =~= b@.subrange(0, 0));
        }
        String::from_str(b.substring_char(0, 0))
    } else {
        String::from_str(b.substring_char(after, n))
    }
}

/// `<id>.<ext>`: the name under which the original bytes are stored.
pub fn stored_file_name(id: &str, ext: &str) -> (r: String)
    ensures
        r@ == id@ + "."@ + ext@,
{
    let mut s = String::from_str(id);
    s.append(".");
    s.append(ext);
    s
}

/// `<id>.webp`: the name under which the preview is stored.
pub fn thumb_file_name(id: &str) -> (r: String)
    ensures
        r@ == id@ + ".webp"@,
{
    let mut s = String::from_str(id);
    s.append(".webp");
    s
}

/// The id part of a stored file name: everything before its first `.`.
pub fn id_part(name: &str) -> (r: String)
    ensures
        r@ == spec_id_part(name@),
{
    let n = name.unicode_len();
    let mut i: usize = 0;
    proof {
        lemma_first_index_of(name@, '.');
    }
    while i < n
        invariant
            n == name@.len(),
            i <= n,
            forall|j: int| 0 <= j < i ==> name@[j] != '.',
            0 <= first_index_of(name@, '.') <= n,
            first_index_of(name@, '.') < n ==> name@[first_index_of(name@, '.')] == '.',
            forall|j: int| 0 <= j < first_index_of(name@, '.') ==> name@[j] != '.',
        decreases n - i,
    {
        if name.get_char(i) == '.' {
            proof {
                let f = first_index_of(name@, '.');
                if f < i {
                    assert(name@[f] != '.');
                }
                if f > i {
                    assert(name@[i as int] != '.');
                }
            }
            return String::from_str(name.substring_char(0, i));
        }
        i = i + 1;
    }
    proof {
        let f = first_index_of(name@, '.');
        if f < n {
            assert(name@[f] != '.');
        }
        assert(name@.subrange(0, n as int) == name@);
    }
    String::from_str(name.substring_char(0, n))
}

} // verus!
