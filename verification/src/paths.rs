//! Slash-separated paths: joining a component onto a base, and the final
//! component of a path with its stem and extension. The rules are those of
//! `PathBuf::push` and `Path::file_name`, `Path::file_stem` and
//! `Path::extension` for paths whose separator is `/`, as on Unix. The
//! library treats paths this way on every platform: a `\` is an ordinary
//! character here, whereas Windows also separates on it and has drive
//! prefixes, which these functions do not model.

use vstd::prelude::*;
use vstd::string::*;

verus! {

/// Index of the last occurrence of `c` in `s`, or -1 when there is none.
pub open spec fn last_index_of(s: Seq<char>, c: char) -> int
    decreases s.len(),
{
    if s.len() == 0 {
        -1
    } else if s.last() == c {
        s.len() - 1
    } else {
        last_index_of(s.drop_last(), c)
    }
}

/// What `last_index_of` returns: an index holding `c`, after which no `c` occurs.
pub proof fn lemma_last_index_of(s: Seq<char>, c: char)
    ensures
        -1 <= last_index_of(s, c) < s.len(),
        last_index_of(s, c) >= 0 ==> s[last_index_of(s, c)] == c,
        forall|i: int| last_index_of(s, c) < i < s.len() ==> s[i] != c,
    decreases s.len(),
{
    if s.len() > 0 && s.last() != c {
        lemma_last_index_of(s.drop_last(), c);
        assert forall|i: int| last_index_of(s, c) < i < s.len() implies s[i] != c by {
            if i < s.len() - 1 {
                assert(s[i] == s.drop_last()[i]);
            }
        }
    }
}

/// An index `j - 1` holding `c` (or `j == 0`), with no `c` from `j` on, is the last one.
pub proof fn lemma_last_index_at(s: Seq<char>, c: char, j: int)
    requires
        0 <= j <= s.len(),
        j > 0 ==> s[j - 1] == c,
        forall|i: int| j <= i < s.len() ==> s[i] != c,
    ensures
        last_index_of(s, c) == j - 1,
    decreases s.len(),
{
    if s.len() > 0 && j < s.len() {
        lemma_last_index_at(s.drop_last(), c, j);
    }
}

/// `p` followed by `comp`, as `PathBuf::push` forms it: an absolute `comp`
/// replaces `p`; otherwise a `/` is put between them unless `p` is empty or
/// already ends with one.
pub open spec fn join_spec(p: Seq<char>, comp: Seq<char>) -> Seq<char> {
    if comp.len() > 0 && comp[0] == '/' {
        comp
    } else if p.len() == 0 || p.last() == '/' {
        p + comp
    } else {
        p + seq!['/'] + comp
    }
}

/// The final component of `p`, as `Path::file_name` finds it: separators
/// and `.` components at the end are skipped; a final `..`, or a path with
/// no component left, has none.
pub open spec fn file_name_spec(p: Seq<char>) -> Option<Seq<char>>
    decreases p.len(),
{
    let k = last_index_of(p, '/');
    let seg = p.subrange(k + 1, p.len() as int);
    if seg == seq!['.', '.'] {
        None
    } else if seg.len() == 0 || seg == seq!['.'] {
        if k < 0 {
            None
        } else {
            proof {
                lemma_last_index_of(p, '/');
            }
            file_name_spec(p.subrange(0, k))
        }
    } else {
        proof {
            lemma_last_index_of(p, '/');
        }
        Some(seg)
    }
}

/// The stem of a file name: the part before its final `.`, or the whole
/// name when it has no `.` after its first character.
pub open spec fn stem_of(name: Seq<char>) -> Seq<char> {
    let d = last_index_of(name, '.');
    if d <= 0 {
        name
    } else {
        name.subrange(0, d)
    }
}

/// The extension of a file name: the part after its final `.`, none when
/// the name has no `.` after its first character.
pub open spec fn extension_of(name: Seq<char>) -> Option<Seq<char>> {
    let d = last_index_of(name, '.');
    if d <= 0 {
        None
    } else {
        Some(name.subrange(d + 1, name.len() as int))
    }
}

/// `Path::file_stem`: the stem of the file name, if there is a file name.
pub open spec fn file_stem_spec(p: Seq<char>) -> Option<Seq<char>> {
    match file_name_spec(p) {
        Some(n) => Some(stem_of(n)),
        None => None,
    }
}

/// `Path::extension`: the extension of the file name, if there is one.
pub open spec fn extension_spec(p: Seq<char>) -> Option<Seq<char>> {
    match file_name_spec(p) {
        Some(n) => extension_of(n),
        None => None,
    }
}

/// A single ordinary path component: not empty, no `/`, neither `.` nor `..`.
pub open spec fn plain_component(c: Seq<char>) -> bool {
    &&& c.len() > 0
    &&& c != seq!['.']
    &&& c != seq!['.', '.']
    &&& forall|i: int| 0 <= i < c.len() ==> c[i] != '/'
}

/// Joins `comp` onto `base` as `Path::join` does.
pub fn join_path(base: &str, comp: &str) -> (r: String)
    ensures
        r@ == join_spec(base@, comp@),
{
    let blen = base.unicode_len();
    let clen = comp.unicode_len();
    if clen > 0 && comp.get_char(0) == '/' {
        return comp.to_owned();
    }
    let mut r = base.to_owned();
    if blen > 0 && base.get_char(blen - 1) != '/' {
        r.append("/");
        proof {
            reveal_strlit("/");
        }
    }
    r.append(comp);
    assert(r@ =~= join_spec(base@, comp@));
    r
}

/// The final component of `p`, as `Path::file_name` gives it.
pub fn file_name(p: &str) -> (r: Option<&str>)
    ensures
        match r {
            Some(s) => file_name_spec(p@) == Some(s@),
            None => file_name_spec(p@) is None,
        },
{
    let n = p.unicode_len();
    let mut end: usize = n;
    assert(p@.subrange(0, n as int) =~= p@);
    loop
        invariant
            end <= n,
            n == p@.len(),
            file_name_spec(p@) == file_name_spec(p@.subrange(0, end as int)),
        decreases end,
    {
        let ghost q = p@.subrange(0, end as int);
        let mut k: usize = end;
        while k > 0 && p.get_char(k - 1) != '/'
            invariant
                k <= end,
                end <= n,
                n == p@.len(),
                q == p@.subrange(0, end as int),
                forall|i: int| k <= i < end ==> q[i] != '/',
            decreases k,
        {
            k = k - 1;
        }
        proof {
            lemma_last_index_at(q, '/', k as int);
        }
        let ghost seg = q.subrange(k as int, end as int);
        assert(seg =~= p@.subrange(k as int, end as int));
        let len = end - k;
        if len == 2 && p.get_char(k) == '.' && p.get_char(k + 1) == '.' {
            assert(seg =~= seq!['.', '.']);
            return None;
        }
        if len == 0 || (len == 1 && p.get_char(k) == '.') {
            assert(seg.len() == 0 || seg =~= seq!['.']);
            if k == 0 {
                return None;
            }
            assert(q.subrange(0, k - 1) =~= p@.subrange(0, k - 1));
            end = k - 1;
        } else {
            assert(seg != seq!['.', '.']) by {
                if seg == seq!['.', '.'] {
                    assert(seg[0] == '.' && seg[1] == '.');
                }
            }
            assert(seg != seq!['.']) by {
                if seg == seq!['.'] {
                    assert(seg[0] == '.');
                }
            }
            return Some(p.substring_char(k, end));
        }
    }
}

/// One past the index of the last `.` in `s`, or 0 when `s` has none.
fn last_dot_end(s: &str) -> (r: usize)
    ensures
        r == last_index_of(s@, '.') + 1,
{
    let n = s.unicode_len();
    let mut k: usize = n;
    while k > 0 && s.get_char(k - 1) != '.'
        invariant
            k <= n,
            n == s@.len(),
            forall|i: int| k <= i < n ==> s@[i] != '.',
        decreases k,
    {
        k = k - 1;
    }
    proof {
        lemma_last_index_at(s@, '.', k as int);
    }
    k
}

/// The stem of the final component of `p`, as `Path::file_stem` gives it.
pub fn file_stem(p: &str) -> (r: Option<&str>)
    ensures
        match r {
            Some(s) => file_stem_spec(p@) == Some(s@),
            None => file_stem_spec(p@) is None,
        },
{
    match file_name(p) {
        None => None,
        Some(name) => {
            proof {
                lemma_last_index_of(name@, '.');
            }
            let k = last_dot_end(name);
            if k <= 1 {
                Some(name)
            } else {
                Some(name.substring_char(0, k - 1))
            }
        },
    }
}

/// The extension of the final component of `p`, as `Path::extension` gives it.
pub fn extension(p: &str) -> (r: Option<&str>)
    ensures
        match r {
            Some(s) => extension_spec(p@) == Some(s@),
            None => extension_spec(p@) is None,
        },
{
    match file_name(p) {
        None => None,
        Some(name) => {
            proof {
                lemma_last_index_of(name@, '.');
            }
            let k = last_dot_end(name);
            if k <= 1 {
                None
            } else {
                Some(name.substring_char(k, name.unicode_len()))
            }
        },
    }
}

/// Law: the file name of a base joined with one plain component is that component.
pub proof fn lemma_file_name_of_join(base: Seq<char>, comp: Seq<char>)
    requires
        plain_component(comp),
    ensures
        file_name_spec(join_spec(base, comp)) == Some(comp),
{
    let j = join_spec(base, comp);
    let pre = if base.len() == 0 || base.last() == '/' {
        base
    } else {
        base + seq!['/']
    };
    assert(j =~= pre + comp);
    let m = pre.len() as int;
    assert forall|i: int| m <= i < j.len() implies j[i] != '/' by {
        assert(j[i] == comp[i - m]);
    }
    lemma_last_index_at(j, '/', m);
    assert(j.subrange(m, j.len() as int) =~= comp);
}

/// Law: when a path has an extension, its file name is its stem, a `.`, and
/// that extension.
pub proof fn lemma_stem_dot_extension(p: Seq<char>)
    requires
        extension_spec(p) is Some,
    ensures
        file_stem_spec(p) is Some,
        file_name_spec(p) == Some(
            file_stem_spec(p)->0 + seq!['.'] + extension_spec(p)->0,
        ),
{
    let n = file_name_spec(p)->0;
    lemma_last_index_of(n, '.');
    let d = last_index_of(n, '.');
    assert(n =~= n.subrange(0, d) + seq!['.'] + n.subrange(d + 1, n.len() as int));
}

} // verus!
