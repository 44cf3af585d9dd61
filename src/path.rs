//! Paths as `/`-separated text.
//!
//! Joining and taking the parent of a path are stated over the characters of
//! the path, so that every lookup built on them has an exact meaning.

use vstd::prelude::*;
use vstd::string::*;

verus! {

/// `s` with every trailing separator removed.
pub open spec fn trim_end_separators(s: Seq<char>) -> Seq<char>
    decreases s.len(),
{
    if s.len() > 0 && s.last() == '/' {
        trim_end_separators(s.drop_last())
    } else {
        s
    }
}

/// Index of the last `c` in `s`, or -1 where it has none.
pub open spec fn last_index_of(s: Seq<char>, c: char) -> int
    decreases s.len(),
{
    if s.len() == 0 {
        -1
    } else if s.last() == c {
        s.len() - 1
    } else {
        last_index_of(s.drop_last(), c)
    }
}

/// Index of the last separator of `s`, or -1 where it has none.
pub open spec fn last_separator(s: Seq<char>) -> int {
    last_index_of(s, '/')
}

/// `rel` placed under `base`: a separator goes between the two unless `base`
/// is empty or already ends with one.
pub open spec fn joined(base: Seq<char>, rel: Seq<char>) -> Seq<char> {
    if base.len() == 0 || base.last() == '/' {
        base + rel
    } else {
        base + seq!['/'] + rel
    }
}

/// The directory that holds `p`. A path that is empty or only separators (the
/// root) has none; a single relative component has the empty path as parent.
pub open spec fn parent_of(p: Seq<char>) -> Option<Seq<char>> {
    let t = trim_end_separators(p);
    if t.len() == 0 {
        None
    } else {
        let k = last_separator(t);
        if k < 0 {
            Some(Seq::empty())
        } else {
            let h = trim_end_separators(t.subrange(0, k));
            if h.len() == 0 {
                Some(seq!['/'])
            } else {
                Some(h)
            }
        }
    }
}

/// The last component of `p` (what follows its last separator).
pub open spec fn file_name_of(p: Seq<char>) -> Seq<char> {
    p.subrange(last_separator(p) + 1, p.len() as int)
}

/// The extension of `p`: what follows the last dot of its last component,
/// where that dot is not the component's first character.
pub open spec fn extension_of(p: Seq<char>) -> Option<Seq<char>> {
    let name = file_name_of(p);
    let k = last_index_of(name, '.');
    if k <= 0 {
        None
    } else {
        Some(name.subrange(k + 1, name.len() as int))
    }
}

/// Whether `p` lies below `root` (at any depth, not `root` itself).
pub open spec fn is_under(p: Seq<char>, root: Seq<char>) -> bool {
    let pre = joined(root, Seq::empty());
    p.len() > pre.len() && p.subrange(0, pre.len() as int) == pre
}

/// Whether `p` lies directly in `root`: below it, with no separator after
/// `root`'s own.
pub open spec fn is_child(p: Seq<char>, root: Seq<char>) -> bool {
    is_under(p, root) && last_separator(p) < joined(root, Seq::empty()).len()
}

proof fn lemma_trim_prefix(s: Seq<char>)
    ensures
        trim_end_separators(s).len() <= s.len(),
        trim_end_separators(s) == s.subrange(0, trim_end_separators(s).len() as int),
    decreases s.len(),
{
    if s.len() > 0 && s.last() == '/' {
        lemma_trim_prefix(s.drop_last());
        assert(s.drop_last().subrange(0, trim_end_separators(s).len() as int)
            =~= s.subrange(0, trim_end_separators(s).len() as int));
    } else {
        assert(s =~= s.subrange(0, s.len() as int));
    }
}

proof fn lemma_last_index_bounds(s: Seq<char>, c: char)
    ensures
        -1 <= last_index_of(s, c) < s.len(),
        last_index_of(s, c) >= 0 ==> s[last_index_of(s, c)] == c,
        forall|j: int| last_index_of(s, c) < j < s.len() ==> s[j] != c,
    decreases s.len(),
{
    if s.len() > 0 && s.last() != c {
        lemma_last_index_bounds(s.drop_last(), c);
        assert forall|j: int| last_index_of(s, c) < j < s.len() implies s[j] != c by {
            if j < s.len() - 1 {
                assert(s[j] == s.drop_last()[j]);
            }
        }
    }
}

pub(crate) fn str_len(s: &str) -> (r: usize)
    ensures
        r == s@.len(),
{
    s.unicode_len()
}

/// Length of `s` once trailing separators are removed.
fn trimmed_len(s: &str) -> (r: usize)
    ensures
        r == trim_end_separators(s@).len(),
{
    let mut n: usize = str_len(s);
    proof {
        lemma_trim_prefix(s@);
        assert(s@.subrange(0, n as int) =~= s@);
    }
    while n > 0 && s.get_char(n - 1) == '/'
        invariant
            n <= s@.len(),
            trim_end_separators(s@.subrange(0, n as int)) == trim_end_separators(s@),
        decreases n,
    {
        proof {
            assert(s@.subrange(0, n as int).drop_last() =~= s@.subrange(0, n - 1));
        }
        n = n - 1;
    }
    proof {
        lemma_trim_prefix(s@);
    }
    n
}

/// Index of the last `c` among the first `n` characters of `s`.
pub(crate) fn last_index_before(s: &str, n: usize, c: char) -> (r: Option<usize>)
    requires
        n <= s@.len(),
    ensures
        match r {
            None => last_index_of(s@.subrange(0, n as int), c) == -1,
            Some(k) => last_index_of(s@.subrange(0, n as int), c) == k,
        },
{
    let mut i: usize = n;
    while i > 0
        invariant
            i <= n <= s@.len(),
            last_index_of(s@.subrange(0, n as int), c) == last_index_of(s@.subrange(0, i as int), c),
        decreases i,
    {
        if s.get_char(i - 1) == c {
            return Some(i - 1);
        }
        proof {
            assert(s@.subrange(0, i as int).drop_last() =~= s@.subrange(0, i - 1));
        }
        i = i - 1;
    }
    None
}

/// `rel` placed under `base`.
pub fn join_path(base: &str, rel: &str) -> (r: String)
    ensures
        r@ == joined(base@, rel@),
{
    let n = str_len(base);
    let mut r = base.to_owned();
    if n > 0 && base.get_char(n - 1) != '/' {
        r.append("/");
        proof {
            reveal_strlit("/");
        }
    }
    r.append(rel);
    r
}

/// The directory that holds `p`, if it has one.
pub fn parent_path(p: &str) -> (r: Option<String>)
    ensures
        r.is_some() == parent_of(p@).is_some(),
        r.is_some() ==> r.unwrap()@ == parent_of(p@).unwrap(),
{
    let t = trimmed_len(p);
    if t == 0 {
        return None;
    }
    proof {
        lemma_trim_prefix(p@);
    }
    let ghost tt = trim_end_separators(p@);
    match last_index_before(p, t, '/') {
        None => {
            proof {
                assert(p@.subrange(0, t as int) =~= tt);
            }
            Some(String::new())
        },
        Some(k) => {
            proof {
                assert(p@.subrange(0, t as int) =~= tt);
                lemma_last_index_bounds(tt, '/');
                assert(tt.subrange(0, k as int) =~= p@.subrange(0, k as int));
            }
            let head = p.substring_char(0, k);
            let h = trimmed_len(head);
            if h == 0 {
                proof {
                    reveal_strlit("/");
                }
                Some("/".to_owned())
            } else {
                proof {
                    lemma_trim_prefix(head@);
                    assert(head@.subrange(0, h as int) =~= trim_end_separators(head@));
                }
                Some(head.substring_char(0, h).to_owned())
            }
        },
    }
}

/// The last component of `p`.
pub fn file_name(p: &str) -> (r: String)
    ensures
        r@ == file_name_of(p@),
{
    let n = str_len(p);
    proof {
        assert(p@.subrange(0, n as int) =~= p@);
        lemma_last_index_bounds(p@, '/');
    }
    match last_index_before(p, n, '/') {
        None => p.substring_char(0, n).to_owned(),
        Some(k) => p.substring_char(k + 1, n).to_owned(),
    }
}

/// The extension of `p`, if it has one.
pub fn extension(p: &str) -> (r: Option<String>)
    ensures
        r.is_some() == extension_of(p@).is_some(),
        r.is_some() ==> r.unwrap()@ == extension_of(p@).unwrap(),
{
    let name = file_name(p);
    let n = str_len(name.as_str());
    proof {
        assert(name@.subrange(0, n as int) =~= name@);
        lemma_last_index_bounds(name@, '.');
    }
    match last_index_before(name.as_str(), n, '.') {
        None => None,
        Some(k) => if k == 0 {
            None
        } else {
            Some(name.as_str().substring_char(k + 1, n).to_owned())
        },
    }
}

/// Whether `p` lies below `root`.
pub fn path_is_under(p: &str, root: &str) -> (r: bool)
    ensures
        r == is_under(p@, root@),
{
    let pre = join_path(root, "");
    proof {
        reveal_strlit("");
    }
    let m = str_len(pre.as_str());
    let n = str_len(p);
    if n <= m {
        return false;
    }
    let head = p.substring_char(0, m).to_owned();
    head == pre
}

/// Whether `p` lies directly in `root`.
pub fn path_is_child(p: &str, root: &str) -> (r: bool)
    ensures
        r == is_child(p@, root@),
{
    if !path_is_under(p, root) {
        return false;
    }
    let pre = join_path(root, "");
    proof {
        reveal_strlit("");
    }
    let m = str_len(pre.as_str());
    let n = str_len(p);
    proof {
        assert(p@.subrange(0, n as int) =~= p@);
    }
    match last_index_before(p, n, '/') {
        None => true,
        Some(k) => k < m,
    }
}

} // verus!
