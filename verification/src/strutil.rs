//! Verified helpers for working with strings and slash-separated paths.

use vstd::prelude::*;

verus! {

/// The sequence of views of the elements of `s`.
pub open spec fn views_of<T: View>(s: Seq<T>) -> Seq<<T as View>::V> {
    Seq::new(s.len(), |i: int| s[i]@)
}

/// Whether `t` is a prefix of `s`.
pub open spec fn spec_starts_with(s: Seq<char>, t: Seq<char>) -> bool {
    t.len() <= s.len() && s.take(t.len() as int) == t
}

/// Whether `t` is a suffix of `s`.
pub open spec fn spec_ends_with(s: Seq<char>, t: Seq<char>) -> bool {
    t.len() <= s.len() && s.skip(s.len() - t.len()) == t
}

/// Compares two string slices character for character.
pub fn str_eq(a: &str, b: &str) -> (r: bool)
    ensures
        r == (a@ == b@),
{
    let sa = a.to_owned();
    let sb = b.to_owned();
    sa == sb
}

/// Whether `s` begins with `prefix`.
pub fn str_starts_with(s: &str, prefix: &str) -> (r: bool)
    ensures
        r == spec_starts_with(s@, prefix@),
{
    let n = s.unicode_len();
    let p = prefix.unicode_len();
    if p > n {
        return false;
    }
    let head = s.substring_char(0, p);
    let r = str_eq(head, prefix);
    proof {
        assert(s@.subrange(0, p as int) == s@.take(p as int));
    }
    r
}

/// Whether `s` ends with `suffix`.
pub fn str_ends_with(s: &str, suffix: &str) -> (r: bool)
    ensures
        r == spec_ends_with(s@, suffix@),
{
    let n = s.unicode_len();
    let p = suffix.unicode_len();
    if p > n {
        return false;
    }
    let tail = s.substring_char(n - p, n);
    let r = str_eq(tail, suffix);
    proof {
        assert(s@.subrange(n - p, n as int) == s@.skip(n as int - p as int));
    }
    r
}

/// How many times `c` occurs in `s`.
pub open spec fn spec_count_char(s: Seq<char>, c: char) -> nat
    decreases s.len(),
{
    if s.len() == 0 {
        0
    } else {
        spec_count_char(s.drop_last(), c) + if s.last() == c {
            1nat
        } else {
            0nat
        }
    }
}

/// Counts the occurrences of `c` in `s`.
pub fn count_char(s: &str, c: char) -> (r: usize)
    ensures
        r == spec_count_char(s@, c),
{
    let n = s.unicode_len();
    let mut i: usize = 0;
    let mut r: usize = 0;
    while i < n
        invariant
            i <= n,
            n == s@.len(),
            r == spec_count_char(s@.take(i as int), c),
            r <= i,
        decreases n - i,
    {
        let ch = s.get_char(i);
        proof {
            assert(s@.take(i as int + 1).drop_last() == s@.take(i as int));
            assert(s@.take(i as int + 1).last() == s@[i as int]);
        }
        if ch == c {
            r = r + 1;
        }
        i = i + 1;
    }
    proof {
        assert(s@.take(n as int) == s@);
    }
    r
}

/// The result of replacing every occurrence of `needle` in `s` by `repl`,
/// scanning left to right.
pub open spec fn spec_replace_all(s: Seq<char>, needle: Seq<char>, repl: Seq<char>) -> Seq<char>
    decreases s.len(),
        when needle.len() >= 1
{
    if s.len() < needle.len() {
        s
    } else if s.take(needle.len() as int) == needle {
        repl + spec_replace_all(s.skip(needle.len() as int), needle, repl)
    } else {
        s.take(1) + spec_replace_all(s.skip(1), needle, repl)
    }
}

/// Replaces every occurrence of `needle` in `s` by `repl`.
pub fn replace_all(s: &str, needle: &str, repl: &str) -> (r: String)
    requires
        needle@.len() >= 1,
    ensures
        r@ == spec_replace_all(s@, needle@, repl@),
{
    let n = s.unicode_len();
    let nl = needle.unicode_len();
    let mut out = String::new();
    let mut i: usize = 0;
    proof {
        assert(s@.skip(0) =~= s@);
        assert(out@ + spec_replace_all(s@, needle@, repl@) =~= spec_replace_all(
            s@,
            needle@,
            repl@,
        ));
    }
    while i < n
        invariant
            i <= n,
            n == s@.len(),
            nl == needle@.len(),
            1 <= nl,
            spec_replace_all(s@, needle@, repl@) == out@ + spec_replace_all(
                s@.skip(i as int),
                needle@,
                repl@,
            ),
        decreases n - i,
    {
        let ghost rest = s@.skip(i as int);
        if nl <= n - i {
            let window = s.substring_char(i, i + nl);
            if str_eq(window, needle) {
                proof {
                    assert(rest.take(nl as int) =~= s@.subrange(i as int, i as int + nl));
                    assert(rest.skip(nl as int) =~= s@.skip(i as int + nl));
                }
                out.append(repl);
                i = i + nl;
                continue ;
            }
            proof {
                assert(rest.take(nl as int) =~= s@.subrange(i as int, i as int + nl));
            }
        } else {
            proof {
                assert(rest.len() < needle@.len());
                assert(rest =~= rest.take(1) + rest.skip(1));
                assert(rest.take(1) =~= s@.subrange(i as int, i as int + 1));
                assert(rest.skip(1) =~= s@.skip(i as int + 1));
            }
        }
        proof {
            assert(rest.take(1) =~= s@.subrange(i as int, i as int + 1));
            assert(rest.skip(1) =~= s@.skip(i as int + 1));
        }
        let one = s.substring_char(i, i + 1);
        out.append(one);
        i = i + 1;
    }
    proof {
        assert(s@.skip(n as int) =~= Seq::<char>::empty());
        assert(spec_replace_all(Seq::<char>::empty(), needle@, repl@) =~= Seq::<char>::empty());
        assert(out@ + Seq::<char>::empty() =~= out@);
    }
    out
}

/// An exact copy of a vector of strings.
pub fn clone_strings(v: &Vec<String>) -> (r: Vec<String>)
    ensures
        r@ == v@,
{
    let mut r: Vec<String> = Vec::new();
    let mut i: usize = 0;
    while i < v.len()
        invariant
            i <= v@.len(),
            r@ =~= v@.take(i as int),
        decreases v@.len() - i,
    {
        r.push(v[i].clone());
        proof {
            assert(r@ =~= v@.take(i as int + 1));
        }
        i = i + 1;
    }
    proof {
        assert(v@.take(v@.len() as int) =~= v@);
    }
    r
}

/// An exact copy of a vector of bytes.
pub fn clone_bytes(v: &Vec<u8>) -> (r: Vec<u8>)
    ensures
        r@ == v@,
{
    let mut r: Vec<u8> = Vec::new();
    let mut i: usize = 0;
    while i < v.len()
        invariant
            i <= v@.len(),
            r@ =~= v@.take(i as int),
        decreases v@.len() - i,
    {
        r.push(v[i]);
        proof {
            assert(r@ =~= v@.take(i as int + 1));
        }
        i = i + 1;
    }
    proof {
        assert(v@.take(v@.len() as int) =~= v@);
    }
    r
}

/// Whether some entry of `v` equals `s`.
pub open spec fn spec_contains_string(v: Seq<Seq<char>>, s: Seq<char>) -> bool {
    exists|i: int| 0 <= i < v.len() && v[i] == s
}

/// Whether `v` holds a string equal to `s`.
pub fn vec_contains_string(v: &Vec<String>, s: &str) -> (r: bool)
    ensures
        r == spec_contains_string(views_of(v@), s@),
{
    let mut i: usize = 0;
    while i < v.len()
        invariant
            i <= v@.len(),
            forall|j: int| 0 <= j < i ==> v@[j]@ != s@,
        decreases v@.len() - i,
    {
        if str_eq(v[i].as_str(), s) {
            proof {
                assert(views_of(v@)[i as int] == s@);
            }
            return true;
        }
        i = i + 1;
    }
    proof {
        assert(forall|j: int| 0 <= j < v@.len() ==> views_of(v@)[j] == v@[j]@);
    }
    false
}


/// The components of a slash-separated path.
pub open spec fn spec_components(s: Seq<char>) -> Seq<Seq<char>>
    decreases s.len(),
{
    if !s.contains('/') {
        seq![s]
    } else {
        proof {
            s.index_of_first_ensures('/');
        }
        let k = s.index_of_first('/') ->Some_0;
        seq![s.take(k)] + spec_components(s.skip(k + 1))
    }
}

/// Splits a path into its slash-separated components.
pub fn split_components(s: &str) -> (r: Vec<String>)
    ensures
        views_of(r@) == spec_components(s@),
{
    let n = s.unicode_len();
    let mut r: Vec<String> = Vec::new();
    let mut start: usize = 0;
    let mut i: usize = 0;
    proof {
        assert(s@.skip(0) =~= s@);
    }
    while i < n
        invariant
            start <= i <= n,
            n == s@.len(),
            forall|m: int| start <= m < i ==> s@[m] != '/',
            spec_components(s@) == views_of(r@) + spec_components(s@.skip(start as int)),
        decreases n - i,
    {
        let c = s.get_char(i);
        if c == '/' {
            let comp = s.substring_char(start, i).to_owned();
            proof {
                let rest = s@.skip(start as int);
                assert(rest[i - start] == '/');
                assert(forall|m: int| 0 <= m < i - start ==> rest[m] != '/');
                assert(rest.contains('/'));
                assert(rest.index_of_first('/') == Some(i - start as int)) by {
                    rest.index_of_first_ensures('/');
                }
                assert(rest.take(i - start as int) =~= s@.subrange(start as int, i as int));
                assert(rest.skip(i - start + 1) =~= s@.skip(i as int + 1));
                assert(views_of(r@.push(comp)) =~= views_of(r@) + seq![comp@]);
            }
            r.push(comp);
            start = i + 1;
        }
        i = i + 1;
    }
    let comp = s.substring_char(start, n).to_owned();
    proof {
        let rest = s@.skip(start as int);
        assert(forall|m: int| 0 <= m < rest.len() ==> rest[m] != '/');
        assert(!rest.contains('/')) by {
            if rest.contains('/') {
                let w = choose|w: int| 0 <= w < rest.len() && rest[w] == '/';
            }
        }
        assert(rest =~= s@.subrange(start as int, n as int));
        assert(views_of(r@.push(comp)) =~= views_of(r@) + seq![comp@]);
    }
    r.push(comp);
    proof {
        assert(views_of(r@) =~= spec_components(s@));
    }
    r
}

/// Whether a path component is kept when cleaning a path: empty, current
/// and parent markers are dropped.
pub open spec fn spec_keeps(c: Seq<char>) -> bool {
    c.len() != 0 && c != "."@ && c != ".."@
}

/// The cleaned components: empty, current and parent markers dropped.
pub open spec fn spec_clean(cs: Seq<Seq<char>>) -> Seq<Seq<char>>
    decreases cs.len(),
{
    if cs.len() == 0 {
        Seq::empty()
    } else if spec_keeps(cs[0]) {
        seq![cs[0]] + spec_clean(cs.drop_first())
    } else {
        spec_clean(cs.drop_first())
    }
}

/// Drops empty, current and parent markers from a component list.
pub fn clean_components(cs: Vec<String>) -> (r: Vec<String>)
    ensures
        views_of(r@) == spec_clean(views_of(cs@)),
{
    let mut r: Vec<String> = Vec::new();
    let mut i: usize = 0;
    proof {
        assert(views_of(cs@).skip(0) =~= views_of(cs@));
    }
    while i < cs.len()
        invariant
            i <= cs@.len(),
            spec_clean(views_of(cs@)) == views_of(r@) + spec_clean(
                views_of(cs@).skip(i as int),
            ),
        decreases cs@.len() - i,
    {
        proof {
            assert(views_of(cs@).skip(i as int)[0] == cs@[i as int]@);
            assert(views_of(cs@).skip(i as int).drop_first() =~= views_of(cs@).skip(i as int + 1));
        }
        let c = &cs[i];
        let keep = !c.as_str().is_empty() && !str_eq(c.as_str(), ".") && !str_eq(c.as_str(), "..");
        if keep {
            proof {
                assert(spec_keeps(cs@[i as int]@));
                assert(views_of(r@.push(cs@[i as int])) =~= views_of(r@) + seq![cs@[i as int]@]);
            }
            r.push(cs[i].clone());
        } else {
            proof {
                assert(!spec_keeps(cs@[i as int]@));
            }
        }
        i = i + 1;
    }
    proof {
        assert(views_of(cs@).skip(cs@.len() as int).len() == 0);
        assert(views_of(r@) =~= spec_clean(views_of(cs@)));
    }
    r
}

/// The components joined back with slashes.
pub open spec fn spec_join(cs: Seq<Seq<char>>) -> Seq<char>
    decreases cs.len(),
{
    if cs.len() == 0 {
        Seq::empty()
    } else if cs.len() == 1 {
        cs[0]
    } else {
        cs[0] + seq!['/'] + spec_join(cs.drop_first())
    }
}

/// Joins components with slashes.
pub fn join_components(cs: &Vec<String>) -> (r: String)
    ensures
        r@ == spec_join(views_of(cs@)),
{
    let mut r = String::new();
    if cs.len() == 0 {
        proof {
            assert(r@ =~= spec_join(views_of(cs@)));
        }
        return r;
    }
    let mut i: usize = cs.len() - 1;
    let mut acc = cs[i].clone();
    while i > 0
        invariant
            i < cs@.len(),
            acc@ == spec_join(views_of(cs@).skip(i as int)),
        decreases i,
    {
        i = i - 1;
        let mut next = cs[i].clone();
        next.append("/");
        next.append(acc.as_str());
        proof {
            reveal_strlit("/");
            assert("/"@ =~= seq!['/']);
            let v = views_of(cs@).skip(i as int);
            assert(v[0] == cs@[i as int]@);
            assert(v.drop_first() =~= views_of(cs@).skip(i as int + 1));
            assert(v.len() >= 2 ==> next@ =~= spec_join(v));
        }
        acc = next;
    }
    proof {
        assert(views_of(cs@).skip(0) =~= views_of(cs@));
    }
    acc
}

/// Two paths joined by a slash.
pub fn path_join(a: &str, b: &str) -> (r: String)
    ensures
        r@ == a@ + "/"@ + b@,
{
    let mut r = a.to_owned();
    r.append("/");
    r.append(b);
    r
}

/// A path cleaned of empty, current and parent markers.
pub open spec fn spec_sanitize(s: Seq<char>) -> Seq<char> {
    spec_join(spec_clean(spec_components(s)))
}

/// Cleans a path of empty, current and parent markers, keeping the rest.
pub fn sanitize_path(s: &str) -> (r: String)
    ensures
        r@ == spec_sanitize(s@),
{
    let parts = split_components(s);
    let cleaned = clean_components(parts);
    join_components(&cleaned)
}

/// The ancestors of a cleaned component list, nearest first: the join of
/// every proper non-empty prefix, deepest first.
pub open spec fn spec_ancestors(cs: Seq<Seq<char>>) -> Seq<Seq<char>> {
    if cs.len() == 0 {
        Seq::empty()
    } else {
        Seq::new((cs.len() - 1) as nat, |k: int| spec_join(cs.take(cs.len() - 1 - k)))
    }
}

/// The ancestor directories of a cleaned component list, nearest first.
pub fn ancestors(cs: &Vec<String>) -> (r: Vec<String>)
    ensures
        views_of(r@) == spec_ancestors(views_of(cs@)),
{
    let mut r: Vec<String> = Vec::new();
    if cs.len() == 0 {
        proof {
            assert(views_of(r@) =~= spec_ancestors(views_of(cs@)));
        }
        return r;
    }
    let mut j: usize = cs.len() - 1;
    while j > 0
        invariant
            j <= cs@.len() - 1,
            r@.len() == cs@.len() - 1 - j,
            forall|k: int|
                0 <= k < r@.len() ==> r@[k]@ == spec_join(
                    views_of(cs@).take(cs@.len() - 1 - k),
                ),
        decreases j,
    {
        let mut prefix: Vec<String> = Vec::new();
        let mut m: usize = 0;
        while m < j
            invariant
                m <= j <= cs@.len(),
                prefix@.len() == m,
                forall|k: int| 0 <= k < m ==> prefix@[k]@ == cs@[k]@,
            decreases j - m,
        {
            prefix.push(cs[m].clone());
            m = m + 1;
        }
        proof {
            assert(views_of(prefix@) =~= views_of(cs@).take(j as int));
        }
        r.push(join_components(&prefix));
        j = j - 1;
    }
    proof {
        assert(views_of(r@) =~= spec_ancestors(views_of(cs@)));
    }
    r
}

} // verus!
