//! Unix path arithmetic on strings: components, prefixes, file names, joins.
//!
//! A path is read as `std::path::Path` reads it on Unix: a leading `/` is
//! the root, `/` separates components, empty and interior `.` components
//! are dropped, a leading `.` is the current directory and `..` is the
//! parent directory.
use vstd::prelude::*;

use crate::text::{chars_of, string_from_chars};

verus! {

/// The `/`-separated pieces of `s`, empty pieces included.
pub open spec fn split_slash(s: Seq<char>) -> Seq<Seq<char>>
    decreases s.len(),
{
    if s.len() == 0 {
        seq![Seq::<char>::empty()]
    } else {
        let prev = split_slash(s.drop_last());
        if s.last() == '/' {
            prev.push(Seq::<char>::empty())
        } else {
            prev.update(prev.len() - 1, prev.last().push(s.last()))
        }
    }
}

pub proof fn lemma_split_slash_nonempty(s: Seq<char>)
    ensures
        split_slash(s).len() >= 1,
    decreases s.len(),
{
    if s.len() > 0 {
        lemma_split_slash_nonempty(s.drop_last());
    }
}

/// The root component.
pub open spec fn root_comp() -> Seq<char> {
    seq!['/']
}

/// The current-directory component.
pub open spec fn cur_comp() -> Seq<char> {
    seq!['.']
}

/// The parent-directory component.
pub open spec fn parent_comp() -> Seq<char> {
    seq!['.', '.']
}

/// The pieces of `pieces` from index `k` that are components: not empty, not `.`.
pub open spec fn keep_pieces(pieces: Seq<Seq<char>>, k: int) -> Seq<Seq<char>>
    decreases pieces.len() - k,
{
    if k >= pieces.len() || k < 0 {
        Seq::empty()
    } else {
        let rest = keep_pieces(pieces, k + 1);
        if pieces[k].len() == 0 || pieces[k] == cur_comp() {
            rest
        } else {
            seq![pieces[k]].add(rest)
        }
    }
}

/// Components of a path, the root written `/` and a leading current
/// directory written `.`.
pub open spec fn components(p: Seq<char>) -> Seq<Seq<char>> {
    let pieces = split_slash(p);
    if p.len() > 0 && p[0] == '/' {
        seq![root_comp()].add(keep_pieces(pieces, 1))
    } else if pieces[0] == cur_comp() {
        seq![cur_comp()].add(keep_pieces(pieces, 1))
    } else {
        keep_pieces(pieces, 0)
    }
}

/// `base`'s components are a prefix of `p`'s.
pub open spec fn starts_with(p: Seq<char>, base: Seq<char>) -> bool {
    let a = components(p);
    let b = components(base);
    b.len() <= a.len() && a.subrange(0, b.len() as int) == b
}

/// The final component, when it is a normal name.
pub open spec fn file_name(p: Seq<char>) -> Option<Seq<char>> {
    let c = components(p);
    if c.len() == 0 {
        None
    } else {
        let last = c.last();
        if last == root_comp() || last == cur_comp() || last == parent_comp() {
            None
        } else {
            Some(last)
        }
    }
}

/// Absolute paths start at the root.
pub open spec fn is_absolute(p: Seq<char>) -> bool {
    p.len() > 0 && p[0] == '/'
}

/// `base` joined with `rel`: `rel` itself when absolute, else the two with
/// one separator between them.
pub open spec fn join(base: Seq<char>, rel: Seq<char>) -> Seq<char> {
    if is_absolute(rel) {
        rel
    } else if base.len() == 0 || base.last() == '/' {
        base + rel
    } else {
        base + seq!['/'] + rel
    }
}

/// Split `s` on `/` (empty pieces kept).
pub fn split_pieces(s: &str) -> (out: Vec<Vec<char>>)
    ensures
        out@.len() == split_slash(s@).len(),
        forall|i: int| 0 <= i < out@.len() ==> #[trigger] out@[i]@ == split_slash(s@)[i],
{
    let cs = chars_of(s);
    let mut out: Vec<Vec<char>> = Vec::new();
    out.push(Vec::new());
    let mut i: usize = 0;
    proof {
        assert(cs@.take(0) =~= Seq::<char>::empty());
    }
    while i < cs.len()
        invariant
            cs@ == s@,
            i <= cs@.len(),
            out@.len() == split_slash(cs@.take(i as int)).len(),
            out@.len() >= 1,
            forall|j: int| 0 <= j < out@.len() ==> #[trigger] out@[j]@ == split_slash(cs@.take(i as int))[j],
        decreases cs@.len() - i,
    {
        let c = cs[i];
        let ghost before = cs@.take(i as int);
        proof {
            assert(cs@.take(i + 1).drop_last() =~= before);
            assert(cs@.take(i + 1).last() == c);
        }
        if c == '/' {
            out.push(Vec::new());
        } else {
            let last = out.len() - 1;
            let mut piece = out.pop().unwrap();
            piece.push(c);
            out.push(piece);
            proof {
                assert forall|j: int| 0 <= j < out@.len() implies #[trigger] out@[j]@ == split_slash(cs@.take(i + 1))[j] by {
                    if j == last as int {
                        assert(out@[j]@ =~= split_slash(before)[j].push(c));
                    }
                }
            }
        }
        i = i + 1;
    }
    proof {
        assert(cs@.take(cs@.len() as int) =~= cs@);
    }
    out
}


/// Character views of a list of character vectors.
pub open spec fn vviews(v: Seq<Vec<char>>) -> Seq<Seq<char>> {
    v.map_values(|x: Vec<char>| x@)
}

fn chars_eq(a: &Vec<char>, b: &Vec<char>) -> (r: bool)
    ensures
        r == (a@ == b@),
{
    if a.len() != b.len() {
        return false;
    }
    let mut i: usize = 0;
    while i < a.len()
        invariant
            a@.len() == b@.len(),
            i <= a@.len(),
            forall|j: int| 0 <= j < i ==> a@[j] == b@[j],
        decreases a@.len() - i,
    {
        if a[i] != b[i] {
            return false;
        }
        i = i + 1;
    }
    assert(a@ =~= b@);
    true
}

fn is_cur(a: &Vec<char>) -> (r: bool)
    ensures
        r == (a@ == cur_comp()),
{
    let r = a.len() == 1 && a[0] == '.';
    assert(r ==> a@ =~= cur_comp());
    r
}

fn is_parent(a: &Vec<char>) -> (r: bool)
    ensures
        r == (a@ == parent_comp()),
{
    let r = a.len() == 2 && a[0] == '.' && a[1] == '.';
    assert(r ==> a@ =~= parent_comp());
    r
}

fn is_root(a: &Vec<char>) -> (r: bool)
    ensures
        r == (a@ == root_comp()),
{
    let r = a.len() == 1 && a[0] == '/';
    assert(r ==> a@ =~= root_comp());
    r
}

/// Components of `s` (see `components`).
pub fn path_components(s: &str) -> (out: Vec<Vec<char>>)
    ensures
        vviews(out@) == components(s@),
{
    let pieces = split_pieces(s);
    let ghost ps = split_slash(s@);
    proof {
        lemma_split_slash_nonempty(s@);
        assert(vviews(pieces@) =~= ps);
    }
    let cs = chars_of(s);
    let mut out: Vec<Vec<char>> = Vec::new();
    let start: usize;
    if cs.len() > 0 && cs[0] == '/' {
        let r: Vec<char> = vec!['/'];
        assert(r@ =~= root_comp());
        out.push(r);
        start = 1;
        assert(vviews(out@) =~= seq![root_comp()]);
    } else if is_cur(&pieces[0]) {
        let r: Vec<char> = vec!['.'];
        assert(r@ =~= cur_comp());
        out.push(r);
        start = 1;
        assert(vviews(out@) =~= seq![cur_comp()]);
        assert(ps[0] == pieces@[0]@);
    } else {
        start = 0;
        assert(ps[0] == pieces@[0]@);
        assert(vviews(out@) =~= Seq::<Seq<char>>::empty());
    }
    proof {
        assert(vviews(out@) + keep_pieces(ps, start as int) =~= components(s@));
    }
    let mut i: usize = start;
    while i < pieces.len()
        invariant
            vviews(pieces@) == ps,
            ps.len() == pieces@.len(),
            start <= i <= pieces@.len(),
            vviews(out@) + keep_pieces(ps, i as int) == components(s@),
        decreases pieces@.len() - i,
    {
        let keep = pieces[i].len() != 0 && !is_cur(&pieces[i]);
        proof {
            assert(ps[i as int] == pieces@[i as int]@);
        }
        if keep {
            let mut piece: Vec<char> = Vec::new();
            let mut j: usize = 0;
            while j < pieces[i].len()
                invariant
                    i < pieces@.len(),
                    j <= pieces@[i as int]@.len(),
                    piece@ == pieces@[i as int]@.subrange(0, j as int),
                decreases pieces@[i as int]@.len() - j,
            {
                piece.push(pieces[i][j]);
                j = j + 1;
                assert(piece@ =~= pieces@[i as int]@.subrange(0, j as int));
            }
            assert(piece@ =~= pieces@[i as int]@);
            let ghost before = vviews(out@);
            out.push(piece);
            proof {
                assert(vviews(out@) =~= before.push(ps[i as int]));
                assert(keep_pieces(ps, i as int) =~= seq![ps[i as int]].add(keep_pieces(ps, i + 1)));
                assert(vviews(out@) + keep_pieces(ps, i + 1) =~= before + keep_pieces(ps, i as int));
            }
        } else {
            proof {
                assert(keep_pieces(ps, i as int) == keep_pieces(ps, i + 1));
            }
        }
        i = i + 1;
    }
    proof {
        assert(keep_pieces(ps, i as int) =~= Seq::<Seq<char>>::empty());
        assert(vviews(out@) =~= components(s@));
    }
    out
}


/// Components joined with `/` separators.
pub open spec fn join_comps(cs: Seq<Seq<char>>) -> Seq<char>
    decreases cs.len(),
{
    if cs.len() == 0 {
        Seq::empty()
    } else if cs.len() == 1 {
        cs[0]
    } else {
        join_comps(cs.drop_last()) + seq!['/'] + cs.last()
    }
}

/// `p` with the components of `base` removed from its front, when `base`
/// is a component-wise prefix of `p`.
pub open spec fn strip_prefix(p: Seq<char>, base: Seq<char>) -> Option<Seq<char>> {
    if starts_with(p, base) {
        let a = components(p);
        Some(join_comps(a.subrange(components(base).len() as int, a.len() as int)))
    } else {
        None
    }
}

/// `base`'s components are a prefix of `p`'s (`Path::starts_with`).
pub fn path_starts_with(p: &str, base: &str) -> (r: bool)
    ensures
        r == starts_with(p@, base@),
{
    let a = path_components(p);
    let b = path_components(base);
    proof {
        assert(vviews(a@).len() == a@.len());
        assert(vviews(b@).len() == b@.len());
    }
    if b.len() > a.len() {
        return false;
    }
    let mut i: usize = 0;
    while i < b.len()
        invariant
            vviews(a@) == components(p@),
            vviews(b@) == components(base@),
            b@.len() <= a@.len(),
            i <= b@.len(),
            forall|j: int| 0 <= j < i ==> a@[j]@ == b@[j]@,
        decreases b@.len() - i,
    {
        if !chars_eq(&a[i], &b[i]) {
            proof {
                assert(vviews(a@)[i as int] == a@[i as int]@);
                assert(vviews(b@)[i as int] == b@[i as int]@);
                assert(vviews(a@).subrange(0, b@.len() as int)[i as int] != vviews(b@)[i as int]);
                assert(vviews(a@).subrange(0, b@.len() as int) != vviews(b@));
            }
            return false;
        }
        i = i + 1;
    }
    proof {
        assert(vviews(a@).subrange(0, b@.len() as int) =~= vviews(b@));
    }
    true
}

/// The final normal component of `p` (`Path::file_name`).
pub fn path_file_name(p: &str) -> (r: Option<String>)
    ensures
        match r {
            Some(n) => file_name(p@) == Some(n@),
            None => file_name(p@) is None,
        },
{
    let c = path_components(p);
    if c.len() == 0 {
        return None;
    }
    let last = &c[c.len() - 1];
    proof {
        assert(vviews(c@).last() == last@);
    }
    if is_root(last) || is_cur(last) || is_parent(last) {
        None
    } else {
        Some(string_from_chars(last.as_slice()))
    }
}

/// Absolute paths start at the root.
pub fn path_is_absolute(p: &str) -> (r: bool)
    ensures
        r == is_absolute(p@),
{
    let cs = chars_of(p);
    cs.len() > 0 && cs[0] == '/'
}

/// `base` joined with `rel` (`Path::join`).
pub fn path_join(base: &str, rel: &str) -> (r: String)
    ensures
        r@ == join(base@, rel@),
{
    if path_is_absolute(rel) {
        return string_from_chars(chars_of(rel).as_slice());
    }
    let b = chars_of(base);
    let mut out = string_from_chars(b.as_slice());
    if !(b.len() == 0 || b[b.len() - 1] == '/') {
        crate::text::push_char(&mut out, '/');
    }
    let ghost mid = out@;
    out.append(rel);
    proof {
        if !(b@.len() == 0 || b@.last() == '/') {
            assert(mid =~= base@ + seq!['/']);
        } else {
            assert(mid =~= base@);
        }
    }
    out
}

/// Components from index `from` of `cs`, joined with `/`.
fn join_from(cs: &Vec<Vec<char>>, from: usize) -> (r: String)
    requires
        from <= cs@.len(),
    ensures
        r@ == join_comps(vviews(cs@).subrange(from as int, cs@.len() as int)),
{
    let mut out = String::new();
    let mut i: usize = from;
    while i < cs.len()
        invariant
            from <= i <= cs@.len(),
            out@ == join_comps(vviews(cs@).subrange(from as int, i as int)),
        decreases cs@.len() - i,
    {
        let ghost prev = vviews(cs@).subrange(from as int, i as int);
        let ghost next = vviews(cs@).subrange(from as int, i + 1);
        proof {
            assert(next.drop_last() =~= prev);
            assert(next.last() == cs@[i as int]@);
        }
        if i > from {
            crate::text::push_char(&mut out, '/');
        }
        let piece = string_from_chars(cs[i].as_slice());
        let ghost mid = out@;
        out.append(piece.as_str());
        proof {
            if i == from {
                assert(prev =~= Seq::<Seq<char>>::empty());
                assert(next.len() == 1);
                assert(out@ =~= next[0]);
            } else {
                assert(out@ =~= join_comps(prev) + seq!['/'] + next.last());
            }
        }
        i = i + 1;
    }
    out
}

/// `p` relative to `base` (`Path::strip_prefix`).
pub fn path_strip_prefix(p: &str, base: &str) -> (r: Option<String>)
    ensures
        match r {
            Some(rest) => strip_prefix(p@, base@) == Some(rest@),
            None => strip_prefix(p@, base@) is None,
        },
{
    if !path_starts_with(p, base) {
        return None;
    }
    let a = path_components(p);
    let b = path_components(base);
    proof {
        assert(vviews(b@).len() == b@.len());
        assert(vviews(a@).subrange(b@.len() as int, a@.len() as int) =~= components(p@).subrange(components(base@).len() as int, components(p@).len() as int));
    }
    Some(join_from(&a, b.len()))
}

} // verus!

verus! {

proof fn lemma_split_after_slash(a: Seq<char>, b: Seq<char>)
    ensures
        split_slash(a + seq!['/'] + b) == split_slash(a) + split_slash(b),
    decreases b.len(),
{
    lemma_split_slash_nonempty(a);
    if b.len() == 0 {
        let s = a + seq!['/'];
        assert(s.drop_last() =~= a);
        assert(a + seq!['/'] + b =~= s);
        assert(split_slash(b) =~= seq![Seq::<char>::empty()]);
        assert(split_slash(s) =~= split_slash(a) + split_slash(b));
    } else {
        let b0 = b.drop_last();
        let s = a + seq!['/'] + b;
        assert(s.drop_last() =~= a + seq!['/'] + b0);
        assert(s.last() == b.last());
        lemma_split_after_slash(a, b0);
        lemma_split_slash_nonempty(b0);
        let prev = split_slash(a) + split_slash(b0);
        if b.last() == '/' {
            assert(split_slash(s) =~= split_slash(a) + split_slash(b));
        } else {
            let pb = split_slash(b0);
            assert(prev.last() == pb.last());
            assert(prev.update(prev.len() - 1, prev.last().push(b.last()))
                =~= split_slash(a) + pb.update(pb.len() - 1, pb.last().push(b.last())));
        }
    }
}

proof fn lemma_keep_suffix(x: Seq<Seq<char>>, y: Seq<Seq<char>>, j: int)
    requires
        0 <= j <= y.len(),
    ensures
        keep_pieces(x + y, x.len() + j) == keep_pieces(y, j),
    decreases y.len() - j,
{
    if j < y.len() {
        lemma_keep_suffix(x, y, j + 1);
        assert((x + y)[x.len() + j] == y[j]);
    }
}

proof fn lemma_keep_concat(x: Seq<Seq<char>>, y: Seq<Seq<char>>, k: int)
    requires
        0 <= k <= x.len(),
    ensures
        keep_pieces(x + y, k) == keep_pieces(x, k) + keep_pieces(y, 0),
    decreases x.len() - k,
{
    if k == x.len() {
        lemma_keep_suffix(x, y, 0);
        assert(keep_pieces(x, k) =~= Seq::<Seq<char>>::empty());
        assert(keep_pieces(x, k) + keep_pieces(y, 0) =~= keep_pieces(y, 0));
    } else {
        lemma_keep_concat(x, y, k + 1);
        assert((x + y)[k] == x[k]);
        if !(x[k].len() == 0 || x[k] == cur_comp()) {
            assert(seq![x[k]].add(keep_pieces(x, k + 1) + keep_pieces(y, 0))
                =~= seq![x[k]].add(keep_pieces(x, k + 1)) + keep_pieces(y, 0));
        }
    }
}

/// The components of `a/b`: those of `a/`, then the pieces of `b` that
/// are components.
proof fn lemma_components_after_slash(a: Seq<char>, b: Seq<char>)
    ensures
        components(a + seq!['/'] + b) == components(a + seq!['/']) + keep_pieces(split_slash(b), 0),
{
    let e = Seq::<char>::empty();
    lemma_split_after_slash(a, b);
    lemma_split_after_slash(a, e);
    assert(a + seq!['/'] + e =~= a + seq!['/']);
    lemma_split_slash_nonempty(a);
    let sa = split_slash(a);
    let sb = split_slash(b);
    let se = split_slash(e);
    assert(se =~= seq![e]);
    assert(keep_pieces(se, 0) =~= Seq::<Seq<char>>::empty()) by {
        assert(keep_pieces(se, 1) =~= Seq::<Seq<char>>::empty());
    }
    let full = a + seq!['/'] + b;
    let short = a + seq!['/'];
    assert(full[0] == short[0]) by {
        if a.len() > 0 {
            assert(full[0] == a[0] && short[0] == a[0]);
        } else {
            assert(full[0] == '/' && short[0] == '/');
        }
    }
    assert((sa + sb)[0] == sa[0] && (sa + se)[0] == sa[0]);
    if full.len() > 0 && full[0] == '/' {
        lemma_keep_concat(sa, sb, 1);
        lemma_keep_concat(sa, se, 1);
        assert(keep_pieces(sa, 1) + keep_pieces(se, 0) =~= keep_pieces(sa, 1));
        assert(seq![root_comp()].add(keep_pieces(sa, 1) + keep_pieces(sb, 0))
            =~= seq![root_comp()].add(keep_pieces(sa, 1)) + keep_pieces(sb, 0));
    } else if sa[0] == cur_comp() {
        lemma_keep_concat(sa, sb, 1);
        lemma_keep_concat(sa, se, 1);
        assert(keep_pieces(sa, 1) + keep_pieces(se, 0) =~= keep_pieces(sa, 1));
        assert(seq![cur_comp()].add(keep_pieces(sa, 1) + keep_pieces(sb, 0))
            =~= seq![cur_comp()].add(keep_pieces(sa, 1)) + keep_pieces(sb, 0));
    } else {
        lemma_keep_concat(sa, sb, 0);
        lemma_keep_concat(sa, se, 0);
        assert(keep_pieces(sa, 0) + keep_pieces(se, 0) =~= keep_pieces(sa, 0));
    }
}

/// A path and the same path with a trailing `/` have the same components.
proof fn lemma_trailing_slash(a: Seq<char>)
    requires
        a.len() > 0,
    ensures
        components(a + seq!['/']) == components(a),
{
    let e = Seq::<char>::empty();
    lemma_split_after_slash(a, e);
    assert(a + seq!['/'] + e =~= a + seq!['/']);
    lemma_split_slash_nonempty(a);
    let sa = split_slash(a);
    let se = split_slash(e);
    assert(se =~= seq![e]);
    assert(keep_pieces(se, 0) =~= Seq::<Seq<char>>::empty()) by {
        assert(keep_pieces(se, 1) =~= Seq::<Seq<char>>::empty());
    }
    assert((a + seq!['/'])[0] == a[0]);
    assert((sa + se)[0] == sa[0]);
    if a[0] == '/' || sa[0] == cur_comp() {
        lemma_keep_concat(sa, se, 1);
        assert(keep_pieces(sa, 1) + keep_pieces(se, 0) =~= keep_pieces(sa, 1));
    } else {
        lemma_keep_concat(sa, se, 0);
        assert(keep_pieces(sa, 0) + keep_pieces(se, 0) =~= keep_pieces(sa, 0));
    }
}

/// Every piece `keep_pieces(split_slash(rel), 0)` keeps is a component of `rel`.
proof fn lemma_kept_are_components(rel: Seq<char>, i: int)
    requires
        !is_absolute(rel),
        0 <= i < keep_pieces(split_slash(rel), 0).len(),
    ensures
        exists|j: int| 0 <= j < components(rel).len() && components(rel)[j] == keep_pieces(split_slash(rel), 0)[i],
{
    let s = split_slash(rel);
    lemma_split_slash_nonempty(rel);
    if s[0] == cur_comp() {
        assert(keep_pieces(s, 0) == keep_pieces(s, 1));
        assert(components(rel)[i + 1] == keep_pieces(s, 0)[i]);
    } else {
        assert(components(rel)[i] == keep_pieces(s, 0)[i]);
    }
}

/// Joining a relative path that holds no root and no `..` component onto
/// `base` stays inside `base`: the result's components start with those of
/// `base`, and none after them is `..` or the root.
pub proof fn law_join_stays_under_base(base: Seq<char>, rel: Seq<char>)
    requires
        !is_absolute(rel),
        forall|i: int| 0 <= i < components(rel).len() ==> components(rel)[i] != parent_comp()
            && components(rel)[i] != root_comp(),
    ensures
        starts_with(join(base, rel), base),
        forall|i: int| components(base).len() <= i < components(join(base, rel)).len()
            ==> components(join(base, rel))[i] != parent_comp() && components(join(base, rel))[i] != root_comp(),
{
    let tail = keep_pieces(split_slash(rel), 0);
    let cb = components(base);
    let cj = components(join(base, rel));
    if base.len() == 0 {
        assert(join(base, rel) =~= rel);
        assert(split_slash(base) =~= seq![Seq::<char>::empty()]);
        assert(cb =~= Seq::<Seq<char>>::empty()) by {
            assert(keep_pieces(split_slash(base), 1) =~= Seq::<Seq<char>>::empty());
        }
        assert(cj.subrange(0, 0) =~= cb);
    } else {
        if base.last() == '/' {
            let a = base.drop_last();
            assert(a + seq!['/'] =~= base);
            assert(join(base, rel) =~= a + seq!['/'] + rel);
            lemma_components_after_slash(a, rel);
        } else {
            assert(join(base, rel) =~= base + seq!['/'] + rel);
            lemma_components_after_slash(base, rel);
            lemma_trailing_slash(base);
        }
        assert(cj == cb + tail);
        assert(cj.subrange(0, cb.len() as int) =~= cb);
        assert forall|i: int| cb.len() <= i < cj.len() implies cj[i] != parent_comp() && cj[i] != root_comp() by {
            assert(cj[i] == tail[i - cb.len()]);
            lemma_kept_are_components(rel, i - cb.len());
        }
    }
}

} // verus!
