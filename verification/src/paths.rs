//! Path strings: how the library adjoins a component to a directory, and the
//! extension rewrite that it takes from the standard library.

use vstd::prelude::*;
use vstd::string::*;

verus! {

/// The path that adjoining `comp` to `base` gives, with `/` as separator:
/// an absolute component replaces the base; otherwise a separator is put
/// between the two unless the base is empty or already ends in one.
pub open spec fn spec_join(base: Seq<char>, comp: Seq<char>) -> Seq<char> {
    if comp.len() > 0 && comp[0] == '/' {
        comp
    } else if base.len() == 0 || base.last() == '/' {
        base + comp
    } else {
        base + seq!['/'] + comp
    }
}

/// `p` names an entry strictly below the directory `dir`.
pub open spec fn is_below(p: Seq<char>, dir: Seq<char>) -> bool {
    &&& dir.len() < p.len()
    &&& p.subrange(0, dir.len() as int) == dir
}

/// Adjoins `comp` to `base`, as `spec_join` says.
pub fn join_path(base: &str, comp: &str) -> (res: String)
    ensures
        res@ == spec_join(base@, comp@),
{
    let comp_len = comp.unicode_len();
    if comp_len > 0 && comp.get_char(0) == '/' {
        return String::from_str(comp);
    }
    let base_len = base.unicode_len();
    let mut res = String::from_str(base);
    if base_len > 0 && base.get_char(base_len - 1) != '/' {
        proof {
            reveal_strlit("/");
        }
        res.append("/");
    }
    res.append(comp);
    res
}

/// Adjoining a relative, non-empty component gives an entry below the base,
/// whose last part is that component.
pub proof fn lemma_join_below(base: Seq<char>, comp: Seq<char>)
    requires
        comp.len() > 0,
        comp[0] != '/',
    ensures
        is_below(spec_join(base, comp), base),
        spec_join(base, comp).subrange(
            spec_join(base, comp).len() - comp.len(),
            spec_join(base, comp).len() as int,
        ) == comp,
{
    let j = spec_join(base, comp);
    if base.len() == 0 || base.last() == '/' {
        assert(j.subrange(0, base.len() as int) =~= base);
        assert(j.subrange(j.len() - comp.len(), j.len() as int) =~= comp);
    } else {
        assert(j.subrange(0, base.len() as int) =~= base);
        assert(j.subrange(j.len() - comp.len(), j.len() as int) =~= comp);
    }
}

/// Being below is transitive.
pub proof fn lemma_below_trans(p: Seq<char>, q: Seq<char>, r: Seq<char>)
    requires
        is_below(p, q),
        is_below(q, r),
    ensures
        is_below(p, r),
{
    assert(p.subrange(0, r.len() as int) =~= q.subrange(0, r.len() as int));
}

/// `a` comes strictly before `b` in dictionary order of their characters
/// (the order of their code points, which is also the byte order of their
/// UTF-8 text).
pub open spec fn lex_lt(a: Seq<char>, b: Seq<char>) -> bool
    decreases a.len(),
{
    if a.len() == 0 || b.len() == 0 {
        a.len() < b.len()
    } else if a[0] == b[0] {
        lex_lt(a.drop_first(), b.drop_first())
    } else {
        (a[0] as int) < (b[0] as int)
    }
}

/// No text comes before itself.
pub proof fn lemma_lex_irreflexive(a: Seq<char>)
    ensures
        !lex_lt(a, a),
    decreases a.len(),
{
    if a.len() > 0 {
        lemma_lex_irreflexive(a.drop_first());
    }
}

/// Texts that start with blocks of one length compare by those blocks when
/// they differ, and by the rest otherwise.
pub proof fn lemma_lex_blocks(x: Seq<char>, y: Seq<char>, u: Seq<char>, v: Seq<char>)
    requires
        x.len() == y.len(),
    ensures
        lex_lt(x + u, y + v) == (if x == y { lex_lt(u, v) } else { lex_lt(x, y) }),
    decreases x.len(),
{
    if x.len() == 0 {
        assert(x + u =~= u);
        assert(y + v =~= v);
        assert(x =~= y);
    } else {
        assert((x + u).drop_first() =~= x.drop_first() + u);
        assert((y + v).drop_first() =~= y.drop_first() + v);
        lemma_lex_blocks(x.drop_first(), y.drop_first(), u, v);
        if x[0] == y[0] {
            if x.drop_first() == y.drop_first() {
                assert forall|i: int| 0 <= i < x.len() implies x[i] == y[i] by {
                    if i > 0 {
                        assert(x[i] == x.drop_first()[i - 1]);
                        assert(y[i] == y.drop_first()[i - 1]);
                    }
                }
                assert(x =~= y);
            } else {
                if x == y {
                    assert(x.drop_first() =~= y.drop_first());
                }
            }
        } else {
            assert(x != y);
        }
    }
}

/// Texts that start with blocks of one length are equal just when the blocks
/// and the rests are.
pub proof fn lemma_blocks_eq(x: Seq<char>, y: Seq<char>, u: Seq<char>, v: Seq<char>)
    requires
        x.len() == y.len(),
    ensures
        (x + u == y + v) == (x == y && u == v),
{
    if x + u == y + v {
        assert(x =~= (x + u).subrange(0, x.len() as int));
        assert(y =~= (y + v).subrange(0, y.len() as int));
        assert(u =~= (x + u).subrange(x.len() as int, (x + u).len() as int));
        assert(v =~= (y + v).subrange(y.len() as int, (y + v).len() as int));
    }
}

} // verus!
