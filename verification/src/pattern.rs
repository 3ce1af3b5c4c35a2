//! Ref-name patterns: `*` is a wildcard for any run of characters, and
//! patterns are ranked so that the most literal one wins.

use vstd::prelude::*;
use vstd::string::*;
use crate::strutil::str_eq;

verus! {

/// A pattern matches a name: literal characters match themselves and
/// `*` stands for any (possibly empty) run of characters.
pub open spec fn wild_matches(p: Seq<char>, s: Seq<char>) -> bool
    decreases p.len() + s.len(),
{
    if p.len() == 0 {
        s.len() == 0
    } else if p[0] == '*' {
        wild_matches(p.skip(1), s) || (s.len() > 0 && wild_matches(p, s.skip(1)))
    } else {
        s.len() > 0 && p[0] == s[0] && wild_matches(p.skip(1), s.skip(1))
    }
}

fn wild_match_at(p: &str, s: &str, i: usize, j: usize, np: usize, ns: usize) -> (r: bool)
    requires
        np == p@.len(),
        ns == s@.len(),
        i <= np,
        j <= ns,
    ensures
        r == wild_matches(p@.skip(i as int), s@.skip(j as int)),
    decreases np - i + ns - j,
{
    if i == np {
        proof {
            assert(p@.skip(i as int) =~= Seq::<char>::empty());
        }
        return j == ns;
    }
    let c = p.get_char(i);
    proof {
        assert(p@.skip(i as int)[0] == p@[i as int]);
        assert(p@.skip(i as int).skip(1) =~= p@.skip(i as int + 1));
    }
    if c == '*' {
        if wild_match_at(p, s, i + 1, j, np, ns) {
            true
        } else if j < ns {
            proof {
                assert(s@.skip(j as int).skip(1) =~= s@.skip(j as int + 1));
            }
            wild_match_at(p, s, i, j + 1, np, ns)
        } else {
            false
        }
    } else {
        if j == ns {
            return false;
        }
        let d = s.get_char(j);
        proof {
            assert(s@.skip(j as int)[0] == s@[j as int]);
            assert(s@.skip(j as int).skip(1) =~= s@.skip(j as int + 1));
        }
        if c != d {
            return false;
        }
        wild_match_at(p, s, i + 1, j + 1, np, ns)
    }
}

/// Does the anchored pattern match the whole name?
pub fn pattern_matches(p: &str, s: &str) -> (r: bool)
    ensures
        r == wild_matches(p@, s@),
{
    let np = p.unicode_len();
    let ns = s.unicode_len();
    proof {
        assert(p@.skip(0) =~= p@);
        assert(s@.skip(0) =~= s@);
    }
    wild_match_at(p, s, 0, 0, np, ns)
}

/// How many wildcards a pattern holds.
pub open spec fn star_count(p: Seq<char>) -> int
    decreases p.len(),
{
    if p.len() == 0 {
        0
    } else {
        star_count(p.drop_last()) + (if p.last() == '*' { 1int } else { 0int })
    }
}

pub fn count_stars(p: &str) -> (r: usize)
    ensures
        r == star_count(p@),
{
    let n = p.unicode_len();
    let mut i: usize = 0;
    let mut cnt: usize = 0;
    while i < n
        invariant
            0 <= i <= n,
            n == p@.len(),
            cnt <= i,
            cnt == star_count(p@.take(i as int)),
        decreases n - i,
    {
        let c = p.get_char(i);
        proof {
            assert(p@.take(i as int + 1).drop_last() =~= p@.take(i as int));
            assert(p@.take(i as int + 1).last() == p@[i as int]);
        }
        if c == '*' {
            cnt += 1;
        }
        i += 1;
    }
    proof {
        assert(p@.take(n as int) =~= p@);
    }
    cnt
}

/// Does the pattern hold a wildcard at all?
pub fn contains_star(p: &str) -> (r: bool)
    ensures
        r == (star_count(p@) > 0),
{
    count_stars(p) > 0
}

/// Is the pattern the lone catch-all `*`?
pub fn is_catch_all(p: &str) -> (r: bool)
    ensures
        r == (p@ == seq!['*']),
{
    let n = p.unicode_len();
    if n != 1 {
        proof {
            assert(p@ != seq!['*']) by {
                assert(seq!['*'].len() == 1);
            }
        }
        return false;
    }
    let c = p.get_char(0);
    if c == '*' {
        proof {
            assert(p@ =~= seq!['*']);
        }
        true
    } else {
        proof {
            assert(seq!['*'][0] == '*');
        }
        false
    }
}

/// Strict lexicographic order on character sequences, by code point.
pub open spec fn lex_lt(a: Seq<char>, b: Seq<char>) -> bool
    decreases a.len(),
{
    if b.len() == 0 {
        false
    } else if a.len() == 0 {
        true
    } else if a[0] != b[0] {
        (a[0] as int) < (b[0] as int)
    } else {
        lex_lt(a.skip(1), b.skip(1))
    }
}

pub open spec fn lex_le(a: Seq<char>, b: Seq<char>) -> bool {
    a == b || lex_lt(a, b)
}

fn lex_lt_at(a: &str, b: &str, i: usize, na: usize, nb: usize) -> (r: bool)
    requires
        na == a@.len(),
        nb == b@.len(),
        i <= na,
        i <= nb,
    ensures
        r == lex_lt(a@.skip(i as int), b@.skip(i as int)),
    decreases na - i,
{
    if i == nb {
        return false;
    }
    if i == na {
        return true;
    }
    let ca = a.get_char(i);
    let cb = b.get_char(i);
    proof {
        assert(a@.skip(i as int)[0] == a@[i as int]);
        assert(b@.skip(i as int)[0] == b@[i as int]);
        assert(a@.skip(i as int).skip(1) =~= a@.skip(i as int + 1));
        assert(b@.skip(i as int).skip(1) =~= b@.skip(i as int + 1));
    }
    if ca != cb {
        proof {
            assert((ca as u32) as int == ca as int);
            assert((cb as u32) as int == cb as int);
        }
        (ca as u32) < (cb as u32)
    } else {
        lex_lt_at(a, b, i + 1, na, nb)
    }
}

pub fn lex_lt_exec(a: &str, b: &str) -> (r: bool)
    ensures
        r == lex_lt(a@, b@),
{
    let na = a.unicode_len();
    let nb = b.unicode_len();
    proof {
        assert(a@.skip(0) =~= a@);
        assert(b@.skip(0) =~= b@);
    }
    lex_lt_at(a, b, 0, na, nb)
}

pub fn lex_le_exec(a: &str, b: &str) -> (r: bool)
    ensures
        r == lex_le(a@, b@),
{
    if str_eq(a, b) {
        true
    } else {
        lex_lt_exec(a, b)
    }
}

/// The specificity order: `a` comes no later than `b`. The catch-all
/// sorts last; fewer wildcards sort earlier; at equal wildcard counts a
/// longer pattern sorts earlier (more literal text); remaining ties go
/// lexicographically.
pub open spec fn pattern_le(a: Seq<char>, b: Seq<char>) -> bool {
    if b == seq!['*'] {
        true
    } else if a == seq!['*'] {
        false
    } else if star_count(a) != star_count(b) {
        star_count(a) < star_count(b)
    } else if star_count(a) == 0 {
        lex_le(a, b)
    } else if a.len() != b.len() {
        a.len() > b.len()
    } else {
        lex_le(a, b)
    }
}

pub fn pattern_le_exec(a: &str, b: &str) -> (r: bool)
    ensures
        r == pattern_le(a@, b@),
{
    if is_catch_all(b) {
        true
    } else if is_catch_all(a) {
        false
    } else {
        let sa = count_stars(a);
        let sb = count_stars(b);
        if sa != sb {
            sa < sb
        } else if sa == 0 {
            lex_le_exec(a, b)
        } else {
            let la = a.unicode_len();
            let lb = b.unicode_len();
            if la != lb {
                la > lb
            } else {
                lex_le_exec(a, b)
            }
        }
    }
}

/// Lexicographic order is total.
pub proof fn lemma_lex_total(a: Seq<char>, b: Seq<char>)
    ensures
        lex_lt(a, b) || lex_lt(b, a) || a == b,
    decreases a.len(),
{
    if a.len() == 0 && b.len() == 0 {
        assert(a =~= b);
    } else if a.len() == 0 || b.len() == 0 {
    } else if a[0] != b[0] {
        assert((a[0] as int) != (b[0] as int));
    } else {
        lemma_lex_total(a.skip(1), b.skip(1));
        if !lex_lt(a, b) && !lex_lt(b, a) {
            assert(a.skip(1) == b.skip(1));
            assert(a =~= b) by {
                assert(a.skip(1).len() == b.skip(1).len());
                assert forall|i: int| 0 <= i < a.len() implies a[i] == b[i] by {
                    if i > 0 {
                        assert(a.skip(1)[i - 1] == b.skip(1)[i - 1]);
                    }
                }
            }
        }
    }
}

/// Lexicographic order is transitive.
pub proof fn lemma_lex_trans(a: Seq<char>, b: Seq<char>, c: Seq<char>)
    requires
        lex_lt(a, b),
        lex_lt(b, c),
    ensures
        lex_lt(a, c),
    decreases a.len(),
{
    if a.len() == 0 {
    } else {
        if a[0] == b[0] && b[0] == c[0] {
            lemma_lex_trans(a.skip(1), b.skip(1), c.skip(1));
        } else {
            assert((a[0] as int) <= (b[0] as int));
            assert((b[0] as int) <= (c[0] as int));
            assert((a[0] as int) < (c[0] as int));
            assert(a[0] != c[0]);
        }
    }
}

/// The specificity order is total.
pub proof fn lemma_pattern_le_total(a: Seq<char>, b: Seq<char>)
    ensures
        pattern_le(a, b) || pattern_le(b, a),
{
    lemma_lex_total(a, b);
}

/// The specificity order is transitive.
pub proof fn lemma_pattern_le_trans(a: Seq<char>, b: Seq<char>, c: Seq<char>)
    requires
        pattern_le(a, b),
        pattern_le(b, c),
    ensures
        pattern_le(a, c),
{
    if c == seq!['*'] {
    } else if b == seq!['*'] {
    } else if a == seq!['*'] {
    } else {
        if star_count(a) == star_count(b) && star_count(b) == star_count(c) {
            if star_count(a) == 0 {
                if lex_lt(a, b) && lex_lt(b, c) {
                    lemma_lex_trans(a, b, c);
                }
            } else {
                if a.len() == b.len() && b.len() == c.len() {
                    if lex_lt(a, b) && lex_lt(b, c) {
                        lemma_lex_trans(a, b, c);
                    }
                }
            }
        }
    }
}

} // verus!
