//! The ranker: a pure function from a query string and the entry index to
//! the ordered candidate list shown in the overlay.
//!
//! An entry's similarity to the query is trigram-based: both strings are
//! lowercased, padded with two leading and one trailing space, and cut into
//! overlapping character triples; the score is the number of the name's
//! triples that also occur among the query's triples, divided by the number
//! of the name's triples. The score is kept as an exact fraction
//! (`hits` over `name_len + 1`), never as a rounded value. Entries scoring
//! zero are dropped, the rest are ordered by descending score — ties broken
//! by index order, first seen wins — and the first five are kept.

use vstd::prelude::*;
use vstd::string::StrSliceExecFns;

use crate::entry::ApplicationEntry;
use crate::entry::clone_entry;

verus! {

/// An entry's similarity to the query, as an exact fraction: `hits` of the
/// name's `name_len + 1` trigrams also occur in the query. The value is
/// `hits / (name_len + 1)`, in `[0, 1]`.
#[derive(Clone, Copy, Debug, PartialEq, Eq, Structural)]
pub struct Score {
    pub hits: usize,
    pub name_len: usize,
}

/// One entry of the ranked result list.
#[derive(Debug)]
pub struct RankedCandidate {
    pub entry: ApplicationEntry,
    pub score: Score,
}

/// The character triple at position `i` of a string padded with two leading
/// spaces and one trailing space; positions run from `0` to `s.len()`.
pub open spec fn trigram_at(s: Seq<char>, i: int) -> (char, char, char)
    recommends
        0 <= i <= s.len(),
{
    (
        if i >= 2 {
            s[i - 2]
        } else {
            ' '
        },
        if i >= 1 {
            s[i - 1]
        } else {
            ' '
        },
        if i < s.len() {
            s[i]
        } else {
            ' '
        },
    )
}

/// Whether the triple `t` occurs anywhere among `b`'s trigrams.
pub open spec fn has_trigram(b: Seq<char>, t: (char, char, char)) -> bool {
    exists|j: int| 0 <= j <= b.len() && (#[trigger] trigram_at(b, j)) == t
}

/// How many of `a`'s first `n` trigrams also occur among `b`'s trigrams.
pub open spec fn match_count(a: Seq<char>, b: Seq<char>, n: int) -> int
    decreases n,
{
    if n <= 0 {
        0
    } else {
        match_count(a, b, n - 1) + (if has_trigram(b, trigram_at(a, n - 1)) {
            1int
        } else {
            0int
        })
    }
}

/// How many of `a`'s trigrams (all `a.len() + 1` of them) occur among `b`'s.
pub open spec fn sim_hits(a: Seq<char>, b: Seq<char>) -> int {
    match_count(a, b, a.len() as int + 1)
}

pub proof fn lemma_match_count_bounds(a: Seq<char>, b: Seq<char>, n: int)
    requires
        n >= 0,
    ensures
        0 <= match_count(a, b, n) <= n,
    decreases n,
{
    if n > 0 {
        lemma_match_count_bounds(a, b, n - 1);
    }
}

/// The lowercase form of a string, as `str::to_lowercase` computes it.
pub uninterp spec fn lower_of(s: Seq<char>) -> Seq<char>;

/// Relies on str::to_lowercase: the result depends on the characters alone,
/// and is named `lower_of`.
#[verifier::external_body]
fn lowercase(s: &str) -> (r: String)
    ensures
        r@ == lower_of(s@),
{
    s.to_lowercase()
}

/// The characters of a string slice, one by one.
fn chars_of(s: &str) -> (v: Vec<char>)
    ensures
        v@ == s@,
{
    let n = s.unicode_len();
    let mut v: Vec<char> = Vec::new();
    let mut i: usize = 0;
    while i < n
        invariant
            i <= n,
            n == s@.len(),
            v@ == s@.take(i as int),
        decreases n - i,
    {
        v.push(s.get_char(i));
        proof {
            assert(s@.take(i + 1) =~= s@.take(i as int).push(s@[i as int]));
        }
        i += 1;
    }
    proof {
        assert(s@.take(n as int) =~= s@);
    }
    v
}

/// The trigram at position `i` of the padded form of `v`.
fn tri_of(v: &Vec<char>, i: usize) -> (t: (char, char, char))
    requires
        i <= v@.len(),
    ensures
        t == trigram_at(v@, i as int),
{
    let a = if i >= 2 {
        v[i - 2]
    } else {
        ' '
    };
    let b = if i >= 1 {
        v[i - 1]
    } else {
        ' '
    };
    let c = if i < v.len() {
        v[i]
    } else {
        ' '
    };
    (a, b, c)
}

/// Whether the triple `t` occurs among `bv`'s trigrams.
fn has_tri(bv: &Vec<char>, t: (char, char, char)) -> (r: bool)
    ensures
        r == has_trigram(bv@, t),
{
    let lb = bv.len();
    let mut j: usize = 0;
    while j < lb
        invariant
            j <= lb,
            lb == bv@.len(),
            forall|k: int| 0 <= k < j ==> trigram_at(bv@, k) != t,
        decreases lb - j,
    {
        let u = tri_of(bv, j);
        if u.0 == t.0 && u.1 == t.1 && u.2 == t.2 {
            proof {
                assert(trigram_at(bv@, j as int) == t);
            }
            return true;
        }
        j += 1;
    }
    let u = tri_of(bv, lb);
    if u.0 == t.0 && u.1 == t.1 && u.2 == t.2 {
        proof {
            assert(trigram_at(bv@, lb as int) == t);
        }
        return true;
    }
    false
}

/// The similarity of `a` to `b`: how many of `a`'s trigrams occur among
/// `b`'s, over `a`'s length. The length bound is a machine limit: the last
/// trigram is the `a.len() + 1`-th.
pub fn similarity(a: &str, b: &str) -> (s: Score)
    requires
        a@.len() < usize::MAX,
    ensures
        s.hits == sim_hits(a@, b@),
        s.name_len == a@.len(),
{
    let av = chars_of(a);
    let bv = chars_of(b);
    let la = av.len();
    let mut hits: usize = 0;
    let mut i: usize = 0;
    while i < la
        invariant
            i <= la,
            la == av@.len(),
            la < usize::MAX,
            av@ == a@,
            bv@ == b@,
            hits <= i,
            hits == match_count(av@, bv@, i as int),
        decreases la - i,
    {
        let t = tri_of(&av, i);
        if has_tri(&bv, t) {
            hits += 1;
        }
        i += 1;
    }
    let t = tri_of(&av, la);
    if has_tri(&bv, t) {
        hits += 1;
    }
    Score { hits, name_len: la }
}

/// The fraction `x.hits / (x.name_len + 1)` is at most
/// `y.hits / (y.name_len + 1)`, by cross-multiplication.
pub open spec fn score_le(x: Score, y: Score) -> bool {
    x.hits * (y.name_len + 1) <= y.hits * (x.name_len + 1)
}

pub proof fn lemma_score_le_trans(a: Score, b: Score, c: Score)
    requires
        score_le(a, b),
        score_le(b, c),
    ensures
        score_le(a, c),
{
    let ah = a.hits as int;
    let al = a.name_len as int;
    let bh = b.hits as int;
    let bl = b.name_len as int;
    let ch = c.hits as int;
    let cl = c.name_len as int;
    assert(ah * (cl + 1) <= ch * (al + 1)) by (nonlinear_arith)
        requires
            ah * (bl + 1) <= bh * (al + 1),
            bh * (cl + 1) <= ch * (bl + 1),
            ah >= 0,
            al >= 0,
            bh >= 0,
            bl >= 0,
            ch >= 0,
            cl >= 0,
    ;
}

/// Whether `x`'s score is at least `y`'s.
pub fn score_ge(x: &Score, y: &Score) -> (r: bool)
    ensures
        r == score_le(*y, *x),
{
    proof {
        let hx = x.hits as int;
        let ly = y.name_len as int;
        let hy = y.hits as int;
        let lx = x.name_len as int;
        assert(hx * (ly + 1) <= 0xffff_ffff_ffff_ffff * 0x1_0000_0000_0000_0000)
            by (nonlinear_arith)
            requires
                0 <= hx <= 0xffff_ffff_ffff_ffff,
                0 <= ly <= 0xffff_ffff_ffff_ffff,
        ;
        assert(hy * (lx + 1) <= 0xffff_ffff_ffff_ffff * 0x1_0000_0000_0000_0000)
            by (nonlinear_arith)
            requires
                0 <= hy <= 0xffff_ffff_ffff_ffff,
                0 <= lx <= 0xffff_ffff_ffff_ffff,
        ;
    }
    let lhs: u128 = (x.hits as u128) * (y.name_len as u128 + 1);
    let rhs: u128 = (y.hits as u128) * (x.name_len as u128 + 1);
    lhs >= rhs
}

/// The index of the best-scoring candidate among the first `n`, earliest
/// index winning ties.
pub open spec fn best_upto(s: Seq<RankedCandidate>, n: int) -> int
    recommends
        1 <= n <= s.len(),
    decreases n,
{
    if n <= 1 {
        0
    } else {
        let b = best_upto(s, n - 1);
        if score_le(s[n - 1].score, s[b].score) {
            b
        } else {
            n - 1
        }
    }
}

pub proof fn lemma_best_upto(s: Seq<RankedCandidate>, n: int)
    requires
        1 <= n <= s.len(),
    ensures
        0 <= best_upto(s, n) < n,
        forall|i: int| 0 <= i < n ==> score_le(s[i].score, s[best_upto(s, n)].score),
    decreases n,
{
    if n == 1 {
    } else {
        lemma_best_upto(s, n - 1);
        let b = best_upto(s, n - 1);
        if score_le(s[n - 1].score, s[b].score) {
        } else {
            assert forall|i: int| 0 <= i < n implies score_le(
                s[i].score,
                s[best_upto(s, n)].score,
            ) by {
                if i < n - 1 {
                    lemma_score_le_trans(s[i].score, s[b].score, s[n - 1].score);
                }
            }
        }
    }
}

/// The first `k` candidates of `s` in descending score order, earliest
/// index winning ties: repeatedly take the best remaining one.
pub open spec fn rank_select(s: Seq<RankedCandidate>, k: int) -> Seq<RankedCandidate>
    decreases k,
{
    if k <= 0 || s.len() == 0 {
        Seq::empty()
    } else {
        let b = best_upto(s, s.len() as int);
        seq![s[b]] + rank_select(s.remove(b), k - 1)
    }
}

pub proof fn lemma_remove_contains(s: Seq<RankedCandidate>, b: int)
    requires
        0 <= b < s.len(),
    ensures
        forall|x: RankedCandidate| s.remove(b).contains(x) ==> s.contains(x),
{
    let s2 = s.remove(b);
    assert forall|x: RankedCandidate| s2.contains(x) implies s.contains(x) by {
        let j = choose|j: int| 0 <= j < s2.len() && s2[j] == x;
        if j < b {
            assert(s[j] == x);
        } else {
            assert(s[j + 1] == x);
        }
    }
}

pub proof fn lemma_rank_select(s: Seq<RankedCandidate>, k: int)
    requires
        k >= 0,
    ensures
        rank_select(s, k).len() == if k <= s.len() {
            k
        } else {
            s.len() as int
        },
        forall|i: int|
            0 <= i < rank_select(s, k).len() ==> s.contains(#[trigger] rank_select(s, k)[i]),
        forall|i: int|
            0 < i < rank_select(s, k).len() ==> score_le(
                (#[trigger] rank_select(s, k)[i]).score,
                rank_select(s, k)[i - 1].score,
            ),
    decreases k,
{
    if k <= 0 || s.len() == 0 {
    } else {
        let n = s.len() as int;
        lemma_best_upto(s, n);
        let b = best_upto(s, n);
        let s2 = s.remove(b);
        lemma_rank_select(s2, k - 1);
        lemma_remove_contains(s, b);
        let r = rank_select(s, k);
        let r2 = rank_select(s2, k - 1);
        assert(s.contains(r[0]));
        assert forall|i: int| 0 <= i < r.len() implies s.contains(#[trigger] r[i]) by {
            if i > 0 {
                assert(r[i] == r2[i - 1]);
                assert(s2.contains(r2[i - 1]));
            }
        }
        assert forall|i: int| 0 < i < r.len() implies score_le(
            (#[trigger] r[i]).score,
            r[i - 1].score,
        ) by {
            if i == 1 {
                assert(r[1] == r2[0]);
                assert(s2.contains(r2[0]));
                let j = choose|j: int| 0 <= j < s.len() && s[j] == r2[0];
                assert(score_le(s[j].score, s[b].score));
            } else {
                assert(r[i - 1] == r2[i - 2]);
                assert(r[i] == r2[i - 1]);
            }
        }
    }
}

/// A name whose lowercase form still leaves room for the final trigram
/// position; only a name filling the whole address space fails this.
pub open spec fn scorable(e: ApplicationEntry) -> bool {
    lower_of(e.name@).len() < usize::MAX
}

/// How many trigrams of an entry's lowercased name occur in the lowercased
/// query.
pub open spec fn entry_hits(e: ApplicationEntry, q: Seq<char>) -> int {
    sim_hits(lower_of(e.name@), lower_of(q))
}

/// The ranked-candidate record for one entry against a query.
pub open spec fn candidate_of(e: ApplicationEntry, q: Seq<char>) -> RankedCandidate {
    RankedCandidate {
        entry: e,
        score: Score {
            hits: entry_hits(e, q) as usize,
            name_len: lower_of(e.name@).len() as usize,
        },
    }
}

/// Every scorable entry with a nonzero similarity to the query, in index
/// order.
pub open spec fn scored_seq(apps: Seq<ApplicationEntry>, q: Seq<char>) -> Seq<RankedCandidate>
    decreases apps.len(),
{
    if apps.len() == 0 {
        Seq::empty()
    } else {
        let rest = scored_seq(apps.drop_last(), q);
        let e = apps.last();
        if scorable(e) && entry_hits(e, q) > 0 {
            rest.push(candidate_of(e, q))
        } else {
            rest
        }
    }
}

pub proof fn lemma_scored_seq_positive(apps: Seq<ApplicationEntry>, q: Seq<char>)
    ensures
        forall|i: int|
            0 <= i < scored_seq(apps, q).len() ==> (#[trigger] scored_seq(apps, q)[i]).score.hits
                > 0,
    decreases apps.len(),
{
    if apps.len() > 0 {
        lemma_scored_seq_positive(apps.drop_last(), q);
        let e = apps.last();
        if scorable(e) && entry_hits(e, q) > 0 {
            lemma_match_count_bounds(lower_of(e.name@), lower_of(q), lower_of(e.name@).len() as int + 1);
        }
    }
}

/// At most this many candidates are shown.
pub open spec fn result_limit() -> int {
    5
}

/// The ranked result list for a query: nothing for the empty query;
/// otherwise the scored entries, best first, cut to five.
pub open spec fn rank_spec(q: Seq<char>, apps: Seq<ApplicationEntry>) -> Seq<RankedCandidate> {
    if q.len() == 0 {
        Seq::empty()
    } else {
        rank_select(scored_seq(apps, q), result_limit())
    }
}

/// The index of the first best-scoring candidate of a non-empty pool.
fn best_of(pool: &Vec<RankedCandidate>) -> (b: usize)
    requires
        pool@.len() > 0,
    ensures
        b < pool@.len(),
        b as int == best_upto(pool@, pool@.len() as int),
{
    let mut b: usize = 0;
    let mut j: usize = 1;
    while j < pool.len()
        invariant
            1 <= j <= pool@.len(),
            b < j,
            b as int == best_upto(pool@, j as int),
        decreases pool@.len() - j,
    {
        if !score_ge(&pool[b].score, &pool[j].score) {
            b = j;
        }
        j += 1;
    }
    b
}

/// The ranked candidates for a query against the index: every entry whose
/// lowercased name shares at least one trigram with the lowercased query,
/// ordered by descending score (ties kept in index order), cut to the first
/// five. The empty query ranks nothing.
pub fn rank(query: &str, apps: &Vec<ApplicationEntry>) -> (r: Vec<RankedCandidate>)
    ensures
        r@ == rank_spec(query@, apps@),
        r@.len() <= 5,
        query@.len() == 0 ==> r@.len() == 0,
        forall|i: int| 0 <= i < r@.len() ==> (#[trigger] r@[i]).score.hits > 0,
        forall|i: int|
            0 < i < r@.len() ==> score_le((#[trigger] r@[i]).score, r@[i - 1].score),
{
    if query.unicode_len() == 0 {
        let r: Vec<RankedCandidate> = Vec::new();
        return r;
    }
    let lq = lowercase(query);
    let mut scored: Vec<RankedCandidate> = Vec::new();
    let mut i: usize = 0;
    while i < apps.len()
        invariant
            i <= apps@.len(),
            lq@ == lower_of(query@),
            scored@ == scored_seq(apps@.take(i as int), query@),
        decreases apps@.len() - i,
    {
        let e = &apps[i];
        let ln = lowercase(e.name.as_str());
        let la = ln.as_str().unicode_len();
        if la < usize::MAX {
            let sc = similarity(ln.as_str(), lq.as_str());
            if sc.hits > 0 {
                proof {
                    lemma_match_count_bounds(
                        lower_of(apps@[i as int].name@),
                        lower_of(query@),
                        lower_of(apps@[i as int].name@).len() as int + 1,
                    );
                    assert(sc == candidate_of(apps@[i as int], query@).score);
                }
                scored.push(RankedCandidate { entry: clone_entry(e), score: sc });
            }
        }
        proof {
            assert(apps@.take(i + 1).drop_last() =~= apps@.take(i as int));
            assert(apps@.take(i + 1).last() == apps@[i as int]);
        }
        i += 1;
    }
    proof {
        assert(apps@.take(apps@.len() as int) =~= apps@);
    }
    let ghost full = scored@;
    let mut out: Vec<RankedCandidate> = Vec::new();
    proof {
        assert(rank_select(full, 5) =~= out@ + rank_select(scored@, 5 - out@.len() as int));
    }
    while out.len() < 5 && scored.len() > 0
        invariant
            out@.len() <= 5,
            full == scored_seq(apps@, query@),
            rank_select(full, 5) == out@ + rank_select(scored@, 5 - out@.len() as int),
        decreases scored@.len(),
    {
        let b = best_of(&scored);
        let ghost pool_before = scored@;
        let c = scored.remove(b);
        out.push(c);
        proof {
            assert(rank_select(pool_before, 5 - (out@.len() - 1)) == seq![
                pool_before[b as int],
            ] + rank_select(scored@, 5 - out@.len() as int));
            assert(rank_select(full, 5) =~= out@ + rank_select(scored@, 5 - out@.len() as int));
        }
    }
    proof {
        assert(rank_select(scored@, 5 - out@.len() as int) =~= Seq::<RankedCandidate>::empty());
        assert(out@ =~= rank_select(full, 5));
        lemma_rank_select(full, 5);
        lemma_scored_seq_positive(apps@, query@);
        assert forall|i: int| 0 <= i < out@.len() implies (#[trigger] out@[i]).score.hits > 0 by {
            assert(full.contains(out@[i]));
            let j = choose|j: int| 0 <= j < full.len() && full[j] == out@[i];
            assert(full[j].score.hits > 0);
        }
    }
    out
}

} // verus!
