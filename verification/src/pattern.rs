//! The wildcard pattern language the store's search is assumed to speak:
//! `'%'` matches any run of characters, every other character matches
//! itself. The search predicate over normalized criteria lives here too.

use vstd::prelude::*;
use crate::model::{SearchTaskData, TaskOutput};
use crate::text::{like_pattern, str_to_chars, trim_spec};

verus! {

/// Whether `t` matches the pattern `p`, where `'%'` stands for any run of
/// characters and every other character stands for itself.
pub open spec fn like_match(p: Seq<char>, t: Seq<char>) -> bool
    decreases p.len() + t.len(),
{
    if p.len() == 0 {
        t.len() == 0
    } else if p[0] == '%' {
        like_match(p.drop_first(), t) || (t.len() > 0 && like_match(p, t.drop_first()))
    } else {
        t.len() > 0 && p[0] == t[0] && like_match(p.drop_first(), t.drop_first())
    }
}

fn like_rec(p: &Vec<char>, t: &Vec<char>, pi: usize, ti: usize) -> (b: bool)
    requires
        pi <= p@.len(),
        ti <= t@.len(),
    ensures
        b == like_match(p@.skip(pi as int), t@.skip(ti as int)),
    decreases p@.len() - pi + t@.len() - ti,
{
    let ghost ps = p@.skip(pi as int);
    let ghost ts = t@.skip(ti as int);
    if pi == p.len() {
        proof {
            assert(ps.len() == 0);
        }
        ti == t.len()
    } else if p[pi] == '%' {
        proof {
            assert(ps[0] == p@[pi as int]);
            assert(ps.drop_first() =~= p@.skip(pi as int + 1));
        }
        if like_rec(p, t, pi + 1, ti) {
            true
        } else if ti < t.len() {
            proof {
                assert(ts.drop_first() =~= t@.skip(ti as int + 1));
            }
            like_rec(p, t, pi, ti + 1)
        } else {
            false
        }
    } else if ti < t.len() && p[pi] == t[ti] {
        proof {
            assert(ps[0] == p@[pi as int]);
            assert(ts[0] == t@[ti as int]);
            assert(ps.drop_first() =~= p@.skip(pi as int + 1));
            assert(ts.drop_first() =~= t@.skip(ti as int + 1));
        }
        like_rec(p, t, pi + 1, ti + 1)
    } else {
        proof {
            assert(ps[0] == p@[pi as int]);
            if ts.len() > 0 {
                assert(ts[0] == t@[ti as int]);
            }
        }
        false
    }
}

/// Decides `like_match`.
pub fn like_matches(pattern: &str, text: &str) -> (b: bool)
    ensures
        b == like_match(pattern@, text@),
{
    let p = str_to_chars(pattern);
    let t = str_to_chars(text);
    proof {
        assert(p@.skip(0) =~= p@);
        assert(t@.skip(0) =~= t@);
    }
    like_rec(&p, &t, 0, 0)
}

/// A lone wildcard matches any text.
proof fn lemma_single_wildcard_matches(t: Seq<char>)
    ensures
        like_match(seq!['%'], t),
    decreases t.len(),
{
    let p = seq!['%'];
    assert(p.len() == 1);
    assert(p[0] == '%');
    if t.len() == 0 {
        assert(p.drop_first() =~= Seq::<char>::empty());
        assert(like_match(p.drop_first(), t));
        assert(like_match(p, t));
    } else {
        lemma_single_wildcard_matches(t.drop_first());
        assert(like_match(p, t.drop_first()));
        assert(like_match(p, t));
    }
}

/// A pattern that starts with a wildcard and matches a suffix of the text
/// matches the whole text: the wildcard absorbs what comes before.
proof fn lemma_wildcard_absorbs(p: Seq<char>, t: Seq<char>, i: int)
    requires
        p.len() > 0,
        p[0] == '%',
        0 <= i <= t.len(),
        like_match(p, t.skip(i)),
    ensures
        like_match(p, t),
    decreases i,
{
    if i > 0 {
        assert(t.skip(i - 1).drop_first() =~= t.skip(i));
        assert(t.skip(i - 1).len() > 0);
        assert(like_match(p, t.skip(i - 1)));
        lemma_wildcard_absorbs(p, t, i - 1);
    } else {
        assert(t.skip(0) =~= t);
    }
}

/// A wildcard-free prefix matches itself literally, and the rest of the
/// pattern carries on behind it.
proof fn lemma_literal_prefix(w: Seq<char>, rest: Seq<char>, t: Seq<char>)
    requires
        w.len() <= t.len(),
        t.take(w.len() as int) == w,
        forall|j: int| 0 <= j < w.len() ==> w[j] != '%',
        like_match(rest, t.skip(w.len() as int)),
    ensures
        like_match(w + rest, t),
    decreases w.len(),
{
    if w.len() == 0 {
        assert(w + rest =~= rest);
        assert(t.skip(0) =~= t);
    } else {
        let p = w + rest;
        assert(p[0] == w[0]);
        assert(w[0] == t.take(w.len() as int)[0]);
        assert(t.drop_first().take(w.len() - 1) =~= w.drop_first()) by {
            assert forall|j: int| 0 <= j < w.len() - 1 implies t.drop_first().take(w.len() - 1)[j]
                == w.drop_first()[j] by {
                assert(w[j + 1] == t.take(w.len() as int)[j + 1]);
            }
        }
        assert(t.drop_first().skip(w.len() - 1) =~= t.skip(w.len() as int));
        lemma_literal_prefix(w.drop_first(), rest, t.drop_first());
        assert(p.drop_first() =~= w.drop_first() + rest);
        assert(t.len() > 0 && p[0] == t[0]);
    }
}

/// A criterion that trims to nothing becomes a bare pair of wildcards and
/// constrains nothing: every text matches its pattern.
pub proof fn empty_criterion_matches_all(raw: Seq<char>, t: Seq<char>)
    requires
        trim_spec(raw).len() == 0,
    ensures
        like_match(like_pattern(raw), t),
{
    let p = like_pattern(raw);
    assert(p =~= seq!['%', '%']);
    assert(p.drop_first() =~= seq!['%']);
    lemma_single_wildcard_matches(t);
}

/// A text that contains a pattern's wildcard-free core verbatim matches the
/// wildcard-wrapped pattern: the wrapping wildcards absorb everything around
/// the occurrence. Every single-word criterion normalizes to this shape.
pub proof fn wrapped_core_matches(w: Seq<char>, t: Seq<char>, i: int)
    requires
        0 <= i,
        i + w.len() <= t.len(),
        t.subrange(i, i + w.len()) == w,
        forall|j: int| 0 <= j < w.len() ==> w[j] != '%',
    ensures
        like_match(seq!['%'] + w + seq!['%'], t),
{
    let p = seq!['%'] + w + seq!['%'];
    let suffix = t.skip(i);
    assert(suffix.take(w.len() as int) =~= t.subrange(i, i + w.len()));
    assert(suffix.skip(w.len() as int) =~= t.skip(i + w.len()));
    lemma_single_wildcard_matches(suffix.skip(w.len() as int));
    lemma_literal_prefix(w, seq!['%'], suffix);
    assert(p[0] == '%');
    assert(p.drop_first() =~= w + seq!['%']);
    assert(like_match(p, suffix));
    lemma_wildcard_absorbs(p, t, i);
}

/// Whether a hydrated task satisfies every supplied criterion: a logical AND
/// across the fields present, with absent fields imposing no constraint.
pub open spec fn criteria_match(d: SearchTaskData, t: TaskOutput) -> bool {
    &&& (d.progress matches Some(p) ==> t.progress == p)
    &&& (d.title matches Some(pat) ==> like_match(pat@, t.title@))
    &&& (d.description matches Some(pat) ==> like_match(pat@, t.description@))
    &&& (d.created_by matches Some(c) ==> t.created_by@ == c@)
    &&& (d.taken_by matches Some(w) ==> (t.taken_by matches Some(x) && x@ == w@))
}

/// Decides `criteria_match`.
pub fn matches_criteria(d: &SearchTaskData, t: &TaskOutput) -> (b: bool)
    ensures
        b == criteria_match(*d, *t),
{
    let progress_ok = match &d.progress {
        Some(p) => t.progress == *p,
        None => true,
    };
    let title_ok = match &d.title {
        Some(pat) => like_matches(pat.as_str(), t.title.as_str()),
        None => true,
    };
    let description_ok = match &d.description {
        Some(pat) => like_matches(pat.as_str(), t.description.as_str()),
        None => true,
    };
    let created_ok = match &d.created_by {
        Some(c) => t.created_by == *c,
        None => true,
    };
    let taken_ok = match &d.taken_by {
        Some(w) => match &t.taken_by {
            Some(x) => *x == *w,
            None => false,
        },
        None => true,
    };
    progress_ok && title_ok && description_ok && created_ok && taken_ok
}

} // verus!
