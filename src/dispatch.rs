//! Picks the recognizer that renders a record.
use vstd::prelude::*;
use crate::json::{Json, no_esc};
use crate::nginx::{Nginx, access_score, access_line};
use crate::palette::RenderCtx;
use crate::protocols::{JsonProtocol, Record, plain_record};
use crate::tracing::{Tracing, structured_score, structured_line};

verus! {

/// One member of the fixed set of recognizers.
pub enum Protocol {
    Access(Nginx),
    Structured(Tracing),
}

impl JsonProtocol for Protocol {
    open spec fn score(&self, v: Json) -> u32 {
        match self {
            Protocol::Access(_) => access_score(v),
            Protocol::Structured(_) => structured_score(v),
        }
    }

    open spec fn line(&self, rec: Record, ctx: RenderCtx) -> Option<Seq<char>> {
        match self {
            Protocol::Access(_) => access_line(rec, ctx),
            Protocol::Structured(_) => structured_line(rec, ctx),
        }
    }

    fn sniff(&self, v: &Json) -> (r: u32) {
        match self {
            Protocol::Access(p) => p.sniff(v),
            Protocol::Structured(p) => p.sniff(v),
        }
    }

    fn render(&self, rec: &Record, ctx: &RenderCtx) -> (r: Option<String>) {
        match self {
            Protocol::Access(p) => p.render(rec, ctx),
            Protocol::Structured(p) => p.render(rec, ctx),
        }
    }
}

/// The recognizers in the order in which they were registered.
pub open spec fn registered() -> Seq<Protocol> {
    seq![Protocol::Access(Nginx), Protocol::Structured(Tracing)]
}

/// The recognizers, access logs first.
pub fn protocols() -> (r: Vec<Protocol>)
    ensures
        r@ == registered(),
{
    let r = vec![Protocol::Access(Nginx), Protocol::Structured(Tracing)];
    assert(r@ == registered());
    r
}

/// The index of the first greatest of `s[0..n]`, for `n >= 1`.
pub open spec fn first_max(s: Seq<u32>, n: int) -> int
    decreases n,
{
    if n <= 1 {
        0
    } else if s[n - 1] > s[first_max(s, n - 1)] {
        n - 1
    } else {
        first_max(s, n - 1)
    }
}

/// The winner among `scores`: the first of the highest, where that is above
/// zero.
pub open spec fn winner(scores: Seq<u32>) -> Option<int> {
    if scores.len() == 0 || scores[first_max(scores, scores.len() as int)] == 0 {
        None
    } else {
        Some(first_max(scores, scores.len() as int))
    }
}

proof fn lemma_first_max(s: Seq<u32>, n: int)
    requires
        1 <= n <= s.len(),
    ensures
        0 <= first_max(s, n) < n,
        forall|i: int| 0 <= i < n ==> #[trigger] s[i] <= s[first_max(s, n)],
        forall|i: int| 0 <= i < first_max(s, n) ==> #[trigger] s[i] < s[first_max(s, n)],
    decreases n,
{
    if n > 1 {
        lemma_first_max(s, n - 1);
    }
}

/// The index of the first highest score, where it is above zero; `None`
/// where every score is zero or there is none.
pub fn select(scores: &Vec<u32>) -> (r: Option<usize>)
    ensures
        r matches Some(w) ==> winner(scores@) == Some(w as int),
        r is None ==> winner(scores@) is None,
        r is None <==> (forall|i: int| 0 <= i < scores@.len() ==> scores@[i] == 0),
        r matches Some(w) ==> {
            &&& w < scores@.len()
            &&& scores@[w as int] > 0
            &&& forall|i: int| 0 <= i < scores@.len() ==> #[trigger] scores@[i] <= scores@[w as int]
            &&& forall|i: int| 0 <= i < w ==> #[trigger] scores@[i] < scores@[w as int]
        },
{
    if scores.len() == 0 {
        return None;
    }
    let mut best: usize = 0;
    let mut i: usize = 1;
    while i < scores.len()
        invariant
            1 <= i <= scores@.len(),
            best == first_max(scores@, i as int),
        decreases scores.len() - i,
    {
        proof {
            lemma_first_max(scores@, i as int);
        }
        if scores[i] > scores[best] {
            best = i;
        }
        i += 1;
    }
    proof {
        lemma_first_max(scores@, scores@.len() as int);
    }
    if scores[best] == 0 {
        None
    } else {
        Some(best)
    }
}

/// The scores of `v` under each recognizer, in their order.
pub open spec fn scores_of(ps: Seq<Protocol>, v: Json) -> Seq<u32> {
    ps.map_values(|p: Protocol| p.score(v))
}

/// What is written for `rec`: the winning recognizer's line, or `None`
/// where the generic reformatter takes the record, because no recognizer
/// scored it or the winner declined.
pub open spec fn dispatched(rec: Record, ctx: RenderCtx) -> Option<Seq<char>> {
    match winner(scores_of(registered(), rec.value)) {
        Some(w) => registered()[w].line(rec, ctx),
        None => None,
    }
}

/// Renders `rec` with the recognizer that scores it highest (the first
/// registered on a tie). `None` leaves the record to the generic
/// reformatter: no recognizer scored it, or the winner declined.
///
/// With colours off no escape character is written but those of the
/// record's own text.
pub fn dispatch(rec: &Record, ctx: &RenderCtx) -> (r: Option<String>)
    ensures
        r matches Some(s) ==> dispatched(*rec, *ctx) == Some(s@),
        r is None ==> dispatched(*rec, *ctx) is None,
        ctx.pal.is_for(false) && plain_record(*rec) ==> (r matches Some(s) ==> no_esc(s@)),
{
    let ps = protocols();
    let mut scores: Vec<u32> = Vec::new();
    let mut i: usize = 0;
    while i < ps.len()
        invariant
            ps@ == registered(),
            i <= ps@.len(),
            scores@ == scores_of(ps@, rec.value).subrange(0, i as int),
        decreases ps.len() - i,
    {
        let s = ps[i].sniff(&rec.value);
        scores.push(s);
        assert(scores@ == scores_of(ps@, rec.value).subrange(0, i + 1));
        i += 1;
    }
    assert(scores@ == scores_of(registered(), rec.value));
    match select(&scores) {
        Some(w) => ps[w].render(rec, ctx),
        None => None,
    }
}

/// Ties go to the recognizer registered first: a record that the access-log
/// and structured-log recognizers score alike, above zero, is rendered by
/// the access-log recognizer, or, where it declines, by neither.
pub proof fn lemma_tie_goes_to_first(rec: Record, ctx: RenderCtx)
    requires
        access_score(rec.value) == structured_score(rec.value),
        access_score(rec.value) > 0,
    ensures
        dispatched(rec, ctx) == access_line(rec, ctx),
{
    let s = scores_of(registered(), rec.value);
    assert(s[0] == access_score(rec.value));
    assert(s[1] == structured_score(rec.value));
    assert(first_max(s, 1) == 0);
    assert(first_max(s, 2) == 0);
}

} // verus!
