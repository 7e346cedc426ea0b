//! Batches: endpoints accept a bounded number of ids per call, so a longer
//! list is sent in chunks and the per-chunk results are put back together.
use vstd::prelude::*;
use vstd::seq_lib::lemma_flatten_concat;

verus! {

/// `s` cut into chunks: while more than `cap` remain, the first `cap` form a
/// chunk; what is left forms the last chunk (which is empty only if `s` is).
pub open spec fn chunks<A>(s: Seq<A>, cap: nat) -> Seq<Seq<A>>
    decreases s.len(),
{
    if s.len() <= cap || cap == 0 {
        seq![s]
    } else {
        seq![s.take(cap as int)] + chunks(s.skip(cap as int), cap)
    }
}

pub open spec fn views<A>(v: Seq<Vec<A>>) -> Seq<Seq<A>> {
    v.map_values(|c: Vec<A>| c@)
}

/// Cuts `items` into chunks of at most `cap`, keeping their order.
pub fn chunk<A>(items: Vec<A>, cap: usize) -> (r: Vec<Vec<A>>)
    requires
        cap > 0,
    ensures
        views(r@) == chunks(items@, cap as nat),
{
    let mut r: Vec<Vec<A>> = Vec::new();
    let mut rest = items;
    while rest.len() > cap
        invariant
            cap > 0,
            views(r@) + chunks(rest@, cap as nat) == chunks(items@, cap as nat),
        decreases rest.len(),
    {
        let ghost before = rest@;
        let tail = rest.split_off(cap);
        assert(before.take(cap as int) =~= rest@);
        assert(before.skip(cap as int) =~= tail@);
        let ghost r0 = views(r@);
        r.push(rest);
        assert(views(r@) =~= r0.push(before.take(cap as int)));
        assert(views(r@) + chunks(tail@, cap as nat) =~= r0 + chunks(before, cap as nat));
        rest = tail;
    }
    let ghost r0 = views(r@);
    let ghost last = rest@;
    r.push(rest);
    assert(views(r@) =~= r0.push(last));
    assert(views(r@) =~= r0 + chunks(last, cap as nat));
    r
}

/// Puts per-chunk results back together, in chunk order.
pub fn concat_results<A>(parts: Vec<Vec<A>>) -> (r: Vec<A>)
    ensures
        r@ == views(parts@).flatten(),
{
    let mut parts = parts;
    let mut r: Vec<A> = Vec::new();
    let ghost all = views(parts@);
    assert(r@ =~= Seq::<A>::empty());
    assert(views(parts@).flatten() + r@ =~= all.flatten());
    while parts.len() > 0
        invariant
            views(parts@).flatten() + r@ == all.flatten(),
        decreases parts.len(),
    {
        let ghost p0 = views(parts@);
        let mut last = parts.pop().unwrap();
        assert(p0 =~= views(parts@).push(last@));
        proof {
            views(parts@).lemma_flatten_push(last@);
        }
        let ghost r0 = r@;
        last.append(&mut r);
        assert(views(parts@).flatten() + last@ =~= p0.flatten() + r0);
        r = last;
    }
    assert(views(parts@) =~= Seq::<Seq<A>>::empty());
    assert(r@ =~= all.flatten());
    r
}

/// Chunking loses, adds and reorders nothing: the chunks put back together
/// give `s`; every chunk but the last holds exactly `cap` items, the last at
/// most `cap`, and the last is empty only when `s` is.
pub proof fn lemma_chunks<A>(s: Seq<A>, cap: nat)
    requires
        cap > 0,
    ensures
        chunks(s, cap).flatten() == s,
        chunks(s, cap).len() >= 1,
        forall|i: int| 0 <= i < chunks(s, cap).len() - 1 ==> (#[trigger] chunks(s, cap)[i]).len() == cap,
        chunks(s, cap).last().len() <= cap,
        s.len() > 0 ==> chunks(s, cap).last().len() > 0,
    decreases s.len(),
{
    if s.len() <= cap {
        seq![s].lemma_flatten_one_element();
    } else {
        let rest = s.skip(cap as int);
        lemma_chunks(rest, cap);
        let c = chunks(s, cap);
        assert(c =~= seq![s.take(cap as int)] + chunks(rest, cap));
        lemma_flatten_concat(seq![s.take(cap as int)], chunks(rest, cap));
        seq![s.take(cap as int)].lemma_flatten_one_element();
        assert(s =~= s.take(cap as int) + rest);
        assert forall|i: int| 0 <= i < c.len() - 1 implies (#[trigger] c[i]).len() == cap by {
            if i > 0 {
                assert(c[i] == chunks(rest, cap)[i - 1]);
            }
        }
    }
}

/// When every chunk brings back one result per id, the results put back
/// together hold one result per id supplied, repeated ids included.
pub proof fn lemma_one_result_per_id<A, B>(s: Seq<A>, cap: nat, results: Seq<Seq<B>>)
    requires
        cap > 0,
        results.len() == chunks(s, cap).len(),
        forall|i: int| 0 <= i < results.len() ==> (#[trigger] results[i]).len() == chunks(s, cap)[i].len(),
    ensures
        results.flatten().len() == s.len(),
    decreases s.len(),
{
    let c = chunks(s, cap);
    if s.len() <= cap {
        results.lemma_flatten_one_element();
    } else {
        let rest = s.skip(cap as int);
        assert(c =~= seq![s.take(cap as int)] + chunks(rest, cap));
        let tail = results.drop_first();
        assert forall|i: int| 0 <= i < tail.len() implies (#[trigger] tail[i]).len() == chunks(rest, cap)[i].len() by {
            assert(tail[i] == results[i + 1]);
            assert(c[i + 1] == chunks(rest, cap)[i]);
        }
        lemma_one_result_per_id(rest, cap, tail);
        assert(results.flatten() == results[0] + tail.flatten());
    }
}

} // verus!
