use vstd::prelude::*;

use crate::text::{decode_spec, has_nul};
use crate::watcher::{Verdict, WatcherView};
use vstd::utf8::valid_utf8;

verus! {

/// A watcher whose pipes are known by the bytes that they will yield.
pub type CycleView = WatcherView<Seq<u8>>;

/// What happens to a watcher, with each pipe standing for its bytes.
pub enum Input {
    /// A new offer is announced.
    Offer,
    /// The selection is set, its bytes delivered into a fresh pipe.
    Select(Seq<u8>),
    /// The selection is cleared.
    Cleared,
    /// The pending pipe, if any, is read to its end and handled.
    Drain,
    /// The cancellation signal fires.
    Stop,
}

/// The texts that a verdict emits: one or none.
pub open spec fn emitted(v: Verdict) -> Seq<Seq<char>> {
    match v {
        Verdict::Emit(t) => seq![t],
        _ => seq![],
    }
}

/// One input: the next state and the texts emitted.
pub open spec fn step(w: CycleView, i: Input) -> (CycleView, Seq<Seq<char>>) {
    match i {
        Input::Offer => (w.offered(), seq![]),
        Input::Select(b) => (w.selection_set(b), seq![]),
        Input::Cleared => (w.selection_cleared(), seq![]),
        Input::Drain => match w.pending {
            Some(b) => (w.taken().delivered(b), emitted(w.taken().verdict(b))),
            None => (w, seq![]),
        },
        Input::Stop => (w.halted(), seq![]),
    }
}

/// A run of inputs: the final state and every text emitted, in order.
pub open spec fn run(w: CycleView, inputs: Seq<Input>) -> (CycleView, Seq<Seq<char>>)
    decreases inputs.len(),
{
    if inputs.len() == 0 {
        (w, seq![])
    } else {
        let first = step(w, inputs[0]);
        let rest = run(first.0, inputs.drop_first());
        (rest.0, first.1 + rest.1)
    }
}

/// A run of one input, then more.
pub proof fn lemma_run_cons(w: CycleView, i: Input, rest: Seq<Input>)
    ensures
        run(w, seq![i] + rest).0 == run(step(w, i).0, rest).0,
        run(w, seq![i] + rest).1 == step(w, i).1 + run(step(w, i).0, rest).1,
{
    let s = seq![i] + rest;
    assert(s[0] == i);
    assert(s.drop_first() =~= rest);
}

/// One selection cycle: the selection is set to `b` and its pipe drained.
pub open spec fn cycle(b: Seq<u8>) -> Seq<Input> {
    seq![Input::Select(b), Input::Drain]
}

/// A full cycle on a running watcher emits what the bytes come to, and
/// leaves the watcher idle with that verdict's text as the last one.
pub proof fn lemma_cycle(w: CycleView, b: Seq<u8>)
    ensures
        run(w, cycle(b)).1 == (if w.stopped { seq![] } else { emitted(w.verdict(b)) }),
        !w.stopped ==> run(w, cycle(b)).0 == w.delivered(b).selection_cleared(),
        run(w, cycle(b)).0.stopped == w.stopped,
{
    lemma_run_cons(w, Input::Select(b), seq![Input::Drain]);
    let w1 = step(w, Input::Select(b)).0;
    lemma_run_cons(w1, Input::Drain, seq![]);
    assert(seq![Input::Select(b)] + seq![Input::Drain] =~= cycle(b));
    assert(seq![Input::Drain] + Seq::<Input>::empty() =~= seq![Input::Drain]);
    if w.stopped {
        assert(step(w1, Input::Drain).1 =~= Seq::<Seq<char>>::empty());
    } else {
        assert(step(w, Input::Select(b)).1 + step(w1, Input::Drain).1 =~= emitted(w.verdict(b)));
    }
}

/// Two cycles in a row: what the first emits, then what the second emits.
pub proof fn lemma_two_cycles(w: CycleView, b1: Seq<u8>, b2: Seq<u8>)
    ensures
        run(w, cycle(b1) + cycle(b2)).0 == run(run(w, cycle(b1)).0, cycle(b2)).0,
        run(w, cycle(b1) + cycle(b2)).1 == run(w, cycle(b1)).1 + run(run(w, cycle(b1)).0, cycle(b2)).1,
{
    lemma_run_concat(w, cycle(b1), cycle(b2));
}

/// A run of two parts is the run of the first followed by the run of the second.
pub proof fn lemma_run_concat(w: CycleView, a: Seq<Input>, b: Seq<Input>)
    ensures
        run(w, a + b).0 == run(run(w, a).0, b).0,
        run(w, a + b).1 == run(w, a).1 + run(run(w, a).0, b).1,
    decreases a.len(),
{
    if a.len() == 0 {
        assert(a + b =~= b);
        assert(run(w, a).1 + run(w, b).1 =~= run(w, b).1);
    } else {
        let i = a[0];
        let w1 = step(w, i).0;
        lemma_run_concat(w1, a.drop_first(), b);
        assert(a =~= seq![i] + a.drop_first());
        assert(a + b =~= seq![i] + (a.drop_first() + b));
        lemma_run_cons(w, i, a.drop_first() + b);
        lemma_run_cons(w, i, a.drop_first());
        assert(step(w, i).1 + (run(w1, a.drop_first()).1 + run(run(w1, a.drop_first()).0, b).1)
            =~= (step(w, i).1 + run(w1, a.drop_first()).1) + run(run(w1, a.drop_first()).0, b).1);
    }
}

/// Two consecutive cycles with the same bytes emit at most once: the second
/// one always repeats the first.
pub proof fn lemma_repeat_emits_at_most_once(w: CycleView, b: Seq<u8>)
    ensures
        run(w, cycle(b) + cycle(b)).1.len() <= 1,
        run(w, cycle(b) + cycle(b)).1 == run(w, cycle(b)).1,
{
    lemma_two_cycles(w, b, b);
    lemma_cycle(w, b);
    let w1 = run(w, cycle(b)).0;
    lemma_cycle(w1, b);
    if !w.stopped && b.len() > 0 {
        match decode_spec(b) {
            Ok(t) => {
                assert(w1.last == Some(t));
            },
            Err(_) => {},
        }
    }
    assert(run(w, cycle(b)).1 + run(w1, cycle(b)).1 =~= run(w, cycle(b)).1);
}

/// Two consecutive cycles with the same text, new to a running watcher,
/// emit that text exactly once.
pub proof fn lemma_repeat_emits_once(w: CycleView, b: Seq<u8>, t: Seq<char>)
    requires
        !w.stopped,
        b.len() > 0,
        decode_spec(b) == Ok::<Seq<char>, crate::text::DecodeError>(t),
        w.last != Some(t),
    ensures
        run(w, cycle(b) + cycle(b)).1 == seq![t],
{
    lemma_repeat_emits_at_most_once(w, b);
    lemma_cycle(w, b);
}

/// Text T1, then a different T2, then T1 again: all three are emitted, since
/// a text is compared with the one emitted just before it only.
pub proof fn lemma_novel_after_divergence(
    w: CycleView,
    b1: Seq<u8>,
    b2: Seq<u8>,
    t1: Seq<char>,
    t2: Seq<char>,
)
    requires
        !w.stopped,
        b1.len() > 0,
        b2.len() > 0,
        decode_spec(b1) == Ok::<Seq<char>, crate::text::DecodeError>(t1),
        decode_spec(b2) == Ok::<Seq<char>, crate::text::DecodeError>(t2),
        t1 != t2,
        w.last != Some(t1),
    ensures
        run(w, cycle(b1) + cycle(b2) + cycle(b1)).1 == seq![t1, t2, t1],
{
    lemma_two_cycles(w, b1, b2);
    lemma_run_concat(w, cycle(b1) + cycle(b2), cycle(b1));
    lemma_cycle(w, b1);
    let w1 = run(w, cycle(b1)).0;
    lemma_cycle(w1, b2);
    let w2 = run(w1, cycle(b2)).0;
    lemma_cycle(w2, b1);
    assert(seq![t1] + seq![t2] + seq![t1] =~= seq![t1, t2, t1]);
}

/// When a second selection is set before the first one's pipe is drained,
/// the first pipe is dropped: the run is the same as if only the second had
/// been set, so only the second's content can be emitted.
pub proof fn lemma_superseded_dropped(w: CycleView, b1: Seq<u8>, b2: Seq<u8>)
    ensures
        run(w, seq![Input::Select(b1)] + cycle(b2)) == run(w, cycle(b2)),
        run(w, seq![Input::Select(b1)] + cycle(b2)).1 == (if w.stopped { seq![] } else { emitted(w.verdict(b2)) }),
{
    lemma_run_cons(w, Input::Select(b1), cycle(b2));
    let w1 = step(w, Input::Select(b1)).0;
    lemma_cycle(w1, b2);
    lemma_cycle(w, b2);
    lemma_run_cons(w1, Input::Select(b2), seq![Input::Drain]);
    lemma_run_cons(w, Input::Select(b2), seq![Input::Drain]);
    assert(seq![Input::Select(b2)] + seq![Input::Drain] =~= cycle(b2));
    assert(w1.selection_set(b2) == w.selection_set(b2));
    assert(Seq::<Seq<char>>::empty() + run(w1, cycle(b2)).1 =~= run(w1, cycle(b2)).1);
}

/// Bytes holding a NUL byte are never emitted, whatever text surrounds it.
pub proof fn lemma_nul_never_emitted(w: CycleView, b: Seq<u8>)
    requires
        has_nul(b),
    ensures
        !(w.verdict(b) is Emit),
        run(w, cycle(b)).1 == Seq::<Seq<char>>::empty(),
        run(w, cycle(b)).0.stopped == w.stopped,
{
    lemma_cycle(w, b);
}

/// Bytes that are not UTF-8 are never emitted and leave the watcher running
/// with the same last text, so the next valid cycle emits normally.
pub proof fn lemma_invalid_then_valid(w: CycleView, bad: Seq<u8>, good: Seq<u8>, t: Seq<char>)
    requires
        !valid_utf8(bad),
        !w.stopped,
        good.len() > 0,
        decode_spec(good) == Ok::<Seq<char>, crate::text::DecodeError>(t),
        w.last != Some(t),
    ensures
        run(w, cycle(bad)).1 == Seq::<Seq<char>>::empty(),
        !run(w, cycle(bad)).0.stopped,
        run(w, cycle(bad)).0.last == w.last,
        run(w, cycle(bad) + cycle(good)).1 == seq![t],
{
    lemma_two_cycles(w, bad, good);
    lemma_cycle(w, bad);
    let w1 = run(w, cycle(bad)).0;
    lemma_cycle(w1, good);
    assert(Seq::<Seq<char>>::empty() + seq![t] =~= seq![t]);
}

/// No two texts emitted one after the other are equal, the first one
/// differs from the last text known before the run, and the last text known
/// afterwards is the last one emitted, or the one known before when nothing
/// was emitted.
pub proof fn lemma_no_consecutive_repeats(w: CycleView, inputs: Seq<Input>)
    ensures
        forall|k: int| 0 <= k < run(w, inputs).1.len() - 1 ==> #[trigger] run(w, inputs).1[k] != run(w, inputs).1[k + 1],
        run(w, inputs).1.len() > 0 ==> w.last != Some(run(w, inputs).1[0]),
        run(w, inputs).1.len() > 0 ==> run(w, inputs).0.last == Some(run(w, inputs).1.last()),
        run(w, inputs).1.len() == 0 ==> run(w, inputs).0.last == w.last,
    decreases inputs.len(),
{
    if inputs.len() > 0 {
        let first = step(w, inputs[0]);
        let w1 = first.0;
        let rest = run(w1, inputs.drop_first());
        lemma_no_consecutive_repeats(w1, inputs.drop_first());
        let e = run(w, inputs).1;
        assert(e == first.1 + rest.1);
        if first.1.len() == 0 {
            assert(w1.last == w.last);
            assert(e =~= rest.1);
        } else {
            let t = first.1[0];
            assert(first.1 == seq![t]);
            assert(w.last != Some(t));
            assert(w1.last == Some(t));
            assert forall|k: int| 0 <= k < e.len() - 1 implies #[trigger] e[k] != e[k + 1] by {
                if k > 0 {
                    assert(e[k] == rest.1[k - 1]);
                    assert(e[k + 1] == rest.1[k]);
                }
            }
            if rest.1.len() > 0 {
                assert(e.last() == rest.1.last());
            }
        }
    }
}

/// A stopped watcher emits nothing, whatever happens to it.
pub proof fn lemma_stopped_is_silent(w: CycleView, inputs: Seq<Input>)
    requires
        w.stopped,
    ensures
        run(w, inputs).1 == Seq::<Seq<char>>::empty(),
        run(w, inputs).0.stopped,
    decreases inputs.len(),
{
    if inputs.len() > 0 {
        let w1 = step(w, inputs[0]).0;
        lemma_stopped_is_silent(w1, inputs.drop_first());
        assert(step(w, inputs[0]).1 + run(w1, inputs.drop_first()).1 =~= Seq::<Seq<char>>::empty());
    }
}

/// Once the cancellation signal fires, a pending pipe is dropped and no
/// text is emitted any more, whatever follows.
pub proof fn lemma_stop_drains_cleanly(w: CycleView, inputs: Seq<Input>)
    ensures
        step(w, Input::Stop).0.pending.is_none(),
        run(w, seq![Input::Stop] + inputs).1 == Seq::<Seq<char>>::empty(),
{
    lemma_run_cons(w, Input::Stop, inputs);
    lemma_stopped_is_silent(step(w, Input::Stop).0, inputs);
    assert(Seq::<Seq<char>>::empty() + Seq::<Seq<char>>::empty() =~= Seq::<Seq<char>>::empty());
}

} // verus!
