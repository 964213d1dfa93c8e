//! Whole runs of futures against a model of the engine's driver.
//!
//! A `Driver` says what each callback handle does to the game state and what it returns,
//! and how players answer choices. `run` follows the steps of the engine under a driver
//! until the final callback returns, the game ends, or the fuel runs out. Two ways of
//! building a future behave the same when, under every driver that meets the law's
//! conditions, their runs reach the same outcomes from every game state.

use vstd::prelude::*;

use crate::choices::{
    advance, continuation_of, future_of, lemma_stages_compose, resume_future, resume_value,
    run_future, ChoiceKind, ChoiceView, ContinuationView, FutureView, PendingView, Source, Stage,
    StepView, Value,
};
use crate::game::{GameResult, Player};

verus! {

/// What a player's answer to a choice hands to the choice's continuation: a value, or a
/// future (an effect set off by the answer) to resolve first.
pub enum Answer<P, V> {
    Value(Value<V>),
    Effect(FutureView<P>),
}

/// A model of the driver: for each callback handle, and for players' answers, the new game
/// state and the result.
#[verifier::reject_recursive_types(S)]
#[verifier::reject_recursive_types(P)]
#[verifier::reject_recursive_types(V)]
pub struct Driver<S, A, P, V> {
    pub apply: spec_fn(u64, S, Value<V>) -> (S, Result<Value<V>, GameResult>),
    pub chain: spec_fn(u64, S, Value<V>) -> (S, Result<FutureView<P>, GameResult>),
    pub finish: spec_fn(u64, S, Value<V>) -> (S, Result<ChoiceView<A, P>, GameResult>),
    pub answer: spec_fn(S, ChoiceKind, Player, P) -> (S, Result<Answer<P, V>, GameResult>),
}

/// Where a run ends: the game state, and the next choice or the game's end.
pub type RunOutcome<S, A, P> = (S, Result<ChoiceView<A, P>, GameResult>);

/// The outcome of following `step` from game state `s` under driver `d`, if it is reached
/// within `fuel` steps.
pub open spec fn run<S, A, P, V>(
    d: Driver<S, A, P, V>,
    s: S,
    step: StepView<A, P, V>,
    fuel: nat,
) -> Option<RunOutcome<S, A, P>>
    decreases fuel,
{
    if fuel == 0 {
        None
    } else {
        match step {
            StepView::CallMap { callback, arg, rest } => {
                let (s1, o) = (d.apply)(callback, s, arg);
                run(d, s1, resume_value(rest, o), (fuel - 1) as nat)
            },
            StepView::CallChain { callback, arg, rest } => {
                let (s1, o) = (d.chain)(callback, s, arg);
                run(d, s1, resume_future(rest, o), (fuel - 1) as nat)
            },
            StepView::Finish { callback, arg } => Some((d.finish)(callback, s, arg)),
            StepView::Choose(ChoiceView::Pending(kind, p)) => {
                let (s1, a) = (d.answer)(s, kind, p.chooser, p.payload);
                match a {
                    Ok(Answer::Value(v)) => run(d, s1, resume_value(p.next, Ok(v)), (fuel - 1) as nat),
                    Ok(Answer::Effect(f)) => run(d, s1, resume_future(p.next, Ok(f)), (fuel - 1) as nat),
                    Err(r) => Some((s1, Err(r))),
                }
            },
            StepView::Choose(c) => Some((s, Ok(c))),
            StepView::Ended(r) => Some((s, Err(r))),
        }
    }
}

/// Following `step` from `s` under `d` ends with `out`.
pub open spec fn runs_to<S, A, P, V>(
    d: Driver<S, A, P, V>,
    s: S,
    step: StepView<A, P, V>,
    out: RunOutcome<S, A, P>,
) -> bool {
    exists|n: nat| #[trigger] run(d, s, step, n) == Some(out)
}

/// Attaching `k1` to `f1` and `k2` to `f2` gives runs with the same outcomes, from every
/// game state.
pub open spec fn futures_agree<S, A, P, V>(
    d: Driver<S, A, P, V>,
    f1: FutureView<P>,
    k1: u64,
    f2: FutureView<P>,
    k2: u64,
) -> bool {
    forall|s: S, out: RunOutcome<S, A, P>|
        #![trigger runs_to(d, s, run_future::<A, P, V>(f1, k1), out)]
        #![trigger runs_to(d, s, run_future::<A, P, V>(f2, k2), out)]
        runs_to(d, s, run_future::<A, P, V>(f1, k1), out) <==> runs_to(d, s, run_future::<A, P, V>(f2, k2), out)
}

/// The stages `suf1` then the final callback `k1`, and `suf2` then `k2`, reach the same
/// outcomes from every value and game state.
pub open spec fn tails_agree<S, A, P, V>(
    d: Driver<S, A, P, V>,
    suf1: Seq<Stage>,
    k1: u64,
    suf2: Seq<Stage>,
    k2: u64,
) -> bool {
    forall|s: S, v: Value<V>, out: RunOutcome<S, A, P>|
        #![trigger runs_to(d, s, advance::<A, P, V>(v, suf1, k1), out)]
        #![trigger runs_to(d, s, advance::<A, P, V>(v, suf2, k2), out)]
        runs_to(d, s, advance::<A, P, V>(v, suf1, k1), out) <==> runs_to(d, s, advance::<A, P, V>(v, suf2, k2), out)
}

/// The step reached when `suffix` and the final callback `k` replace the end of whatever
/// continuation `step` carries.
pub open spec fn extend<A, P, V>(step: StepView<A, P, V>, suffix: Seq<Stage>, k: u64) -> StepView<A, P, V> {
    match step {
        StepView::CallMap { callback, arg, rest } => StepView::CallMap {
            callback,
            arg,
            rest: continuation_of(rest.stages + suffix, k),
        },
        StepView::CallChain { callback, arg, rest } => StepView::CallChain {
            callback,
            arg,
            rest: continuation_of(rest.stages + suffix, k),
        },
        StepView::Finish { arg, .. } => advance(arg, suffix, k),
        StepView::Choose(ChoiceView::Pending(kind, p)) => StepView::Choose(
            ChoiceView::Pending(
                kind,
                PendingView {
                    chooser: p.chooser,
                    payload: p.payload,
                    next: continuation_of(p.next.stages + suffix, k),
                },
            ),
        ),
        _ => step,
    }
}

proof fn lemma_extend_advance<A, P, V>(v: Value<V>, x: Seq<Stage>, k0: u64, suffix: Seq<Stage>, k: u64)
    ensures
        extend(advance::<A, P, V>(v, x, k0), suffix, k) == advance::<A, P, V>(v, x + suffix, k),
{
    lemma_stages_compose::<A, P, V>(v, x, suffix, k0, k);
}

proof fn lemma_extend_run_future<A, P, V>(f: FutureView<P>, k0: u64, suffix: Seq<Stage>, k: u64)
    ensures
        extend(run_future::<A, P, V>(f, k0), suffix, k)
            == run_future::<A, P, V>(future_of(f.source, f.stages + suffix), k),
{
    match f.source {
        Source::Immediate => lemma_extend_advance::<A, P, V>(Value::Unit, f.stages, k0, suffix, k),
        _ => {},
    }
}

proof fn lemma_extend_resume_value<A, P, V>(
    c: ContinuationView,
    o: Result<Value<V>, GameResult>,
    suffix: Seq<Stage>,
    k: u64,
)
    ensures
        extend(resume_value::<A, P, V>(c, o), suffix, k)
            == resume_value::<A, P, V>(continuation_of(c.stages + suffix, k), o),
{
    match o {
        Ok(v) => lemma_extend_advance::<A, P, V>(v, c.stages, c.finish, suffix, k),
        Err(_) => {},
    }
}

proof fn lemma_extend_resume_future<A, P, V>(
    c: ContinuationView,
    o: Result<FutureView<P>, GameResult>,
    suffix: Seq<Stage>,
    k: u64,
)
    ensures
        extend(resume_future::<A, P, V>(c, o), suffix, k)
            == resume_future::<A, P, V>(continuation_of(c.stages + suffix, k), o),
{
    match o {
        Ok(f) => {
            lemma_extend_run_future::<A, P, V>(future_of(f.source, f.stages + c.stages), c.finish, suffix, k);
            assert((f.stages + c.stages) + suffix =~= f.stages + (c.stages + suffix));
        },
        Err(_) => {},
    }
}

/// If two tails reach the same outcomes, then any step followed by the first tail reaches
/// every outcome that it reaches followed by the second.
proof fn lemma_extend_runs<S, A, P, V>(
    d: Driver<S, A, P, V>,
    s: S,
    step: StepView<A, P, V>,
    suf1: Seq<Stage>,
    k1: u64,
    suf2: Seq<Stage>,
    k2: u64,
    out: RunOutcome<S, A, P>,
    n: nat,
)
    requires
        tails_agree(d, suf1, k1, suf2, k2),
        run(d, s, extend(step, suf1, k1), n) == Some(out),
    ensures
        runs_to(d, s, extend(step, suf2, k2), out),
    decreases n,
{
    match step {
        StepView::Finish { arg, .. } => {
            assert(runs_to(d, s, advance::<A, P, V>(arg, suf1, k1), out));
            assert(runs_to(d, s, advance::<A, P, V>(arg, suf2, k2), out));
        },
        StepView::CallMap { callback, arg, rest } => {
            let (s1, o) = (d.apply)(callback, s, arg);
            lemma_extend_resume_value::<A, P, V>(rest, o, suf1, k1);
            lemma_extend_resume_value::<A, P, V>(rest, o, suf2, k2);
            lemma_extend_runs(d, s1, resume_value::<A, P, V>(rest, o), suf1, k1, suf2, k2, out, (n - 1) as nat);
            let m = choose|m: nat| run(d, s1, extend(resume_value::<A, P, V>(rest, o), suf2, k2), m) == Some(out);
            assert(run(d, s, extend(step, suf2, k2), m + 1) == Some(out));
        },
        StepView::CallChain { callback, arg, rest } => {
            let (s1, o) = (d.chain)(callback, s, arg);
            lemma_extend_resume_future::<A, P, V>(rest, o, suf1, k1);
            lemma_extend_resume_future::<A, P, V>(rest, o, suf2, k2);
            lemma_extend_runs(d, s1, resume_future::<A, P, V>(rest, o), suf1, k1, suf2, k2, out, (n - 1) as nat);
            let m = choose|m: nat| run(d, s1, extend(resume_future::<A, P, V>(rest, o), suf2, k2), m) == Some(out);
            assert(run(d, s, extend(step, suf2, k2), m + 1) == Some(out));
        },
        StepView::Choose(ChoiceView::Pending(kind, p)) => {
            let (s1, a) = (d.answer)(s, kind, p.chooser, p.payload);
            match a {
                Ok(Answer::Value(v)) => {
                    lemma_extend_resume_value::<A, P, V>(p.next, Ok(v), suf1, k1);
                    lemma_extend_resume_value::<A, P, V>(p.next, Ok(v), suf2, k2);
                    lemma_extend_runs(d, s1, resume_value::<A, P, V>(p.next, Ok(v)), suf1, k1, suf2, k2, out, (n - 1) as nat);
                    let m = choose|m: nat| run(d, s1, extend(resume_value::<A, P, V>(p.next, Ok(v)), suf2, k2), m) == Some(out);
                    assert(run(d, s, extend(step, suf2, k2), m + 1) == Some(out));
                },
                Ok(Answer::Effect(f)) => {
                    lemma_extend_resume_future::<A, P, V>(p.next, Ok(f), suf1, k1);
                    lemma_extend_resume_future::<A, P, V>(p.next, Ok(f), suf2, k2);
                    lemma_extend_runs(d, s1, resume_future::<A, P, V>(p.next, Ok(f)), suf1, k1, suf2, k2, out, (n - 1) as nat);
                    let m = choose|m: nat| run(d, s1, extend(resume_future::<A, P, V>(p.next, Ok(f)), suf2, k2), m) == Some(out);
                    assert(run(d, s, extend(step, suf2, k2), m + 1) == Some(out));
                },
                Err(_) => {
                    assert(run(d, s, extend(step, suf2, k2), n) == Some(out));
                },
            }
        },
        _ => {
            assert(run(d, s, extend(step, suf2, k2), n) == Some(out));
        },
    }
}

/// A future with stages `x` followed by the tail `suf1` and the final callback `k1`
/// behaves as the same future with `x` followed by `suf2` and `k2`, when the two tails do.
pub proof fn lemma_tails_agree_futures_agree<S, A, P, V>(
    d: Driver<S, A, P, V>,
    source: Source<P>,
    x: Seq<Stage>,
    suf1: Seq<Stage>,
    k1: u64,
    suf2: Seq<Stage>,
    k2: u64,
)
    requires
        tails_agree(d, suf1, k1, suf2, k2),
    ensures
        futures_agree(d, future_of(source, x + suf1), k1, future_of(source, x + suf2), k2),
{
    let core = run_future::<A, P, V>(future_of(source, x), 0);
    lemma_extend_run_future::<A, P, V>(future_of(source, x), 0, suf1, k1);
    lemma_extend_run_future::<A, P, V>(future_of(source, x), 0, suf2, k2);
    assert forall|s: S, out: RunOutcome<S, A, P>|
        runs_to(d, s, run_future::<A, P, V>(future_of(source, x + suf1), k1), out)
            <==> runs_to(d, s, run_future::<A, P, V>(future_of(source, x + suf2), k2), out) by {
        if runs_to(d, s, run_future::<A, P, V>(future_of(source, x + suf1), k1), out) {
            let n = choose|n: nat| run(d, s, extend(core, suf1, k1), n) == Some(out);
            lemma_extend_runs(d, s, core, suf1, k1, suf2, k2, out, n);
        }
        if runs_to(d, s, run_future::<A, P, V>(future_of(source, x + suf2), k2), out) {
            let n = choose|n: nat| run(d, s, extend(core, suf2, k2), n) == Some(out);
            lemma_extend_runs(d, s, core, suf2, k2, suf1, k1, out, n);
        }
    }
}

proof fn lemma_runs_finish<S, A, P, V>(d: Driver<S, A, P, V>, s: S, k: u64, v: Value<V>, out: RunOutcome<S, A, P>)
    ensures
        runs_to(d, s, StepView::<A, P, V>::Finish { callback: k, arg: v }, out) <==> out == (d.finish)(k, s, v),
{
    if out == (d.finish)(k, s, v) {
        assert(run(d, s, StepView::<A, P, V>::Finish { callback: k, arg: v }, 1) == Some(out));
    }
}

proof fn lemma_runs_ended<S, A, P, V>(d: Driver<S, A, P, V>, s: S, r: GameResult, out: RunOutcome<S, A, P>)
    ensures
        runs_to(d, s, StepView::<A, P, V>::Ended(r), out) <==> out == (s, Err::<ChoiceView<A, P>, GameResult>(r)),
{
    if out == (s, Err::<ChoiceView<A, P>, GameResult>(r)) {
        assert(run(d, s, StepView::<A, P, V>::Ended(r), 1) == Some(out));
    }
}

proof fn lemma_runs_call_map<S, A, P, V>(
    d: Driver<S, A, P, V>,
    s: S,
    c: u64,
    a: Value<V>,
    rest: ContinuationView,
    out: RunOutcome<S, A, P>,
)
    ensures
        runs_to(d, s, StepView::<A, P, V>::CallMap { callback: c, arg: a, rest }, out)
            <==> runs_to(d, (d.apply)(c, s, a).0, resume_value::<A, P, V>(rest, (d.apply)(c, s, a).1), out),
{
    let step = StepView::<A, P, V>::CallMap { callback: c, arg: a, rest };
    let next = resume_value::<A, P, V>(rest, (d.apply)(c, s, a).1);
    let s1 = (d.apply)(c, s, a).0;
    if runs_to(d, s, step, out) {
        let n = choose|n: nat| run(d, s, step, n) == Some(out);
        assert(run(d, s1, next, (n - 1) as nat) == Some(out));
    }
    if runs_to(d, s1, next, out) {
        let m = choose|m: nat| run(d, s1, next, m) == Some(out);
        assert(run(d, s, step, m + 1) == Some(out));
    }
}

proof fn lemma_runs_call_chain<S, A, P, V>(
    d: Driver<S, A, P, V>,
    s: S,
    c: u64,
    a: Value<V>,
    rest: ContinuationView,
    out: RunOutcome<S, A, P>,
)
    ensures
        runs_to(d, s, StepView::<A, P, V>::CallChain { callback: c, arg: a, rest }, out)
            <==> runs_to(d, (d.chain)(c, s, a).0, resume_future::<A, P, V>(rest, (d.chain)(c, s, a).1), out),
{
    let step = StepView::<A, P, V>::CallChain { callback: c, arg: a, rest };
    let next = resume_future::<A, P, V>(rest, (d.chain)(c, s, a).1);
    let s1 = (d.chain)(c, s, a).0;
    if runs_to(d, s, step, out) {
        let n = choose|n: nat| run(d, s, step, n) == Some(out);
        assert(run(d, s1, next, (n - 1) as nat) == Some(out));
    }
    if runs_to(d, s1, next, out) {
        let m = choose|m: nat| run(d, s1, next, m) == Some(out);
        assert(run(d, s, step, m + 1) == Some(out));
    }
}

/// Where the tail made of the callback `cb` then the final callback `h` ends, from `s`
/// with the value `v`: `cb` runs, then `h` on its value, unless `cb` ended the game.
pub open spec fn apply_then_finish<S, A, P, V>(d: Driver<S, A, P, V>, cb: u64, h: u64, s: S, v: Value<V>) -> RunOutcome<S, A, P> {
    match (d.apply)(cb, s, v) {
        (s1, Ok(u)) => (d.finish)(h, s1, u),
        (s1, Err(r)) => (s1, Err(r)),
    }
}

proof fn lemma_tail_finish<S, A, P, V>(d: Driver<S, A, P, V>, s: S, v: Value<V>, k: u64, out: RunOutcome<S, A, P>)
    ensures
        runs_to(d, s, advance::<A, P, V>(v, Seq::empty(), k), out) <==> out == (d.finish)(k, s, v),
{
    lemma_runs_finish::<S, A, P, V>(d, s, k, v, out);
}

proof fn lemma_tail_apply<S, A, P, V>(d: Driver<S, A, P, V>, s: S, v: Value<V>, cb: u64, h: u64, out: RunOutcome<S, A, P>)
    ensures
        runs_to(d, s, advance::<A, P, V>(v, seq![Stage::Apply(cb)], h), out) <==> out == apply_then_finish(d, cb, h, s, v),
{
    assert(seq![Stage::Apply(cb)].drop_first() =~= Seq::<Stage>::empty());
    lemma_runs_call_map::<S, A, P, V>(d, s, cb, v, continuation_of(Seq::empty(), h), out);
    let (s1, o) = (d.apply)(cb, s, v);
    match o {
        Ok(u) => lemma_runs_finish::<S, A, P, V>(d, s1, h, u, out),
        Err(r) => lemma_runs_ended::<S, A, P, V>(d, s1, r, out),
    }
}

proof fn lemma_tail_chain<S, A, P, V>(d: Driver<S, A, P, V>, s: S, v: Value<V>, cb: u64, h: u64, out: RunOutcome<S, A, P>)
    ensures
        runs_to(d, s, advance::<A, P, V>(v, seq![Stage::Chain(cb)], h), out)
            <==> runs_to(d, (d.chain)(cb, s, v).0, resume_future::<A, P, V>(continuation_of(Seq::empty(), h), (d.chain)(cb, s, v).1), out),
{
    assert(seq![Stage::Chain(cb)].drop_first() =~= Seq::<Stage>::empty());
    lemma_runs_call_chain::<S, A, P, V>(d, s, cb, v, continuation_of(Seq::empty(), h), out);
}

proof fn lemma_tail_discard<A, P, V>(v: Value<V>, h: u64)
    ensures
        advance::<A, P, V>(v, seq![Stage::Discard], h) == (StepView::<A, P, V>::Finish { callback: h, arg: Value::Unit }),
{
    assert(seq![Stage::Discard].drop_first() =~= Seq::<Stage>::empty());
    assert(advance::<A, P, V>(Value::Unit, Seq::empty(), h) == (StepView::<A, P, V>::Finish { callback: h, arg: Value::Unit }));
}

/// The future that `then_future(callback)` makes of `f`.
pub open spec fn then_future_view<P>(f: FutureView<P>, callback: u64) -> FutureView<P> {
    future_of(f.source, f.stages.push(Stage::Apply(callback)))
}

/// The future that `then_future_chain(callback)` makes of `f`.
pub open spec fn then_future_chain_view<P>(f: FutureView<P>, callback: u64) -> FutureView<P> {
    future_of(f.source, f.stages.push(Stage::Chain(callback)))
}

/// The future that `ignore_result()` makes of `f`.
pub open spec fn ignore_result_view<P>(f: FutureView<P>) -> FutureView<P> {
    future_of(f.source, f.stages.push(Stage::Discard))
}

/// The future that resolves at once with no value.
pub open spec fn immediate_view<P>() -> FutureView<P> {
    future_of(Source::Immediate, Seq::empty())
}

/// The final callback `h` cannot tell values apart: it is a continuation for no value.
pub open spec fn ignores_value<S, A, P, V>(d: Driver<S, A, P, V>, h: u64) -> bool {
    forall|s: S, v: Value<V>| #[trigger] (d.finish)(h, s, v) == (d.finish)(h, s, Value::Unit)
}

proof fn lemma_push_is_append<P>(f: FutureView<P>, x: Stage)
    ensures
        future_of(f.source, f.stages.push(x)) == future_of(f.source, f.stages + seq![x]),
        f == future_of(f.source, f.stages + Seq::<Stage>::empty()),
{
    assert(f.stages.push(x) =~= f.stages + seq![x]);
    assert(f.stages + Seq::<Stage>::empty() =~= f.stages);
}

/// `f.then_future(cb)` with the final callback `h` behaves as `f` with a final callback
/// `h2` that runs `cb` and then `h` on the value it returns (or ends the game as `cb` does),
/// on the game state that `cb` leaves.
pub proof fn law_then_future<S, A, P, V>(d: Driver<S, A, P, V>, f: FutureView<P>, cb: u64, h: u64, h2: u64)
    requires
        forall|s: S, v: Value<V>| #[trigger] (d.finish)(h2, s, v) == apply_then_finish(d, cb, h, s, v),
    ensures
        futures_agree(d, then_future_view(f, cb), h, f, h2),
{
    assert forall|s: S, v: Value<V>, out: RunOutcome<S, A, P>|
        runs_to(d, s, advance::<A, P, V>(v, seq![Stage::Apply(cb)], h), out)
            <==> runs_to(d, s, advance::<A, P, V>(v, Seq::empty(), h2), out) by {
        lemma_tail_apply(d, s, v, cb, h, out);
        lemma_tail_finish(d, s, v, h2, out);
    }
    lemma_tails_agree_futures_agree(d, f.source, f.stages, seq![Stage::Apply(cb)], h, Seq::empty(), h2);
    lemma_push_is_append(f, Stage::Apply(cb));
}

/// A `then_future` callback that hands its value on unchanged, and leaves the game state
/// as it is, changes nothing.
pub proof fn law_then_future_identity<S, A, P, V>(d: Driver<S, A, P, V>, f: FutureView<P>, cb: u64, h: u64)
    requires
        forall|s: S, v: Value<V>| #[trigger] (d.apply)(cb, s, v) == (s, Ok::<Value<V>, GameResult>(v)),
    ensures
        futures_agree(d, then_future_view(f, cb), h, f, h),
{
    assert forall|s: S, v: Value<V>, out: RunOutcome<S, A, P>|
        runs_to(d, s, advance::<A, P, V>(v, seq![Stage::Apply(cb)], h), out)
            <==> runs_to(d, s, advance::<A, P, V>(v, Seq::empty(), h), out) by {
        lemma_tail_apply(d, s, v, cb, h, out);
        lemma_tail_finish(d, s, v, h, out);
    }
    lemma_tails_agree_futures_agree(d, f.source, f.stages, seq![Stage::Apply(cb)], h, Seq::empty(), h);
    lemma_push_is_append(f, Stage::Apply(cb));
}

/// `g1` then `g2`: the callback that runs `g1`, then `g2` on its value unless `g1` ended
/// the game.
pub open spec fn apply_then_apply<S, A, P, V>(d: Driver<S, A, P, V>, g1: u64, g2: u64, s: S, v: Value<V>) -> (S, Result<Value<V>, GameResult>) {
    match (d.apply)(g1, s, v) {
        (s1, Ok(u)) => (d.apply)(g2, s1, u),
        (s1, Err(r)) => (s1, Err(r)),
    }
}

/// `then_future` is associative: `f.then_future(g1).then_future(g2)` behaves as
/// `f.then_future(g12)` where `g12` runs `g1` then `g2`.
pub proof fn law_then_future_associative<S, A, P, V>(
    d: Driver<S, A, P, V>,
    f: FutureView<P>,
    g1: u64,
    g2: u64,
    g12: u64,
    h: u64,
)
    requires
        forall|s: S, v: Value<V>| #[trigger] (d.apply)(g12, s, v) == apply_then_apply(d, g1, g2, s, v),
    ensures
        futures_agree(d, then_future_view(then_future_view(f, g1), g2), h, then_future_view(f, g12), h),
{
    assert forall|s: S, v: Value<V>, out: RunOutcome<S, A, P>|
        runs_to(d, s, advance::<A, P, V>(v, seq![Stage::Apply(g1), Stage::Apply(g2)], h), out)
            <==> runs_to(d, s, advance::<A, P, V>(v, seq![Stage::Apply(g12)], h), out) by {
        assert(seq![Stage::Apply(g1), Stage::Apply(g2)].drop_first() =~= seq![Stage::Apply(g2)]);
        lemma_runs_call_map::<S, A, P, V>(d, s, g1, v, continuation_of(seq![Stage::Apply(g2)], h), out);
        lemma_tail_apply(d, s, v, g12, h, out);
        let (s1, o) = (d.apply)(g1, s, v);
        match o {
            Ok(u) => lemma_tail_apply(d, s1, u, g2, h, out),
            Err(r) => lemma_runs_ended::<S, A, P, V>(d, s1, r, out),
        }
    }
    lemma_tails_agree_futures_agree(
        d,
        f.source,
        f.stages,
        seq![Stage::Apply(g1), Stage::Apply(g2)],
        h,
        seq![Stage::Apply(g12)],
        h,
    );
    assert(then_future_view(then_future_view(f, g1), g2).stages =~= f.stages + seq![Stage::Apply(g1), Stage::Apply(g2)]);
    lemma_push_is_append(f, Stage::Apply(g12));
}

/// `f.then_future_chain(cb)` with the final callback `h` behaves as `f` with a final
/// callback `h2` that runs `cb` and then the future it returns with `h` attached (or ends
/// the game as `cb` does).
pub proof fn law_then_future_chain<S, A, P, V>(d: Driver<S, A, P, V>, f: FutureView<P>, cb: u64, h: u64, h2: u64)
    requires
        forall|s: S, v: Value<V>, out: RunOutcome<S, A, P>|
            #![trigger runs_to(d, (d.chain)(cb, s, v).0, resume_future::<A, P, V>(continuation_of(Seq::empty(), h), (d.chain)(cb, s, v).1), out)]
            (d.finish)(h2, s, v) == out
                <==> runs_to(d, (d.chain)(cb, s, v).0, resume_future::<A, P, V>(continuation_of(Seq::empty(), h), (d.chain)(cb, s, v).1), out),
    ensures
        futures_agree(d, then_future_chain_view(f, cb), h, f, h2),
{
    assert forall|s: S, v: Value<V>, out: RunOutcome<S, A, P>|
        runs_to(d, s, advance::<A, P, V>(v, seq![Stage::Chain(cb)], h), out)
            <==> runs_to(d, s, advance::<A, P, V>(v, Seq::empty(), h2), out) by {
        lemma_tail_chain(d, s, v, cb, h, out);
        lemma_tail_finish(d, s, v, h2, out);
    }
    lemma_tails_agree_futures_agree(d, f.source, f.stages, seq![Stage::Chain(cb)], h, Seq::empty(), h2);
    lemma_push_is_append(f, Stage::Chain(cb));
}

/// Chaining a callback that leaves the game state as it is and returns a future that
/// resolves at once changes nothing, for a final callback that takes no value.
pub proof fn law_then_future_chain_immediate<S, A, P, V>(d: Driver<S, A, P, V>, f: FutureView<P>, cb: u64, h: u64)
    requires
        forall|s: S, v: Value<V>| #[trigger] (d.chain)(cb, s, v) == (s, Ok::<FutureView<P>, GameResult>(immediate_view())),
        ignores_value(d, h),
    ensures
        futures_agree(d, then_future_chain_view(f, cb), h, f, h),
{
    assert forall|s: S, v: Value<V>, out: RunOutcome<S, A, P>|
        runs_to(d, s, advance::<A, P, V>(v, seq![Stage::Chain(cb)], h), out)
            <==> runs_to(d, s, advance::<A, P, V>(v, Seq::empty(), h), out) by {
        lemma_tail_chain(d, s, v, cb, h, out);
        assert(Seq::<Stage>::empty() + Seq::<Stage>::empty() =~= Seq::<Stage>::empty());
        lemma_tail_finish(d, s, Value::<V>::Unit, h, out);
        lemma_tail_finish(d, s, v, h, out);
        assert((d.finish)(h, s, v) == (d.finish)(h, s, Value::Unit));
    }
    lemma_tails_agree_futures_agree(d, f.source, f.stages, seq![Stage::Chain(cb)], h, Seq::empty(), h);
    lemma_push_is_append(f, Stage::Chain(cb));
}

/// `then_future(g)` behaves as `then_future_chain(g2)` where `g2` runs `g` and, unless it
/// ended the game, returns a future that resolves at once, for a final callback that takes
/// no value.
pub proof fn law_then_future_as_chain<S, A, P, V>(d: Driver<S, A, P, V>, f: FutureView<P>, g: u64, g2: u64, h: u64)
    requires
        forall|s: S, v: Value<V>| #[trigger] (d.chain)(g2, s, v) == (match (d.apply)(g, s, v) {
            (s1, Ok(_)) => (s1, Ok::<FutureView<P>, GameResult>(immediate_view())),
            (s1, Err(r)) => (s1, Err(r)),
        }),
        ignores_value(d, h),
    ensures
        futures_agree(d, then_future_view(f, g), h, then_future_chain_view(f, g2), h),
{
    assert forall|s: S, v: Value<V>, out: RunOutcome<S, A, P>|
        runs_to(d, s, advance::<A, P, V>(v, seq![Stage::Apply(g)], h), out)
            <==> runs_to(d, s, advance::<A, P, V>(v, seq![Stage::Chain(g2)], h), out) by {
        lemma_tail_apply(d, s, v, g, h, out);
        lemma_tail_chain(d, s, v, g2, h, out);
        let (s1, o) = (d.apply)(g, s, v);
        assert((d.chain)(g2, s, v) == (match (d.apply)(g, s, v) {
            (s1, Ok(_)) => (s1, Ok::<FutureView<P>, GameResult>(immediate_view())),
            (s1, Err(r)) => (s1, Err(r)),
        }));
        match o {
            Ok(u) => {
                assert(Seq::<Stage>::empty() + Seq::<Stage>::empty() =~= Seq::<Stage>::empty());
                lemma_tail_finish(d, s1, Value::<V>::Unit, h, out);
                assert((d.finish)(h, s1, u) == (d.finish)(h, s1, Value::Unit));
            },
            Err(r) => lemma_runs_ended::<S, A, P, V>(d, s1, r, out),
        }
    }
    lemma_tails_agree_futures_agree(d, f.source, f.stages, seq![Stage::Apply(g)], h, seq![Stage::Chain(g2)], h);
    lemma_push_is_append(f, Stage::Apply(g));
    lemma_push_is_append(f, Stage::Chain(g2));
}

/// `f.ignore_result()` with the final callback `h` behaves as `f` with a final callback
/// `h2` that runs `h` on no value, on the same game state.
pub proof fn law_ignore_result<S, A, P, V>(d: Driver<S, A, P, V>, f: FutureView<P>, h: u64, h2: u64)
    requires
        forall|s: S, v: Value<V>| #[trigger] (d.finish)(h2, s, v) == (d.finish)(h, s, Value::Unit),
    ensures
        futures_agree(d, ignore_result_view(f), h, f, h2),
{
    assert forall|s: S, v: Value<V>, out: RunOutcome<S, A, P>|
        runs_to(d, s, advance::<A, P, V>(v, seq![Stage::Discard], h), out)
            <==> runs_to(d, s, advance::<A, P, V>(v, Seq::empty(), h2), out) by {
        lemma_tail_discard::<A, P, V>(v, h);
        lemma_runs_finish(d, s, h, Value::<V>::Unit, out);
        lemma_tail_finish(d, s, v, h2, out);
    }
    lemma_tails_agree_futures_agree(d, f.source, f.stages, seq![Stage::Discard], h, Seq::empty(), h2);
    lemma_push_is_append(f, Stage::Discard);
}

/// `ignore_result()` behaves as `then_future(cb)` with a callback that returns no value
/// and leaves the game state as it is.
pub proof fn law_ignore_result_as_then_future<S, A, P, V>(d: Driver<S, A, P, V>, f: FutureView<P>, cb: u64, h: u64)
    requires
        forall|s: S, v: Value<V>| #[trigger] (d.apply)(cb, s, v) == (s, Ok::<Value<V>, GameResult>(Value::Unit)),
    ensures
        futures_agree(d, ignore_result_view(f), h, then_future_view(f, cb), h),
{
    assert forall|s: S, v: Value<V>, out: RunOutcome<S, A, P>|
        runs_to(d, s, advance::<A, P, V>(v, seq![Stage::Discard], h), out)
            <==> runs_to(d, s, advance::<A, P, V>(v, seq![Stage::Apply(cb)], h), out) by {
        lemma_tail_discard::<A, P, V>(v, h);
        lemma_runs_finish(d, s, h, Value::<V>::Unit, out);
        lemma_tail_apply(d, s, v, cb, h, out);
    }
    lemma_tails_agree_futures_agree(d, f.source, f.stages, seq![Stage::Discard], h, seq![Stage::Apply(cb)], h);
    lemma_push_is_append(f, Stage::Discard);
    lemma_push_is_append(f, Stage::Apply(cb));
}

/// Ignoring the result twice is ignoring it once; and for a final callback that takes no
/// value, ignoring the result changes nothing.
pub proof fn law_ignore_result_idempotent<S, A, P, V>(d: Driver<S, A, P, V>, f: FutureView<P>, h: u64)
    ensures
        futures_agree(d, ignore_result_view(ignore_result_view(f)), h, ignore_result_view(f), h),
        ignores_value(d, h) ==> futures_agree(d, ignore_result_view(f), h, f, h),
{
    assert forall|s: S, v: Value<V>, out: RunOutcome<S, A, P>|
        runs_to(d, s, advance::<A, P, V>(v, seq![Stage::Discard, Stage::Discard], h), out)
            <==> runs_to(d, s, advance::<A, P, V>(v, seq![Stage::Discard], h), out) by {
        assert(seq![Stage::Discard, Stage::Discard].drop_first() =~= seq![Stage::Discard]);
        lemma_tail_discard::<A, P, V>(v, h);
        lemma_tail_discard::<A, P, V>(Value::Unit, h);
    }
    lemma_tails_agree_futures_agree(
        d,
        f.source,
        f.stages,
        seq![Stage::Discard, Stage::Discard],
        h,
        seq![Stage::Discard],
        h,
    );
    assert(ignore_result_view(ignore_result_view(f)).stages =~= f.stages + seq![Stage::Discard, Stage::Discard]);
    lemma_push_is_append(f, Stage::Discard);
    if ignores_value(d, h) {
        assert forall|s: S, v: Value<V>, out: RunOutcome<S, A, P>|
            runs_to(d, s, advance::<A, P, V>(v, seq![Stage::Discard], h), out)
                <==> runs_to(d, s, advance::<A, P, V>(v, Seq::empty(), h), out) by {
            lemma_tail_discard::<A, P, V>(v, h);
            lemma_runs_finish(d, s, h, Value::<V>::Unit, out);
            lemma_tail_finish(d, s, v, h, out);
            assert((d.finish)(h, s, v) == (d.finish)(h, s, Value::Unit));
        }
        lemma_tails_agree_futures_agree(d, f.source, f.stages, seq![Stage::Discard], h, Seq::empty(), h);
    }
}

} // verus!
