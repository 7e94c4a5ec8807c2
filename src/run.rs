use vstd::prelude::*;

use crate::lifecycle::{Action, Bootstrap, Event, Phase};

verus! {

/// The state reached and the actions taken when the toolkit delivers `evs`,
/// in order, to a fresh application.
pub open spec fn run(evs: Seq<Event>) -> (Bootstrap, Seq<Action>)
    decreases evs.len(),
{
    if evs.len() == 0 {
        (Bootstrap::initial(), Seq::empty())
    } else {
        let (s, acts) = run(evs.drop_last());
        let (t, a) = s.next(evs.last());
        (t, acts.push(a))
    }
}

/// How many times `acts` hands the application to the window builder.
pub open spec fn builds(acts: Seq<Action>) -> nat {
    acts.filter(|a: Action| a is BuildWindow).len()
}

/// `evs` without the stylesheet failures.
pub open spec fn without_style_errors(evs: Seq<Event>) -> Seq<Event> {
    evs.filter(|e: Event| !(e is StyleError))
}

/// Two states that differ at most in whether a stylesheet failure was reported.
pub open spec fn same_but_warning(s: Bootstrap, t: Bootstrap) -> bool {
    &&& s.phase == t.phase
    &&& s.style_installed == t.style_installed
    &&& s.aborted == t.aborted
    &&& s.exit_code == t.exit_code
}

/// Delivers `events` in order to a fresh application and returns the action
/// taken for each.
pub fn replay(events: &Vec<Event>) -> (acts: Vec<Action>)
    ensures
        acts@ == run(events@).1,
{
    let mut b = Bootstrap::new();
    let mut acts: Vec<Action> = Vec::new();
    let mut i: usize = 0;
    while i < events.len()
        invariant
            i <= events.len(),
            (b, acts@) == run(events@.subrange(0, i as int)),
        decreases events.len() - i,
    {
        let a = b.handle(events[i]);
        acts.push(a);
        assert(events@.subrange(0, i as int + 1).drop_last() =~= events@.subrange(0, i as int));
        i += 1;
    }
    assert(events@.subrange(0, events.len() as int) =~= events@);
    acts
}

/// Facts that hold after every run: one action per event, a reachable state,
/// and what the state says about the actions taken so far.
proof fn lemma_run_facts(evs: Seq<Event>)
    ensures
        run(evs).0.wf(),
        run(evs).1.len() == evs.len(),
        run(evs).0.phase == Phase::Uninitialized ==> forall|k: int|
            0 <= k < run(evs).1.len() ==> #[trigger] run(evs).1[k] is Ignore,
        run(evs).0.aborted ==> exists|i: int|
            0 <= i < run(evs).1.len() && #[trigger] run(evs).1[i] is AbortNoDisplay && forall|k: int|
                0 <= k < run(evs).1.len() && k != i ==> #[trigger] run(evs).1[k] is Ignore,
        !run(evs).0.aborted ==> forall|k: int|
            0 <= k < run(evs).1.len() ==> !(#[trigger] run(evs).1[k] is AbortNoDisplay),
        run(evs).0.style_installed ==> exists|j: int|
            0 <= j < run(evs).1.len() && #[trigger] run(evs).1[j] is InstallStyle,
    decreases evs.len(),
{
    if evs.len() > 0 {
        let p = evs.drop_last();
        lemma_run_facts(p);
        let (s, acts) = run(p);
        let (t, a) = s.next(evs.last());
        let all = run(evs).1;
        assert(all == acts.push(a));
        let n = acts.len() as int;
        if t.aborted && !s.aborted {
            assert(all[n] is AbortNoDisplay);
            assert forall|k: int| 0 <= k < all.len() && k != n implies #[trigger] all[k] is Ignore by {
                assert(all[k] == acts[k]);
            }
        }
        if t.aborted && s.aborted {
            let i = choose|i: int|
                0 <= i < acts.len() && #[trigger] acts[i] is AbortNoDisplay && forall|k: int|
                    0 <= k < acts.len() && k != i ==> #[trigger] acts[k] is Ignore;
            assert(all[i] is AbortNoDisplay);
            assert forall|k: int| 0 <= k < all.len() && k != i implies #[trigger] all[k] is Ignore by {
                if k < n {
                    assert(all[k] == acts[k]);
                }
            }
        }
        if t.style_installed {
            if s.style_installed {
                let j = choose|j: int| 0 <= j < acts.len() && #[trigger] acts[j] is InstallStyle;
                assert(all[j] is InstallStyle);
            } else {
                assert(all[n] is InstallStyle);
            }
        }
    }
}

/// A window is never built before the stylesheet has been handed to the
/// display: in every run, each `BuildWindow` comes after an `InstallStyle`.
pub proof fn lemma_style_before_window(evs: Seq<Event>)
    ensures
        forall|i: int|
            0 <= i < run(evs).1.len() && #[trigger] run(evs).1[i] is BuildWindow ==> exists|j: int|
                0 <= j < i && #[trigger] run(evs).1[j] is InstallStyle,
    decreases evs.len(),
{
    if evs.len() > 0 {
        let p = evs.drop_last();
        lemma_style_before_window(p);
        lemma_run_facts(p);
        let (s, acts) = run(p);
        let (t, a) = s.next(evs.last());
        let all = run(evs).1;
        assert(all == acts.push(a));
        assert forall|i: int| 0 <= i < all.len() && #[trigger] all[i] is BuildWindow implies exists|j: int|
            0 <= j < i && #[trigger] all[j] is InstallStyle by {
            if i < acts.len() {
                assert(all[i] == acts[i]);
                let j = choose|j: int| 0 <= j < i && #[trigger] acts[j] is InstallStyle;
                assert(all[j] is InstallStyle);
            } else {
                assert(s.style_installed);
                let j = choose|j: int| 0 <= j < acts.len() && #[trigger] acts[j] is InstallStyle;
                assert(all[j] is InstallStyle);
            }
        }
    }
}

/// A start-up without a display aborts the process, and nothing else is done
/// in that run: wherever `AbortNoDisplay` stands, every other action is
/// `Ignore`, so no window is built, before the abort or after it.
pub proof fn lemma_abort_stands_alone(evs: Seq<Event>)
    ensures
        forall|i: int, k: int|
            0 <= i < run(evs).1.len() && 0 <= k < run(evs).1.len() && i != k
                && #[trigger] run(evs).1[i] is AbortNoDisplay ==> #[trigger] run(evs).1[k] is Ignore,
{
    lemma_run_facts(evs);
}

proof fn lemma_builds_push(acts: Seq<Action>, a: Action)
    ensures
        builds(acts.push(a)) == builds(acts) + if a is BuildWindow { 1nat } else { 0nat },
{
    reveal(Seq::filter);
    assert(acts.push(a).drop_last() =~= acts);
}

/// A stylesheet that cannot be read or parsed blocks nothing: a run ends in
/// the same phase, with the same exit code, and builds as many windows as the
/// same run without the stylesheet failures.
pub proof fn lemma_style_error_does_not_block(evs: Seq<Event>)
    ensures
        same_but_warning(run(evs).0, run(without_style_errors(evs)).0),
        builds(run(evs).1) == builds(run(without_style_errors(evs)).1),
    decreases evs.len(),
{
    if evs.len() > 0 {
        let p = evs.drop_last();
        let e = evs.last();
        reveal(Seq::filter);
        lemma_style_error_does_not_block(p);
        let (s, acts) = run(p);
        let (t, a) = s.next(e);
        lemma_builds_push(acts, a);
        let fp = without_style_errors(p);
        let (u, facts) = run(fp);
        if e is StyleError {
            assert(without_style_errors(evs) == fp);
        } else {
            let f = without_style_errors(evs);
            assert(f == fp.push(e));
            assert(f.drop_last() =~= fp);
            lemma_builds_push(facts, u.next(e).1);
        }
    }
}

} // verus!
