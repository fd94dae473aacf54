//! What holds of the slot over any course of changes, of two launches that
//! race for it, and of a launch that finds the slot in whatever state.
//!
//! A launch changes the slot twice: it empties it at its beginning, and it
//! installs the new process once that is spawned. Each change has exclusive
//! access; between the two of one launch, those of another may fall.

use crate::engine::{launch_args, sidecar_name, EngineConfig};
use crate::supervisor::{
    slot_apply, start_begin, start_step, ManagedProcess, SlotOp, StartActionView, StartEventView,
    StartModel, StartPhase, StartStep,
};
use vstd::prelude::*;

verus! {

/// The slot after `ops`, applied one after the other.
pub open spec fn slot_run<P>(slot: Option<P>, ops: Seq<SlotOp<P>>) -> Option<P>
    decreases ops.len(),
{
    if ops.len() == 0 {
        slot
    } else {
        slot_run(slot_apply(slot, ops[0]).0, ops.drop_first())
    }
}

/// What `ops` release from the slot, in order: what the caller is handed
/// to terminate.
pub open spec fn released<P>(slot: Option<P>, ops: Seq<SlotOp<P>>) -> Seq<P>
    decreases ops.len(),
{
    if ops.len() == 0 {
        seq![]
    } else {
        let (next, out) = slot_apply(slot, ops[0]);
        (match out {
            Some(p) => seq![p],
            None => seq![],
        }) + released(next, ops.drop_first())
    }
}

/// The changes that one launch makes to the slot: it empties it, and, if the
/// worker was spawned, installs it.
pub open spec fn start_ops<P>(spawned: Option<P>) -> Seq<SlotOp<P>> {
    match spawned {
        Some(p) => seq![SlotOp::Clear, SlotOp::Install(p)],
        None => seq![SlotOp::Clear],
    }
}

/// `xs` and `ys` woven into one sequence, each in its own order: where both
/// have something left, `turns` says whose comes next (`true` for `xs`, and
/// `ys` once `turns` is used up).
pub open spec fn interleave<T>(xs: Seq<T>, ys: Seq<T>, turns: Seq<bool>) -> Seq<T>
    decreases xs.len() + ys.len(),
{
    let later = if turns.len() > 0 {
        turns.drop_first()
    } else {
        turns
    };
    if xs.len() == 0 {
        ys
    } else if ys.len() == 0 {
        xs
    } else if turns.len() > 0 && turns[0] {
        seq![xs[0]] + interleave(xs.drop_first(), ys, later)
    } else {
        seq![ys[0]] + interleave(xs, ys.drop_first(), later)
    }
}

/// After any changes, the slot is what the last of them made it: empty
/// after a clearing, the installed process after an installation.
pub proof fn lemma_last_change_decides<P>(slot: Option<P>, ops: Seq<SlotOp<P>>)
    requires
        ops.len() > 0,
    ensures
        slot_run(slot, ops) == slot_apply(slot, ops.last()).0,
    decreases ops.len(),
{
    let next = slot_apply(slot, ops[0]).0;
    let rest = ops.drop_first();
    if ops.len() > 1 {
        assert(rest.last() == ops.last());
        lemma_last_change_decides(next, rest);
        assert(slot_apply(next, ops.last()).0 == slot_apply(slot, ops.last()).0);
    } else {
        assert(rest.len() == 0);
        assert(slot_run(next, rest) == next);
        assert(ops.last() == ops[0]);
    }
}

/// The first change releases what the slot held.
pub proof fn lemma_first_change_releases<P>(slot: Option<P>, ops: Seq<SlotOp<P>>)
    requires
        ops.len() > 0,
    ensures
        slot matches Some(p) ==> released(slot, ops).len() > 0 && released(slot, ops)[0] == p,
{
}

/// No process is lost: one that was in the slot, or was installed, and is
/// not in the slot at the end, has been released to the caller.
pub proof fn lemma_nothing_is_lost<P>(slot: Option<P>, ops: Seq<SlotOp<P>>, p: P)
    requires
        slot == Some(p) || ops.contains(SlotOp::Install(p)),
        slot_run(slot, ops) != Some(p),
    ensures
        released(slot, ops).contains(p),
    decreases ops.len(),
{
    if ops.len() > 0 {
        let (next, out) = slot_apply(slot, ops[0]);
        let rest = ops.drop_first();
        let head = match out {
            Some(q) => seq![q],
            None => seq![],
        };
        let tail = released(next, rest);
        assert(released(slot, ops) == head + tail);
        if slot == Some(p) {
            assert(head[0] == p);
            assert((head + tail)[0] == p);
        } else {
            let k = choose|k: int| 0 <= k < ops.len() && ops[k] == SlotOp::Install(p);
            if k > 0 {
                assert(rest[k - 1] == SlotOp::Install(p));
            }
            lemma_nothing_is_lost(next, rest, p);
            let j = choose|j: int| 0 <= j < tail.len() && tail[j] == p;
            assert((head + tail)[head.len() + j] == p);
        }
    }
}

/// Weaving keeps every element, and ends with the last element of one of
/// the two sequences.
pub proof fn lemma_interleave<T>(xs: Seq<T>, ys: Seq<T>, turns: Seq<bool>)
    ensures
        interleave(xs, ys, turns).len() == xs.len() + ys.len(),
        forall|x: T| xs.contains(x) || ys.contains(x) ==> #[trigger] interleave(xs, ys, turns).contains(x),
        xs.len() > 0 && ys.len() > 0 ==> interleave(xs, ys, turns).last() == xs.last() || interleave(
            xs,
            ys,
            turns,
        ).last() == ys.last(),
    decreases xs.len() + ys.len(),
{
    let woven = interleave(xs, ys, turns);
    let later = if turns.len() > 0 {
        turns.drop_first()
    } else {
        turns
    };
    if xs.len() == 0 || ys.len() == 0 {
    } else if turns.len() > 0 && turns[0] {
        let rest = interleave(xs.drop_first(), ys, later);
        lemma_interleave(xs.drop_first(), ys, later);
        assert(woven == seq![xs[0]] + rest);
        assert(woven.last() == rest.last());
        if xs.len() > 1 {
            assert(xs.drop_first().last() == xs.last());
        }
        assert forall|x: T| xs.contains(x) || ys.contains(x) implies woven.contains(x) by {
            if xs.contains(x) {
                let k = choose|k: int| 0 <= k < xs.len() && xs[k] == x;
                if k == 0 {
                    assert(woven[0] == x);
                } else {
                    assert(xs.drop_first()[k - 1] == x);
                    assert(rest.contains(x));
                    let j = choose|j: int| 0 <= j < rest.len() && rest[j] == x;
                    assert(woven[j + 1] == x);
                }
            } else {
                assert(rest.contains(x));
                let j = choose|j: int| 0 <= j < rest.len() && rest[j] == x;
                assert(woven[j + 1] == x);
            }
        }
    } else {
        let rest = interleave(xs, ys.drop_first(), later);
        lemma_interleave(xs, ys.drop_first(), later);
        assert(woven == seq![ys[0]] + rest);
        assert(woven.last() == rest.last());
        if ys.len() > 1 {
            assert(ys.drop_first().last() == ys.last());
        }
        assert forall|x: T| xs.contains(x) || ys.contains(x) implies woven.contains(x) by {
            if ys.contains(x) {
                let k = choose|k: int| 0 <= k < ys.len() && ys[k] == x;
                if k == 0 {
                    assert(woven[0] == x);
                } else {
                    assert(ys.drop_first()[k - 1] == x);
                    assert(rest.contains(x));
                    let j = choose|j: int| 0 <= j < rest.len() && rest[j] == x;
                    assert(woven[j + 1] == x);
                }
            } else {
                assert(rest.contains(x));
                let j = choose|j: int| 0 <= j < rest.len() && rest[j] == x;
                assert(woven[j + 1] == x);
            }
        }
    }
}

/// Two launches race for the slot, in whatever order their changes fall.
/// The process that the slot held before is released for termination. At
/// the end the slot holds at most one process, and only one that one of the
/// two launches spawned; where both spawned one, it holds one of them. A
/// spawned process that is not in the slot at the end has been released for
/// termination too.
pub proof fn lemma_two_starts_leave_one<P>(
    before: Option<P>,
    first: Option<P>,
    second: Option<P>,
    turns: Seq<bool>,
)
    ensures
        ({
            let ops = interleave(start_ops(first), start_ops(second), turns);
            let end = slot_run(before, ops);
            let out = released(before, ops);
            &&& before matches Some(p) ==> out.contains(p)
            &&& end matches Some(p) ==> first == Some(p) || second == Some(p)
            &&& first is Some && second is Some ==> end is Some
            &&& first matches Some(p) ==> end == Some(p) || out.contains(p)
            &&& second matches Some(p) ==> end == Some(p) || out.contains(p)
        }),
{
    let xs = start_ops(first);
    let ys = start_ops(second);
    let ops = interleave(xs, ys, turns);
    lemma_interleave(xs, ys, turns);
    lemma_last_change_decides(before, ops);
    lemma_first_change_releases(before, ops);
    assert(xs.last() == match first {
        Some(p) => SlotOp::Install(p),
        None => SlotOp::Clear,
    });
    assert(ys.last() == match second {
        Some(p) => SlotOp::Install(p),
        None => SlotOp::Clear,
    });
    match first {
        Some(p) => {
            assert(xs[1] == SlotOp::Install(p));
            assert(xs.contains(SlotOp::Install(p)));
            assert(ops.contains(SlotOp::Install(p)));
            if slot_run(before, ops) != Some(p) {
                lemma_nothing_is_lost(before, ops, p);
            }
        },
        None => {},
    }
    match second {
        Some(p) => {
            assert(ys[1] == SlotOp::Install(p));
            assert(ys.contains(SlotOp::Install(p)));
            assert(ops.contains(SlotOp::Install(p)));
            if slot_run(before, ops) != Some(p) {
                lemma_nothing_is_lost(before, ops, p);
            }
        },
        None => {},
    }
}

/// A launch changes the slot exactly as [`start_ops`] says: its beginning
/// empties the slot and asks for the termination of what it held; the
/// report of a spawned worker installs that worker and asks for the
/// termination of what it displaced; no other step touches the slot.
pub proof fn lemma_launch_changes_the_slot_twice<H>(
    launch: StartModel,
    slot: Option<ManagedProcess<H>>,
    event: StartEventView<H>,
)
    ensures
        start_begin(launch.config, slot).slot == slot_apply(slot, SlotOp::Clear).0,
        slot matches Some(p) ==> start_begin(launch.config, slot).action
            == StartActionView::Terminate(p),
        start_step(launch, slot, event) matches Some(next) ==> (match event {
            StartEventView::Spawned { handle, launched_at } => {
                let process = ManagedProcess { handle, config: launch.config, launched_at };
                &&& next.slot == slot_apply(slot, SlotOp::Install(process)).0
                &&& slot matches Some(p) ==> next.action == StartActionView::Terminate(p)
            },
            _ => next.slot == slot,
        }),
{
}

/// The events of a launch in which every outside step succeeds, for a slot
/// that was `occupied` or not when the launch began.
pub open spec fn smooth_launch<H>(occupied: bool, handle: H, launched_at: u64) -> Seq<
    StartEventView<H>,
> {
    let rest = seq![
        StartEventView::BinaryResolved,
        StartEventView::Spawned { handle, launched_at },
        StartEventView::WatcherLaunched,
    ];
    if occupied {
        seq![StartEventView::Terminated] + rest
    } else {
        rest
    }
}

/// The launch and the slot after `events`, and the actions asked for on the
/// way, `from` being where the launch stands and `asked` what it has asked
/// for so far.
pub open spec fn launch_run<H>(
    from: StartStep<H>,
    asked: Seq<StartActionView<H>>,
    events: Seq<StartEventView<H>>,
) -> (StartStep<H>, Seq<StartActionView<H>>)
    decreases events.len(),
{
    if events.len() == 0 {
        (from, asked)
    } else {
        match start_step(from.launch, from.slot, events[0]) {
            Some(next) => launch_run(next, asked.push(next.action), events.drop_first()),
            None => launch_run(from, asked, events.drop_first()),
        }
    }
}

/// Whatever the slot holds, be it nothing, a running worker or one that has
/// crashed, a launch whose outside steps succeed returns success and leaves
/// the new process in the slot. What the slot held is handed out for
/// termination first, before anything else is asked for.
pub proof fn lemma_launch_succeeds_whatever_the_slot_holds<H>(
    config: EngineConfig,
    slot: Option<ManagedProcess<H>>,
    handle: H,
    launched_at: u64,
)
    ensures
        ({
            let begun = start_begin(config, slot);
            let (end, asked) = launch_run(
                begun,
                seq![begun.action],
                smooth_launch(slot is Some, handle, launched_at),
            );
            let rest = seq![
                StartActionView::ResolveBinary(sidecar_name()),
                StartActionView::Spawn(launch_args(config)),
                StartActionView::LaunchWatcher,
                StartActionView::Finish(Ok(())),
            ];
            &&& end.launch.phase == StartPhase::Finished
            &&& end.slot == Some(ManagedProcess { handle, config, launched_at })
            &&& asked == match slot {
                Some(previous) => seq![StartActionView::Terminate(previous)] + rest,
                None => rest,
            }
        }),
{
    let begun = start_begin(config, slot);
    let events = smooth_launch(slot is Some, handle, launched_at);
    let asked0 = seq![begun.action];
    reveal_with_fuel(launch_run, 5);
    let rest = seq![
        StartActionView::<H>::ResolveBinary(sidecar_name()),
        StartActionView::Spawn(launch_args(config)),
        StartActionView::LaunchWatcher,
        StartActionView::Finish(Ok(())),
    ];
    match slot {
        Some(previous) => {
            let e1 = events.drop_first();
            let e2 = e1.drop_first();
            let e3 = e2.drop_first();
            let e4 = e3.drop_first();
            assert(events.len() == 4 && e1.len() == 3 && e2.len() == 2 && e3.len() == 1 && e4.len()
                == 0);
            assert(events[0] == StartEventView::<H>::Terminated);
            assert(e1[0] == StartEventView::<H>::BinaryResolved);
            assert(e2[0] == StartEventView::Spawned { handle, launched_at });
            assert(e3[0] == StartEventView::<H>::WatcherLaunched);
            let (end, asked) = launch_run(begun, asked0, events);
            assert(asked =~= seq![StartActionView::Terminate(previous)] + rest);
        },
        None => {
            let e1 = events.drop_first();
            let e2 = e1.drop_first();
            let e3 = e2.drop_first();
            assert(events.len() == 3 && e1.len() == 2 && e2.len() == 1 && e3.len() == 0);
            assert(events[0] == StartEventView::<H>::BinaryResolved);
            assert(e1[0] == StartEventView::Spawned { handle, launched_at });
            assert(e2[0] == StartEventView::<H>::WatcherLaunched);
            let (end, asked) = launch_run(begun, asked0, events);
            assert(asked =~= rest);
        },
    }
}

} // verus!
