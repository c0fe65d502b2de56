use vstd::prelude::*;

use crate::coordinator::{CoordState, Event, LoadFailure, Outcome, Phase, current, run, state_wf, step};
use crate::history::Entry;
use crate::watch::{FsChange, WatchInput, WatchState, watch_run, watch_step, watch_wf};

verus! {

/// A state waiting for its next change signal, with none queued.
pub open spec fn quiescent<T>(s: CoordState<T>) -> bool {
    &&& state_wf(s)
    &&& s.phase == Phase::Idle
    &&& !s.pending
}

pub open spec fn is_change<T>(e: Event<T>) -> bool {
    match e {
        Event::Change => true,
        _ => false,
    }
}

proof fn lemma_step_keeps_history<T>(s: CoordState<T>, e: Event<T>)
    requires
        state_wf(s),
    ensures
        state_wf(step(s, e).0),
        s.tables.is_prefix_of(step(s, e).0.tables),
        step(s, e).0.tables[0] == s.tables[0],
{
    let t = step(s, e).0.tables;
    if t != s.tables {
        assert(t == s.tables.push(Entry { abi_size_tag: current(s).abi_size_tag, table: t.last().table }));
        assert forall|i: int| 0 <= i < t.len() implies #[trigger] t[i].abi_size_tag == t[0].abi_size_tag by {
            if i < s.tables.len() {
                assert(t[i] == s.tables[i]);
            }
        }
        assert(t[0] == s.tables[0]);
    }
}

/// Whatever events come, the published history only grows, its first table
/// stays the one the process started with, and every table in it, the
/// current one included, carries that table's size tag. So readers always
/// find a validated table, and a table they hold from before a publish is
/// still there afterwards.
pub proof fn lemma_published_tables_stay_valid<T>(s: CoordState<T>, events: Seq<Event<T>>)
    requires
        state_wf(s),
    ensures
        state_wf(run(s, events)),
        s.tables.is_prefix_of(run(s, events).tables),
        run(s, events).tables[0] == s.tables[0],
        current(run(s, events)).abi_size_tag == s.tables[0].abi_size_tag,
    decreases events.len(),
{
    if events.len() > 0 {
        let s1 = step(s, events[0]).0;
        lemma_step_keeps_history(s, events[0]);
        lemma_published_tables_stay_valid(s1, events.drop_first());
        let t = run(s1, events.drop_first()).tables;
        assert forall|i: int| 0 <= i < s.tables.len() implies #[trigger] t[i] == s.tables[i] by {
            assert(s1.tables[i] == s.tables[i]);
        }
    }
    let r = run(s, events);
    assert(r.tables[r.tables.len() - 1].abi_size_tag == r.tables[0].abi_size_tag);
}

/// A change followed by a failed build leaves the current table as it was
/// and records the failure.
pub proof fn lemma_build_failure_keeps_table<T>(s: CoordState<T>)
    requires
        quiescent(s),
    ensures
        run(s, seq![Event::Change, Event::BuildExited { success: false }]).tables == s.tables,
        quiescent(run(s, seq![Event::Change, Event::BuildExited { success: false }])),
        run(s, seq![Event::Change, Event::BuildExited { success: false }]).last_outcome
            == Some(Outcome::BuildFailed),
{
    let ev = seq![Event::Change, Event::BuildExited { success: false }];
    reveal_with_fuel(run, 3);
    assert(ev.drop_first() =~= seq![Event::<T>::BuildExited { success: false }]);
    assert(ev.drop_first().drop_first() =~= Seq::<Event<T>>::empty());
}

/// A change, a successful build, any number of blocked link names, and then
/// a failed load leave the current table as it was and record the failure.
pub proof fn lemma_load_failure_keeps_table<T>(s: CoordState<T>, blocked: nat, reason: LoadFailure)
    requires
        quiescent(s),
    ensures
        ({
            let ev = seq![Event::Change, Event::BuildExited { success: true }]
                + Seq::new(blocked, |i: int| Event::LinkBlocked)
                + seq![Event::LoadFailed(reason)];
            &&& run(s, ev).tables == s.tables
            &&& quiescent(run(s, ev))
            &&& run(s, ev).last_outcome == Some(Outcome::LoadFailed(reason))
        }),
{
    let head = seq![Event::Change, Event::BuildExited { success: true }];
    let mid = Seq::new(blocked, |i: int| Event::<T>::LinkBlocked);
    let tail = seq![Event::LoadFailed(reason)];
    let ev = head + mid + tail;
    let s2 = step(step(s, Event::Change).0, Event::BuildExited { success: true }).0;
    lemma_run_append(s, head, mid + tail);
    assert(head + (mid + tail) =~= ev);
    assert(head.drop_first() =~= seq![Event::<T>::BuildExited { success: true }]);
    assert(head.drop_first().drop_first() =~= Seq::<Event<T>>::empty());
    reveal_with_fuel(run, 3);
    assert(run(s, head) == s2);
    lemma_blocked_links(s2, blocked, tail);
    let s3 = run(s2, mid);
    assert(tail.drop_first() =~= Seq::<Event<T>>::empty());
    assert(run(s3, tail) == step(s3, Event::LoadFailed(reason)).0);
}

proof fn lemma_run_append<T>(s: CoordState<T>, a: Seq<Event<T>>, b: Seq<Event<T>>)
    ensures
        run(s, a + b) == run(run(s, a), b),
    decreases a.len(),
{
    if a.len() > 0 {
        assert((a + b).drop_first() =~= a.drop_first() + b);
        assert((a + b)[0] == a[0]);
        lemma_run_append(step(s, a[0]).0, a.drop_first(), b);
    } else {
        assert(a + b =~= b);
    }
}

/// Blocked link names only move the attempt counter forward.
proof fn lemma_blocked_links<T>(s: CoordState<T>, n: nat, rest: Seq<Event<T>>)
    requires
        s.phase == Phase::Loading,
    ensures
        run(s, Seq::new(n, |i: int| Event::<T>::LinkBlocked) + rest) == run(
            run(s, Seq::new(n, |i: int| Event::<T>::LinkBlocked)),
            rest,
        ),
        run(s, Seq::new(n, |i: int| Event::<T>::LinkBlocked)).phase == Phase::Loading,
        run(s, Seq::new(n, |i: int| Event::<T>::LinkBlocked)).pending == s.pending,
        run(s, Seq::new(n, |i: int| Event::<T>::LinkBlocked)).tables == s.tables,
    decreases n,
{
    let m = Seq::new(n, |i: int| Event::<T>::LinkBlocked);
    lemma_run_append(s, m, rest);
    if n > 0 {
        let s1 = step(s, Event::LinkBlocked).0;
        assert(m.drop_first() =~= Seq::new((n - 1) as nat, |i: int| Event::<T>::LinkBlocked));
        lemma_blocked_links(s1, (n - 1) as nat, rest);
    }
}

/// Without change signals an idle coordinator never publishes: the current
/// table stays the same for the whole run.
pub proof fn lemma_no_change_keeps_table<T>(s: CoordState<T>, events: Seq<Event<T>>)
    requires
        s.phase == Phase::Idle,
        forall|i: int| 0 <= i < events.len() ==> !is_change(#[trigger] events[i]),
    ensures
        run(s, events) == s,
    decreases events.len(),
{
    if events.len() > 0 {
        assert(!is_change(events[0]));
        assert(step(s, events[0]).0 == s);
        let rest = events.drop_first();
        assert forall|i: int| 0 <= i < rest.len() implies !is_change(#[trigger] rest[i]) by {
            assert(rest[i] == events[i + 1]);
        }
        lemma_no_change_keeps_table(s, rest);
    }
}

/// A rebuilt table with the current size tag is published exactly once: the
/// history gains that one table, which becomes current.
pub proof fn lemma_same_size_publishes_once<T>(s: CoordState<T>, table: T)
    requires
        quiescent(s),
    ensures
        ({
            let tag = current(s).abi_size_tag;
            let r = run(
                s,
                seq![Event::Change, Event::BuildExited { success: true }, Event::Loaded { abi_size_tag: tag, table }],
            );
            &&& r.tables == s.tables.push(Entry { abi_size_tag: tag, table })
            &&& current(r).table == table
            &&& quiescent(r)
            &&& r.last_outcome == Some(Outcome::Published { generation: s.tables.len() as usize })
        }),
{
    let tag = current(s).abi_size_tag;
    let ev = seq![Event::Change, Event::BuildExited { success: true }, Event::Loaded { abi_size_tag: tag, table }];
    reveal_with_fuel(run, 4);
    assert(ev.drop_first() =~= seq![Event::BuildExited { success: true }, Event::Loaded { abi_size_tag: tag, table }]);
    assert(ev.drop_first().drop_first() =~= seq![Event::Loaded { abi_size_tag: tag, table }]);
    assert(ev.drop_first().drop_first().drop_first() =~= Seq::<Event<T>>::empty());
    lemma_published_tables_stay_valid(s, ev);
}

/// A rebuilt table whose size tag differs from the current one is rejected:
/// the history stays as it was and the rejection is recorded.
pub proof fn lemma_size_change_is_rejected<T>(s: CoordState<T>, abi_size_tag: usize, table: T)
    requires
        quiescent(s),
        abi_size_tag != current(s).abi_size_tag,
    ensures
        ({
            let r = run(
                s,
                seq![Event::Change, Event::BuildExited { success: true }, Event::Loaded { abi_size_tag, table }],
            );
            &&& r.tables == s.tables
            &&& quiescent(r)
            &&& r.last_outcome == Some(
                Outcome::AbiRejected { expected: current(s).abi_size_tag, found: abi_size_tag },
            )
        }),
{
    let ev = seq![Event::Change, Event::BuildExited { success: true }, Event::Loaded { abi_size_tag, table }];
    reveal_with_fuel(run, 4);
    assert(ev.drop_first() =~= seq![Event::BuildExited { success: true }, Event::Loaded { abi_size_tag, table }]);
    assert(ev.drop_first().drop_first() =~= seq![Event::Loaded { abi_size_tag, table }]);
    assert(ev.drop_first().drop_first().drop_first() =~= Seq::<Event<T>>::empty());
}

/// Two signals are never closer together than the debounce interval, and
/// the watcher's bookkeeping stays consistent.
pub proof fn lemma_signals_are_spaced(s: WatchState, input: WatchInput)
    requires
        watch_wf(s),
    ensures
        watch_wf(watch_step(s, input).0),
        watch_step(s, input).0.interval == s.interval,
        watch_step(s, input).1.signal ==> watch_step(s, input).0.last_signal == Some(watch_step(s, input).0.now),
        watch_step(s, input).1.signal ==> (s.last_signal matches Some(l) ==> watch_step(s, input).0.now >= l
            + s.interval),
{
}

/// No change is lost: once the interval has passed since a pending burst
/// began, the next tick delivers its signal.
pub proof fn lemma_pending_change_fires(s: WatchState, at: u64)
    requires
        watch_wf(s),
        s.pending_since is Some,
        at >= s.pending_since.unwrap() + s.interval,
    ensures
        watch_step(s, WatchInput::Tick { at }).1.signal,
        watch_step(s, WatchInput::Tick { at }).0.pending_since is None,
{
}

/// An input that belongs to a burst starting at `t0`: a filesystem change
/// or read inside the interval, or a tick before the interval is over.
pub open spec fn in_burst(input: WatchInput, t0: u64, interval: u64) -> bool {
    match input {
        WatchInput::Fs { change, at } => change != FsChange::RootRemoved && t0 <= at && at < t0 + interval,
        WatchInput::Tick { at } => at < t0 + interval,
        WatchInput::Rearmed { .. } => false,
    }
}

proof fn lemma_burst_tail(s: WatchState, t0: u64, rest: Seq<WatchInput>, close: u64)
    requires
        s.pending_since == Some(t0),
        s.now < t0 + s.interval,
        forall|i: int| 0 <= i < rest.len() ==> in_burst(#[trigger] rest[i], t0, s.interval),
        close >= t0 + s.interval,
    ensures
        watch_run(s, rest.push(WatchInput::Tick { at: close })).1 == 1,
        watch_run(s, rest.push(WatchInput::Tick { at: close })).0.pending_since is None,
    decreases rest.len(),
{
    let all = rest.push(WatchInput::Tick { at: close });
    reveal_with_fuel(watch_run, 2);
    if rest.len() == 0 {
        assert(all.drop_first() =~= Seq::<WatchInput>::empty());
    } else {
        assert(all[0] == rest[0]);
        assert(in_burst(rest[0], t0, s.interval));
        assert(all.drop_first() =~= rest.drop_first().push(WatchInput::Tick { at: close }));
        let s1 = watch_step(s, rest[0]).0;
        assert(!watch_step(s, rest[0]).1.signal);
        let tail = rest.drop_first();
        assert forall|i: int| 0 <= i < tail.len() implies in_burst(#[trigger] tail[i], t0, s1.interval) by {
            assert(tail[i] == rest[i + 1]);
        }
        lemma_burst_tail(s1, t0, tail, close);
    }
}

/// A burst of filesystem events inside one debounce interval, closed by a
/// tick once the interval has passed, yields exactly one change signal.
pub proof fn lemma_burst_gives_one_signal(s: WatchState, t0: u64, burst: Seq<WatchInput>, close: u64)
    requires
        watch_wf(s),
        s.pending_since is None,
        s.now <= t0,
        burst.len() > 0,
        burst[0] == (WatchInput::Fs { change: FsChange::Modified, at: t0 }),
        forall|i: int| 0 <= i < burst.len() ==> in_burst(#[trigger] burst[i], t0, s.interval),
        close >= t0 + s.interval,
    ensures
        watch_run(s, burst.push(WatchInput::Tick { at: close })).1 == 1,
{
    let all = burst.push(WatchInput::Tick { at: close });
    assert(all[0] == burst[0]);
    assert(all.drop_first() =~= burst.drop_first().push(WatchInput::Tick { at: close }));
    let s1 = watch_step(s, burst[0]).0;
    assert(s1.pending_since == Some(t0));
    let tail = burst.drop_first();
    assert forall|i: int| 0 <= i < tail.len() implies in_burst(#[trigger] tail[i], t0, s1.interval) by {
        assert(tail[i] == burst[i + 1]);
    }
    lemma_burst_tail(s1, t0, tail, close);
}

/// When an editor deletes and recreates the watched root inside one
/// interval, the watcher asks once for a fresh watch, delivers exactly one
/// signal, and, with the fresh watch in place, still reports a later change.
pub proof fn lemma_root_removal_rearms(s: WatchState, t0: u64, t1: u64, t2: u64, t3: u64, t4: u64)
    requires
        watch_wf(s),
        s.pending_since is None,
        s.now <= t0 <= t1,
        t1 < t0 + s.interval,
        t0 + s.interval <= t2 <= t3,
        t4 >= t3 + s.interval,
    ensures
        ({
            let first = seq![
                WatchInput::Fs { change: FsChange::RootRemoved, at: t0 },
                WatchInput::Rearmed { ok: true },
                WatchInput::Fs { change: FsChange::Modified, at: t1 },
                WatchInput::Tick { at: t2 },
            ];
            let more = seq![WatchInput::Fs { change: FsChange::Modified, at: t3 }, WatchInput::Tick { at: t4 }];
            &&& watch_run(s, first).1 == 1
            &&& watch_run(s, first).2 == 1
            &&& watch_run(s, first).0.armed
            &&& watch_run(s, first + more).1 == 2
            &&& watch_run(s, first + more).2 == 1
        }),
{
    let first = seq![
        WatchInput::Fs { change: FsChange::RootRemoved, at: t0 },
        WatchInput::Rearmed { ok: true },
        WatchInput::Fs { change: FsChange::Modified, at: t1 },
        WatchInput::Tick { at: t2 },
    ];
    let more = seq![WatchInput::Fs { change: FsChange::Modified, at: t3 }, WatchInput::Tick { at: t4 }];
    let all = first + more;
    reveal_with_fuel(watch_run, 7);
    assert(first.drop_first() =~= seq![first[1], first[2], first[3]]);
    assert(first.drop_first().drop_first() =~= seq![first[2], first[3]]);
    assert(first.drop_first().drop_first().drop_first() =~= seq![first[3]]);
    assert(first.drop_first().drop_first().drop_first().drop_first() =~= Seq::<WatchInput>::empty());
    assert(all =~= seq![first[0], first[1], first[2], first[3], more[0], more[1]]);
    assert(all.drop_first() =~= seq![first[1], first[2], first[3], more[0], more[1]]);
    assert(all.drop_first().drop_first() =~= seq![first[2], first[3], more[0], more[1]]);
    assert(all.drop_first().drop_first().drop_first() =~= seq![first[3], more[0], more[1]]);
    assert(all.drop_first().drop_first().drop_first().drop_first() =~= seq![more[0], more[1]]);
    assert(all.drop_first().drop_first().drop_first().drop_first().drop_first() =~= seq![more[1]]);
    assert(all.drop_first().drop_first().drop_first().drop_first().drop_first().drop_first()
        =~= Seq::<WatchInput>::empty());
}

} // verus!
