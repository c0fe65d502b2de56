use vstd::prelude::*;

verus! {

/// Quiet time, in milliseconds, that a burst of filesystem events must
/// leave before it turns into one change signal.
pub const DEBOUNCE_INTERVAL_MS: u64 = 1000;

/// The filesystem event kinds as the watcher backend reports them.
#[derive(Debug, Clone, Copy, PartialEq, Eq, Structural)]
pub enum RawKind {
    Access,
    Remove,
    Other,
}

/// What a filesystem event means to the watcher.
#[derive(Debug, Clone, Copy, PartialEq, Eq, Structural)]
pub enum FsChange {
    /// A read: nothing changed.
    Access,
    /// Something under the watched root changed.
    Modified,
    /// The watched root itself was removed; the watch has to be set up again.
    RootRemoved,
}

/// Input to the watcher state machine. Times are milliseconds on a clock
/// that the caller picks; a time earlier than one already seen counts as
/// the latest time seen.
#[derive(Debug, Clone, Copy, PartialEq, Eq, Structural)]
pub enum WatchInput {
    Fs { change: FsChange, at: u64 },
    Tick { at: u64 },
    Rearmed { ok: bool },
}

/// What the watcher asks for after one input.
#[derive(Debug, Clone, Copy, PartialEq, Eq, Structural)]
pub struct WatchOutput {
    /// Deliver one change signal downstream.
    pub signal: bool,
    /// Set up a fresh watch on the root: asked for when the root is removed,
    /// and on every tick until a fresh watch is in place.
    pub rearm: bool,
}

/// The abstract state of the watcher.
#[derive(Debug, Clone, Copy, PartialEq, Eq, Structural)]
pub struct WatchState {
    pub interval: u64,
    pub now: u64,
    pub pending_since: Option<u64>,
    pub last_signal: Option<u64>,
    pub armed: bool,
}

pub open spec fn watch_wf(s: WatchState) -> bool {
    &&& (s.pending_since matches Some(p) ==> p <= s.now)
    &&& (s.last_signal matches Some(l) ==> l <= s.now)
    &&& (s.pending_since matches Some(p) ==> (s.last_signal matches Some(l) ==> l <= p))
}

pub open spec fn later(now: u64, at: u64) -> u64 {
    if at > now {
        at
    } else {
        now
    }
}

pub open spec fn quiet() -> WatchOutput {
    WatchOutput { signal: false, rearm: false }
}

/// Marks a change at time `t`, keeping the start of a burst already pending.
pub open spec fn note_change(s: WatchState, t: u64) -> Option<u64> {
    match s.pending_since {
        Some(p) => Some(p),
        None => Some(t),
    }
}

/// One transition of the watcher.
pub open spec fn watch_step(s: WatchState, input: WatchInput) -> (WatchState, WatchOutput) {
    match input {
        WatchInput::Fs { change, at } => {
            let t = later(s.now, at);
            match change {
                FsChange::Access => (WatchState { now: t, ..s }, quiet()),
                FsChange::Modified => (
                    WatchState { now: t, pending_since: note_change(s, t), ..s },
                    quiet(),
                ),
                FsChange::RootRemoved => (
                    WatchState { now: t, pending_since: note_change(s, t), armed: false, ..s },
                    WatchOutput { signal: false, rearm: true },
                ),
            }
        },
        WatchInput::Tick { at } => {
            let t = later(s.now, at);
            let rearm = !s.armed;
            match s.pending_since {
                Some(p) => {
                    if t - p >= s.interval {
                        (
                            WatchState { now: t, pending_since: None, last_signal: Some(t), ..s },
                            WatchOutput { signal: true, rearm },
                        )
                    } else {
                        (WatchState { now: t, ..s }, WatchOutput { signal: false, rearm })
                    }
                },
                None => (WatchState { now: t, ..s }, WatchOutput { signal: false, rearm }),
            }
        },
        WatchInput::Rearmed { ok } => (WatchState { armed: ok, ..s }, quiet()),
    }
}

/// The state after `inputs`, with how many signals and re-arm requests they produced.
pub open spec fn watch_run(s: WatchState, inputs: Seq<WatchInput>) -> (WatchState, nat, nat)
    decreases inputs.len(),
{
    if inputs.len() == 0 {
        (s, 0, 0)
    } else {
        let (s1, out) = watch_step(s, inputs[0]);
        let (r, n, m) = watch_run(s1, inputs.drop_first());
        (r, n + if out.signal { 1nat } else { 0nat }, m + if out.rearm { 1nat } else { 0nat })
    }
}

/// Debounces filesystem events into change signals and asks for a fresh
/// watch when the watched root disappears.
pub struct Debouncer {
    state: WatchState,
}

impl View for Debouncer {
    type V = WatchState;

    closed spec fn view(&self) -> WatchState {
        self.state
    }
}

impl Debouncer {
    pub open spec fn wf(&self) -> bool {
        watch_wf(self@)
    }

    /// A debouncer with an armed watch, nothing pending, and its clock at `now`.
    pub fn new(interval: u64, now: u64) -> (r: Self)
        ensures
            r@ == (WatchState { interval, now, pending_since: None, last_signal: None, armed: true }),
            r.wf(),
    {
        Debouncer { state: WatchState { interval, now, pending_since: None, last_signal: None, armed: true } }
    }

    pub fn state(&self) -> (r: WatchState)
        ensures
            r == self@,
    {
        self.state
    }

    /// Feeds one input and returns what to do.
    pub fn step(&mut self, input: WatchInput) -> (r: WatchOutput)
        requires
            old(self).wf(),
        ensures
            (final(self)@, r) == watch_step(old(self)@, input),
            final(self).wf(),
    {
        let s = self.state;
        match input {
            WatchInput::Fs { change, at } => {
                let t = if at > s.now { at } else { s.now };
                let pending = match s.pending_since {
                    Some(p) => Some(p),
                    None => Some(t),
                };
                match change {
                    FsChange::Access => {
                        self.state = WatchState { now: t, ..s };
                        WatchOutput { signal: false, rearm: false }
                    },
                    FsChange::Modified => {
                        self.state = WatchState { now: t, pending_since: pending, ..s };
                        WatchOutput { signal: false, rearm: false }
                    },
                    FsChange::RootRemoved => {
                        self.state = WatchState { now: t, pending_since: pending, armed: false, ..s };
                        WatchOutput { signal: false, rearm: true }
                    },
                }
            },
            WatchInput::Tick { at } => {
                let t = if at > s.now { at } else { s.now };
                let rearm = !s.armed;
                match s.pending_since {
                    Some(p) => {
                        if t - p >= s.interval {
                            self.state = WatchState { now: t, pending_since: None, last_signal: Some(t), ..s };
                            WatchOutput { signal: true, rearm }
                        } else {
                            self.state = WatchState { now: t, ..s };
                            WatchOutput { signal: false, rearm }
                        }
                    },
                    None => {
                        self.state = WatchState { now: t, ..s };
                        WatchOutput { signal: false, rearm }
                    },
                }
            },
            WatchInput::Rearmed { ok } => {
                self.state = WatchState { armed: ok, ..s };
                WatchOutput { signal: false, rearm: false }
            },
        }
    }
}

/// Sorts a raw event: reads are ignored, and a removal that names the
/// watched root is told apart from other changes.
pub fn classify(kind: RawKind, paths: &Vec<String>, root: &String) -> (r: FsChange)
    ensures
        kind == RawKind::Access ==> r == FsChange::Access,
        kind == RawKind::Other ==> r == FsChange::Modified,
        kind == RawKind::Remove ==> (r == FsChange::RootRemoved <==> exists|i: int|
            0 <= i < paths@.len() && #[trigger] paths@[i]@ == root@),
        kind == RawKind::Remove ==> (r == FsChange::RootRemoved || r == FsChange::Modified),
{
    match kind {
        RawKind::Access => FsChange::Access,
        RawKind::Other => FsChange::Modified,
        RawKind::Remove => {
            let mut i: usize = 0;
            while i < paths.len()
                invariant
                    kind == RawKind::Remove,
                    i <= paths@.len(),
                    forall|j: int| 0 <= j < i ==> #[trigger] paths@[j]@ != root@,
                decreases paths@.len() - i,
            {
                if paths[i] == *root {
                    assert(paths@[i as int]@ == root@);
                    return FsChange::RootRemoved;
                }
                i = i + 1;
            }
            FsChange::Modified
        },
    }
}

} // verus!
