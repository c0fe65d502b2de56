use vstd::prelude::*;

use crate::history::{Entry, ReloadHistory, history_wf};

verus! {

/// Where the coordinator stands in one reload attempt.
#[derive(Debug, Clone, Copy, PartialEq, Eq, Structural)]
pub enum Phase {
    /// Waiting for a change signal.
    Idle,
    /// The rebuild command is running.
    Building,
    /// The rebuilt artifact is being linked, opened and searched for its table.
    Loading,
}

/// Why a freshly built artifact could not be loaded.
#[derive(Debug, Clone, Copy, PartialEq, Eq, Structural)]
pub enum LoadFailure {
    /// The per-attempt hard link to the artifact could not be created.
    LinkFailed,
    /// The dynamic loader refused the artifact.
    OpenFailed,
    /// The artifact does not export the dispatch table symbol.
    SymbolMissing,
}

/// How a reload attempt ended.
#[derive(Debug, Clone, Copy, PartialEq, Eq, Structural)]
pub enum Outcome {
    BuildFailed,
    LoadFailed(LoadFailure),
    AbiRejected { expected: usize, found: usize },
    Published { generation: usize },
}

/// What the world reports back to the coordinator.
pub enum Event<T> {
    /// The watched sources changed.
    Change,
    /// The rebuild command ended; a spawn failure counts as no success.
    BuildExited { success: bool },
    /// A stale link from an earlier run holds the attempt's link name and
    /// could not be removed.
    LinkBlocked,
    /// Loading the artifact failed.
    LoadFailed(LoadFailure),
    /// The artifact was opened and exported this table.
    Loaded { abi_size_tag: usize, table: T },
}

/// What the coordinator asks the world to do next.
#[derive(Debug, Clone, Copy, PartialEq, Eq, Structural)]
pub enum Action {
    /// Nothing new: keep doing what is in flight, or keep waiting.
    Continue,
    /// Run the rebuild command.
    RunBuild,
    /// Load the artifact through the link with this attempt number.
    Load { attempt: u64 },
    /// The attempt is over. When `again` holds a signal came in meanwhile
    /// and a new build is to be run right away.
    Finished { outcome: Outcome, again: bool },
}

/// The abstract state of the coordinator.
pub struct CoordState<T> {
    pub phase: Phase,
    pub pending: bool,
    pub next_attempt: u64,
    pub tables: Seq<Entry<T>>,
    pub last_outcome: Option<Outcome>,
}

pub open spec fn state_wf<T>(s: CoordState<T>) -> bool {
    history_wf(s.tables)
}

/// The table that readers dispatch through in state `s`.
pub open spec fn current<T>(s: CoordState<T>) -> Entry<T> {
    s.tables.last()
}

pub open spec fn bump(n: u64) -> u64 {
    if n < u64::MAX {
        (n + 1) as u64
    } else {
        n
    }
}

/// Ends the attempt in flight with `outcome`, keeping `tables` as the history.
pub open spec fn finish<T>(s: CoordState<T>, tables: Seq<Entry<T>>, outcome: Outcome) -> (CoordState<T>, Action) {
    (
        CoordState {
            phase: if s.pending { Phase::Building } else { Phase::Idle },
            pending: false,
            next_attempt: s.next_attempt,
            tables,
            last_outcome: Some(outcome),
        },
        Action::Finished { outcome, again: s.pending },
    )
}

/// One transition of the reload state machine.
pub open spec fn step<T>(s: CoordState<T>, e: Event<T>) -> (CoordState<T>, Action) {
    match e {
        Event::Change => {
            if s.phase == Phase::Idle {
                (CoordState { phase: Phase::Building, ..s }, Action::RunBuild)
            } else {
                (CoordState { pending: true, ..s }, Action::Continue)
            }
        },
        Event::BuildExited { success } => {
            if s.phase != Phase::Building {
                (s, Action::Continue)
            } else if success {
                (
                    CoordState { phase: Phase::Loading, next_attempt: bump(s.next_attempt), ..s },
                    Action::Load { attempt: s.next_attempt },
                )
            } else {
                finish(s, s.tables, Outcome::BuildFailed)
            }
        },
        Event::LinkBlocked => {
            if s.phase != Phase::Loading {
                (s, Action::Continue)
            } else {
                (
                    CoordState { next_attempt: bump(s.next_attempt), ..s },
                    Action::Load { attempt: s.next_attempt },
                )
            }
        },
        Event::LoadFailed(reason) => {
            if s.phase != Phase::Loading {
                (s, Action::Continue)
            } else {
                finish(s, s.tables, Outcome::LoadFailed(reason))
            }
        },
        Event::Loaded { abi_size_tag, table } => {
            if s.phase != Phase::Loading {
                (s, Action::Continue)
            } else if abi_size_tag == current(s).abi_size_tag {
                finish(
                    s,
                    s.tables.push(Entry { abi_size_tag, table }),
                    Outcome::Published { generation: s.tables.len() as usize },
                )
            } else {
                finish(
                    s,
                    s.tables,
                    Outcome::AbiRejected { expected: current(s).abi_size_tag, found: abi_size_tag },
                )
            }
        },
    }
}

/// The state after feeding `events` to the machine one by one.
pub open spec fn run<T>(s: CoordState<T>, events: Seq<Event<T>>) -> CoordState<T>
    decreases events.len(),
{
    if events.len() == 0 {
        s
    } else {
        run(step(s, events[0]).0, events.drop_first())
    }
}

/// Drives reload attempts: the single writer of the dispatch table history.
pub struct Coordinator<T> {
    phase: Phase,
    pending: bool,
    next_attempt: u64,
    history: ReloadHistory<T>,
    last_outcome: Option<Outcome>,
}

impl<T> View for Coordinator<T> {
    type V = CoordState<T>;

    closed spec fn view(&self) -> CoordState<T> {
        CoordState {
            phase: self.phase,
            pending: self.pending,
            next_attempt: self.next_attempt,
            tables: self.history@,
            last_outcome: self.last_outcome,
        }
    }
}

impl<T> Coordinator<T> {
    pub open spec fn wf(&self) -> bool {
        state_wf(self@)
    }

    /// An idle coordinator whose history holds the table the process started
    /// with. Link attempts are numbered from 1.
    pub fn new(initial: T, abi_size_tag: usize) -> (r: Self)
        ensures
            r@ == (CoordState {
                phase: Phase::Idle,
                pending: false,
                next_attempt: 1,
                tables: seq![Entry { abi_size_tag, table: initial }],
                last_outcome: None,
            }),
            r.wf(),
    {
        Coordinator {
            phase: Phase::Idle,
            pending: false,
            next_attempt: 1,
            history: ReloadHistory::new(initial, abi_size_tag),
            last_outcome: None,
        }
    }

    pub fn phase(&self) -> (r: Phase)
        ensures
            r == self@.phase,
    {
        self.phase
    }

    pub fn last_outcome(&self) -> (r: Option<Outcome>)
        ensures
            r == self@.last_outcome,
    {
        self.last_outcome
    }

    /// The history of published tables.
    pub fn history(&self) -> (r: &ReloadHistory<T>)
        ensures
            r@ == self@.tables,
    {
        &self.history
    }

    /// The table readers dispatch through now.
    pub fn current(&self) -> (r: &T)
        requires
            self.wf(),
        ensures
            *r == current(self@).table,
    {
        self.history.current()
    }

    fn finish(&mut self, outcome: Outcome) -> (r: Action)
        ensures
            final(self).phase == (if old(self).pending { Phase::Building } else { Phase::Idle }),
            final(self).pending == false,
            final(self).next_attempt == old(self).next_attempt,
            final(self).history == old(self).history,
            final(self).last_outcome == Some(outcome),
            r == (Action::Finished { outcome, again: old(self).pending }),
    {
        let again = self.pending;
        self.phase = if again { Phase::Building } else { Phase::Idle };
        self.pending = false;
        self.last_outcome = Some(outcome);
        Action::Finished { outcome, again }
    }

    fn issue_load(&mut self) -> (r: Action)
        ensures
            final(self).phase == Phase::Loading,
            final(self).pending == old(self).pending,
            final(self).next_attempt == bump(old(self).next_attempt),
            final(self).history == old(self).history,
            final(self).last_outcome == old(self).last_outcome,
            r == (Action::Load { attempt: old(self).next_attempt }),
    {
        let attempt = self.next_attempt;
        if self.next_attempt < u64::MAX {
            self.next_attempt = self.next_attempt + 1;
        }
        self.phase = Phase::Loading;
        Action::Load { attempt }
    }

    /// Feeds one event to the state machine and returns what to do next.
    pub fn step(&mut self, e: Event<T>) -> (r: Action)
        requires
            old(self).wf(),
        ensures
            (final(self)@, r) == step(old(self)@, e),
            final(self).wf(),
    {
        match e {
            Event::Change => {
                if self.phase == Phase::Idle {
                    self.phase = Phase::Building;
                    Action::RunBuild
                } else {
                    self.pending = true;
                    Action::Continue
                }
            },
            Event::BuildExited { success } => {
                if self.phase != Phase::Building {
                    Action::Continue
                } else if success {
                    self.issue_load()
                } else {
                    self.finish(Outcome::BuildFailed)
                }
            },
            Event::LinkBlocked => {
                if self.phase != Phase::Loading {
                    Action::Continue
                } else {
                    self.issue_load()
                }
            },
            Event::LoadFailed(reason) => {
                if self.phase != Phase::Loading {
                    Action::Continue
                } else {
                    self.finish(Outcome::LoadFailed(reason))
                }
            },
            Event::Loaded { abi_size_tag, table } => {
                if self.phase != Phase::Loading {
                    Action::Continue
                } else {
                    match self.history.publish(abi_size_tag, table) {
                        Ok(generation) => self.finish(Outcome::Published { generation }),
                        Err(expected) => self.finish(Outcome::AbiRejected { expected, found: abi_size_tag }),
                    }
                }
            },
        }
    }
}

} // verus!
