//! A backup run over the selected lists of one workspace.
//!
//! Lists are backed up one after the other, in the order given. The first
//! failure ends the run: no further list is started and no manifest is
//! written. After every list succeeded, one manifest names them all.

use crate::backup::BackupItem;
use vstd::prelude::*;

verus! {

/// The run-level manifest.
#[derive(Debug)]
pub struct BackupSummary {
    /// Workspace name.
    pub workspace: String,
    /// Workspace UUID.
    pub uuid: String,
    /// Milliseconds since the Unix epoch at which the manifest was made.
    pub tstamp: u64,
    /// One summary per list, in the order the lists were backed up.
    pub lists: Vec<BackupItem>,
}

/// Where a run stands.
#[derive(Clone, Copy, Debug, PartialEq, Eq, Structural)]
pub enum RunPhase {
    Running,
    Failed,
    Finished,
}

/// What the caller must do next for a run.
#[derive(Debug)]
pub enum RunStep {
    /// Back up the list that `selector` names.
    BackupList { selector: String },
    /// Write the run manifest.
    WriteSummary,
    /// Nothing is left to do.
    Stop,
}

/// What the caller reports back to a run.
pub enum RunEvent {
    /// The current list was backed up.
    ListDone(BackupItem),
    /// The current step failed.
    Failure,
    /// The manifest was written.
    SummaryWritten,
}

/// What a run asks for next, in the abstract: the position of the list to
/// back up, the manifest, or nothing.
pub enum RunAction {
    BackupList(nat),
    WriteSummary,
    Stop,
}

/// Abstract state of a run.
pub struct RunState {
    /// The lists to back up, in order.
    pub selectors: Seq<String>,
    /// Position of the list to back up next.
    pub next: nat,
    /// Summaries of the lists backed up so far.
    pub items: Seq<BackupItem>,
    pub phase: RunPhase,
}

impl RunState {
    pub open spec fn initial(selectors: Seq<String>) -> RunState {
        RunState { selectors, next: 0, items: Seq::empty(), phase: RunPhase::Running }
    }

    pub open spec fn wf(self) -> bool {
        &&& self.next <= self.selectors.len()
        &&& self.items.len() == self.next
        &&& self.phase == RunPhase::Finished ==> self.next == self.selectors.len()
    }

    pub open spec fn action(self) -> RunAction {
        if self.phase != RunPhase::Running {
            RunAction::Stop
        } else if self.next < self.selectors.len() {
            RunAction::BackupList(self.next)
        } else {
            RunAction::WriteSummary
        }
    }

    /// The state after `event`. An event that does not answer the current
    /// action leaves the state as it is, but a failure, which always ends a
    /// run that is still going.
    pub open spec fn apply(self, event: RunEvent) -> RunState {
        match event {
            RunEvent::ListDone(item) => if self.action() is BackupList {
                RunState { next: self.next + 1, items: self.items.push(item), ..self }
            } else {
                self
            },
            RunEvent::Failure => if self.phase == RunPhase::Running {
                RunState { phase: RunPhase::Failed, ..self }
            } else {
                self
            },
            RunEvent::SummaryWritten => if self.action() is WriteSummary {
                RunState { phase: RunPhase::Finished, ..self }
            } else {
                self
            },
        }
    }

    pub open spec fn apply_all(self, events: Seq<RunEvent>) -> RunState
        decreases events.len(),
    {
        if events.len() == 0 {
            self
        } else {
            self.apply_all(events.drop_last()).apply(events.last())
        }
    }
}

/// Events reporting that each of `items` was backed up, in order.
pub open spec fn successes(items: Seq<BackupItem>) -> Seq<RunEvent> {
    items.map_values(|item: BackupItem| RunEvent::ListDone(item))
}

proof fn lemma_successes(selectors: Seq<String>, items: Seq<BackupItem>)
    requires
        items.len() <= selectors.len(),
    ensures
        RunState::initial(selectors).apply_all(successes(items)) == (RunState {
            selectors,
            next: items.len(),
            items,
            phase: RunPhase::Running,
        }),
    decreases items.len(),
{
    if items.len() == 0 {
        assert(successes(items) =~= Seq::<RunEvent>::empty());
        assert(items =~= Seq::<BackupItem>::empty());
    } else {
        let before = items.drop_last();
        assert(successes(items).drop_last() =~= successes(before));
        lemma_successes(selectors, before);
        assert(before.push(items.last()) =~= items);
    }
}

proof fn lemma_failed_stays(s: RunState, events: Seq<RunEvent>)
    requires
        s.phase == RunPhase::Failed,
    ensures
        s.apply_all(events) == s,
    decreases events.len(),
{
    if events.len() > 0 {
        lemma_failed_stays(s, events.drop_last());
    }
}

/// Fail-fast: when the list at position `items.len()` fails after the lists
/// before it succeeded, that list was the last one started. From then on,
/// whatever is reported, the run asks for nothing more: no later list is
/// started and no manifest is written, and the summaries of the lists that
/// did succeed stay as they were.
pub proof fn lemma_fail_fast(
    selectors: Seq<String>,
    items: Seq<BackupItem>,
    later: Seq<RunEvent>,
)
    requires
        items.len() < selectors.len(),
    ensures
        RunState::initial(selectors).apply_all(successes(items)).action() == RunAction::BackupList(
            items.len(),
        ),
        forall|j: int|
            0 <= j <= later.len() ==> {
                let s = RunState::initial(selectors).apply_all(successes(items)).apply(
                    RunEvent::Failure,
                ).apply_all(#[trigger] later.take(j));
                &&& s.action() == RunAction::Stop
                &&& s.phase == RunPhase::Failed
                &&& s.items == items
            },
{
    lemma_successes(selectors, items);
    let f = RunState::initial(selectors).apply_all(successes(items)).apply(RunEvent::Failure);
    assert forall|j: int| 0 <= j <= later.len() implies #[trigger] f.apply_all(later.take(j))
        == f by {
        lemma_failed_stays(f, later.take(j));
    }
}

/// Drives a backup run.
pub struct BackupRun {
    selectors: Vec<String>,
    next: usize,
    items: Vec<BackupItem>,
    phase: RunPhase,
}

impl View for BackupRun {
    type V = RunState;

    closed spec fn view(&self) -> RunState {
        RunState {
            selectors: self.selectors@,
            next: self.next as nat,
            items: self.items@,
            phase: self.phase,
        }
    }
}

impl BackupRun {
    pub open spec fn wf(&self) -> bool {
        self@.wf()
    }

    /// A run over the lists that `selectors` name, in that order.
    pub fn new(selectors: Vec<String>) -> (r: BackupRun)
        ensures
            r@ == RunState::initial(selectors@),
            r.wf(),
    {
        BackupRun { selectors, next: 0, items: Vec::new(), phase: RunPhase::Running }
    }

    /// The next step: each list in order, then the manifest, then nothing.
    /// After a failure, nothing.
    pub fn next_step(&self) -> (r: RunStep)
        requires
            self.wf(),
        ensures
            self@.action() matches RunAction::BackupList(i) ==> r matches RunStep::BackupList {
                selector,
            } && selector == self@.selectors[i as int],
            self@.action() is WriteSummary ==> r is WriteSummary,
            self@.action() is Stop ==> r is Stop,
    {
        if self.phase != RunPhase::Running {
            RunStep::Stop
        } else if self.next < self.selectors.len() {
            RunStep::BackupList { selector: self.selectors[self.next].clone() }
        } else {
            RunStep::WriteSummary
        }
    }

    /// Records that the current list was backed up.
    pub fn on_list_done(&mut self, item: BackupItem)
        requires
            old(self).wf(),
            old(self)@.action() is BackupList,
        ensures
            final(self).wf(),
            final(self)@ == old(self)@.apply(RunEvent::ListDone(item)),
    {
        let count = self.selectors.len();
        assert(self.next < count);
        self.items.push(item);
        self.next = self.next + 1;
    }

    /// Records that the current step failed.
    pub fn on_failure(&mut self)
        requires
            old(self).wf(),
        ensures
            final(self).wf(),
            final(self)@ == old(self)@.apply(RunEvent::Failure),
    {
        if self.phase == RunPhase::Running {
            self.phase = RunPhase::Failed;
        }
    }

    /// Records that the manifest was written.
    pub fn on_summary_written(&mut self)
        requires
            old(self).wf(),
            old(self)@.action() is WriteSummary,
        ensures
            final(self).wf(),
            final(self)@ == old(self)@.apply(RunEvent::SummaryWritten),
    {
        self.phase = RunPhase::Finished;
    }

    pub fn phase(&self) -> (r: RunPhase)
        ensures
            r == self@.phase,
    {
        self.phase
    }

    /// Summaries of the lists backed up so far, in order.
    pub fn items(&self) -> (r: &Vec<BackupItem>)
        ensures
            r@ == self@.items,
    {
        &self.items
    }

    /// The manifest for this run, made at `tstamp`, once every list is done.
    pub fn summary(&self, workspace: &str, uuid: &str, tstamp: u64) -> (r: BackupSummary)
        requires
            self.wf(),
            self@.action() is WriteSummary,
        ensures
            r.workspace@ == workspace@,
            r.uuid@ == uuid@,
            r.tstamp == tstamp,
            r.lists@ == self@.items,
            r.lists@.len() == self@.selectors.len(),
    {
        let mut lists: Vec<BackupItem> = Vec::new();
        let mut i: usize = 0;
        while i < self.items.len()
            invariant
                i <= self.items@.len(),
                lists@ == self.items@.take(i as int),
            decreases self.items@.len() - i,
        {
            let item = BackupItem {
                name: self.items[i].name.clone(),
                uuid: self.items[i].uuid.clone(),
            };
            proof {
                assert(item == self.items@[i as int]);
            }
            lists.push(item);
            i = i + 1;
            proof {
                assert(lists@ =~= self.items@.take(i as int));
            }
        }
        proof {
            assert(self.items@.take(i as int) =~= self.items@);
        }
        BackupSummary {
            workspace: String::from_str(workspace),
            uuid: String::from_str(uuid),
            tstamp,
            lists,
        }
    }
}

} // verus!
