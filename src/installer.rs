use vstd::prelude::*;
use crate::batch_run::InstallError;
use crate::managers::ManagerKind;
use crate::manifest::{contains_string, App};
use crate::queue::{build_queue, install_queue, Batch};

verus! {

/// One line of the install log.
#[derive(Clone, Debug)]
pub enum LogEntry {
    /// A batch was handed out for installing.
    BatchStarted { manager: ManagerKind, packages: usize },
    BatchSucceeded { manager: ManagerKind },
    BatchFailed { manager: ManagerKind, error: InstallError },
    /// The selection gave no batch at all.
    NoCompatiblePackages,
    /// Every batch has been processed.
    AllCompleted,
}

/// Where the orchestrator stands.
#[derive(Clone, Copy, Debug, PartialEq, Eq, Structural)]
pub enum Phase {
    /// No install has been started.
    Idle,
    /// One batch is being installed.
    Processing,
    /// The queue is empty until the next start.
    Drained,
}

/// What the caller does next.
pub enum Next {
    /// Install this batch, then report with `install_finished`.
    Install(Batch),
    /// Nothing: the queue is drained.
    Done,
}

/// The selection with every occurrence of `id` taken out.
pub open spec fn remove_all(s: Seq<Seq<char>>, id: Seq<char>) -> Seq<Seq<char>>
    decreases s.len(),
{
    if s.len() == 0 {
        s
    } else {
        let rest = remove_all(s.drop_last(), id);
        if s.last() == id {
            rest
        } else {
            rest.push(s.last())
        }
    }
}

/// The batch install orchestrator: it keeps the selection, builds the queue
/// on start, hands out one batch at a time and tracks progress.
pub struct Installer {
    apps: Vec<App>,
    managers: Vec<ManagerKind>,
    selected: Vec<String>,
    queue: Vec<Batch>,
    next: usize,
    phase: Phase,
    total_tasks: usize,
    completed_tasks: usize,
    log: Vec<LogEntry>,
}

impl Installer {
    pub closed spec fn spec_apps(&self) -> Seq<App> {
        self.apps@
    }

    pub closed spec fn spec_managers(&self) -> Seq<ManagerKind> {
        self.managers@
    }

    pub closed spec fn spec_selected(&self) -> Seq<Seq<char>> {
        self.selected.deep_view()
    }

    /// The batches of the current run, in the order they are handed out.
    pub closed spec fn spec_queue(&self) -> Seq<(ManagerKind, Seq<Seq<char>>)> {
        self.queue@.map_values(|b: Batch| b@)
    }

    /// How many batches have been handed out.
    pub closed spec fn spec_handed_out(&self) -> nat {
        self.next as nat
    }

    pub closed spec fn spec_phase(&self) -> Phase {
        self.phase
    }

    pub closed spec fn spec_total(&self) -> nat {
        self.total_tasks as nat
    }

    pub closed spec fn spec_completed(&self) -> nat {
        self.completed_tasks as nat
    }

    pub closed spec fn spec_log(&self) -> Seq<LogEntry> {
        self.log@
    }

    pub closed spec fn wf(&self) -> bool {
        &&& self.total_tasks == self.queue@.len()
        &&& self.next <= self.queue@.len()
        &&& self.completed_tasks <= self.next
        &&& self.phase == Phase::Processing ==> 0 < self.next && self.completed_tasks + 1 == self.next
        &&& self.phase == Phase::Drained ==> self.completed_tasks == self.next && self.next == self.queue@.len()
        &&& self.phase == Phase::Idle ==> self.queue@.len() == 0 && self.next == 0
    }

    /// Progress as a fraction `(numerator, denominator)`: completed over
    /// total batches, or one when there are none.
    pub open spec fn spec_progress(&self) -> (nat, nat) {
        if self.spec_total() == 0 {
            (1, 1)
        } else {
            (self.spec_completed(), self.spec_total())
        }
    }

    /// The batch being installed.
    pub open spec fn spec_current(&self) -> Option<(ManagerKind, Seq<Seq<char>>)> {
        if self.spec_phase() == Phase::Processing {
            Some(self.spec_queue()[self.spec_handed_out() - 1])
        } else {
            None
        }
    }

    /// Everything but the selection is left as it was.
    pub open spec fn same_run(&self, other: &Installer) -> bool {
        &&& self.spec_apps() == other.spec_apps()
        &&& self.spec_managers() == other.spec_managers()
        &&& self.spec_queue() == other.spec_queue()
        &&& self.spec_handed_out() == other.spec_handed_out()
        &&& self.spec_phase() == other.spec_phase()
        &&& self.spec_total() == other.spec_total()
        &&& self.spec_completed() == other.spec_completed()
        &&& self.spec_log() == other.spec_log()
    }

    /// An orchestrator over the applications of the manifest and the
    /// detected backends, with nothing selected.
    pub fn new(apps: Vec<App>, managers: Vec<ManagerKind>) -> (r: Installer)
        ensures
            r.wf(),
            r.spec_apps() == apps@,
            r.spec_managers() == managers@,
            r.spec_selected() == Seq::<Seq<char>>::empty(),
            r.spec_queue() == Seq::<(ManagerKind, Seq<Seq<char>>)>::empty(),
            r.spec_handed_out() == 0,
            r.spec_phase() == Phase::Idle,
            r.spec_total() == 0,
            r.spec_completed() == 0,
            r.spec_log() == Seq::<LogEntry>::empty(),
    {
        let r = Installer {
            apps,
            managers,
            selected: Vec::new(),
            queue: Vec::new(),
            next: 0,
            phase: Phase::Idle,
            total_tasks: 0,
            completed_tasks: 0,
            log: Vec::new(),
        };
        assert(r.spec_selected() =~= Seq::<Seq<char>>::empty());
        assert(r.spec_queue() =~= Seq::<(ManagerKind, Seq<Seq<char>>)>::empty());
        r
    }

    /// Selects (`true`) or deselects (`false`) an application. Selecting
    /// appends the identifier; deselecting removes every occurrence of it.
    pub fn toggle(&mut self, app_id: String, selected: bool)
        requires
            old(self).wf(),
        ensures
            final(self).wf(),
            final(self).same_run(old(self)),
            final(self).spec_selected() == if selected {
                old(self).spec_selected().push(app_id@)
            } else {
                remove_all(old(self).spec_selected(), app_id@)
            },
    {
        if selected {
            self.selected.push(app_id);
            assert(self.spec_selected() =~= old(self).spec_selected().push(app_id@));
        } else {
            let ghost before = self.selected.deep_view();
            let mut kept: Vec<String> = Vec::new();
            let mut i: usize = 0;
            while i < self.selected.len()
                invariant
                    i <= self.selected@.len(),
                    before == self.selected.deep_view(),
                    kept.deep_view() == remove_all(before.take(i as int), app_id@),
                decreases self.selected@.len() - i,
            {
                assert(before.take(i + 1).drop_last() =~= before.take(i as int));
                if self.selected[i] != app_id {
                    kept.push(self.selected[i].clone());
                    assert(kept.deep_view() =~= remove_all(before.take(i + 1), app_id@));
                }
                i = i + 1;
            }
            assert(before.take(i as int) =~= before);
            self.selected = kept;
        }
    }

    /// Hands out the next batch, or finishes the run when none is left.
    fn install_next(&mut self) -> (r: Next)
        requires
            old(self).total_tasks == old(self).queue@.len(),
            old(self).next <= old(self).queue@.len(),
            old(self).completed_tasks == old(self).next,
        ensures
            final(self).wf(),
            final(self).spec_apps() == old(self).spec_apps(),
            final(self).spec_managers() == old(self).spec_managers(),
            final(self).spec_selected() == old(self).spec_selected(),
            final(self).spec_queue() == old(self).spec_queue(),
            final(self).spec_total() == old(self).spec_total(),
            final(self).spec_completed() == old(self).spec_completed(),
            old(self).next < old(self).queue@.len() ==> {
                let b = old(self).spec_queue()[old(self).next as int];
                &&& final(self).spec_handed_out() == old(self).next + 1
                &&& final(self).spec_phase() == Phase::Processing
                &&& final(self).spec_log() == old(self).spec_log().push(
                    LogEntry::BatchStarted { manager: b.0, packages: b.1.len() as usize },
                )
                &&& r matches Next::Install(batch) && batch@ == b
            },
            old(self).next == old(self).queue@.len() ==> {
                &&& final(self).spec_handed_out() == old(self).next
                &&& final(self).spec_phase() == Phase::Drained
                &&& final(self).spec_log() == old(self).spec_log().push(LogEntry::AllCompleted)
                &&& r is Done
            },
    {
        if self.next < self.queue.len() {
            let batch = self.queue[self.next].duplicate();
            self.log.push(
                LogEntry::BatchStarted { manager: batch.manager, packages: batch.packages.len() },
            );
            self.next = self.next + 1;
            self.phase = Phase::Processing;
            Next::Install(batch)
        } else {
            self.log.push(LogEntry::AllCompleted);
            self.phase = Phase::Drained;
            Next::Done
        }
    }

    /// Builds the queue from the selection and hands out its first batch.
    /// When the selection gives no batch, the run ends at once with a note in
    /// the log.
    pub fn start_install(&mut self) -> (r: Next)
        requires
            old(self).wf(),
        ensures
            final(self).wf(),
            final(self).spec_apps() == old(self).spec_apps(),
            final(self).spec_managers() == old(self).spec_managers(),
            final(self).spec_selected() == old(self).spec_selected(),
            final(self).spec_queue() == install_queue(
                old(self).spec_apps(),
                old(self).spec_managers(),
                old(self).spec_selected(),
            ),
            final(self).spec_total() == final(self).spec_queue().len(),
            final(self).spec_completed() == 0,
            final(self).spec_queue().len() == 0 ==> {
                &&& final(self).spec_phase() == Phase::Drained
                &&& final(self).spec_handed_out() == 0
                &&& final(self).spec_log() == seq![LogEntry::NoCompatiblePackages]
                &&& r is Done
            },
            final(self).spec_queue().len() > 0 ==> {
                let b = final(self).spec_queue()[0];
                &&& final(self).spec_phase() == Phase::Processing
                &&& final(self).spec_handed_out() == 1
                &&& final(self).spec_log() == seq![
                    LogEntry::BatchStarted { manager: b.0, packages: b.1.len() as usize },
                ]
                &&& r matches Next::Install(batch) && batch@ == b
            },
    {
        self.queue = build_queue(&self.apps, &self.managers, &self.selected);
        self.log = Vec::new();
        self.total_tasks = self.queue.len();
        self.completed_tasks = 0;
        self.next = 0;
        if self.queue.len() == 0 {
            self.log.push(LogEntry::NoCompatiblePackages);
            self.phase = Phase::Drained;
            assert(self.log@ =~= seq![LogEntry::NoCompatiblePackages]);
            Next::Done
        } else {
            let r = self.install_next();
            assert(self.log@ =~= seq![
                LogEntry::BatchStarted {
                    manager: self.spec_queue()[0].0,
                    packages: self.spec_queue()[0].1.len() as usize,
                },
            ]);
            r
        }
    }

    /// Records how the batch being installed ended and hands out the next
    /// one. A failure is logged and does not stop the batches after it.
    /// Without a batch in progress nothing changes.
    pub fn install_finished(&mut self, outcome: Result<(), InstallError>) -> (r: Next)
        requires
            old(self).wf(),
        ensures
            final(self).wf(),
            old(self).spec_phase() != Phase::Processing ==> *final(self) == *old(self) && r is Done,
            old(self).spec_phase() == Phase::Processing ==> {
                let current = old(self).spec_current()->0;
                let m = current.0;
                let entry = match outcome {
                    Ok(()) => LogEntry::BatchSucceeded { manager: m },
                    Err(error) => LogEntry::BatchFailed { manager: m, error },
                };
                let log = old(self).spec_log().push(entry);
                let k = old(self).spec_handed_out();
                let q = old(self).spec_queue();
                &&& final(self).spec_apps() == old(self).spec_apps()
                &&& final(self).spec_managers() == old(self).spec_managers()
                &&& final(self).spec_selected() == old(self).spec_selected()
                &&& final(self).spec_queue() == q
                &&& final(self).spec_total() == old(self).spec_total()
                &&& final(self).spec_completed() == old(self).spec_completed() + 1
                &&& k < q.len() ==> {
                    &&& final(self).spec_handed_out() == k + 1
                    &&& final(self).spec_phase() == Phase::Processing
                    &&& final(self).spec_log() == log.push(
                        LogEntry::BatchStarted { manager: q[k as int].0, packages: q[k as int].1.len() as usize },
                    )
                    &&& r matches Next::Install(batch) && batch@ == q[k as int]
                }
                &&& k == q.len() ==> {
                    &&& final(self).spec_handed_out() == k
                    &&& final(self).spec_phase() == Phase::Drained
                    &&& final(self).spec_log() == log.push(LogEntry::AllCompleted)
                    &&& r is Done
                }
            },
    {
        if self.phase != Phase::Processing {
            return Next::Done;
        }
        let manager = self.queue[self.next - 1].manager;
        match outcome {
            Ok(()) => self.log.push(LogEntry::BatchSucceeded { manager }),
            Err(error) => self.log.push(LogEntry::BatchFailed { manager, error }),
        }
        self.completed_tasks = self.completed_tasks + 1;
        self.install_next()
    }

    /// Progress as `(numerator, denominator)`: completed over total batches,
    /// or `(1, 1)` when the run has no batch.
    pub fn progress(&self) -> (r: (usize, usize))
        requires
            self.wf(),
        ensures
            r.0 as nat == self.spec_progress().0,
            r.1 as nat == self.spec_progress().1,
            r.0 <= r.1,
            r.1 > 0,
    {
        if self.total_tasks == 0 {
            (1, 1)
        } else {
            (self.completed_tasks, self.total_tasks)
        }
    }
}

impl Installer {
    pub fn apps(&self) -> (r: &Vec<App>)
        ensures
            r@ == self.spec_apps(),
    {
        &self.apps
    }

    pub fn managers(&self) -> (r: &Vec<ManagerKind>)
        ensures
            r@ == self.spec_managers(),
    {
        &self.managers
    }

    pub fn selected(&self) -> (r: &Vec<String>)
        ensures
            r.deep_view() == self.spec_selected(),
    {
        &self.selected
    }

    pub fn is_selected(&self, app_id: &String) -> (r: bool)
        ensures
            r == self.spec_selected().contains(app_id@),
    {
        contains_string(&self.selected, app_id)
    }

    pub fn log(&self) -> (r: &Vec<LogEntry>)
        ensures
            r@ == self.spec_log(),
    {
        &self.log
    }

    pub fn phase(&self) -> (r: Phase)
        ensures
            r == self.spec_phase(),
    {
        self.phase
    }

    /// The number of batches of the current run.
    pub fn total_tasks(&self) -> (r: usize)
        ensures
            r as nat == self.spec_total(),
    {
        self.total_tasks
    }

    pub fn completed_tasks(&self) -> (r: usize)
        ensures
            r as nat == self.spec_completed(),
    {
        self.completed_tasks
    }

    /// The backend and package count of the batch being installed.
    pub fn current_batch(&self) -> (r: Option<(ManagerKind, usize)>)
        requires
            self.wf(),
        ensures
            match self.spec_current() {
                Some(b) => r == Some((b.0, b.1.len() as usize)),
                None => r is None,
            },
    {
        if self.phase == Phase::Processing {
            let b = &self.queue[self.next - 1];
            Some((b.manager, b.packages.len()))
        } else {
            None
        }
    }
}

} // verus!
