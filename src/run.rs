use crate::history::{
    find_previous, has_key, history_entry, utc_now_rfc3339, was_executed, SurelloHistoryEntry,
};
use crate::records::LoadError;
use crate::source_type::{classify, determine_target, SurelloSourceType};
use vstd::prelude::*;

verus! {

/// Whether a run whose history snapshot is `h` dispatches the file `p` to a
/// loader: its type is known and no entry records it under that type.
pub open spec fn loads(h: Seq<SurelloHistoryEntry>, p: Seq<char>) -> bool {
    match classify(p) {
        Some(t) => !was_executed(h, p, t),
        None => false,
    }
}

/// The earliest entry of `h` for the file `p` loaded as `t` was made at `at`.
pub open spec fn first_entry_at(
    h: Seq<SurelloHistoryEntry>,
    p: Seq<char>,
    t: SurelloSourceType,
    at: String,
) -> bool {
    exists|i: int|
        0 <= i < h.len() && #[trigger] has_key(h[i], p, t) && h[i].execution_datetime_utc == at
            && forall|j: int| 0 <= j < i ==> !#[trigger] has_key(h[j], p, t)
}

/// Where a run stands.
#[derive(Debug, Clone, PartialEq)]
pub enum RunStatus {
    /// Waiting for the scanner's next file.
    Scanning,
    /// Waiting for the loader of this file and type.
    Loading(String, SurelloSourceType),
    /// Waiting for the history store to append this entry.
    Recording(SurelloHistoryEntry),
    /// Every file was handled.
    Completed,
    /// The run stopped on a fatal error.
    Aborted,
}

/// What the outside world reports to a run.
#[derive(Debug, PartialEq)]
pub enum RunEvent {
    /// The scanner found the regular file at this path.
    FileFound(String),
    /// The scanner has no more files.
    ScanFinished,
    /// The scanner could not go on.
    ScanFailed(String),
    /// The loader of the pending file is done.
    LoadFinished(Result<(), LoadError>),
    /// The history store is done with the pending append.
    RecordFinished(Result<(), String>),
}

/// Why a run stopped.
#[derive(Debug, Clone, PartialEq)]
pub enum RunFailure {
    /// The directory could not be scanned.
    Scan(String),
    /// A file could not be loaded.
    Load { path: String, error: LoadError },
    /// An event came that the run was not waiting for.
    OutOfOrder,
}

/// What a run asks of the outside world next.
#[derive(Debug, Clone, PartialEq)]
pub enum RunAction {
    /// Hand over the scanner's next file.
    ScanNext,
    /// Report that this file has no known type, then hand over the next file.
    ReportUnsupported(String),
    /// Report that this file was loaded before, at `executed_at`, then hand
    /// over the next file.
    ReportSkipped { path: String, executed_at: String },
    /// Run the loader of this type on this file.
    Load { path: String, source_type: SurelloSourceType },
    /// Append this entry to the history store.
    Record(SurelloHistoryEntry),
    /// Report that the entry of this file could not be appended, then hand
    /// over the next file.
    ReportRecordFailure { path: String, error: String },
    /// The run is over: every file was handled.
    Complete,
    /// The run is over: it stopped on this error.
    Abort(RunFailure),
}

/// One pass of the loader over a directory: a snapshot of the history taken
/// once at the start, the entries appended since, and where it stands.
pub struct LoadRun {
    history: Vec<SurelloHistoryEntry>,
    recorded: Vec<SurelloHistoryEntry>,
    status: RunStatus,
    all_recorded: bool,
    finished: Ghost<Seq<Seq<char>>>,
}

impl LoadRun {
    /// The history as it stood when the run began.
    pub closed spec fn snapshot(self) -> Seq<SurelloHistoryEntry> {
        self.history@
    }

    /// The entries that the history store confirmed during this run, in order.
    pub closed spec fn recorded_entries(self) -> Seq<SurelloHistoryEntry> {
        self.recorded@
    }

    pub closed spec fn state(self) -> RunStatus {
        self.status
    }

    /// Whether every append of this run was confirmed.
    pub closed spec fn intact(self) -> bool {
        self.all_recorded
    }

    /// The paths of the files that this run is done with, in order.
    pub closed spec fn finished_paths(self) -> Seq<Seq<char>> {
        self.finished@
    }

    /// Unless an append failed, no file this run is done with would be loaded
    /// again by a run over the snapshot followed by what was recorded.
    pub closed spec fn wf(self) -> bool {
        &&& self.all_recorded ==> forall|k: int|
            0 <= k < self.finished@.len() ==> !#[trigger] loads(
                self.history@ + self.recorded@,
                self.finished@[k],
            )
        &&& match self.status {
            RunStatus::Loading(p, t) => classify(p@) == Some(t),
            RunStatus::Recording(e) => classify(e.source_path@) == Some(e.source_type),
            _ => true,
        }
    }

    /// `next` keeps the appended entries, the record of failed appends and
    /// the finished files of `self`.
    pub open spec fn keeps_progress(self, next: LoadRun) -> bool {
        &&& next.recorded_entries() == self.recorded_entries()
        &&& next.intact() == self.intact()
        &&& next.finished_paths() == self.finished_paths()
    }

    /// `next` keeps the entries and the record of failed appends of `self`,
    /// and is done with the file `p` as well.
    pub open spec fn finishes(self, next: LoadRun, p: Seq<char>) -> bool {
        &&& next.recorded_entries() == self.recorded_entries()
        &&& next.intact() == self.intact()
        &&& next.finished_paths() == self.finished_paths().push(p)
    }

    /// The run stops: an event came that it was not waiting for.
    pub open spec fn stops_out_of_order(self, next: LoadRun, action: RunAction) -> bool {
        &&& action == RunAction::Abort(RunFailure::OutOfOrder)
        &&& next.state() == RunStatus::Aborted
        &&& self.keeps_progress(next)
    }

    /// A run over `history`, the history store's content at its start.
    pub fn new(history: Vec<SurelloHistoryEntry>) -> (r: LoadRun)
        ensures
            r.wf(),
            r.snapshot() == history@,
            r.recorded_entries() == Seq::<SurelloHistoryEntry>::empty(),
            r.state() == RunStatus::Scanning,
            r.intact(),
            r.finished_paths() == Seq::<Seq<char>>::empty(),
    {
        LoadRun {
            history,
            recorded: Vec::new(),
            status: RunStatus::Scanning,
            all_recorded: true,
            finished: Ghost(Seq::empty()),
        }
    }

    /// Takes the run one step on `event`: the decision for a file found, the
    /// outcome of its load or of its history append, or the end of the scan.
    /// A file whose type is known and that the snapshot does not record under
    /// it goes to its loader; a successful load is followed by exactly one
    /// append of an `"ok"` entry for it, a failed one stops the run with none.
    pub fn step(&mut self, event: RunEvent) -> (action: RunAction)
        requires
            old(self).wf(),
        ensures
            final(self).wf(),
            final(self).snapshot() == old(self).snapshot(),
            match event {
                RunEvent::FileFound(p) => match old(self).state() {
                    RunStatus::Scanning => match classify(p@) {
                        None => action == RunAction::ReportUnsupported(p) && final(self).state()
                            == RunStatus::Scanning && old(self).finishes(*final(self), p@),
                        Some(t) => if was_executed(old(self).snapshot(), p@, t) {
                            &&& final(self).state() == RunStatus::Scanning
                            &&& old(self).finishes(*final(self), p@)
                            &&& match action {
                                RunAction::ReportSkipped { path, executed_at } => path == p
                                    && first_entry_at(old(self).snapshot(), p@, t, executed_at),
                                _ => false,
                            }
                        } else {
                            &&& action == (RunAction::Load { path: p, source_type: t })
                            &&& final(self).state() == RunStatus::Loading(p, t)
                            &&& old(self).keeps_progress(*final(self))
                        },
                    },
                    _ => old(self).stops_out_of_order(*final(self), action),
                },
                RunEvent::LoadFinished(outcome) => match old(self).state() {
                    RunStatus::Loading(p, t) => match outcome {
                        Ok(_) => {
                            &&& old(self).keeps_progress(*final(self))
                            &&& match action {
                                RunAction::Record(e) => {
                                    &&& has_key(e, p@, t)
                                    &&& e.execution_result@ == "ok"@
                                    &&& final(self).state() == RunStatus::Recording(e)
                                },
                                _ => false,
                            }
                        },
                        Err(error) => {
                            &&& action == RunAction::Abort(RunFailure::Load { path: p, error })
                            &&& final(self).state() == RunStatus::Aborted
                            &&& old(self).keeps_progress(*final(self))
                        },
                    },
                    _ => old(self).stops_out_of_order(*final(self), action),
                },
                RunEvent::RecordFinished(outcome) => match old(self).state() {
                    RunStatus::Recording(e) => {
                        &&& final(self).state() == RunStatus::Scanning
                        &&& final(self).finished_paths() == old(self).finished_paths().push(
                            e.source_path@,
                        )
                        &&& match outcome {
                            Ok(_) => {
                                &&& action == RunAction::ScanNext
                                &&& final(self).recorded_entries() == old(
                                    self,
                                ).recorded_entries().push(e)
                                &&& final(self).intact() == old(self).intact()
                            },
                            Err(error) => {
                                &&& action == (RunAction::ReportRecordFailure {
                                    path: e.source_path,
                                    error,
                                })
                                &&& final(self).recorded_entries() == old(self).recorded_entries()
                                &&& !final(self).intact()
                            },
                        }
                    },
                    _ => old(self).stops_out_of_order(*final(self), action),
                },
                RunEvent::ScanFinished => match old(self).state() {
                    RunStatus::Scanning => {
                        &&& action == RunAction::Complete
                        &&& final(self).state() == RunStatus::Completed
                        &&& old(self).keeps_progress(*final(self))
                    },
                    _ => old(self).stops_out_of_order(*final(self), action),
                },
                RunEvent::ScanFailed(message) => match old(self).state() {
                    RunStatus::Scanning => {
                        &&& action == RunAction::Abort(RunFailure::Scan(message))
                        &&& final(self).state() == RunStatus::Aborted
                        &&& old(self).keeps_progress(*final(self))
                    },
                    _ => old(self).stops_out_of_order(*final(self), action),
                },
            },
    {
        let mut status = RunStatus::Aborted;
        std::mem::swap(&mut self.status, &mut status);
        match (status, event) {
            (RunStatus::Scanning, RunEvent::FileFound(p)) => {
                match determine_target(p.as_str()) {
                    None => {
                        self.status = RunStatus::Scanning;
                        self.finished = Ghost(self.finished@.push(p@));
                        RunAction::ReportUnsupported(p)
                    },
                    Some(t) => match find_previous(&self.history, p.as_str(), t) {
                        Some(i) => {
                            let at = self.history[i].execution_datetime_utc.clone();
                            proof {
                                lemma_executed_extends(self.history@, self.recorded@, p@, t);
                            }
                            self.status = RunStatus::Scanning;
                            self.finished = Ghost(self.finished@.push(p@));
                            RunAction::ReportSkipped { path: p, executed_at: at }
                        },
                        None => {
                            self.status = RunStatus::Loading(p.clone(), t);
                            RunAction::Load { path: p, source_type: t }
                        },
                    },
                }
            },
            (RunStatus::Loading(p, t), RunEvent::LoadFinished(outcome)) => {
                match outcome {
                    Ok(()) => {
                        let entry = history_entry(p.as_str(), t, utc_now_rfc3339(), "ok");
                        self.status = RunStatus::Recording(copy_entry(&entry));
                        RunAction::Record(entry)
                    },
                    Err(error) => {
                        self.status = RunStatus::Aborted;
                        RunAction::Abort(RunFailure::Load { path: p, error })
                    },
                }
            },
            (RunStatus::Recording(e), RunEvent::RecordFinished(outcome)) => {
                let ghost path = e.source_path@;
                self.status = RunStatus::Scanning;
                self.finished = Ghost(self.finished@.push(path));
                match outcome {
                    Ok(()) => {
                        let ghost before = self.history@ + self.recorded@;
                        self.recorded.push(e);
                        proof {
                            assert(self.history@ + self.recorded@ =~= before + seq![e]);
                            assert forall|k: int| 0 <= k < self.finished@.len() && self.all_recorded
                                implies !#[trigger] loads(self.history@ + self.recorded@, self.finished@[k]) by {
                                if k < self.finished@.len() - 1 {
                                    let f = self.finished@[k];
                                    assert(f == old(self).finished@[k]);
                                    assert(!loads(before, f));
                                    if let Some(ft) = classify(f) {
                                        lemma_executed_extends(before, seq![e], f, ft);
                                    }
                                } else {
                                    let n = (self.history@ + self.recorded@).len() - 1;
                                    assert(has_key((self.history@ + self.recorded@)[n], path, e.source_type));
                                }
                            }
                        }
                        RunAction::ScanNext
                    },
                    Err(error) => {
                        self.all_recorded = false;
                        RunAction::ReportRecordFailure { path: e.source_path, error }
                    },
                }
            },
            (RunStatus::Scanning, RunEvent::ScanFinished) => {
                self.status = RunStatus::Completed;
                RunAction::Complete
            },
            (RunStatus::Scanning, RunEvent::ScanFailed(message)) => {
                self.status = RunStatus::Aborted;
                RunAction::Abort(RunFailure::Scan(message))
            },
            _ => {
                self.status = RunStatus::Aborted;
                RunAction::Abort(RunFailure::OutOfOrder)
            },
        }
    }

    pub fn status(&self) -> (r: &RunStatus)
        ensures
            *r == self.state(),
    {
        &self.status
    }

    pub fn history(&self) -> (r: &Vec<SurelloHistoryEntry>)
        ensures
            r@ == self.snapshot(),
    {
        &self.history
    }

    pub fn recorded(&self) -> (r: &Vec<SurelloHistoryEntry>)
        ensures
            r@ == self.recorded_entries(),
    {
        &self.recorded
    }

    pub fn all_recorded(&self) -> (r: bool)
        ensures
            r == self.intact(),
    {
        self.all_recorded
    }
}

fn copy_entry(e: &SurelloHistoryEntry) -> (r: SurelloHistoryEntry)
    ensures
        r == *e,
{
    SurelloHistoryEntry {
        source_path: e.source_path.clone(),
        source_type: e.source_type,
        execution_datetime_utc: e.execution_datetime_utc.clone(),
        execution_result: e.execution_result.clone(),
    }
}

proof fn lemma_executed_extends(
    h: Seq<SurelloHistoryEntry>,
    more: Seq<SurelloHistoryEntry>,
    p: Seq<char>,
    t: SurelloSourceType,
)
    requires
        was_executed(h, p, t),
    ensures
        was_executed(h + more, p, t),
{
    let i = choose|i: int| 0 <= i < h.len() && #[trigger] has_key(h[i], p, t);
    assert(has_key((h + more)[i], p, t));
}

/// A run that has completed with every append confirmed leaves a history (its
/// snapshot followed by what it recorded) under which none of the files it went
/// through is loaded again: a second run over the same files reports each of
/// them as skipped or unsupported, and creates nothing.
pub proof fn lemma_rerun_loads_nothing(run: LoadRun, p: Seq<char>)
    requires
        run.wf(),
        run.state() == RunStatus::Completed,
        run.intact(),
        run.finished_paths().contains(p),
    ensures
        !loads(run.snapshot() + run.recorded_entries(), p),
{
    let k = choose|k: int| 0 <= k < run.finished_paths().len() && run.finished_paths()[k] == p;
    assert(!loads(run.history@ + run.recorded@, run.finished@[k]));
}

/// A history holding an entry for a path and its type keeps a later run from
/// loading that path again, whatever the entry's time and outcome and whatever
/// the file now holds: the key is the path and the type alone.
pub proof fn lemma_key_is_path_and_type(h: Seq<SurelloHistoryEntry>, i: int, p: Seq<char>)
    requires
        0 <= i < h.len(),
        h[i].source_path@ == p,
        classify(p) == Some(h[i].source_type),
    ensures
        !loads(h, p),
{
    assert(has_key(h[i], p, h[i].source_type));
}

} // verus!
