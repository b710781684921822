//! One operation as a state machine.
//!
//! An operation alternates decisions with work on a store that lives outside
//! this library. The decisions are [`Batch::step`]: given what the store
//! answered, it says what to ask next. Whoever owns the store performs each
//! action and hands back the event that tells how it went.

use crate::configuration::{Commands, CommandsView, Metadata, MetadataView};
use crate::decimal::{decimal, push_decimal};
use crate::helper_funcs::CodecError;
use crate::transform::{rewritten, update_note, Opacity, Rewrite, RewriteView, Selection};
use vstd::prelude::*;

verus! {

/// Why an operation stopped before its end.
#[allow(inconsistent_fields)]
#[derive(Debug, PartialEq, Eq)]
pub enum BatchError {
    /// The opacity is none of 35, 45 and 100.
    InvalidOpacity { opacity: u8 },
    /// The image of a record could not be rewritten.
    Image { edition: u32, cause: CodecError },
    /// The record to update is no longer in the store.
    RecordNotFound { edition: u32 },
    /// The store failed.
    Store { cause: String },
    /// The feed is not a JSON array of records.
    ImportParse { cause: String },
    /// The export could not be written.
    FileSystem { cause: String },
    /// An event arrived that the operation was not waiting for.
    OutOfTurn,
}

/// The mathematical value of a [`BatchError`].
#[allow(inconsistent_fields)]
pub enum BatchErrorView {
    InvalidOpacity { opacity: nat },
    Image { edition: nat, cause: CodecError },
    RecordNotFound { edition: nat },
    Store { cause: Seq<char> },
    ImportParse { cause: Seq<char> },
    FileSystem { cause: Seq<char> },
    OutOfTurn,
}

impl View for BatchError {
    type V = BatchErrorView;

    open spec fn view(&self) -> BatchErrorView {
        match *self {
            BatchError::InvalidOpacity { opacity } => BatchErrorView::InvalidOpacity {
                opacity: opacity as nat,
            },
            BatchError::Image { edition, cause } => BatchErrorView::Image {
                edition: edition as nat,
                cause,
            },
            BatchError::RecordNotFound { edition } => BatchErrorView::RecordNotFound {
                edition: edition as nat,
            },
            BatchError::Store { cause } => BatchErrorView::Store { cause: cause@ },
            BatchError::ImportParse { cause } => BatchErrorView::ImportParse { cause: cause@ },
            BatchError::FileSystem { cause } => BatchErrorView::FileSystem { cause: cause@ },
            BatchError::OutOfTurn => BatchErrorView::OutOfTurn,
        }
    }
}

/// What the owner of the store is asked to do.
#[derive(Debug, PartialEq, Eq)]
pub enum Action {
    /// Write the stage of the collection; answer with `StageSet`.
    SetCurrentStage { stage: u8 },
    /// Read the records of the selection; answer with `Fetched`.
    Fetch { selection: Selection },
    /// Replace the record of the same edition; answer with `Written`.
    Update { record: Metadata },
    /// Add the record; answer with `Written`.
    Insert { record: Metadata },
    /// The operation is complete.
    Finish,
    /// The operation has failed; nothing more is to be done.
    Abort { error: BatchError },
}

/// The mathematical value of an [`Action`].
pub enum ActionView {
    SetCurrentStage { stage: nat },
    Fetch { selection: Selection },
    Update { record: MetadataView },
    Insert { record: MetadataView },
    Finish,
    Abort { error: BatchErrorView },
}

impl View for Action {
    type V = ActionView;

    open spec fn view(&self) -> ActionView {
        match *self {
            Action::SetCurrentStage { stage } => ActionView::SetCurrentStage {
                stage: stage as nat,
            },
            Action::Fetch { selection } => ActionView::Fetch { selection },
            Action::Update { record } => ActionView::Update { record: record@ },
            Action::Insert { record } => ActionView::Insert { record: record@ },
            Action::Finish => ActionView::Finish,
            Action::Abort { error } => ActionView::Abort { error: error@ },
        }
    }
}

/// How the last action went.
#[derive(Debug, PartialEq, Eq)]
pub enum Event {
    /// Nothing has been asked yet.
    Started,
    /// The stage of the collection was written; `stage` is what the store
    /// holds now.
    StageSet { stage: u8 },
    /// The records that were asked for, in the order of the store.
    Fetched { records: Vec<Metadata> },
    /// The record was written; `edition` is the key the store wrote.
    Written { edition: u32 },
    /// The action failed.
    Failed { error: BatchError },
}

/// The mathematical value of an [`Event`].
pub enum EventView {
    Started,
    StageSet { stage: nat },
    Fetched { records: Seq<MetadataView> },
    Written { edition: nat },
    Failed { error: BatchErrorView },
}

impl View for Event {
    type V = EventView;

    open spec fn view(&self) -> EventView {
        match *self {
            Event::Started => EventView::Started,
            Event::StageSet { stage } => EventView::StageSet { stage: stage as nat },
            Event::Fetched { records } => EventView::Fetched { records: records.deep_view() },
            Event::Written { edition } => EventView::Written { edition: edition as nat },
            Event::Failed { error } => EventView::Failed { error: error@ },
        }
    }
}

/// One decision: a line to report, if any, and then the action to perform.
#[derive(Debug, PartialEq, Eq)]
pub struct Step {
    pub note: Option<String>,
    pub action: Action,
}

/// The mathematical value of a [`Step`].
pub struct StepView {
    pub note: Option<Seq<char>>,
    pub action: ActionView,
}

impl View for Step {
    type V = StepView;

    open spec fn view(&self) -> StepView {
        StepView { note: self.note.deep_view(), action: self.action@ }
    }
}

/// What an operation is there to do.
#[derive(Debug, PartialEq, Eq)]
pub enum Task {
    /// Rewrite the records of a selection, after writing the stage of the
    /// collection if one is given.
    Rewrite { stage_write: Option<u8>, selection: Selection, rewrite: Rewrite },
    /// Insert records.
    Import,
    /// Nothing: the command was refused.
    Refuse { error: BatchError },
}

/// The mathematical value of a [`Task`].
pub enum TaskView {
    Rewrite { stage_write: Option<nat>, selection: Selection, rewrite: RewriteView },
    Import,
    Refuse { error: BatchErrorView },
}

/// An optional stage as a number.
pub open spec fn stage_view(stage: Option<u8>) -> Option<nat> {
    match stage {
        Some(stage) => Some(stage as nat),
        None => None,
    }
}

impl View for Task {
    type V = TaskView;

    open spec fn view(&self) -> TaskView {
        match *self {
            Task::Rewrite { stage_write, selection, rewrite } => TaskView::Rewrite {
                stage_write: stage_view(stage_write),
                selection,
                rewrite: rewrite@,
            },
            Task::Import => TaskView::Import,
            Task::Refuse { error } => TaskView::Refuse { error: error@ },
        }
    }
}

/// The task that a command stands for, if it is one that rewrites records.
///
/// A stage change writes the stage of the collection first and reaches the
/// records that are not frozen. A host change reaches every record. A fading
/// reaches the records that are not frozen, and is refused where the opacity
/// is none of 35, 45 and 100. A restoration reaches the records that are not
/// frozen, or every record under `force`.
pub open spec fn task_of(command: CommandsView, force: bool) -> Option<TaskView> {
    match command {
        CommandsView::ChangeStage { stage } => Some(
            TaskView::Rewrite {
                stage_write: Some(stage),
                selection: Selection::NotFrozen,
                rewrite: RewriteView::Stage { stage },
            },
        ),
        CommandsView::ChangeHost { host } => Some(
            TaskView::Rewrite {
                stage_write: None,
                selection: Selection::All,
                rewrite: RewriteView::Host { host },
            },
        ),
        CommandsView::ChangeMetadataFaded { opacity } => match Opacity::of_percent(opacity) {
            Some(opacity) => Some(
                TaskView::Rewrite {
                    stage_write: None,
                    selection: Selection::NotFrozen,
                    rewrite: RewriteView::Fade { opacity },
                },
            ),
            None => Some(TaskView::Refuse { error: BatchErrorView::InvalidOpacity { opacity } }),
        },
        CommandsView::RestoreImages => Some(
            TaskView::Rewrite {
                stage_write: None,
                selection: Selection::restoring(force),
                rewrite: RewriteView::Restore,
            },
        ),
        _ => None,
    }
}

/// An optional task taken by its view.
pub open spec fn task_view(task: Option<Task>) -> Option<TaskView> {
    match task {
        Some(task) => Some(task@),
        None => None,
    }
}

impl Task {
    /// The task that `command` stands for, if it is one that rewrites
    /// records.
    pub fn for_command(command: Commands, force: bool) -> (task: Option<Task>)
        ensures
            task_view(task) == task_of(command@, force),
    {
        match command {
            Commands::ChangeStage { stage } => Some(
                Task::Rewrite {
                    stage_write: Some(stage),
                    selection: Selection::NotFrozen,
                    rewrite: Rewrite::Stage { stage },
                },
            ),
            Commands::ChangeHost { host } => Some(
                Task::Rewrite {
                    stage_write: None,
                    selection: Selection::All,
                    rewrite: Rewrite::Host { host },
                },
            ),
            Commands::ChangeMetadataFaded { opacity } => match Opacity::from_percent(opacity) {
                Some(opacity) => Some(
                    Task::Rewrite {
                        stage_write: None,
                        selection: Selection::NotFrozen,
                        rewrite: Rewrite::Fade { opacity },
                    },
                ),
                None => Some(Task::Refuse { error: BatchError::InvalidOpacity { opacity } }),
            },
            Commands::RestoreImages => Some(
                Task::Rewrite {
                    stage_write: None,
                    selection: Selection::for_restore(force),
                    rewrite: Rewrite::Restore,
                },
            ),
            _ => None,
        }
    }
}

/// Where an operation stands.
#[derive(Clone, Copy, Debug, PartialEq, Eq, Structural)]
pub enum Phase {
    /// Nothing has been asked yet.
    Idle,
    /// The stage of the collection is being written.
    AwaitStage,
    /// The records are being read.
    AwaitRecords,
    /// A record is being written.
    AwaitWrite,
    /// The operation has finished or failed.
    Closed,
}

/// The mathematical value of a [`Batch`].
pub struct BatchView {
    pub task: TaskView,
    pub verbose: bool,
    pub phase: Phase,
    /// The records still to be handled, next first.
    pub remaining: Seq<MetadataView>,
    /// The line to report once the write that is under way is confirmed.
    pub note: Option<Seq<char>>,
}

/// The progress line for the stage of the collection once it is written.
pub open spec fn stage_note(stage: nat) -> Seq<char> {
    "Updated current stage to: "@ + decimal(stage)
}

/// The progress line for a record about to be inserted.
pub open spec fn insert_note(edition: nat) -> Seq<char> {
    "Inserting metadata: "@ + decimal(edition)
}

/// The operation closed by `action`, after `report` has been handed out.
pub open spec fn close(state: BatchView, report: Option<Seq<char>>, action: ActionView) -> (
    BatchView,
    StepView,
) {
    (BatchView { phase: Phase::Closed, note: None, ..state }, StepView { note: report, action })
}

/// The operation turning to its next record, after `report` has been handed
/// out. A rewriting operation passes over every record that its selection
/// does not admit, whatever the store handed in. The operation finishes if no
/// record is left, asks for the record to be written if it can be prepared,
/// and fails on the record otherwise.
pub open spec fn advance(state: BatchView, report: Option<Seq<char>>) -> (BatchView, StepView)
    decreases state.remaining.len(),
{
    if state.remaining.len() == 0 {
        close(state, report, ActionView::Finish)
    } else {
        let record = state.remaining[0];
        let rest = state.remaining.drop_first();
        match state.task {
            TaskView::Rewrite { selection, rewrite, .. } => if !selection.admits(record.frozen) {
                advance(BatchView { remaining: rest, ..state }, report)
            } else {
                match rewritten(rewrite, record) {
                    Ok(changed) => (
                        BatchView {
                            phase: Phase::AwaitWrite,
                            remaining: rest,
                            note: if state.verbose {
                                Some(update_note(rewrite, changed))
                            } else {
                                None
                            },
                            ..state
                        },
                        StepView { note: report, action: ActionView::Update { record: changed } },
                    ),
                    Err(cause) => close(
                        BatchView { remaining: rest, ..state },
                        report,
                        ActionView::Abort {
                            error: BatchErrorView::Image { edition: record.edition, cause },
                        },
                    ),
                }
            },
            TaskView::Import => (
                BatchView { phase: Phase::AwaitWrite, remaining: rest, note: None, ..state },
                StepView {
                    note: Some(insert_note(record.edition)),
                    action: ActionView::Insert { record },
                },
            ),
            TaskView::Refuse { error } => close(state, report, ActionView::Abort { error }),
        }
    }
}

/// The first decision of an operation.
pub open spec fn begin(state: BatchView) -> (BatchView, StepView) {
    match state.task {
        TaskView::Rewrite { stage_write: Some(stage), .. } => (
            BatchView { phase: Phase::AwaitStage, ..state },
            StepView { note: None, action: ActionView::SetCurrentStage { stage } },
        ),
        TaskView::Rewrite { stage_write: None, selection, .. } => (
            BatchView { phase: Phase::AwaitRecords, ..state },
            StepView { note: None, action: ActionView::Fetch { selection } },
        ),
        TaskView::Import => advance(state, None),
        TaskView::Refuse { error } => close(state, None, ActionView::Abort { error }),
    }
}

/// The transition of an operation: the state it moves to on an event, and the
/// decision it makes.
///
/// A failure closes the operation with the error that came. An event that the
/// phase was not waiting for closes it with `OutOfTurn`. A closed operation
/// answers every event with `OutOfTurn` and stays as it is.
pub open spec fn next(state: BatchView, event: EventView) -> (BatchView, StepView) {
    let out_of_turn = ActionView::Abort { error: BatchErrorView::OutOfTurn };
    match state.phase {
        Phase::Closed => close(state, None, out_of_turn),
        Phase::Idle => match event {
            EventView::Started => begin(state),
            EventView::Failed { error } => close(state, None, ActionView::Abort { error }),
            _ => close(state, None, out_of_turn),
        },
        Phase::AwaitStage => match event {
            EventView::StageSet { stage } => match state.task {
                TaskView::Rewrite { selection, .. } => (
                    BatchView { phase: Phase::AwaitRecords, ..state },
                    StepView {
                        note: if state.verbose {
                            Some(stage_note(stage))
                        } else {
                            None
                        },
                        action: ActionView::Fetch { selection },
                    },
                ),
                _ => close(state, None, out_of_turn),
            },
            EventView::Failed { error } => close(state, None, ActionView::Abort { error }),
            _ => close(state, None, out_of_turn),
        },
        Phase::AwaitRecords => match event {
            EventView::Fetched { records } => advance(
                BatchView { remaining: records, ..state },
                None,
            ),
            EventView::Failed { error } => close(state, None, ActionView::Abort { error }),
            _ => close(state, None, out_of_turn),
        },
        Phase::AwaitWrite => match event {
            EventView::Written { .. } => advance(BatchView { note: None, ..state }, state.note),
            EventView::Failed { error } => close(state, None, ActionView::Abort { error }),
            _ => close(state, None, out_of_turn),
        },
    }
}

impl Clone for BatchError {
    fn clone(&self) -> (copy: Self)
        ensures
            copy@ == self@,
    {
        match self {
            BatchError::InvalidOpacity { opacity } => BatchError::InvalidOpacity {
                opacity: *opacity,
            },
            BatchError::Image { edition, cause } => BatchError::Image {
                edition: *edition,
                cause: *cause,
            },
            BatchError::RecordNotFound { edition } => BatchError::RecordNotFound {
                edition: *edition,
            },
            BatchError::Store { cause } => BatchError::Store { cause: cause.clone() },
            BatchError::ImportParse { cause } => BatchError::ImportParse { cause: cause.clone() },
            BatchError::FileSystem { cause } => BatchError::FileSystem { cause: cause.clone() },
            BatchError::OutOfTurn => BatchError::OutOfTurn,
        }
    }
}

/// One operation under way.
pub struct Batch {
    task: Task,
    verbose: bool,
    phase: Phase,
    records: Vec<Metadata>,
    cursor: usize,
    note: Option<String>,
}

impl View for Batch {
    type V = BatchView;

    closed spec fn view(&self) -> BatchView {
        BatchView {
            task: self.task@,
            verbose: self.verbose,
            phase: self.phase,
            remaining: if self.cursor <= self.records.len() {
                self.records.deep_view().skip(self.cursor as int)
            } else {
                Seq::empty()
            },
            note: self.note.deep_view(),
        }
    }
}

/// An operation that has not begun: it holds no record and no line.
pub open spec fn fresh(task: TaskView, verbose: bool) -> BatchView {
    BatchView { task, verbose, phase: Phase::Idle, remaining: Seq::empty(), note: None }
}

impl Batch {
    /// An operation on `task` that has not begun.
    pub fn new(task: Task, verbose: bool) -> (batch: Batch)
        ensures
            batch@ == fresh(task@, verbose),
    {
        let batch = Batch {
            task,
            verbose,
            phase: Phase::Idle,
            records: Vec::new(),
            cursor: 0,
            note: None,
        };
        assert(batch@.remaining =~= Seq::empty());
        batch
    }

    /// An operation that inserts `records`, in their order.
    pub fn import(records: Vec<Metadata>) -> (batch: Batch)
        ensures
            batch@ == (BatchView {
                remaining: records.deep_view(),
                ..fresh(TaskView::Import, false)
            }),
    {
        let batch = Batch {
            task: Task::Import,
            verbose: false,
            phase: Phase::Idle,
            records,
            cursor: 0,
            note: None,
        };
        assert(batch@.remaining =~= records.deep_view());
        batch
    }

    /// Where the operation stands.
    pub fn phase(&self) -> (phase: Phase)
        ensures
            phase == self@.phase,
    {
        self.phase
    }

    fn shut(&mut self, report: Option<String>, action: Action) -> (step: Step)
        ensures
            (final(self)@, step@) == close(old(self)@, report.deep_view(), action@),
    {
        self.phase = Phase::Closed;
        self.note = None;
        Step { note: report, action }
    }

    /// Moves past the records that the selection of a rewriting operation
    /// does not admit.
    fn pass_over(&mut self, report: &Option<String>)
        ensures
            advance(final(self)@, report.deep_view()) == advance(old(self)@, report.deep_view()),
            final(self).cursor < final(self).records.len() ==> (final(self).task matches Task::Rewrite {
                selection,
                ..
            } ==> selection.admits(final(self).records[final(self).cursor as int].frozen)),
    {
        match &self.task {
            Task::Rewrite { selection, .. } => {
                let selection = *selection;
                while self.cursor < self.records.len() && !selection.selects(
                    &self.records[self.cursor],
                )
                    invariant
                        self.task@ matches TaskView::Rewrite { selection: chosen, .. } && chosen
                            == selection,
                        advance(self@, report.deep_view()) == advance(
                            old(self)@,
                            report.deep_view(),
                        ),
                    decreases self.records.len() - self.cursor,
                {
                    proof {
                        let views = self.records.deep_view();
                        assert(self@.remaining[0] == self.records[self.cursor as int]@);
                        assert(self@.remaining.drop_first() =~= views.skip(
                            self.cursor as int + 1,
                        ));
                    }
                    self.cursor = self.cursor + 1;
                }
            },
            _ => {},
        }
    }

    fn turn(&mut self, report: Option<String>) -> (step: Step)
        ensures
            (final(self)@, step@) == advance(old(self)@, report.deep_view()),
    {
        self.pass_over(&report);
        if self.cursor >= self.records.len() {
            return self.shut(report, Action::Finish);
        }
        proof {
            let views = self.records.deep_view();
            assert(self@.remaining[0] == self.records[self.cursor as int]@);
            assert(self@.remaining.drop_first() =~= views.skip(self.cursor as int + 1));
        }
        match &self.task {
            Task::Rewrite { rewrite, .. } => {
                match rewrite.apply(&self.records[self.cursor]) {
                    Ok(changed) => {
                        let note = if self.verbose {
                            Some(rewrite.note(&changed))
                        } else {
                            None
                        };
                        self.cursor = self.cursor + 1;
                        self.phase = Phase::AwaitWrite;
                        self.note = note;
                        Step { note: report, action: Action::Update { record: changed } }
                    },
                    Err(cause) => {
                        let edition = self.records[self.cursor].edition;
                        self.cursor = self.cursor + 1;
                        self.shut(report, Action::Abort { error: BatchError::Image { edition, cause } })
                    },
                }
            },
            Task::Import => {
                let record = self.records[self.cursor].clone();
                let mut line = String::from_str("Inserting metadata: ");
                push_decimal(&mut line, record.edition);
                self.cursor = self.cursor + 1;
                self.phase = Phase::AwaitWrite;
                self.note = None;
                Step { note: Some(line), action: Action::Insert { record } }
            },
            Task::Refuse { error } => {
                let error = error.clone();
                self.shut(report, Action::Abort { error })
            },
        }
    }

    fn begin(&mut self) -> (step: Step)
        ensures
            (final(self)@, step@) == begin(old(self)@),
    {
        match &self.task {
            Task::Rewrite { stage_write: Some(stage), .. } => {
                let stage = *stage;
                self.phase = Phase::AwaitStage;
                Step { note: None, action: Action::SetCurrentStage { stage } }
            },
            Task::Rewrite { stage_write: None, selection, .. } => {
                let selection = *selection;
                self.phase = Phase::AwaitRecords;
                Step { note: None, action: Action::Fetch { selection } }
            },
            Task::Import => self.turn(None),
            Task::Refuse { error } => {
                let error = error.clone();
                self.shut(None, Action::Abort { error })
            },
        }
    }

    /// Takes the event that answers the last action, and decides what is to
    /// be done next.
    pub fn step(&mut self, event: Event) -> (step: Step)
        ensures
            (final(self)@, step@) == next(old(self)@, event@),
    {
        match self.phase {
            Phase::Closed => self.shut(None, Action::Abort { error: BatchError::OutOfTurn }),
            Phase::Idle => match event {
                Event::Started => self.begin(),
                Event::Failed { error } => self.shut(None, Action::Abort { error }),
                _ => self.shut(None, Action::Abort { error: BatchError::OutOfTurn }),
            },
            Phase::AwaitStage => match event {
                Event::StageSet { stage } => match &self.task {
                    Task::Rewrite { selection, .. } => {
                        let selection = *selection;
                        let note = if self.verbose {
                            let mut line = String::from_str("Updated current stage to: ");
                            push_decimal(&mut line, stage as u32);
                            Some(line)
                        } else {
                            None
                        };
                        self.phase = Phase::AwaitRecords;
                        Step { note, action: Action::Fetch { selection } }
                    },
                    _ => self.shut(None, Action::Abort { error: BatchError::OutOfTurn }),
                },
                Event::Failed { error } => self.shut(None, Action::Abort { error }),
                _ => self.shut(None, Action::Abort { error: BatchError::OutOfTurn }),
            },
            Phase::AwaitRecords => match event {
                Event::Fetched { records } => {
                    self.records = records;
                    self.cursor = 0;
                    assert(self@.remaining =~= records.deep_view());
                    self.turn(None)
                },
                Event::Failed { error } => self.shut(None, Action::Abort { error }),
                _ => self.shut(None, Action::Abort { error: BatchError::OutOfTurn }),
            },
            Phase::AwaitWrite => match event {
                Event::Written { .. } => {
                    let report = self.note.take();
                    self.turn(report)
                },
                Event::Failed { error } => self.shut(None, Action::Abort { error }),
                _ => self.shut(None, Action::Abort { error: BatchError::OutOfTurn }),
            },
        }
    }
}

} // verus!
