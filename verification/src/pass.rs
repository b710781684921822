//! What a pass over a collection comes to: which records it rewrites, where
//! it stops, and what it reports. An import is specified here too.

use crate::configuration::MetadataView;
use crate::engine::{insert_note, stage_note, BatchError, BatchErrorView, TaskView};
use crate::gateway::duplicate_cause;
use crate::store::{has_edition, selected, StoreView};
use crate::transform::{rewritten, update_note, RewriteView, Selection};
use vstd::prelude::*;

verus! {

/// Whether a pass reaches the record and cannot rewrite it.
pub open spec fn fails_on(rewrite: RewriteView, selection: Selection, record: MetadataView) -> bool {
    selection.admits(record.frozen) && rewritten(rewrite, record) is Err
}

/// The position of the first record that a pass fails on, or the number of
/// records if it fails on none.
pub open spec fn first_failure(
    rewrite: RewriteView,
    selection: Selection,
    records: Seq<MetadataView>,
) -> nat
    decreases records.len(),
{
    if records.len() == 0 || fails_on(rewrite, selection, records[0]) {
        0
    } else {
        1 + first_failure(rewrite, selection, records.skip(1))
    }
}

/// The collection once a pass has handled the records before `bound`: those
/// that the selection admits are rewritten, all others are as they were.
pub open spec fn rewritten_upto(
    rewrite: RewriteView,
    selection: Selection,
    records: Seq<MetadataView>,
    bound: int,
) -> Seq<MetadataView> {
    Seq::new(
        records.len(),
        |j: int|
            if j < bound && selection.admits(records[j].frozen) && rewritten(rewrite, records[j])
                is Ok {
                rewritten(rewrite, records[j])->Ok_0
            } else {
                records[j]
            },
    )
}

/// The collection after a pass: every record of the selection that stands
/// before the first failure is rewritten.
pub open spec fn after_pass(
    rewrite: RewriteView,
    selection: Selection,
    records: Seq<MetadataView>,
) -> Seq<MetadataView> {
    rewritten_upto(rewrite, selection, records, first_failure(rewrite, selection, records) as int)
}

/// The error a pass ends with: that of the first record it fails on.
pub open spec fn pass_error(
    rewrite: RewriteView,
    selection: Selection,
    records: Seq<MetadataView>,
) -> Option<BatchErrorView> {
    let at = first_failure(rewrite, selection, records) as int;
    if at < records.len() {
        Some(
            BatchErrorView::Image {
                edition: records[at].edition,
                cause: rewritten(rewrite, records[at])->Err_0,
            },
        )
    } else {
        None
    }
}

/// The progress lines of a verbose pass: one for each record written, in the
/// order of the selection.
pub open spec fn pass_notes(
    rewrite: RewriteView,
    selection: Selection,
    records: Seq<MetadataView>,
) -> Seq<Seq<char>> {
    let picked = selected(records, selection);
    Seq::new(
        first_failure(rewrite, selection, picked),
        |i: int| update_note(rewrite, rewritten(rewrite, picked[i])->Ok_0),
    )
}

/// `first_failure` is the least position of a record that the pass fails on.
pub proof fn lemma_first_failure(
    rewrite: RewriteView,
    selection: Selection,
    records: Seq<MetadataView>,
)
    ensures
        first_failure(rewrite, selection, records) <= records.len(),
        forall|j: int|
            0 <= j < first_failure(rewrite, selection, records) ==> !fails_on(
                rewrite,
                selection,
                #[trigger] records[j],
            ),
        first_failure(rewrite, selection, records) < records.len() ==> fails_on(
            rewrite,
            selection,
            records[first_failure(rewrite, selection, records) as int],
        ),
    decreases records.len(),
{
    if records.len() == 0 || fails_on(rewrite, selection, records[0]) {
    } else {
        let rest = records.skip(1);
        lemma_first_failure(rewrite, selection, rest);
        let at = first_failure(rewrite, selection, records);
        assert forall|j: int| 0 <= j < at implies !fails_on(
            rewrite,
            selection,
            #[trigger] records[j],
        ) by {
            if j > 0 {
                assert(records[j] == rest[j - 1]);
            }
        }
        if at < records.len() {
            assert(records[at as int] == rest[at - 1]);
        }
    }
}

/// A position before which the pass fails on nothing, and at which it fails
/// or the collection ends, is `first_failure`.
pub proof fn lemma_first_failure_is(
    rewrite: RewriteView,
    selection: Selection,
    records: Seq<MetadataView>,
    at: int,
)
    requires
        0 <= at <= records.len(),
        forall|j: int| 0 <= j < at ==> !fails_on(rewrite, selection, #[trigger] records[j]),
        at < records.len() ==> fails_on(rewrite, selection, records[at]),
    ensures
        first_failure(rewrite, selection, records) == at,
{
    lemma_first_failure(rewrite, selection, records);
    let found = first_failure(rewrite, selection, records) as int;
    if found < at {
        assert(!fails_on(rewrite, selection, records[found]));
    } else if at < found {
        assert(!fails_on(rewrite, selection, records[at]));
    }
}

/// How an operation ended: the progress lines it gave, in order, and the
/// error it stopped on, if any.
#[derive(Debug, PartialEq, Eq)]
pub struct Report {
    pub notes: Vec<String>,
    pub failure: Option<BatchError>,
}

/// The mathematical value of a [`Report`].
pub struct ReportView {
    pub notes: Seq<Seq<char>>,
    pub failure: Option<BatchErrorView>,
}

impl View for Report {
    type V = ReportView;

    open spec fn view(&self) -> ReportView {
        ReportView {
            notes: self.notes.deep_view(),
            failure: match self.failure {
                Some(error) => Some(error@),
                None => None,
            },
        }
    }
}

/// The store after a rewriting operation.
pub open spec fn store_after(
    stage_write: Option<nat>,
    selection: Selection,
    rewrite: RewriteView,
    store: StoreView,
) -> StoreView {
    StoreView {
        current_stage: match stage_write {
            Some(stage) => stage,
            None => store.current_stage,
        },
        records: after_pass(rewrite, selection, store.records),
    }
}

/// What a rewriting operation reports.
pub open spec fn report_after(
    stage_write: Option<nat>,
    selection: Selection,
    rewrite: RewriteView,
    verbose: bool,
    records: Seq<MetadataView>,
) -> ReportView {
    ReportView {
        notes: if verbose {
            (match stage_write {
                Some(stage) => seq![stage_note(stage)],
                None => Seq::empty(),
            }) + pass_notes(rewrite, selection, records)
        } else {
            Seq::empty()
        },
        failure: pass_error(rewrite, selection, records),
    }
}

/// What an operation leaves of the store and what it reports, for the task
/// of a command: a pass where the task rewrites, and nothing but the error
/// where the command is refused.
pub open spec fn outcome(task: TaskView, verbose: bool, store: StoreView) -> (
    StoreView,
    ReportView,
) {
    match task {
        TaskView::Rewrite { stage_write, selection, rewrite } => (
            store_after(stage_write, selection, rewrite, store),
            report_after(stage_write, selection, rewrite, verbose, store.records),
        ),
        TaskView::Refuse { error } => (
            store,
            ReportView { notes: Seq::empty(), failure: Some(error) },
        ),
        TaskView::Import => (store, ReportView { notes: Seq::empty(), failure: None }),
    }
}

/// How many of the incoming records an import inserts: it stops at the first
/// whose edition is taken, by a record that was there or by one that came
/// before it.
pub open spec fn import_stop(existing: Seq<MetadataView>, incoming: Seq<MetadataView>) -> nat
    decreases incoming.len(),
{
    if incoming.len() == 0 || has_edition(existing, incoming[0].edition) {
        0
    } else {
        1 + import_stop(existing.push(incoming[0]), incoming.skip(1))
    }
}

/// What an import makes of a store and what it reports: the records it
/// inserted stand behind those that were there, in the order they came in;
/// there is a line for each record it tried; and the error, if any, is that
/// of the record it stopped at.
pub open spec fn import_outcome(store: StoreView, incoming: Seq<MetadataView>) -> (
    StoreView,
    ReportView,
) {
    let stop = import_stop(store.records, incoming) as int;
    let tried = if stop < incoming.len() {
        stop + 1
    } else {
        stop
    };
    (
        StoreView { records: store.records + incoming.take(stop), ..store },
        ReportView {
            notes: Seq::new(tried as nat, |i: int| insert_note(incoming[i].edition)),
            failure: if stop < incoming.len() {
                Some(BatchErrorView::Store { cause: duplicate_cause(incoming[stop].edition) })
            } else {
                None
            },
        },
    )
}

} // verus!
