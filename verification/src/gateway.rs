//! How a [`Store`] answers the actions of an operation.

use crate::decimal::{decimal, push_decimal};
use crate::engine::{Action, ActionView, BatchError, BatchErrorView, Event, EventView};
use crate::store::{has_edition, replaced, selected, Store, StoreFault, StoreView};
use vstd::prelude::*;

verus! {

/// The cause given for a record that cannot be inserted because its edition
/// is taken.
pub open spec fn duplicate_cause(edition: nat) -> Seq<char> {
    "duplicate edition "@ + decimal(edition)
}

/// The error that a refusal of the store ends an operation with.
pub open spec fn fault_view(fault: StoreFault) -> BatchErrorView {
    match fault {
        StoreFault::RecordNotFound { edition } => BatchErrorView::RecordNotFound {
            edition: edition as nat,
        },
        StoreFault::DuplicateEdition { edition } => BatchErrorView::Store {
            cause: duplicate_cause(edition as nat),
        },
    }
}

/// The error that a refusal of the store ends an operation with.
pub fn fault_error(fault: StoreFault) -> (error: BatchError)
    ensures
        error@ == fault_view(fault),
{
    match fault {
        StoreFault::RecordNotFound { edition } => BatchError::RecordNotFound { edition },
        StoreFault::DuplicateEdition { edition } => {
            let mut cause = String::from_str("duplicate edition ");
            push_decimal(&mut cause, edition);
            BatchError::Store { cause }
        },
    }
}

/// How a store answers an action: what it holds afterwards, and the event it
/// gives back. `Finish` and `Abort` ask nothing of the store.
pub open spec fn performed(action: ActionView, store: StoreView) -> (StoreView, EventView) {
    match action {
        ActionView::SetCurrentStage { stage } => (
            StoreView { current_stage: stage, ..store },
            EventView::StageSet { stage },
        ),
        ActionView::Fetch { selection } => (
            store,
            EventView::Fetched { records: selected(store.records, selection) },
        ),
        ActionView::Update { record } => if has_edition(store.records, record.edition) {
            (
                StoreView { records: replaced(store.records, record), ..store },
                EventView::Written { edition: record.edition },
            )
        } else {
            (
                store,
                EventView::Failed {
                    error: BatchErrorView::RecordNotFound { edition: record.edition },
                },
            )
        },
        ActionView::Insert { record } => if has_edition(store.records, record.edition) {
            (
                store,
                EventView::Failed {
                    error: BatchErrorView::Store { cause: duplicate_cause(record.edition) },
                },
            )
        } else {
            (
                StoreView { records: store.records.push(record), ..store },
                EventView::Written { edition: record.edition },
            )
        },
        _ => (store, EventView::Started),
    }
}

/// Performs an action on `store` and tells how it went.
pub fn perform(action: Action, store: &mut Store) -> (event: Event)
    requires
        old(store)@.wf(),
        !(action is Finish),
        !(action is Abort),
    ensures
        final(store)@.wf(),
        (final(store)@, event@) == performed(action@, old(store)@),
{
    match action {
        Action::SetCurrentStage { stage } => {
            let written = store.set_current_stage(stage);
            Event::StageSet { stage: written }
        },
        Action::Fetch { selection } => Event::Fetched { records: store.fetch_where(selection) },
        Action::Update { record } => {
            proof {
                if !has_edition(store@.records, record@.edition) {
                    assert(replaced(store@.records, record@) =~= store@.records);
                }
            }
            match store.update_record(record) {
                Ok(edition) => Event::Written { edition },
                Err(fault) => Event::Failed { error: fault_error(fault) },
            }
        },
        Action::Insert { record } => match store.insert(record) {
            Ok(edition) => Event::Written { edition },
            Err(fault) => Event::Failed { error: fault_error(fault) },
        },
        _ => Event::Started,
    }
}

} // verus!
