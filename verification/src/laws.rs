//! What holds of the operations on every collection.

use crate::configuration::{CommandsView, MetadataView};
use crate::decimal::decimal;
use crate::engine::{
    advance, fresh, next, task_of, ActionView, BatchErrorView, BatchView, EventView, Phase,
    TaskView,
};
use crate::helper_funcs::{decoded, staged, url_path, with_fixed_path, CodecError};
use crate::pass::{
    after_pass, fails_on, first_failure, import_outcome, import_stop, lemma_first_failure,
    pass_error, store_after,
};
use crate::path::{
    lemma_stage_path_settles, parse_path, restored_path, stage_path, ImagePathView,
};
use crate::store::{distinct_editions, StoreView};
use crate::transform::{rewritten, Opacity, RewriteView, Selection, BLACKOUT_URL};
use vstd::prelude::*;

verus! {

/// A pass keeps the number and the order of the records, and the edition and
/// the frozen flag of each. A record that the selection does not admit is as
/// it was, and so is every field but image and stage of a record that it
/// admits.
pub proof fn law_pass_keeps_the_rest(
    rewrite: RewriteView,
    selection: Selection,
    records: Seq<MetadataView>,
)
    ensures
        after_pass(rewrite, selection, records).len() == records.len(),
        forall|j: int|
            0 <= j < records.len() ==> {
                let before = records[j];
                let after = #[trigger] after_pass(rewrite, selection, records)[j];
                &&& after == MetadataView { image: after.image, stage: after.stage, ..before }
                &&& !selection.admits(before.frozen) ==> after == before
            },
{
}

/// A pass that ends without error has rewritten every record that its
/// selection admits.
pub proof fn law_pass_complete(
    rewrite: RewriteView,
    selection: Selection,
    records: Seq<MetadataView>,
)
    requires
        pass_error(rewrite, selection, records) is None,
    ensures
        forall|j: int|
            0 <= j < records.len() && selection.admits(records[j].frozen) ==> rewritten(
                rewrite,
                records[j],
            ) == Ok::<MetadataView, CodecError>(
                #[trigger] after_pass(rewrite, selection, records)[j],
            ),
{
    lemma_first_failure(rewrite, selection, records);
    assert forall|j: int|
        0 <= j < records.len() && selection.admits(records[j].frozen) implies rewritten(
        rewrite,
        records[j],
    ) == Ok::<MetadataView, CodecError>(
        #[trigger] after_pass(rewrite, selection, records)[j],
    ) by {
        assert(!fails_on(rewrite, selection, records[j]));
    }
}

/// A stage change leaves every frozen record as it was. Where it ends
/// without error, every record that is not frozen is at the new stage, and
/// its image is its old image moved to the stage: the URL whose path has been
/// set to `{folder}/{stage}/{file}`, with the folder and file read from the
/// old image.
pub proof fn law_change_stage(store: StoreView, stage: nat)
    ensures
        ({
            let rewrite = RewriteView::Stage { stage };
            let after = store_after(Some(stage), Selection::NotFrozen, rewrite, store);
            &&& after.current_stage == stage
            &&& after.records.len() == store.records.len()
            &&& forall|j: int|
                0 <= j < store.records.len() && store.records[j].frozen ==> #[trigger] after.records[j]
                    == store.records[j]
            &&& pass_error(rewrite, Selection::NotFrozen, store.records) is None ==> forall|j: int|
                0 <= j < store.records.len() && !store.records[j].frozen ==> {
                    &&& (#[trigger] after.records[j]).stage == stage
                    &&& staged(store.records[j].image, stage) == Ok::<Seq<char>, CodecError>(
                        after.records[j].image,
                    )
                }
        }),
{
    let rewrite = RewriteView::Stage { stage };
    let after = store_after(Some(stage), Selection::NotFrozen, rewrite, store);
    law_pass_keeps_the_rest(rewrite, Selection::NotFrozen, store.records);
    assert(after.records == after_pass(rewrite, Selection::NotFrozen, store.records));
    assert forall|j: int| 0 <= j < store.records.len() && store.records[j].frozen implies #[trigger] after.records[j]
        == store.records[j] by {
        assert(after_pass(rewrite, Selection::NotFrozen, store.records)[j] == store.records[j]);
    }
    if pass_error(rewrite, Selection::NotFrozen, store.records) is None {
        law_pass_complete(rewrite, Selection::NotFrozen, store.records);
        assert forall|j: int| 0 <= j < store.records.len() && !store.records[j].frozen implies {
            &&& (#[trigger] after.records[j]).stage == stage
            &&& staged(store.records[j].image, stage) == Ok::<Seq<char>, CodecError>(
                after.records[j].image,
            )
        } by {
            let before = store.records[j];
            assert(Selection::NotFrozen.admits(before.frozen));
            assert(rewritten(rewrite, before) == Ok::<MetadataView, CodecError>(
                after_pass(rewrite, Selection::NotFrozen, store.records)[j],
            ));
        }
    }
}

/// A blackout never fails. It gives every record that is not frozen the
/// blackout image, whatever image it had, and leaves every frozen record as
/// it was.
pub proof fn law_blackout(store: StoreView)
    ensures
        task_of(CommandsView::ChangeMetadataFaded { opacity: 100 }, false) == Some(
            TaskView::Rewrite {
                stage_write: None,
                selection: Selection::NotFrozen,
                rewrite: RewriteView::Fade { opacity: Opacity::Blackout },
            },
        ),
        ({
            let rewrite = RewriteView::Fade { opacity: Opacity::Blackout };
            let after = store_after(None, Selection::NotFrozen, rewrite, store);
            &&& pass_error(rewrite, Selection::NotFrozen, store.records) is None
            &&& after.current_stage == store.current_stage
            &&& after.records.len() == store.records.len()
            &&& forall|j: int|
                0 <= j < store.records.len() && store.records[j].frozen ==> #[trigger] after.records[j]
                    == store.records[j]
            &&& forall|j: int|
                0 <= j < store.records.len() && !store.records[j].frozen ==> #[trigger] after.records[j]
                    == (MetadataView { image: BLACKOUT_URL@, ..store.records[j] })
        }),
{
    let rewrite = RewriteView::Fade { opacity: Opacity::Blackout };
    law_pass_keeps_the_rest(rewrite, Selection::NotFrozen, store.records);
    lemma_first_failure(rewrite, Selection::NotFrozen, store.records);
    let at = first_failure(rewrite, Selection::NotFrozen, store.records) as int;
    if at < store.records.len() {
        assert(fails_on(rewrite, Selection::NotFrozen, store.records[at]));
    }
    law_pass_complete(rewrite, Selection::NotFrozen, store.records);
}

/// A fading with an opacity other than 35, 45 and 100 is refused: the first
/// decision of the operation is to abort with `InvalidOpacity`, so that
/// nothing is ever asked of the store.
pub proof fn law_invalid_opacity(opacity: nat, verbose: bool, force: bool)
    requires
        opacity != 35 && opacity != 45 && opacity != 100,
    ensures
        ({
            let refused = TaskView::Refuse { error: BatchErrorView::InvalidOpacity { opacity } };
            &&& task_of(CommandsView::ChangeMetadataFaded { opacity }, force) == Some(refused)
            &&& next(fresh(refused, verbose), EventView::Started).1.action == (
            ActionView::Abort { error: BatchErrorView::InvalidOpacity { opacity } })
            &&& next(fresh(refused, verbose), EventView::Started).0.phase
                == Phase::Closed
        }),
{
}

/// A restoration without `force` leaves every frozen record as it was; with
/// `force` it reaches every record. Where it ends without error, the image
/// of every record it reaches is what the old image becomes once its path is
/// set to `images/{stage}/{edition}.jpg` for the record's own stage and
/// edition, and the stage stays.
pub proof fn law_restore_images(store: StoreView, force: bool)
    ensures
        ({
            let selection = Selection::restoring(force);
            let after = store_after(None, selection, RewriteView::Restore, store);
            &&& task_of(CommandsView::RestoreImages, force) == Some(
                TaskView::Rewrite { stage_write: None, selection, rewrite: RewriteView::Restore },
            )
            &&& after.current_stage == store.current_stage
            &&& after.records.len() == store.records.len()
            &&& forall|j: int|
                0 <= j < store.records.len() && store.records[j].frozen && !force ==> #[trigger] after.records[j]
                    == store.records[j]
            &&& pass_error(RewriteView::Restore, selection, store.records) is None ==> forall|
                j: int,
            |
                0 <= j < store.records.len() && (force || !store.records[j].frozen) ==> {
                    let before = store.records[j];
                    &&& (#[trigger] after.records[j]).stage == before.stage
                    &&& with_fixed_path(before.image, restored_path(before.stage, before.edition))
                        == Ok::<Seq<char>, CodecError>(after.records[j].image)
                }
        }),
{
    let selection = Selection::restoring(force);
    law_pass_keeps_the_rest(RewriteView::Restore, selection, store.records);
    if pass_error(RewriteView::Restore, selection, store.records) is None {
        law_pass_complete(RewriteView::Restore, selection, store.records);
    }
}

/// Records whose editions are distinct among themselves and from those that
/// are there all go in.
proof fn lemma_import_takes_all(existing: Seq<MetadataView>, incoming: Seq<MetadataView>)
    requires
        distinct_editions(existing + incoming),
    ensures
        import_stop(existing, incoming) == incoming.len(),
    decreases incoming.len(),
{
    let all = existing + incoming;
    if incoming.len() > 0 {
        assert forall|i: int| 0 <= i < existing.len() implies #[trigger] existing[i].edition
            != incoming[0].edition by {
            assert(all[i] == existing[i]);
            assert(all[existing.len() as int] == incoming[0]);
        }
        assert(existing.push(incoming[0]) + incoming.skip(1) =~= all);
        lemma_import_takes_all(existing.push(incoming[0]), incoming.skip(1));
    }
}

/// Records that are, in some order, the records of a collection with
/// distinct editions have distinct editions too.
proof fn lemma_reordered_distinct(records: Seq<MetadataView>, reordered: Seq<MetadataView>)
    requires
        distinct_editions(records),
        reordered.to_multiset() == records.to_multiset(),
    ensures
        distinct_editions(reordered),
{
    assert(records.no_duplicates()) by {
        assert forall|i: int, j: int|
            0 <= i < records.len() && 0 <= j < records.len() && i != j implies records[i]
            != records[j] by {
            if i < j {
                assert(records[i].edition != records[j].edition);
            } else {
                assert(records[j].edition != records[i].edition);
            }
        }
    }
    records.lemma_multiset_has_no_duplicates();
    reordered.lemma_multiset_has_no_duplicates_conv();
    assert forall|i: int, j: int| 0 <= i < j < reordered.len() implies #[trigger] reordered[i].edition
        != #[trigger] reordered[j].edition by {
        vstd::seq_lib::to_multiset_contains(reordered, reordered[i]);
        vstd::seq_lib::to_multiset_contains(reordered, reordered[j]);
        vstd::seq_lib::to_multiset_contains(records, reordered[i]);
        vstd::seq_lib::to_multiset_contains(records, reordered[j]);
        assert(reordered.contains(reordered[i]));
        assert(reordered.contains(reordered[j]));
        let a = choose|a: int| 0 <= a < records.len() && records[a] == reordered[i];
        let b = choose|b: int| 0 <= b < records.len() && records[b] == reordered[j];
        assert(reordered[i] != reordered[j]);
        if a < b {
            assert(records[a].edition != records[b].edition);
        } else if b < a {
            assert(records[b].edition != records[a].edition);
        }
    }
}

/// What a store hands out for an export goes back in whole: importing the
/// records of a collection, in whatever order they were exported, into an
/// empty store gives a store with exactly those records, in that order, and
/// no error.
pub proof fn law_export_then_import(
    exported: StoreView,
    dumped: Seq<MetadataView>,
    empty: StoreView,
)
    requires
        exported.wf(),
        dumped.to_multiset() == exported.records.to_multiset(),
        empty.records.len() == 0,
    ensures
        import_outcome(empty, dumped).0.wf(),
        import_outcome(empty, dumped).0.records == dumped,
        import_outcome(empty, dumped).0.records.to_multiset() == exported.records.to_multiset(),
        import_outcome(empty, dumped).0.current_stage == empty.current_stage,
        import_outcome(empty, dumped).1.failure is None,
{
    lemma_reordered_distinct(exported.records, dumped);
    assert(empty.records + dumped =~= dumped);
    lemma_import_takes_all(empty.records, dumped);
    assert(dumped.take(dumped.len() as int) =~= dumped);
}

/// Moving an image to a stage hands the URL a path that reads as that stage:
/// its segments are the folder of the old image, the numeral of the stage and
/// the file of the old image. Read and written again for the same stage, the
/// path stays as it is.
pub proof fn law_stage_path_of_image(image: Seq<char>, stage: nat)
    requires
        decoded(image) is Ok,
    ensures
        ({
            let parts = decoded(image)->Ok_0;
            let path = stage_path(parts.folder, stage, parts.file);
            let read = parse_path(seq!['/'] + path);
            &&& staged(image, stage) == with_fixed_path(image, path)
            &&& read == Some(
                ImagePathView { folder: parts.folder, stage: decimal(stage), file: parts.file },
            )
            &&& stage_path(read->0.folder, stage, read->0.file) == path
        }),
{
    lemma_stage_path_settles(url_path(image)->0, stage);
}

/// An update that an operation turns to is for a record that its selection
/// admits.
proof fn lemma_advance_within_selection(state: BatchView, report: Option<Seq<char>>)
    ensures
        advance(state, report).1.action matches ActionView::Update { record } ==> (
        state.task matches TaskView::Rewrite { selection, .. } && selection.admits(record.frozen)),
    decreases state.remaining.len(),
{
    if state.remaining.len() > 0 {
        let rest = state.remaining.drop_first();
        match state.task {
            TaskView::Rewrite { selection, .. } => {
                if !selection.admits(state.remaining[0].frozen) {
                    lemma_advance_within_selection(BatchView { remaining: rest, ..state }, report);
                }
            },
            _ => {},
        }
    }
}

/// Whatever state an operation is in and whatever the store hands in, the
/// operation asks to update only records that its selection admits. An
/// operation that selects what is not frozen never asks to write a frozen
/// record.
pub proof fn law_updates_within_selection(state: BatchView, event: EventView)
    ensures
        next(state, event).1.action matches ActionView::Update { record } ==> (
        state.task matches TaskView::Rewrite { selection, .. } && selection.admits(record.frozen)),
{
    match event {
        EventView::Fetched { records } => {
            lemma_advance_within_selection(BatchView { remaining: records, ..state }, None);
        },
        _ => {},
    }
    lemma_advance_within_selection(state, None);
    lemma_advance_within_selection(BatchView { note: None, ..state }, state.note);
}

} // verus!
