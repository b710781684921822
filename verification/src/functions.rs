//! The operations, run to their end on a [`Store`].
//!
//! Each operation is one pass: select the records, rewrite each, write it
//! back, and stop at the first record that cannot be rewritten. Records
//! written before a failure stay written.

use crate::configuration::{Commands, Metadata, MetadataView};
use crate::decimal::{decimal, push_decimal};
use crate::engine::{BatchErrorView, Task};
use crate::export::{dump_name, ordered_by_edition, prepare_dump, Dump, DUMP_DIRECTORY};
use crate::pass::{import_outcome, report_after, store_after, Report, ReportView};
use crate::run::{run_import, run_task};
use crate::store::{select, selected, Store};
use crate::transform::{Opacity, RewriteView, Selection};
use vstd::prelude::*;

verus! {

/// Moves the collection to a stage: writes the stage of the collection, then
/// moves every record that is not frozen to the stage, its image with it.
/// Stops at the first record whose image cannot be moved; the stage of the
/// collection and the records before that one stay written.
pub fn change_stage(stage: u8, verbose: bool, store: &mut Store) -> (report: Report)
    requires
        old(store)@.wf(),
    ensures
        final(store)@.wf(),
        final(store)@ == store_after(
            Some(stage as nat),
            Selection::NotFrozen,
            RewriteView::Stage { stage: stage as nat },
            old(store)@,
        ),
        report@ == report_after(
            Some(stage as nat),
            Selection::NotFrozen,
            RewriteView::Stage { stage: stage as nat },
            verbose,
            old(store)@.records,
        ),
{
    let task = Task::for_command(Commands::ChangeStage { stage }, false);
    run_task(task.unwrap(), verbose, store)
}

/// Gives the image of every record, frozen or not, the host `host`. Stops at
/// the first record whose image cannot take it.
pub fn change_host_for_images(host: &str, verbose: bool, store: &mut Store) -> (report: Report)
    requires
        old(store)@.wf(),
    ensures
        final(store)@.wf(),
        final(store)@ == store_after(
            None,
            Selection::All,
            RewriteView::Host { host: host@ },
            old(store)@,
        ),
        report@ == report_after(
            None,
            Selection::All,
            RewriteView::Host { host: host@ },
            verbose,
            old(store)@.records,
        ),
{
    let task = Task::for_command(Commands::ChangeHost { host: String::from_str(host) }, false);
    run_task(task.unwrap(), verbose, store)
}

/// Fades the images of the records that are not frozen. An opacity other
/// than 35, 45 and 100 is refused with `InvalidOpacity` before the store is
/// touched.
pub fn change_metadata_faded(opacity: u8, verbose: bool, store: &mut Store) -> (report: Report)
    requires
        old(store)@.wf(),
    ensures
        final(store)@.wf(),
        match Opacity::of_percent(opacity as nat) {
            Some(fading) => {
                &&& final(store)@ == store_after(
                    None,
                    Selection::NotFrozen,
                    RewriteView::Fade { opacity: fading },
                    old(store)@,
                )
                &&& report@ == report_after(
                    None,
                    Selection::NotFrozen,
                    RewriteView::Fade { opacity: fading },
                    verbose,
                    old(store)@.records,
                )
            },
            None => {
                &&& final(store)@ == old(store)@
                &&& report@ == (ReportView {
                    notes: Seq::empty(),
                    failure: Some(BatchErrorView::InvalidOpacity { opacity: opacity as nat }),
                })
            },
        },
{
    let task = Task::for_command(Commands::ChangeMetadataFaded { opacity }, false);
    run_task(task.unwrap(), verbose, store)
}

/// Points the images back to the regular picture of each record's own stage
/// and edition: those of the records that are not frozen, or of every record
/// under `force`.
pub fn restore_images(verbose: bool, force: bool, store: &mut Store) -> (report: Report)
    requires
        old(store)@.wf(),
    ensures
        final(store)@.wf(),
        final(store)@ == store_after(
            None,
            Selection::restoring(force),
            RewriteView::Restore,
            old(store)@,
        ),
        report@ == report_after(
            None,
            Selection::restoring(force),
            RewriteView::Restore,
            verbose,
            old(store)@.records,
        ),
{
    let task = Task::for_command(Commands::RestoreImages, force);
    run_task(task.unwrap(), verbose, store)
}

/// Fills `store` from the records of a feed: inserts them in their order,
/// with a line for each, and stops at the first that the store refuses.
pub fn db_init_from_endpoint(records: Vec<Metadata>, store: &mut Store) -> (report: Report)
    requires
        old(store)@.wf(),
    ensures
        final(store)@.wf(),
        (final(store)@, report@) == import_outcome(old(store)@, records.deep_view()),
{
    run_import(records, store)
}

/// The line that reports a frozen record: a heading, then image and stage.
pub open spec fn frozen_line(record: MetadataView) -> Seq<char> {
    "IMAGE STAGE\n"@ + record.image + " "@ + decimal(record.stage)
}

/// The lines that report the frozen records of a collection, in its order.
pub open spec fn frozen_lines(records: Seq<MetadataView>) -> Seq<Seq<char>> {
    selected(records, Selection::Frozen).map_values(|record: MetadataView| frozen_line(record))
}

/// The report of the frozen records, handed out line by line. A line that
/// has been handed out is gone; there is no way back to the start.
pub struct FrozenReport {
    records: Vec<Metadata>,
    cursor: usize,
}

impl View for FrozenReport {
    type V = Seq<Seq<char>>;

    /// The lines still to come.
    closed spec fn view(&self) -> Seq<Seq<char>> {
        if self.cursor <= self.records.len() {
            self.records.deep_view().skip(self.cursor as int).map_values(
                |record: MetadataView| frozen_line(record),
            )
        } else {
            Seq::empty()
        }
    }
}

impl FrozenReport {
    /// The report of those of `records` that are frozen, in their order.
    pub fn new(records: &Vec<Metadata>) -> (report: FrozenReport)
        ensures
            report@ == frozen_lines(records.deep_view()),
    {
        let frozen = select(records, Selection::Frozen);
        let report = FrozenReport { records: frozen, cursor: 0 };
        assert(report@ =~= frozen_lines(records.deep_view())) by {
            assert(frozen.deep_view().skip(0) =~= frozen.deep_view());
        }
        report
    }

    /// Hands out the next line, or `None` once there is none left.
    pub fn next_line(&mut self) -> (line: Option<String>)
        ensures
            match line {
                Some(text) => old(self)@.len() > 0 && text@ == old(self)@[0] && final(self)@ == old(
                    self,
                )@.drop_first(),
                None => old(self)@.len() == 0 && final(self)@ == old(self)@,
            },
    {
        if self.cursor >= self.records.len() {
            return None;
        }
        let ghost before = self@;
        let record = &self.records[self.cursor];
        let mut text = String::from_str("IMAGE STAGE\n");
        text.append(record.image.as_str());
        text.append(" ");
        push_decimal(&mut text, record.stage as u32);
        self.cursor = self.cursor + 1;
        proof {
            let views = self.records.deep_view();
            assert(views.skip(self.cursor as int - 1)[0] == self.records[self.cursor as int - 1]@);
            assert(self@ =~= before.drop_first());
        }
        Some(text)
    }
}

/// Reports the frozen records of `store`: image and stage of each, in the
/// order of the collection. Nothing is changed.
pub fn show_frozen(store: &Store) -> (report: FrozenReport)
    ensures
        report@ == frozen_lines(store@.records),
{
    FrozenReport::new(&store.fetch_all())
}

/// Prepares the export of `store` at the given moment: every record, in the
/// order of the editions, for a file named after the moment in UTC. `None`
/// where the moment has no date.
pub fn generate_json_files(store: &Store, unix_seconds: i64) -> (dump: Option<Dump>)
    ensures
        dump is Some <==> dump_name(unix_seconds as int) is Some,
        dump matches Some(export) ==> {
            &&& export.directory@ == DUMP_DIRECTORY@
            &&& Some(export.file_name@) == dump_name(unix_seconds as int)
            &&& ordered_by_edition(export.records.deep_view())
            &&& export.records.deep_view().to_multiset() == store@.records.to_multiset()
        },
{
    prepare_dump(store.fetch_all(), unix_seconds)
}

} // verus!
