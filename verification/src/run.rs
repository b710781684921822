//! Operations run to their end on a [`Store`]: the state machine of
//! [`crate::engine`] is stepped, each action is performed on the store, and
//! the result is shown to be what [`crate::pass`] says of the operation.

use crate::configuration::{Metadata, MetadataView};
use crate::engine::{
    advance, insert_note, next, stage_note, stage_view, Action, ActionView, Batch,
    BatchErrorView, BatchView, Event, EventView, Phase, Step, Task, TaskView,
};
use crate::gateway::{duplicate_cause, perform};
use crate::pass::{
    after_pass, fails_on, first_failure, import_outcome, import_stop, lemma_first_failure_is,
    outcome, pass_error, report_after, rewritten_upto, store_after, Report,
};
use crate::store::{distinct_editions, has_edition, replaced, selected, Store};
use crate::transform::{rewritten, update_note, Rewrite, RewriteView, Selection};
use vstd::prelude::*;

verus! {

/// The position in the collection up to which a pass has gone once it has
/// handled `count` records of the selection, the records of the selection
/// standing at the positions `at`.
spec fn reach(at: Seq<int>, total: int, count: int) -> int {
    if 0 <= count < at.len() {
        at[count]
    } else {
        total
    }
}

/// Whether position `j` lies after the record `i - 1` of the selection and
/// before the record `i`, or the end of the collection.
spec fn in_gap(at: Seq<int>, total: int, i: int, j: int) -> bool {
    &&& 0 <= i <= at.len()
    &&& (if i == 0 {
        0
    } else {
        at[i - 1] + 1
    }) <= j < reach(at, total, i)
}

/// Whether `picked` holds the records of `records` that the selection admits,
/// in their order, `at` being where each stands.
spec fn selects_in_order(
    picked: Seq<MetadataView>,
    records: Seq<MetadataView>,
    selection: Selection,
    at: Seq<int>,
) -> bool {
    &&& at.len() == picked.len()
    &&& forall|i: int|
        0 <= i < at.len() ==> 0 <= #[trigger] at[i] < records.len() && picked[i] == records[at[i]]
            && selection.admits(records[at[i]].frozen)
    &&& forall|i: int, j: int| 0 <= i < j < at.len() ==> #[trigger] at[i] < #[trigger] at[j]
    &&& forall|i: int, j: int| #[trigger]
        in_gap(at, records.len() as int, i, j) ==> 0 <= j < records.len() && !selection.admits(
            records[j].frozen,
        )
}

/// Where the records of a selection stand in the collection.
proof fn lemma_selected_positions(records: Seq<MetadataView>, selection: Selection) -> (at:
    Seq<int>)
    ensures
        selects_in_order(selected(records, selection), records, selection, at),
    decreases records.len(),
{
    if records.len() == 0 {
        let at = Seq::<int>::empty();
        assert forall|i: int, j: int| #[trigger]
            in_gap(at, records.len() as int, i, j) implies 0 <= j < records.len()
            && !selection.admits(records[j].frozen) by {}
        at
    } else {
        let front = records.drop_last();
        let last = records.len() - 1;
        let before = lemma_selected_positions(front, selection);
        let picked_before = selected(front, selection);
        if selection.admits(records.last().frozen) {
            let at = before.push(last);
            let picked = picked_before.push(records.last());
            assert forall|i: int| 0 <= i < at.len() implies 0 <= #[trigger] at[i] < records.len()
                && picked[i] == records[at[i]] && selection.admits(records[at[i]].frozen) by {
                if i < before.len() {
                    assert(at[i] == before[i]);
                    assert(front[before[i]] == records[before[i]]);
                }
            }
            assert forall|i: int, j: int| 0 <= i < j < at.len() implies #[trigger] at[i]
                < #[trigger] at[j] by {
                assert(at[i] == before[i]);
                if j < before.len() {
                    assert(at[j] == before[j]);
                }
            }
            assert forall|i: int, j: int| #[trigger]
                in_gap(at, records.len() as int, i, j) implies 0 <= j < records.len()
                && !selection.admits(records[j].frozen) by {
                if i <= before.len() {
                    assert(in_gap(before, front.len() as int, i, j));
                    assert(front[j] == records[j]);
                }
            }
            at
        } else {
            let at = before;
            assert forall|i: int| 0 <= i < at.len() implies 0 <= #[trigger] at[i] < records.len()
                && picked_before[i] == records[at[i]] && selection.admits(
                records[at[i]].frozen,
            ) by {
                assert(front[before[i]] == records[before[i]]);
            }
            assert forall|i: int, j: int| #[trigger]
                in_gap(at, records.len() as int, i, j) implies 0 <= j < records.len()
                && !selection.admits(records[j].frozen) by {
                if j < last {
                    assert(in_gap(before, front.len() as int, i, j));
                    assert(front[j] == records[j]);
                }
            }
            at
        }
    }
}

/// The order of the phases of an operation.
spec fn rank(phase: Phase) -> nat {
    match phase {
        Phase::Idle => 4,
        Phase::AwaitStage => 3,
        Phase::AwaitRecords => 2,
        Phase::AwaitWrite => 1,
        Phase::Closed => 0,
    }
}

/// A rewriting pass over a collection, as the proof of the run looks at it:
/// what the pass is, the collection it started on, the records it selects and
/// where each stands.
struct Pass {
    staged: Option<nat>,
    selection: Selection,
    rewrite: RewriteView,
    verbose: bool,
    init: Seq<MetadataView>,
    picked: Seq<MetadataView>,
    at: Seq<int>,
}

impl Pass {
    #[verifier::opaque]
    spec fn wf(self) -> bool {
        &&& distinct_editions(self.init)
        &&& self.picked == selected(self.init, self.selection)
        &&& selects_in_order(self.picked, self.init, self.selection, self.at)
    }

    spec fn task(self) -> TaskView {
        TaskView::Rewrite {
            stage_write: self.staged,
            selection: self.selection,
            rewrite: self.rewrite,
        }
    }

    /// The position up to which the collection has been handled once `count`
    /// records of the selection are written.
    spec fn done(self, count: int) -> int {
        if count <= 0 {
            0
        } else {
            self.at[count - 1] + 1
        }
    }

    /// The collection once `count` records of the selection are written.
    #[verifier::opaque]
    spec fn held(self, count: int) -> Seq<MetadataView> {
        rewritten_upto(self.rewrite, self.selection, self.init, self.done(count))
    }

    /// The first `count` records of the selection could be rewritten.
    #[verifier::opaque]
    spec fn sound(self, count: int) -> bool {
        &&& 0 <= count <= self.picked.len()
        &&& forall|j: int|
            0 <= j < self.done(count) ==> !fails_on(
                self.rewrite,
                self.selection,
                #[trigger] self.init[j],
            )
        &&& forall|i: int|
            0 <= i < count ==> rewritten(self.rewrite, #[trigger] self.picked[i]) is Ok
    }

    /// The line for record `i` of the selection, if the pass is verbose.
    spec fn stash(self, i: int) -> Option<Seq<char>> {
        if self.verbose {
            Some(update_note(self.rewrite, rewritten(self.rewrite, self.picked[i])->Ok_0))
        } else {
            None
        }
    }

    /// The lines for the stage of the collection.
    spec fn stage_lines(self) -> Seq<Seq<char>> {
        match self.staged {
            Some(stage) => if self.verbose {
                seq![stage_note(stage)]
            } else {
                Seq::empty()
            },
            None => Seq::empty(),
        }
    }

    /// The lines for the first `count` records of the selection.
    #[verifier::opaque]
    spec fn lines(self, count: int) -> Seq<Seq<char>> {
        if self.verbose {
            Seq::new(
                count as nat,
                |i: int| update_note(self.rewrite, rewritten(self.rewrite, self.picked[i])->Ok_0),
            )
        } else {
            Seq::empty()
        }
    }

    /// One more confirmed write adds its line.
    proof fn lemma_lines_push(self, lines: Seq<Seq<char>>, count: int)
        requires
            count >= 0,
            lines == self.stage_lines() + self.lines(count),
        ensures
            (match self.stash(count) {
                Some(line) => lines.push(line),
                None => lines,
            }) == self.stage_lines() + self.lines(count + 1),
    {
        reveal(Pass::lines);
        match self.stash(count) {
            Some(line) => {
                assert(lines.push(line) =~= self.stage_lines() + self.lines(count + 1));
            },
            None => {
                assert(lines =~= self.stage_lines() + self.lines(count + 1));
            },
        }
    }

    /// The lines of a pass that wrote `count` records are what it reports.
    proof fn lemma_lines_final(self, count: int)
        requires
            first_failure(self.rewrite, self.selection, self.picked) == count,
            self.picked == selected(self.init, self.selection),
        ensures
            self.stage_lines() + self.lines(count) == report_after(
                self.staged,
                self.selection,
                self.rewrite,
                self.verbose,
                self.init,
            ).notes,
    {
        reveal(Pass::lines);
        assert(self.stage_lines() + self.lines(count) =~= report_after(
            self.staged,
            self.selection,
            self.rewrite,
            self.verbose,
            self.init,
        ).notes);
    }

    /// Nothing is written yet: the collection is as it was.
    proof fn lemma_held_initially(self)
        ensures
            self.held(0) == self.init,
            self.stage_lines() + self.lines(0) == self.stage_lines(),
            self.wf() ==> self.sound(0),
    {
        reveal(Pass::wf);
        reveal(Pass::held);
        reveal(Pass::sound);
        reveal(Pass::lines);
        assert(self.stage_lines() + self.lines(0) =~= self.stage_lines());
        assert(self.held(0) =~= self.init);
        assert(self.lines(0) =~= Seq::<Seq<char>>::empty());
    }

    /// Between the record `count - 1` of the selection and the next, or the
    /// end, the pass has nothing to do: it has in fact gone as far as
    /// `reach(at, total, count)`.
    proof fn lemma_reach(self, count: int)
        requires
            self.wf(),
            self.sound(count),
        ensures
            self.held(count) == rewritten_upto(
                self.rewrite,
                self.selection,
                self.init,
                reach(self.at, self.init.len() as int, count),
            ),
            forall|j: int|
                0 <= j < reach(self.at, self.init.len() as int, count) ==> !fails_on(
                    self.rewrite,
                    self.selection,
                    #[trigger] self.init[j],
                ),
            self.done(count) <= reach(self.at, self.init.len() as int, count) <= self.init.len(),
    {
        reveal(Pass::wf);
        reveal(Pass::held);
        reveal(Pass::sound);
        let total = self.init.len() as int;
        let upto = reach(self.at, total, count);
        if count > 0 && count < self.at.len() {
            assert(self.at[count - 1] < self.at[count]);
        }
        if count > 0 {
            assert(0 <= self.at[count - 1] < total);
        }
        assert forall|j: int| 0 <= j < upto implies !fails_on(
            self.rewrite,
            self.selection,
            #[trigger] self.init[j],
        ) by {
            if j >= self.done(count) {
                assert(in_gap(self.at, total, count, j));
            }
        }
        assert(self.held(count) =~= rewritten_upto(self.rewrite, self.selection, self.init, upto))
            by {
            assert forall|j: int| 0 <= j < total implies self.held(count)[j] == rewritten_upto(
                self.rewrite,
                self.selection,
                self.init,
                upto,
            )[j] by {
                if self.done(count) <= j < upto {
                    assert(in_gap(self.at, total, count, j));
                }
            }
        }
    }

    /// What the operation decides when it turns to record `count` of the
    /// selection, and what that means for the collection.
    proof fn lemma_turn(self, state: BatchView, report: Option<Seq<char>>, count: int)
        requires
            self.wf(),
            self.sound(count),
            state.task == self.task(),
            state.verbose == self.verbose,
            state.remaining == self.picked.skip(count),
        ensures
            ({
                let (after, step) = advance(state, report);
                &&& step.note == report
                &&& after.task == state.task
                &&& after.verbose == state.verbose
                &&& match step.action {
                    ActionView::Finish => {
                        &&& after.phase == Phase::Closed
                        &&& self.held(count) == after_pass(self.rewrite, self.selection, self.init)
                        &&& pass_error(self.rewrite, self.selection, self.init) is None
                        &&& first_failure(self.rewrite, self.selection, self.picked) == count
                        &&& self.picked == selected(self.init, self.selection)
                    },
                    ActionView::Abort { error } => {
                        &&& after.phase == Phase::Closed
                        &&& self.held(count) == after_pass(self.rewrite, self.selection, self.init)
                        &&& pass_error(self.rewrite, self.selection, self.init) == Some(error)
                        &&& first_failure(self.rewrite, self.selection, self.picked) == count
                        &&& self.picked == selected(self.init, self.selection)
                    },
                    ActionView::Update { record } => {
                        &&& 0 <= count < self.picked.len()
                        &&& after.phase == Phase::AwaitWrite
                        &&& after.remaining == self.picked.skip(count + 1)
                        &&& after.note == self.stash(count)
                        &&& self.sound(count + 1)
                        &&& has_edition(self.held(count), record.edition)
                        &&& replaced(self.held(count), record) == self.held(count + 1)
                    },
                    _ => false,
                }
            }),
    {
        reveal(Pass::wf);
        reveal(Pass::held);
        reveal(Pass::sound);
        let total = self.init.len() as int;
        let rw = self.rewrite;
        let sel = self.selection;
        self.lemma_reach(count);
        if count == self.picked.len() {
            assert(self.picked.skip(count).len() == 0);
            lemma_first_failure_is(rw, sel, self.init, total);
            assert forall|i: int| 0 <= i < count implies !fails_on(
                rw,
                sel,
                #[trigger] self.picked[i],
            ) by {
                assert(rewritten(rw, self.picked[i]) is Ok);
            }
            lemma_first_failure_is(rw, sel, self.picked, count);
        } else {
            let place = self.at[count];
            let record = self.picked[count];
            assert(self.picked.skip(count)[0] == record);
            assert(self.picked.skip(count).drop_first() =~= self.picked.skip(count + 1));
            assert(record == self.init[place]);
            assert(sel.admits(record.frozen));
            match rewritten(rw, record) {
                Ok(changed) => {
                    assert(changed.edition == record.edition);
                    assert(self.held(count)[place].edition == changed.edition);
                    assert(replaced(self.held(count), changed) =~= self.held(count + 1)) by {
                        assert forall|j: int| 0 <= j < total implies replaced(
                            self.held(count),
                            changed,
                        )[j] == self.held(count + 1)[j] by {
                            if j < place {
                                assert(self.init[j].edition != self.init[place].edition);
                            } else if j > place {
                                assert(self.init[place].edition != self.init[j].edition);
                            }
                        }
                    }
                    assert forall|i: int| 0 <= i < count + 1 implies rewritten(
                        rw,
                        #[trigger] self.picked[i],
                    ) is Ok by {}
                },
                Err(cause) => {
                    lemma_first_failure_is(rw, sel, self.init, place);
                    assert forall|i: int| 0 <= i < count implies !fails_on(
                        rw,
                        sel,
                        #[trigger] self.picked[i],
                    ) by {
                        assert(rewritten(rw, self.picked[i]) is Ok);
                    }
                    lemma_first_failure_is(rw, sel, self.picked, count);
                },
            }
        }
    }
}

/// Runs a rewriting operation to its end on `store`: steps the operation,
/// performs each action on the store, and gathers the lines.
fn run_rewrite(
    stage_write: Option<u8>,
    selection: Selection,
    rewrite: Rewrite,
    verbose: bool,
    store: &mut Store,
) -> (report: Report)
    requires
        old(store)@.wf(),
    ensures
        final(store)@.wf(),
        final(store)@ == store_after(
            stage_view(stage_write),
            selection,
            rewrite@,
            old(store)@,
        ),
        report@ == report_after(
            stage_view(stage_write),
            selection,
            rewrite@,
            verbose,
            old(store)@.records,
        ),
{
    let ghost pass = Pass {
        staged: stage_view(stage_write),
        selection,
        rewrite: rewrite@,
        verbose,
        init: store@.records,
        picked: selected(store@.records, selection),
        at: lemma_selected_positions(store@.records, selection),
    };
    let ghost init_stage = store@.current_stage;
    let ghost mut count: int = 0;
    proof {
        reveal(Pass::wf);
        pass.lemma_held_initially();
    }
    let mut batch = Batch::new(Task::Rewrite { stage_write, selection, rewrite }, verbose);
    let mut notes: Vec<String> = Vec::new();
    let mut event = Event::Started;
    loop
        invariant
            store@.wf(),
            pass.wf(),
            pass.sound(count),
            pass.init == old(store)@.records,
            init_stage == old(store)@.current_stage,
            store@.records == pass.held(count),
            batch@.task == pass.task(),
            batch@.verbose == pass.verbose,
            batch@.phase != Phase::Closed,
            batch@.phase == Phase::Idle ==> event@ == EventView::Started && count == 0
                && store@.current_stage == init_stage && notes.deep_view() == Seq::<
                Seq<char>,
            >::empty(),
            batch@.phase == Phase::AwaitStage ==> pass.staged is Some && event@ == (
            EventView::StageSet { stage: pass.staged->0 }) && count == 0 && notes.deep_view()
                == Seq::<Seq<char>>::empty(),
            batch@.phase == Phase::AwaitRecords ==> event@ == (EventView::Fetched {
                records: pass.picked,
            }) && count == 0 && notes.deep_view() == pass.stage_lines(),
            pass.picked == selected(pass.init, pass.selection),
            pass.selection == selection,
            pass.rewrite == rewrite@,
            pass.verbose == verbose,
            pass.staged == stage_view(stage_write),
            batch@.phase != Phase::Idle ==> store@.current_stage == (match pass.staged {
                Some(stage) => stage,
                None => init_stage,
            }),
            batch@.phase == Phase::AwaitWrite ==> count >= 1 && event@ is Written
                && batch@.remaining == pass.picked.skip(count) && batch@.note == pass.stash(
                count - 1,
            ) && notes.deep_view() == pass.stage_lines() + pass.lines(count - 1),
        decreases rank(batch@.phase), batch@.remaining.len(),
    {
        let ghost before = batch@;
        let ghost came = event@;
        let ghost lines = notes.deep_view();
        let Step { note, action } = batch.step(event);
        proof {
            assert((batch@, (Step { note, action })@) == next(before, came));
            if before.phase == Phase::AwaitRecords {
                assert(pass.picked.skip(0) =~= pass.picked);
                pass.lemma_held_initially();
                pass.lemma_turn(BatchView { remaining: pass.picked, ..before }, None, count);
            }
            if before.phase == Phase::AwaitWrite {
                pass.lemma_turn(BatchView { note: None, ..before }, before.note, count);
                pass.lemma_lines_push(lines, count - 1);
            }
        }
        match note {
            Some(line) => {
                notes.push(line);
                assert(notes.deep_view() =~= lines.push(line@));
            },
            None => {},
        }
        match action {
            Action::Finish => {
                proof {
                    pass.lemma_lines_final(count);
                }
                return Report { notes, failure: None };
            },
            Action::Abort { error } => {
                proof {
                    pass.lemma_lines_final(count);
                }
                return Report { notes, failure: Some(error) };
            },
            asked => {
                proof {
                    pass.lemma_held_initially();
                    if asked@ is Fetch {
                        assert(notes.deep_view() =~= pass.stage_lines());
                    }
                    if asked@ is Update {
                        count = count + 1;
                    }
                }
                event = perform(asked, store);
            },
        }
    }
}

/// Runs the task of a command to its end on `store`. A task that is refused
/// ends at its first step, before anything is asked of the store.
pub fn run_task(task: Task, verbose: bool, store: &mut Store) -> (report: Report)
    requires
        old(store)@.wf(),
        !(task is Import),
    ensures
        final(store)@.wf(),
        (final(store)@, report@) == outcome(task@, verbose, old(store)@),
{
    match task {
        Task::Rewrite { stage_write, selection, rewrite } => run_rewrite(
            stage_write,
            selection,
            rewrite,
            verbose,
            store,
        ),
        refused => {
            let mut batch = Batch::new(refused, verbose);
            let Step { note: _, action } = batch.step(Event::Started);
            match action {
                Action::Abort { error } => {
                    let report = Report { notes: Vec::new(), failure: Some(error) };
                    assert(report@.notes =~= Seq::empty());
                    report
                },
                _ => unreached(),
            }
        },
    }
}

/// The lines of an import that has tried `count` records.
spec fn import_lines(incoming: Seq<MetadataView>, count: int) -> Seq<Seq<char>> {
    Seq::new(count as nat, |i: int| insert_note(incoming[i].edition))
}

/// Runs the import of `records` to its end on `store`: inserts them in their
/// order, and stops at the first that the store refuses.
pub fn run_import(records: Vec<Metadata>, store: &mut Store) -> (report: Report)
    requires
        old(store)@.wf(),
    ensures
        final(store)@.wf(),
        (final(store)@, report@) == import_outcome(old(store)@, records.deep_view()),
{
    let ghost init = store@;
    let ghost incoming = records.deep_view();
    let ghost mut count: int = 0;
    let mut batch = Batch::import(records);
    let mut notes: Vec<String> = Vec::new();
    let mut event = Event::Started;
    proof {
        assert(init.records + incoming.take(0) =~= init.records);
        assert(incoming.skip(0) =~= incoming);
        assert(notes.deep_view() =~= import_lines(incoming, 0));
    }
    loop
        invariant
            store@.wf(),
            init == old(store)@,
            incoming == records.deep_view(),
            batch@.task == TaskView::Import,
            batch@.phase == Phase::Idle || batch@.phase == Phase::AwaitWrite,
            batch@.note is None,
            0 <= count <= incoming.len(),
            batch@.remaining == incoming.skip(count),
            notes.deep_view() == import_lines(incoming, count),
            store@.current_stage == init.current_stage,
            batch@.phase == Phase::Idle ==> count == 0 && event@ == EventView::Started,
            batch@.phase == Phase::AwaitWrite ==> count >= 1 && (event@ is Written || event@
                == (EventView::Failed {
                error: BatchErrorView::Store {
                    cause: duplicate_cause(incoming[count - 1].edition),
                },
            })),
            event@ is Failed ==> store@.records == init.records + incoming.take(count - 1)
                && import_stop(init.records, incoming) == count - 1,
            !(event@ is Failed) ==> store@.records == init.records + incoming.take(count)
                && import_stop(init.records, incoming) == count + import_stop(
                store@.records,
                incoming.skip(count),
            ),
        decreases rank(batch@.phase), batch@.remaining.len(),
    {
        let ghost before = batch@;
        let ghost came = event@;
        let ghost lines = notes.deep_view();
        let ghost held = store@;
        let Step { note, action } = batch.step(event);
        proof {
            assert((batch@, (Step { note, action })@) == next(before, came));
            if count < incoming.len() {
                assert(incoming.skip(count)[0] == incoming[count]);
                assert(incoming.skip(count).drop_first() =~= incoming.skip(count + 1));
            }
        }
        match note {
            Some(line) => {
                notes.push(line);
                assert(notes.deep_view() =~= lines.push(line@));
            },
            None => {},
        }
        match action {
            Action::Finish => {
                proof {
                    assert(incoming.take(count) =~= incoming);
                    assert(notes.deep_view() =~= import_outcome(init, incoming).1.notes);
                }
                return Report { notes, failure: None };
            },
            Action::Abort { error } => {
                proof {
                    assert(notes.deep_view() =~= import_outcome(init, incoming).1.notes);
                }
                return Report { notes, failure: Some(error) };
            },
            asked => {
                event = perform(asked, store);
                proof {
                    assert(notes.deep_view() =~= import_lines(incoming, count + 1));
                    if event@ is Failed {
                        assert(incoming.take(count) =~= incoming.take(count + 1 - 1));
                    } else {
                        assert(held.records.push(incoming[count]) =~= init.records + incoming.take(
                            count + 1,
                        ));
                    }
                    count = count + 1;
                }
            },
        }
    }
}

} // verus!
