//! The record store as a value: the collection of records and the current
//! stage of the collection, with the operations the engine needs of a store.

use crate::configuration::{Metadata, MetadataView};
use crate::transform::Selection;
use vstd::prelude::*;

verus! {

/// Why the store refused an operation.
#[derive(Clone, Copy, Debug, PartialEq, Eq, Structural)]
pub enum StoreFault {
    /// No record has the edition that an update names.
    RecordNotFound { edition: u32 },
    /// A record with the edition that an insert names exists already.
    DuplicateEdition { edition: u32 },
}

/// The mathematical value of a [`Store`].
pub struct StoreView {
    pub current_stage: nat,
    pub records: Seq<MetadataView>,
}

impl StoreView {
    /// The invariant of a store: editions are keys.
    pub open spec fn wf(self) -> bool {
        distinct_editions(self.records)
    }
}

/// No two records share an edition.
pub open spec fn distinct_editions(records: Seq<MetadataView>) -> bool {
    forall|i: int, j: int|
        0 <= i < j < records.len() ==> #[trigger] records[i].edition != #[trigger] records[j].edition
}

/// Whether some record has the edition.
pub open spec fn has_edition(records: Seq<MetadataView>, edition: nat) -> bool {
    exists|i: int| 0 <= i < records.len() && #[trigger] records[i].edition == edition
}

/// The records of a selection, in the order of the collection.
pub open spec fn selected(records: Seq<MetadataView>, selection: Selection) -> Seq<MetadataView>
    decreases records.len(),
{
    if records.len() == 0 {
        Seq::empty()
    } else if selection.admits(records.last().frozen) {
        selected(records.drop_last(), selection).push(records.last())
    } else {
        selected(records.drop_last(), selection)
    }
}

/// The collection after the record that has the edition of `record` has been
/// replaced by `record`.
pub open spec fn replaced(records: Seq<MetadataView>, record: MetadataView) -> Seq<MetadataView> {
    Seq::new(
        records.len(),
        |i: int|
            if records[i].edition == record.edition {
                record
            } else {
                records[i]
            },
    )
}

/// Copies of the records of a selection, in the order they stand in.
pub fn select(all: &Vec<Metadata>, selection: Selection) -> (records: Vec<Metadata>)
    ensures
        records.deep_view() == selected(all.deep_view(), selection),
{
    let mut records: Vec<Metadata> = Vec::new();
    let mut i: usize = 0;
    while i < all.len()
        invariant
            i <= all.len(),
            records.deep_view() == selected(all.deep_view().take(i as int), selection),
        decreases all.len() - i,
    {
        let ghost before = records.deep_view();
        let ghost views = all.deep_view();
        proof {
            assert(views.take(i as int + 1).drop_last() =~= views.take(i as int));
            assert(views.take(i as int + 1).last() == all[i as int]@);
        }
        if selection.selects(&all[i]) {
            records.push(all[i].clone());
            assert(records.deep_view() =~= before.push(all[i as int]@));
        }
        i = i + 1;
    }
    assert(all.deep_view().take(i as int) =~= all.deep_view());
    records
}

/// A collection of records with distinct editions, and the stage the
/// collection is at.
pub struct Store {
    current_stage: u8,
    records: Vec<Metadata>,
}

impl View for Store {
    type V = StoreView;

    closed spec fn view(&self) -> StoreView {
        StoreView {
            current_stage: self.current_stage as nat,
            records: self.records.deep_view(),
        }
    }
}

impl Store {
    /// An empty collection at stage 0.
    pub fn new() -> (store: Store)
        ensures
            store@.wf(),
            store@.current_stage == 0,
            store@.records.len() == 0,
    {
        Store { current_stage: 0, records: Vec::new() }
    }

    /// The stage the collection is at.
    pub fn current_stage(&self) -> (stage: u8)
        ensures
            stage as nat == self@.current_stage,
    {
        self.current_stage
    }

    /// Sets the stage the collection is at, and returns it.
    pub fn set_current_stage(&mut self, stage: u8) -> (written: u8)
        ensures
            written == stage,
            final(self)@.current_stage == stage as nat,
            final(self)@.records == old(self)@.records,
    {
        self.current_stage = stage;
        stage
    }

    /// The place of the record with the edition, if there is one.
    fn position(&self, edition: u32) -> (at: Option<usize>)
        ensures
            at matches Some(i) ==> i < self@.records.len() && self@.records[i as int].edition
                == edition as nat,
            at is None ==> !has_edition(self@.records, edition as nat),
    {
        let mut i: usize = 0;
        while i < self.records.len()
            invariant
                i <= self.records.len(),
                forall|j: int| 0 <= j < i ==> self.records[j].edition != edition,
            decreases self.records.len() - i,
        {
            if self.records[i].edition == edition {
                return Some(i);
            }
            i = i + 1;
        }
        assert forall|j: int| 0 <= j < self@.records.len() implies self@.records[j].edition
            != edition as nat by {
            assert(self@.records[j] == self.records[j]@);
        }
        None
    }

    /// Whether a record has the edition.
    pub fn contains(&self, edition: u32) -> (yes: bool)
        ensures
            yes == has_edition(self@.records, edition as nat),
    {
        self.position(edition).is_some()
    }

    /// A copy of the record with the edition, if there is one.
    pub fn get(&self, edition: u32) -> (record: Option<Metadata>)
        ensures
            record is Some <==> has_edition(self@.records, edition as nat),
            record matches Some(r) ==> r@.edition == edition as nat && self@.records.contains(r@),
    {
        match self.position(edition) {
            None => None,
            Some(i) => {
                let record = self.records[i].clone();
                assert(self@.records[i as int] == record@);
                Some(record)
            },
        }
    }

    /// Adds a record. Fails, and changes nothing, if its edition is taken.
    pub fn insert(&mut self, record: Metadata) -> (written: Result<u32, StoreFault>)
        requires
            old(self)@.wf(),
        ensures
            final(self)@.wf(),
            final(self)@.current_stage == old(self)@.current_stage,
            has_edition(old(self)@.records, record@.edition) ==> written == Err::<u32, StoreFault>(
                StoreFault::DuplicateEdition { edition: record.edition },
            ) && final(self)@ == old(self)@,
            !has_edition(old(self)@.records, record@.edition) ==> written == Ok::<u32, StoreFault>(
                record.edition,
            ) && final(self)@.records == old(self)@.records.push(record@),
    {
        let edition = record.edition;
        match self.position(edition) {
            Some(_) => Err(StoreFault::DuplicateEdition { edition }),
            None => {
                let ghost before = self.records.deep_view();
                self.records.push(record);
                proof {
                    assert(self.records.deep_view() =~= before.push(record@));
                    assert forall|i: int, j: int|
                        0 <= i < j < before.push(record@).len() implies before.push(
                        record@,
                    )[i].edition != before.push(record@)[j].edition by {
                        if j == before.len() {
                            assert(before[i].edition != record@.edition);
                        }
                    }
                }
                Ok(edition)
            },
        }
    }

    /// Replaces the record that has the edition of `record` by `record`.
    /// Fails, and changes nothing, if no record has that edition.
    pub fn update_record(&mut self, record: Metadata) -> (written: Result<u32, StoreFault>)
        requires
            old(self)@.wf(),
        ensures
            final(self)@.wf(),
            final(self)@.current_stage == old(self)@.current_stage,
            final(self)@.records == replaced(old(self)@.records, record@),
            has_edition(old(self)@.records, record@.edition) ==> written == Ok::<u32, StoreFault>(
                record.edition,
            ),
            !has_edition(old(self)@.records, record@.edition) ==> written == Err::<
                u32,
                StoreFault,
            >(StoreFault::RecordNotFound { edition: record.edition }),
    {
        let edition = record.edition;
        match self.position(edition) {
            None => {
                assert(self@.records =~= replaced(self@.records, record@));
                Err(StoreFault::RecordNotFound { edition })
            },
            Some(i) => {
                let ghost before = self.records.deep_view();
                self.records.set(i, record);
                proof {
                    assert(self.records.deep_view() =~= replaced(before, record@)) by {
                        assert forall|j: int| 0 <= j < before.len() implies self.records.deep_view()[j]
                            == replaced(before, record@)[j] by {
                            if j != i as int {
                                if j < i as int {
                                    assert(before[j].edition != before[i as int].edition);
                                } else {
                                    assert(before[i as int].edition != before[j].edition);
                                }
                            }
                        }
                    }
                    assert forall|a: int, b: int|
                        0 <= a < b < before.len() implies replaced(before, record@)[a].edition
                        != replaced(before, record@)[b].edition by {
                        assert(before[a].edition != before[b].edition);
                    }
                }
                Ok(edition)
            },
        }
    }

    /// Copies of the records of a selection, in the order of the collection.
    pub fn fetch_where(&self, selection: Selection) -> (records: Vec<Metadata>)
        ensures
            records.deep_view() == selected(self@.records, selection),
    {
        select(&self.records, selection)
    }

    /// Copies of all records, in the order of the collection.
    pub fn fetch_all(&self) -> (records: Vec<Metadata>)
        ensures
            records.deep_view() == self@.records,
    {
        let mut records: Vec<Metadata> = Vec::new();
        let mut i: usize = 0;
        while i < self.records.len()
            invariant
                i <= self.records.len(),
                records.len() == i,
                forall|j: int| 0 <= j < i ==> records[j]@ == self.records[j]@,
            decreases self.records.len() - i,
        {
            records.push(self.records[i].clone());
            i = i + 1;
        }
        assert(records.deep_view() =~= self.records.deep_view());
        records
    }

    /// The number of records.
    pub fn len(&self) -> (count: usize)
        ensures
            count == self@.records.len(),
    {
        self.records.len()
    }
}

} // verus!
