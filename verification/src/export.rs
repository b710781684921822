//! What an export consists of: the records in the order of their editions,
//! and the name of the file they go to.

use crate::configuration::{Metadata, MetadataView};
use chrono::DateTime;
use vstd::multiset::Multiset;
use vstd::prelude::*;

verus! {

/// The directory that exports are written to.
pub const DUMP_DIRECTORY: &'static str = "json-dumps";

/// The UTC date and time of a moment, given in seconds since the Unix epoch,
/// written as `YYYY-MM-DD_HH-MM-SS`; `None` where the moment is beyond the
/// dates that the `chrono` crate represents.
pub uninterp spec fn utc_stamp(unix_seconds: int) -> Option<Seq<char>>;

/// Calls `DateTime::from_timestamp` with the seconds and no nanoseconds, and
/// `DateTime::format` with `%Y-%m-%d_%H-%M-%S` on the moment it gives.
///
/// Trusted: the result is what `utc_stamp` names, `None` exactly where
/// `from_timestamp` gives no moment. The moment is in UTC, so that neither
/// call reads anything but its arguments.
#[verifier::external_body]
fn stamp_of(unix_seconds: i64) -> (stamp: Option<String>)
    ensures
        stamp is Some <==> utc_stamp(unix_seconds as int) is Some,
        stamp matches Some(text) ==> utc_stamp(unix_seconds as int) == Some(text@),
{
    match DateTime::from_timestamp(unix_seconds, 0) {
        Some(moment) => Some(moment.format("%Y-%m-%d_%H-%M-%S").to_string()),
        None => None,
    }
}

/// The name of the file that an export made at a moment goes to:
/// `YYYY-MM-DD_HH-MM-SS.json`.
pub open spec fn dump_name(unix_seconds: int) -> Option<Seq<char>> {
    match utc_stamp(unix_seconds) {
        Some(stamp) => Some(stamp + ".json"@),
        None => None,
    }
}

/// The name of the file that an export made at the given moment goes to.
pub fn dump_file_name(unix_seconds: i64) -> (name: Option<String>)
    ensures
        name.deep_view() == dump_name(unix_seconds as int),
{
    match stamp_of(unix_seconds) {
        Some(stamp) => {
            let mut name = stamp;
            name.append(".json");
            Some(name)
        },
        None => None,
    }
}

/// Editions never fall from one record to the next.
pub open spec fn ordered_by_edition(records: Seq<MetadataView>) -> bool {
    forall|i: int, j: int|
        0 <= i < j < records.len() ==> #[trigger] records[i].edition <= #[trigger] records[j].edition
}

/// The place that `record` takes among `sorted`: behind every record whose
/// edition is not greater than its own.
fn place_for(sorted: &Vec<Metadata>, record: &Metadata) -> (at: usize)
    requires
        ordered_by_edition(sorted.deep_view()),
    ensures
        at <= sorted.len(),
        forall|j: int| 0 <= j < at ==> sorted[j].edition <= record.edition,
        forall|j: int| at <= j < sorted.len() ==> sorted[j].edition > record.edition,
{
    let mut at: usize = 0;
    while at < sorted.len() && sorted[at].edition <= record.edition
        invariant
            at <= sorted.len(),
            forall|j: int| 0 <= j < at ==> sorted[j].edition <= record.edition,
        decreases sorted.len() - at,
    {
        at = at + 1;
    }
    assert forall|j: int| at <= j < sorted.len() implies sorted[j].edition > record.edition by {
        let views = sorted.deep_view();
        assert(views[at as int] == sorted[at as int]@);
        assert(views[j] == sorted[j]@);
        if at < j {
            assert(views[at as int].edition <= views[j].edition);
        }
    }
    at
}

/// The same records, in the order of their editions.
pub fn sort_by_edition(records: Vec<Metadata>) -> (sorted: Vec<Metadata>)
    ensures
        ordered_by_edition(sorted.deep_view()),
        sorted.deep_view().to_multiset() == records.deep_view().to_multiset(),
{
    let ghost all = records.deep_view();
    let mut rest = records;
    let mut sorted: Vec<Metadata> = Vec::new();
    proof {
        assert(sorted.deep_view() =~= Seq::<MetadataView>::empty());
        vstd::seq_lib::to_multiset_len(sorted.deep_view());
        vstd::multiset::lemma_multiset_empty_len(sorted.deep_view().to_multiset());
        assert(sorted.deep_view().to_multiset() =~= Multiset::<MetadataView>::empty());
        assert(sorted.deep_view().to_multiset().add(all.to_multiset()) =~= all.to_multiset());
    }
    loop
        invariant
            ordered_by_edition(sorted.deep_view()),
            sorted.deep_view().to_multiset().add(rest.deep_view().to_multiset())
                == all.to_multiset(),
        ensures
            ordered_by_edition(sorted.deep_view()),
            sorted.deep_view().to_multiset() == all.to_multiset(),
        decreases rest.len(),
    {
        let ghost rest_before = rest.deep_view();
        let ghost sorted_before = sorted.deep_view();
        match rest.pop() {
            None => {
                proof {
                    assert(rest_before =~= Seq::<MetadataView>::empty());
                    vstd::seq_lib::to_multiset_len(rest_before);
                    vstd::multiset::lemma_multiset_empty_len(rest_before.to_multiset());
                    assert(rest_before.to_multiset() =~= Multiset::<MetadataView>::empty());
                    assert(sorted_before.to_multiset().add(rest_before.to_multiset())
                        =~= sorted_before.to_multiset());
                }
                break ;
            },
            Some(record) => {
                let at = place_for(&sorted, &record);
                sorted.insert(at, record);
                proof {
                    let now = sorted.deep_view();
                    assert(rest_before =~= rest.deep_view().push(record@));
                    assert(now =~= sorted_before.insert(at as int, record@));
                    vstd::seq_lib::to_multiset_build(rest.deep_view(), record@);
                    vstd::seq_lib::to_multiset_insert(sorted_before, at as int, record@);
                    assert(now.to_multiset().add(rest.deep_view().to_multiset())
                        =~= sorted_before.to_multiset().add(rest_before.to_multiset()));
                    assert forall|i: int, j: int| 0 <= i < j < now.len() implies #[trigger] now[i].edition
                        <= #[trigger] now[j].edition by {
                        let a = if i < at {
                            i
                        } else {
                            i - 1
                        };
                        let b = if j < at {
                            j
                        } else {
                            j - 1
                        };
                        if i != at as int && j != at as int {
                            assert(now[i] == sorted_before[a]);
                            assert(now[j] == sorted_before[b]);
                            assert(sorted_before[a].edition <= sorted_before[b].edition);
                        } else if i == at as int {
                            assert(now[j] == sorted_before[b]);
                        } else {
                            assert(now[i] == sorted_before[a]);
                        }
                    }
                }
            },
        }
    }
    sorted
}

/// An export: where it goes and what it holds.
#[derive(Debug, PartialEq, Eq)]
pub struct Dump {
    pub directory: String,
    pub file_name: String,
    pub records: Vec<Metadata>,
}

/// Prepares the export of `records` at the given moment: the records in the
/// order of their editions, for a file in [`DUMP_DIRECTORY`] named after the
/// moment in UTC. `None` where the moment has no date.
pub fn prepare_dump(records: Vec<Metadata>, unix_seconds: i64) -> (dump: Option<Dump>)
    ensures
        dump is Some <==> dump_name(unix_seconds as int) is Some,
        dump matches Some(export) ==> {
            &&& export.directory@ == DUMP_DIRECTORY@
            &&& Some(export.file_name@) == dump_name(unix_seconds as int)
            &&& ordered_by_edition(export.records.deep_view())
            &&& export.records.deep_view().to_multiset() == records.deep_view().to_multiset()
        },
{
    match dump_file_name(unix_seconds) {
        None => None,
        Some(file_name) => Some(
            Dump {
                directory: String::from_str(DUMP_DIRECTORY),
                file_name,
                records: sort_by_edition(records),
            },
        ),
    }
}

} // verus!
