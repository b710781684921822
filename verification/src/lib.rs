//! Bulk maintenance of the metadata records of an NFT collection: stage
//! progression, image host rewriting, fading, restoration, import and export.
//!
//! The rules of each operation are stated as contracts and proved.
//!
//! - [`configuration`]: the records and the command line.
//! - [`path`], [`helper_funcs`]: the path convention of image URLs, and the
//!   codec that reads and rewrites them.
//! - [`transform`]: what an operation does to one record.
//! - [`engine`]: an operation as a state machine, for a store that lives
//!   elsewhere.
//! - [`store`], [`gateway`]: the store as a value, and how it answers the
//!   actions of an operation.
//! - [`pass`], [`run`], [`functions`]: what an operation comes to on a whole
//!   collection, and the operations run on a store.
//! - [`export`]: the records and the file name of an export.
//! - [`messages`]: the lines shown to a user.
//! - [`laws`]: what holds of the operations on every collection.
//!
//! [`run`] decides what a command line asks for.

pub mod configuration;
pub mod decimal;
pub mod engine;
pub mod export;
pub mod functions;
pub mod gateway;
pub mod helper_funcs;
pub mod laws;
pub mod messages;
pub mod pass;
pub mod path;
pub mod run;
pub mod store;
pub mod transform;

use crate::configuration::{Cli, CliView, Commands, CommandsView};
use crate::engine::{fresh, task_of, Batch, BatchView, Task};
use crate::messages::{banner_text, heading_text};
use vstd::prelude::*;

verus! {

/// What a command line asks for.
pub enum Work {
    /// Run an operation that rewrites records: step it against the store.
    Operation { batch: Batch },
    /// Read the frozen records and report them.
    ShowFrozen,
    /// Read every record, by edition, and write the export.
    DumpMetadata,
    /// Read the feed at `endpoint` and insert its records.
    InitFrom { endpoint: String },
}

/// The mathematical value of a [`Work`].
pub enum WorkView {
    Operation { batch: BatchView },
    ShowFrozen,
    DumpMetadata,
    InitFrom { endpoint: Seq<char> },
}

impl View for Work {
    type V = WorkView;

    open spec fn view(&self) -> WorkView {
        match *self {
            Work::Operation { batch } => WorkView::Operation { batch: batch@ },
            Work::ShowFrozen => WorkView::ShowFrozen,
            Work::DumpMetadata => WorkView::DumpMetadata,
            Work::InitFrom { endpoint } => WorkView::InitFrom { endpoint: endpoint@ },
        }
    }
}

/// How a command line is carried out: the line that announces it, if any,
/// the heading of its failure, should it fail, and the work to do.
pub struct Launch {
    pub banner: Option<String>,
    pub heading: &'static str,
    pub work: Work,
}

/// The work that a command line asks for: the operation of its command,
/// not yet begun, where the command rewrites records.
pub open spec fn work_of(cli: CliView) -> WorkView {
    match task_of(cli.command, cli.force) {
        Some(task) => WorkView::Operation { batch: fresh(task, cli.verbose) },
        None => match cli.command {
            CommandsView::InitFrom { endpoint } => WorkView::InitFrom { endpoint },
            CommandsView::DumpMetadata => WorkView::DumpMetadata,
            _ => WorkView::ShowFrozen,
        },
    }
}

/// Decides how a command line is carried out.
pub fn run(cli: Cli) -> (launch: Launch)
    ensures
        launch.banner.deep_view() == banner_text(cli@.command),
        launch.heading@ == heading_text(cli@.command),
        launch.work@ == work_of(cli@),
{
    let banner = cli.command.banner();
    let heading = cli.command.failure_heading();
    let Cli { command, verbose, force } = cli;
    let work = match command {
        Commands::ShowFrozen => Work::ShowFrozen,
        Commands::DumpMetadata => Work::DumpMetadata,
        Commands::InitFrom { endpoint } => Work::InitFrom { endpoint },
        rewriting => {
            let task = Task::for_command(rewriting, force);
            Work::Operation { batch: Batch::new(task.unwrap(), verbose) }
        },
    };
    Launch { banner, heading, work }
}

} // verus!
