//! The lines that tell a user what is being done and what went wrong.

use crate::configuration::{Commands, CommandsView};
use crate::decimal::{decimal, push_decimal};
use crate::engine::{BatchError, BatchErrorView};
use crate::helper_funcs::CodecError;
use vstd::prelude::*;

verus! {

/// The line that announces a command, for the commands that have one.
pub open spec fn banner_text(command: CommandsView) -> Option<Seq<char>> {
    match command {
        CommandsView::ChangeStage { stage } => Some("changing stage to: "@ + decimal(stage)),
        CommandsView::ChangeHost { host } => Some("changing host to: "@ + host),
        CommandsView::ChangeMetadataFaded { opacity } => Some(
            "Changing metadata image url to images with opacity: "@ + decimal(opacity),
        ),
        CommandsView::RestoreImages => Some("Restoring images based on edition and stage"@),
        _ => None,
    }
}

/// What a failure of a command is headed with.
pub open spec fn heading_text(command: CommandsView) -> Seq<char> {
    match command {
        CommandsView::ChangeStage { .. } => "Error changing stage"@,
        CommandsView::ChangeHost { .. } => "Error changing host"@,
        CommandsView::ChangeMetadataFaded { .. } => "Error changing metadata to faded images"@,
        CommandsView::RestoreImages => "Error restoring images"@,
        CommandsView::ShowFrozen => "Error showing frozen images"@,
        CommandsView::DumpMetadata => "Error dumping metadata"@,
        CommandsView::InitFrom { .. } => "Error initiating db from endpoint"@,
    }
}

/// What is said of an image that could not be rewritten.
pub open spec fn cause_text(cause: CodecError) -> Seq<char> {
    match cause {
        CodecError::TooLong => "the image URL is too long"@,
        CodecError::InvalidUrl => "the image is not a URL"@,
        CodecError::MalformedPath => "the image path has fewer than three segments"@,
        CodecError::HostRewrite => "the image cannot take the host"@,
    }
}

/// What is said of an error.
pub open spec fn error_text(error: BatchErrorView) -> Seq<char> {
    match error {
        BatchErrorView::InvalidOpacity { opacity } => "opacity can be 35, 45 and 100 only, not "@
            + decimal(opacity),
        BatchErrorView::Image { edition, cause } => "edition "@ + decimal(edition) + ": "@
            + cause_text(cause),
        BatchErrorView::RecordNotFound { edition } => "edition "@ + decimal(edition)
            + " is not in the store"@,
        BatchErrorView::Store { cause } => "the store failed: "@ + cause,
        BatchErrorView::ImportParse { cause } => "the feed cannot be read: "@ + cause,
        BatchErrorView::FileSystem { cause } => "the export cannot be written: "@ + cause,
        BatchErrorView::OutOfTurn => "an event arrived out of turn"@,
    }
}

impl Commands {
    /// The line that announces this command, if it has one.
    pub fn banner(&self) -> (line: Option<String>)
        ensures
            line.deep_view() == banner_text(self@),
    {
        match self {
            Commands::ChangeStage { stage } => {
                let mut line = String::from_str("changing stage to: ");
                push_decimal(&mut line, *stage as u32);
                Some(line)
            },
            Commands::ChangeHost { host } => {
                let mut line = String::from_str("changing host to: ");
                line.append(host.as_str());
                Some(line)
            },
            Commands::ChangeMetadataFaded { opacity } => {
                let mut line = String::from_str(
                    "Changing metadata image url to images with opacity: ",
                );
                push_decimal(&mut line, *opacity as u32);
                Some(line)
            },
            Commands::RestoreImages => Some(
                String::from_str("Restoring images based on edition and stage"),
            ),
            _ => None,
        }
    }

    /// What a failure of this command is headed with.
    pub fn failure_heading(&self) -> (heading: &'static str)
        ensures
            heading@ == heading_text(self@),
    {
        match self {
            Commands::ChangeStage { .. } => "Error changing stage",
            Commands::ChangeHost { .. } => "Error changing host",
            Commands::ChangeMetadataFaded { .. } => "Error changing metadata to faded images",
            Commands::RestoreImages => "Error restoring images",
            Commands::ShowFrozen => "Error showing frozen images",
            Commands::DumpMetadata => "Error dumping metadata",
            Commands::InitFrom { .. } => "Error initiating db from endpoint",
        }
    }
}

impl CodecError {
    /// What is said of this cause.
    pub fn describe(&self) -> (text: &'static str)
        ensures
            text@ == cause_text(*self),
    {
        match self {
            CodecError::TooLong => "the image URL is too long",
            CodecError::InvalidUrl => "the image is not a URL",
            CodecError::MalformedPath => "the image path has fewer than three segments",
            CodecError::HostRewrite => "the image cannot take the host",
        }
    }
}

impl BatchError {
    /// What is said of this error.
    pub fn describe(&self) -> (text: String)
        ensures
            text@ == error_text(self@),
    {
        match self {
            BatchError::InvalidOpacity { opacity } => {
                let mut text = String::from_str("opacity can be 35, 45 and 100 only, not ");
                push_decimal(&mut text, *opacity as u32);
                text
            },
            BatchError::Image { edition, cause } => {
                let mut text = String::from_str("edition ");
                push_decimal(&mut text, *edition);
                text.append(": ");
                text.append(cause.describe());
                text
            },
            BatchError::RecordNotFound { edition } => {
                let mut text = String::from_str("edition ");
                push_decimal(&mut text, *edition);
                text.append(" is not in the store");
                text
            },
            BatchError::Store { cause } => {
                let mut text = String::from_str("the store failed: ");
                text.append(cause.as_str());
                text
            },
            BatchError::ImportParse { cause } => {
                let mut text = String::from_str("the feed cannot be read: ");
                text.append(cause.as_str());
                text
            },
            BatchError::FileSystem { cause } => {
                let mut text = String::from_str("the export cannot be written: ");
                text.append(cause.as_str());
                text
            },
            BatchError::OutOfTurn => String::from_str("an event arrived out of turn"),
        }
    }
}

} // verus!
