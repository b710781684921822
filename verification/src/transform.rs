//! What an operation does to a single record, and which records it reaches.

use crate::configuration::{Metadata, MetadataView};
use crate::decimal::{decimal, push_decimal};
use crate::helper_funcs::{
    encode_fixed_path, increment_image_stage, rehosted, replace_host, staged, text_of,
    with_fixed_path, CodecError,
};
use crate::path::{build_faded_path, build_restored_path, faded_path, restored_path};
use vstd::prelude::*;

verus! {

/// The image every record shows once the collection is blacked out.
pub const BLACKOUT_URL: &'static str = "https://sg-data.fra1.cdn.digitaloceanspaces.com/black.jpg";

/// The closed set of fadings.
#[derive(Clone, Copy, Debug, PartialEq, Eq, Structural)]
pub enum Opacity {
    Opacity35,
    Opacity45,
    Blackout,
}

impl Opacity {
    /// The fading that a percentage stands for: 35, 45 and 100 are the only
    /// ones that stand for any.
    pub open spec fn of_percent(percent: nat) -> Option<Opacity> {
        if percent == 35 {
            Some(Opacity::Opacity35)
        } else if percent == 45 {
            Some(Opacity::Opacity45)
        } else if percent == 100 {
            Some(Opacity::Blackout)
        } else {
            None
        }
    }

    /// Reads a percentage given on the command line.
    pub fn from_percent(percent: u8) -> (opacity: Option<Opacity>)
        ensures
            opacity == Self::of_percent(percent as nat),
    {
        if percent == 35 {
            Some(Opacity::Opacity35)
        } else if percent == 45 {
            Some(Opacity::Opacity45)
        } else if percent == 100 {
            Some(Opacity::Blackout)
        } else {
            None
        }
    }
}

/// Which records an operation asks the store for.
#[derive(Clone, Copy, Debug, PartialEq, Eq, Structural)]
pub enum Selection {
    All,
    NotFrozen,
    Frozen,
}

impl Selection {
    /// Whether a record with the given flag belongs to the selection.
    pub open spec fn admits(self, frozen: bool) -> bool {
        match self {
            Selection::All => true,
            Selection::NotFrozen => !frozen,
            Selection::Frozen => frozen,
        }
    }

    /// The records that a restoration reaches: those that are not frozen, or
    /// all of them under `force`.
    pub open spec fn restoring(force: bool) -> Selection {
        if force {
            Selection::All
        } else {
            Selection::NotFrozen
        }
    }

    /// The selection of a restoration.
    pub fn for_restore(force: bool) -> (selection: Selection)
        ensures
            selection == Self::restoring(force),
    {
        if force {
            Selection::All
        } else {
            Selection::NotFrozen
        }
    }

    /// Whether `record` belongs to the selection.
    pub fn selects(self, record: &Metadata) -> (yes: bool)
        ensures
            yes == self.admits(record.frozen),
    {
        match self {
            Selection::All => true,
            Selection::NotFrozen => !record.frozen,
            Selection::Frozen => record.frozen,
        }
    }
}

/// The change an operation makes to each record it reaches.
#[derive(Debug, PartialEq, Eq)]
pub enum Rewrite {
    /// Move the image to a stage and record the stage.
    Stage { stage: u8 },
    /// Replace the host of the image.
    Host { host: String },
    /// Point the image to a faded picture, or black it out.
    Fade { opacity: Opacity },
    /// Point the image to the regular picture of the record's own stage.
    Restore,
}

/// The mathematical value of a [`Rewrite`].
pub enum RewriteView {
    Stage { stage: nat },
    Host { host: Seq<char> },
    Fade { opacity: Opacity },
    Restore,
}

impl View for Rewrite {
    type V = RewriteView;

    open spec fn view(&self) -> RewriteView {
        match *self {
            Rewrite::Stage { stage } => RewriteView::Stage { stage: stage as nat },
            Rewrite::Host { host } => RewriteView::Host { host: host@ },
            Rewrite::Fade { opacity } => RewriteView::Fade { opacity },
            Rewrite::Restore => RewriteView::Restore,
        }
    }
}

/// The image that a rewrite gives a record, or why it cannot.
pub open spec fn new_image(rewrite: RewriteView, record: MetadataView) -> Result<
    Seq<char>,
    CodecError,
> {
    match rewrite {
        RewriteView::Stage { stage } => staged(record.image, stage),
        RewriteView::Host { host } => rehosted(record.image, host),
        RewriteView::Fade { opacity } => match opacity {
            Opacity::Opacity35 => with_fixed_path(
                record.image,
                faded_path("faded35"@, record.edition),
            ),
            Opacity::Opacity45 => with_fixed_path(
                record.image,
                faded_path("faded45"@, record.edition),
            ),
            Opacity::Blackout => Ok(BLACKOUT_URL@),
        },
        RewriteView::Restore => with_fixed_path(
            record.image,
            restored_path(record.stage, record.edition),
        ),
    }
}

/// The stage that a rewrite leaves a record at.
pub open spec fn new_stage(rewrite: RewriteView, record: MetadataView) -> nat {
    match rewrite {
        RewriteView::Stage { stage } => stage,
        _ => record.stage,
    }
}

/// The record that a rewrite makes of `record`: only image and stage can
/// differ, and nothing does where the image cannot be rewritten.
pub open spec fn rewritten(rewrite: RewriteView, record: MetadataView) -> Result<
    MetadataView,
    CodecError,
> {
    match new_image(rewrite, record) {
        Ok(image) => Ok(MetadataView { image, stage: new_stage(rewrite, record), ..record }),
        Err(e) => Err(e),
    }
}

/// The progress line for a record that a rewrite has written.
pub open spec fn update_note(rewrite: RewriteView, written: MetadataView) -> Seq<char> {
    match rewrite {
        RewriteView::Stage { stage } => "Updated edition "@ + decimal(written.edition)
            + " to stage "@ + decimal(stage),
        RewriteView::Host { host } => "Updated host in edition: "@ + decimal(written.edition),
        _ => "Updated edition "@ + decimal(written.edition) + " -> "@ + written.image,
    }
}

/// A rewriting result with the record, if any, taken by its view.
pub open spec fn record_of(result: Result<Metadata, CodecError>) -> Result<
    MetadataView,
    CodecError,
> {
    match result {
        Ok(record) => Ok(record@),
        Err(e) => Err(e),
    }
}

impl Rewrite {
    /// The image that this rewrite gives `record`.
    fn image_for(&self, record: &Metadata) -> (image: Result<String, CodecError>)
        ensures
            text_of(image) == new_image(self@, record@),
    {
        match self {
            Rewrite::Stage { stage } => increment_image_stage(record.image.as_str(), *stage),
            Rewrite::Host { host } => replace_host(record.image.as_str(), host.as_str()),
            Rewrite::Fade { opacity } => match opacity {
                Opacity::Opacity35 => {
                    let path = build_faded_path("faded35", record.edition);
                    encode_fixed_path(record.image.as_str(), path.as_str())
                },
                Opacity::Opacity45 => {
                    let path = build_faded_path("faded45", record.edition);
                    encode_fixed_path(record.image.as_str(), path.as_str())
                },
                Opacity::Blackout => Ok(String::from_str(BLACKOUT_URL)),
            },
            Rewrite::Restore => {
                let path = build_restored_path(record.stage, record.edition);
                encode_fixed_path(record.image.as_str(), path.as_str())
            },
        }
    }

    /// Applies this rewrite to `record`: the result is a new record, and
    /// `record` stays as it is.
    pub fn apply(&self, record: &Metadata) -> (result: Result<Metadata, CodecError>)
        ensures
            record_of(result) == rewritten(self@, record@),
    {
        match self.image_for(record) {
            Err(e) => Err(e),
            Ok(image) => {
                let mut changed = record.clone();
                changed.image = image;
                match self {
                    Rewrite::Stage { stage } => {
                        changed.stage = *stage;
                    },
                    _ => {},
                }
                Ok(changed)
            },
        }
    }

    /// The progress line for `written`, a record that this rewrite produced.
    pub fn note(&self, written: &Metadata) -> (line: String)
        ensures
            line@ == update_note(self@, written@),
    {
        match self {
            Rewrite::Stage { stage } => {
                let mut line = String::from_str("Updated edition ");
                push_decimal(&mut line, written.edition);
                line.append(" to stage ");
                push_decimal(&mut line, *stage as u32);
                line
            },
            Rewrite::Host { host } => {
                let mut line = String::from_str("Updated host in edition: ");
                push_decimal(&mut line, written.edition);
                line
            },
            _ => {
                let mut line = String::from_str("Updated edition ");
                push_decimal(&mut line, written.edition);
                line.append(" -> ");
                line.append(written.image.as_str());
                line
            },
        }
    }
}

} // verus!
