//! The data the engine works on: metadata records, and the command line that
//! selects an operation.

use vstd::prelude::*;

verus! {

/// One trait of a record: an immutable pair of texts.
#[derive(Debug, PartialEq, Eq)]
pub struct Attribute {
    pub trait_type: String,
    pub value: String,
}

/// The mathematical value of an [`Attribute`].
pub struct AttributeView {
    pub trait_type: Seq<char>,
    pub value: Seq<char>,
}

impl View for Attribute {
    type V = AttributeView;

    open spec fn view(&self) -> AttributeView {
        AttributeView { trait_type: self.trait_type@, value: self.value@ }
    }
}

impl DeepView for Attribute {
    type V = AttributeView;

    open spec fn deep_view(&self) -> AttributeView {
        self@
    }
}

impl Clone for Attribute {
    fn clone(&self) -> (copy: Self)
        ensures
            copy@ == self@,
    {
        Attribute { trait_type: self.trait_type.clone(), value: self.value.clone() }
    }
}

/// One metadata record, the unit of every operation. `edition` is its key.
#[derive(Debug, PartialEq, Eq)]
pub struct Metadata {
    pub edition: u32,
    pub name: String,
    pub description: String,
    pub image: String,
    pub dna: String,
    pub stage: u8,
    pub frozen: bool,
    pub seller_fee_basis_points: u32,
    pub fee_recipient: String,
    pub attributes: Vec<Attribute>,
}

/// The mathematical value of a [`Metadata`] record.
pub struct MetadataView {
    pub edition: nat,
    pub name: Seq<char>,
    pub description: Seq<char>,
    pub image: Seq<char>,
    pub dna: Seq<char>,
    pub stage: nat,
    pub frozen: bool,
    pub seller_fee_basis_points: nat,
    pub fee_recipient: Seq<char>,
    pub attributes: Seq<AttributeView>,
}

impl View for Metadata {
    type V = MetadataView;

    open spec fn view(&self) -> MetadataView {
        MetadataView {
            edition: self.edition as nat,
            name: self.name@,
            description: self.description@,
            image: self.image@,
            dna: self.dna@,
            stage: self.stage as nat,
            frozen: self.frozen,
            seller_fee_basis_points: self.seller_fee_basis_points as nat,
            fee_recipient: self.fee_recipient@,
            attributes: self.attributes.deep_view(),
        }
    }
}

impl DeepView for Metadata {
    type V = MetadataView;

    open spec fn deep_view(&self) -> MetadataView {
        self@
    }
}

/// A copy of a list of attributes.
fn clone_attributes(attributes: &Vec<Attribute>) -> (copy: Vec<Attribute>)
    ensures
        copy.deep_view() == attributes.deep_view(),
{
    let mut copy: Vec<Attribute> = Vec::new();
    let mut i: usize = 0;
    while i < attributes.len()
        invariant
            i <= attributes.len(),
            copy.len() == i,
            forall|j: int| 0 <= j < i ==> copy[j]@ == attributes[j]@,
        decreases attributes.len() - i,
    {
        copy.push(attributes[i].clone());
        i = i + 1;
    }
    assert(copy.deep_view() =~= attributes.deep_view());
    copy
}

impl Clone for Metadata {
    fn clone(&self) -> (copy: Self)
        ensures
            copy@ == self@,
    {
        Metadata {
            edition: self.edition,
            name: self.name.clone(),
            description: self.description.clone(),
            image: self.image.clone(),
            dna: self.dna.clone(),
            stage: self.stage,
            frozen: self.frozen,
            seller_fee_basis_points: self.seller_fee_basis_points,
            fee_recipient: self.fee_recipient.clone(),
            attributes: clone_attributes(&self.attributes),
        }
    }
}

/// The operation to run, with its argument.
#[derive(Debug, PartialEq, Eq)]
pub enum Commands {
    /// Moves the collection, and every record that is not frozen, to a stage.
    ChangeStage { stage: u8 },
    /// Replaces the host of every image.
    ChangeHost { host: String },
    /// Points the images of the records that are not frozen to faded
    /// pictures; 35, 45 and 100 are accepted.
    ChangeMetadataFaded { opacity: u8 },
    /// Points the images back to the regular pictures.
    RestoreImages,
    /// Lists the frozen images.
    ShowFrozen,
    /// Writes every record to a JSON file.
    DumpMetadata,
    /// Fills the collection from a JSON feed.
    InitFrom { endpoint: String },
}

/// The mathematical value of a [`Commands`].
pub enum CommandsView {
    ChangeStage { stage: nat },
    ChangeHost { host: Seq<char> },
    ChangeMetadataFaded { opacity: nat },
    RestoreImages,
    ShowFrozen,
    DumpMetadata,
    InitFrom { endpoint: Seq<char> },
}

impl View for Commands {
    type V = CommandsView;

    open spec fn view(&self) -> CommandsView {
        match *self {
            Commands::ChangeStage { stage } => CommandsView::ChangeStage { stage: stage as nat },
            Commands::ChangeHost { host } => CommandsView::ChangeHost { host: host@ },
            Commands::ChangeMetadataFaded { opacity } => CommandsView::ChangeMetadataFaded {
                opacity: opacity as nat,
            },
            Commands::RestoreImages => CommandsView::RestoreImages,
            Commands::ShowFrozen => CommandsView::ShowFrozen,
            Commands::DumpMetadata => CommandsView::DumpMetadata,
            Commands::InitFrom { endpoint } => CommandsView::InitFrom { endpoint: endpoint@ },
        }
    }
}

/// A parsed command line.
#[derive(Debug, PartialEq, Eq)]
pub struct Cli {
    pub command: Commands,
    /// Report every record that is written.
    pub verbose: bool,
    /// Let `RestoreImages` reach frozen records too.
    pub force: bool,
}

/// The mathematical value of a [`Cli`].
pub struct CliView {
    pub command: CommandsView,
    pub verbose: bool,
    pub force: bool,
}

impl View for Cli {
    type V = CliView;

    open spec fn view(&self) -> CliView {
        CliView { command: self.command@, verbose: self.verbose, force: self.force }
    }
}

} // verus!
