//! What the operator can ask for on the command line, as plain values.

pub use crate::vault_item::VaultItemType;

use vstd::prelude::*;
use crate::quantity::Quantity;

verus! {

/// Everything that one invocation asks for.
#[derive(Debug, Clone, PartialEq, Eq)]
pub struct OmniArgs {
    pub entity_type: EntityType,
}

/// The three things the tool deals with.
#[derive(Debug, Clone, PartialEq, Eq)]
pub enum EntityType {
    /// Writes the settings file and installs the vault tool.
    Setup(SetupCommand),
    /// Talks to the password vault.
    Bitwarden(BitwardenCommand),
    /// Talks to the ERP system.
    Epicor(EpicorCommand),
}

/// The settings to write at setup, each as far as it was given.
#[derive(Debug, Clone, PartialEq, Eq)]
pub struct SetupCommand {
    pub bw_client_id: Option<String>,
    pub bw_client_secret: Option<String>,
    pub bw_master_password: Option<String>,
    pub epicor_base_url: Option<String>,
    pub epicor_api_key: Option<String>,
    pub epicor_username: Option<String>,
    pub epicor_password: Option<String>,
}

#[derive(Debug, Clone, PartialEq, Eq)]
pub struct BitwardenCommand {
    pub subcommand: BitwardenSubcommand,
}

#[derive(Debug, Clone, PartialEq, Eq)]
pub enum BitwardenSubcommand {
    /// Lists the items of the vault.
    List,
    /// Gets one item of the vault.
    Get(GetCommand),
    /// Creates an item in the vault.
    Create(CreateCommand),
}

#[derive(Debug, Clone, PartialEq, Eq)]
pub struct GetCommand {
    /// What to get of the item.
    pub item_type: VaultItemType,
    /// The item's name.
    pub name: String,
}

#[derive(Debug, Clone, PartialEq, Eq)]
pub struct CreateCommand {
    pub name: String,
    pub username: String,
    pub password: String,
    pub notes: String,
}

#[derive(Debug, Clone, PartialEq, Eq)]
pub struct EpicorCommand {
    pub subcommand: EpicorSubcommand,
}

#[derive(Debug, Clone, PartialEq, Eq)]
pub enum EpicorSubcommand {
    /// Works on a case.
    Case(CaseCommand),
}

#[derive(Debug, Clone, PartialEq, Eq)]
pub struct CaseCommand {
    pub subcommand: CaseSubcommand,
}

#[derive(Debug, Clone, PartialEq, Eq)]
pub enum CaseSubcommand {
    /// Completes the current task of a case.
    CompleteTask(CompleteTaskCommand),
    /// Adds a comment to a case.
    AddComment(AddCommentCommand),
    /// Fetches the status of a case.
    GetStatus(GetStatusCommand),
    /// Sums up the comments of a case.
    GetCommentSummary(GetCommentSummaryCommand),
    /// Updates the quote of a case.
    UpdateQuote(UpdateQuoteCommand),
}

#[derive(Debug, Clone, PartialEq, Eq)]
pub struct CompleteTaskCommand {
    pub case_number: u32,
    /// Who gets the next task.
    pub assign_to: String,
    /// A comment for the case. It is taken and not sent: the request that
    /// completes a task has no place for it.
    pub comment: Option<String>,
}

#[derive(Debug, Clone, PartialEq, Eq)]
pub struct AddCommentCommand {
    pub case_number: u32,
    pub comment: String,
}

#[derive(Debug, Clone, PartialEq, Eq)]
pub struct GetStatusCommand {
    pub case_number: u32,
}

#[derive(Debug, Clone, PartialEq, Eq)]
pub struct GetCommentSummaryCommand {
    pub case_number: u32,
}

#[derive(Debug, Clone, PartialEq, Eq)]
pub struct UpdateQuoteCommand {
    pub case_number: u32,
    /// The new quantity of the part of the case.
    pub new_quantity: Quantity,
}

} // verus!
