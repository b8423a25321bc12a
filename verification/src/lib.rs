//! The decisions behind an operator's command line for a password vault and
//! an ERP system's case API.
//!
//! Two things have design in them. A visit to the vault drives an outside
//! tool through login, unlock and one errand, and locks and logs out again
//! whatever the tool did. A call to the case API puts a request into its
//! envelope, judges the reply by its status, and reads out of its body the
//! response that belongs to the request.
//!
//! Running the tool and posting the request are left to the caller, who
//! hands both in as functions. What the library decides is verified.

pub mod args;
pub mod bitwarden;
pub mod epicor;
pub mod json;
pub mod quantity;
pub mod setup;
pub mod text;
pub mod vault_item;
