//! Interactive session layer of a command-line wallet front-end.
//!
//! The wallet engine itself (key management, signing, networking) lives
//! outside this crate; what is verified here is every decision the session
//! makes on plain values: the two command grammars, argument validation,
//! the bootstrap and unlock flow, the account prompt loop, and the
//! formatting of records and notifications.
//!
//! - `grammar`, `repl`: the account prompt's language and one prompt step;
//! - `toplevel`: the process-argument grammar;
//! - `commands`: dispatch of a parsed command, with its local shape checks;
//! - `hexid`, `number`: message-id and decimal-amount validation;
//! - `session`: bootstrap, unlock and account-selection decisions;
//! - `events`: the notification derived from one engine event;
//! - `render`, `text`: the fixed output layouts.

use vstd::prelude::*;

mod commands;
mod grammar;
mod hexid;
mod events;
mod number;
mod render;
mod repl;
mod session;
mod text;
mod toplevel;

pub use commands::AccountError;
pub use commands::DispatchPlan;
pub use commands::EngineCall;
pub use commands::TransferCheck;
pub use commands::bad_id_line;
pub use commands::check_transfer;
pub use commands::dispatch_command;
pub use grammar::AccountCommand;
pub use hexid::MessageId;
pub use hexid::parse_message_id;
pub use grammar::MessageKind;
pub use grammar::ParseError;
pub use grammar::ReplayKind;
pub use grammar::parse_tokens;
pub use grammar::tokenize;
pub use number::parse_u64;
pub use number::u64_to_string;
pub use events::NotificationRecord;
pub use events::WalletEvent;
pub use events::fallback_output;
pub use events::notification_for;
pub use render::AddressRecord;
pub use render::BalanceRecord;
pub use render::MessageRecord;
pub use render::account_not_found_line;
pub use render::addresses_report;
pub use render::messages_report;
pub use render::sync_report;
pub use render::account_removed_line;
pub use render::address_block;
pub use render::backup_imported_line;
pub use render::backup_stored_line;
pub use render::balance_line;
pub use render::created_account_line;
pub use render::error_line;
pub use render::message_block;
pub use render::message_not_found_line;
pub use render::no_addresses_line;
pub use render::no_messages_line;
pub use render::password_mismatch_line;
pub use render::synchronized_line;
pub use render::syncing_gap_line;
pub use render::wrong_password_line;
pub use repl::ReplAction;
pub use repl::prompt_for;
pub use repl::repl_step;
pub use session::SelectionPlan;
pub use session::UnlockStep;
pub use session::confirmation_matches;
pub use session::first_run;
pub use session::is_import_invocation;
pub use session::pick_in_range;
pub use session::prompt_needs_confirmation;
pub use session::selection_plan;
pub use session::storage_path_or_default;
pub use session::unlock_step;
pub use text::bool_str;
pub use text::str_eq;
pub use toplevel::PowMode;
pub use toplevel::SignerKind;
pub use toplevel::TopCommand;
pub use toplevel::TopParseError;
pub use toplevel::parse_top_args;

verus! {

} // verus!
