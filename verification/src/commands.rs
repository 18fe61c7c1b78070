//! Dispatch of one parsed account command: local shape checks happen here,
//! and only commands that pass them are turned into engine calls.

use vstd::prelude::*;
use crate::grammar::AccountCommand;
use crate::grammar::MessageKind;
use crate::grammar::ReplayKind;
use crate::hexid::MessageId;
use crate::hexid::is_hex_id;
use crate::hexid::parse_message_id;
use crate::number::parse_u64;
use crate::number::spec_parse_u64;

verus! {

/// A recoverable dispatch failure, reported as `ERROR: <message>` without
/// leaving the prompt.
#[derive(Debug, Clone, Copy, PartialEq, Eq, Structural)]
pub enum AccountError {
    ZeroAmount,
    AmountNotANumber,
    AddressNotBech32,
    GapNotANumber,
}

impl AccountError {
    pub fn message(&self) -> (r: &'static str)
        ensures
            *self == AccountError::ZeroAmount ==> r@ == "amount can't be zero"@,
            *self == AccountError::AmountNotANumber ==> r@ == "Amount must be a number"@,
            *self == AccountError::AddressNotBech32 ==> r@ == "Address must be a bech32 string"@,
            *self == AccountError::GapNotANumber ==> r@ == "Gap limit must be a number"@,
    {
        match self {
            AccountError::ZeroAmount => "amount can't be zero",
            AccountError::AmountNotANumber => "Amount must be a number",
            AccountError::AddressNotBech32 => "Address must be a bech32 string",
            AccountError::GapNotANumber => "Gap limit must be a number",
        }
    }
}

/// One operation asked of the wallet engine.
#[derive(Debug, Clone, PartialEq, Eq)]
pub enum EngineCall {
    GetMessage { id: MessageId },
    ListMessages { kind: Option<MessageKind> },
    ListAddresses,
    Sync { gap: Option<u64> },
    GenerateAddress,
    Balance,
    ParseTransferAddress { address: String, amount: String },
    Replay { kind: ReplayKind, id: MessageId },
    SetNode { url: String },
    SetAlias { alias: String },
}

/// What one prompt iteration does with a parsed command.
#[derive(Debug, Clone, PartialEq, Eq)]
pub enum DispatchPlan {
    /// Hand an operation to the engine.
    Engine(EngineCall),
    /// Print a fixed line and stay at the prompt.
    Output(&'static str),
    /// Report a recoverable error and stay at the prompt.
    Fail(AccountError),
}

/// The line printed when a message id fails the shape check.
pub fn bad_id_line() -> (r: &'static str)
    ensures
        r@ == "Message id must be a hex string of length 64"@,
{
    "Message id must be a hex string of length 64"
}

/// Maps a parsed command to its engine call, after the local shape checks.
/// `exit` never reaches dispatch: the prompt loop returns on it instead.
pub fn dispatch_command(c: &AccountCommand) -> (r: DispatchPlan)
    requires
        !(c matches AccountCommand::Exit),
    ensures
        match *c {
            AccountCommand::Exit => true,
            AccountCommand::ListAddresses => r == DispatchPlan::Engine(EngineCall::ListAddresses),
            AccountCommand::GenerateAddress => r == DispatchPlan::Engine(
                EngineCall::GenerateAddress,
            ),
            AccountCommand::Balance => r == DispatchPlan::Engine(EngineCall::Balance),
            AccountCommand::ListMessages { id, kind } => match id {
                None => r == DispatchPlan::Engine(EngineCall::ListMessages { kind }),
                Some(s) => if is_hex_id(s@) {
                    r matches DispatchPlan::Engine(EngineCall::GetMessage { id: m }) && m.text@
                        == s@
                } else {
                    r matches DispatchPlan::Output(o) && o@
                        == "Message id must be a hex string of length 64"@
                },
            },
            AccountCommand::Sync { gap } => match gap {
                None => r == DispatchPlan::Engine(EngineCall::Sync { gap: None }),
                Some(g) => match spec_parse_u64(g@) {
                    Some(n) => r == DispatchPlan::Engine(EngineCall::Sync { gap: Some(n) }),
                    None => r == DispatchPlan::Fail(AccountError::GapNotANumber),
                },
            },
            AccountCommand::Transfer { address, amount } => r matches DispatchPlan::Engine(
                EngineCall::ParseTransferAddress { address: a, amount: m },
            ) && a@ == address@ && m@ == amount@,
            AccountCommand::Replay { kind, id } => if is_hex_id(id@) {
                r matches DispatchPlan::Engine(EngineCall::Replay { kind: k, id: m }) && k == kind
                    && m.text@ == id@
            } else {
                r matches DispatchPlan::Output(o) && o@
                    == "Message id must be a hex string of length 64"@
            },
            AccountCommand::SetNode { url } => r matches DispatchPlan::Engine(
                EngineCall::SetNode { url: u },
            ) && u@ == url@,
            AccountCommand::SetAlias { alias } => r matches DispatchPlan::Engine(
                EngineCall::SetAlias { alias: a },
            ) && a@ == alias@,
        },
{
    match c {
        AccountCommand::Exit => {
            proof {
                assert(false);
            }
            DispatchPlan::Output("")
        },
        AccountCommand::ListAddresses => DispatchPlan::Engine(EngineCall::ListAddresses),
        AccountCommand::GenerateAddress => DispatchPlan::Engine(EngineCall::GenerateAddress),
        AccountCommand::Balance => DispatchPlan::Engine(EngineCall::Balance),
        AccountCommand::ListMessages { id, kind } => match id {
            None => DispatchPlan::Engine(EngineCall::ListMessages { kind: *kind }),
            Some(s) => match parse_message_id(s.as_str()) {
                Some(m) => DispatchPlan::Engine(EngineCall::GetMessage { id: m }),
                None => DispatchPlan::Output(bad_id_line()),
            },
        },
        AccountCommand::Sync { gap } => match gap {
            None => DispatchPlan::Engine(EngineCall::Sync { gap: None }),
            Some(g) => match parse_u64(g.as_str()) {
                Some(n) => DispatchPlan::Engine(EngineCall::Sync { gap: Some(n) }),
                None => DispatchPlan::Fail(AccountError::GapNotANumber),
            },
        },
        AccountCommand::Transfer { address, amount } => DispatchPlan::Engine(
            EngineCall::ParseTransferAddress { address: address.clone(), amount: amount.clone() },
        ),
        AccountCommand::Replay { kind, id } => match parse_message_id(id.as_str()) {
            Some(m) => DispatchPlan::Engine(EngineCall::Replay { kind: *kind, id: m }),
            None => DispatchPlan::Output(bad_id_line()),
        },
        AccountCommand::SetNode { url } => DispatchPlan::Engine(
            EngineCall::SetNode { url: url.clone() },
        ),
        AccountCommand::SetAlias { alias } => DispatchPlan::Engine(
            EngineCall::SetAlias { alias: alias.clone() },
        ),
    }
}

/// The decision taken once the engine has parsed the transfer address.
#[derive(Debug, Clone, Copy, PartialEq, Eq, Structural)]
pub enum TransferCheck {
    /// Send a transfer of this strictly positive amount.
    Send { amount: u64 },
    Rejected(AccountError),
}

/// How a transfer request is screened: a malformed address is rejected first,
/// then a non-numeric amount, then a zero amount; only a strictly positive
/// numeric amount with a well-formed address is sent.
pub open spec fn spec_check_transfer(address_ok: bool, amount: Seq<char>) -> TransferCheck {
    if !address_ok {
        TransferCheck::Rejected(AccountError::AddressNotBech32)
    } else {
        match spec_parse_u64(amount) {
            None => TransferCheck::Rejected(AccountError::AmountNotANumber),
            Some(n) => if n == 0 {
                TransferCheck::Rejected(AccountError::ZeroAmount)
            } else {
                TransferCheck::Send { amount: n }
            },
        }
    }
}

/// Screens a transfer. `address_ok` reports whether the engine accepted the
/// recipient as a bech32 address.
pub fn check_transfer(address_ok: bool, amount: &str) -> (r: TransferCheck)
    ensures
        r == spec_check_transfer(address_ok, amount@),
{
    if !address_ok {
        TransferCheck::Rejected(AccountError::AddressNotBech32)
    } else {
        match parse_u64(amount) {
            None => TransferCheck::Rejected(AccountError::AmountNotANumber),
            Some(n) => if n == 0 {
                TransferCheck::Rejected(AccountError::ZeroAmount)
            } else {
                TransferCheck::Send { amount: n }
            },
        }
    }
}

/// A transfer whose amount is zero or not a number is never sent: the engine
/// transfer operation is reached only with a strictly positive parsed amount.
pub proof fn lemma_zero_or_bad_amount_never_sent(address_ok: bool, amount: Seq<char>)
    ensures
        forall|n: u64|
            spec_check_transfer(address_ok, amount) == (TransferCheck::Send { amount: n })
                ==> spec_parse_u64(amount) == Some(n) && n > 0,
{
}

} // verus!
