//! The event bridge's pure half: turning one delivered wallet event into the
//! single notification attempt, and into the single fallback line printed
//! when the notification sink fails.

use vstd::prelude::*;
use vstd::string::StringExecFns;
use crate::number::spec_dec;
use crate::number::u64_to_string;

verus! {

/// One event delivered by the engine, reduced to the plain values the bridge
/// reads: the id rendering of the message concerned, or the balance movement
/// with its bech32 address.
#[derive(Debug, Clone, PartialEq, Eq)]
pub enum WalletEvent {
    BalanceChange { address: String, spent: u64, received: u64 },
    NewTransaction { message_id: String },
    ConfirmationStateChange { message_id: String },
    Reattachment { message_id: String },
}

/// A notification as handed to the desktop sink: a short title and a body.
#[derive(Debug, Clone, PartialEq, Eq)]
pub struct NotificationRecord {
    pub summary: String,
    pub body: String,
}

/// The balance half-sentence: a positive spent amount wins over received.
pub open spec fn spec_balance_text(address: Seq<char>, spent: u64, received: u64) -> Seq<char> {
    if spent > 0 {
        spec_dec(spent as nat) + " spent on address "@ + address
    } else {
        spec_dec(received as nat) + " received on address "@ + address
    }
}

/// The notification body for one event, given the alias of the account the
/// event resolved to.
pub open spec fn spec_event_body(e: WalletEvent, alias: Seq<char>) -> Seq<char> {
    match e {
        WalletEvent::BalanceChange { address, spent, received } => spec_balance_text(
            address@,
            spent,
            received,
        ) + " on `"@ + alias + "`"@,
        WalletEvent::NewTransaction { message_id } => "New transaction: "@ + message_id@ + " on `"@
            + alias + "`"@,
        WalletEvent::ConfirmationStateChange { message_id } => "Transaction confirmed: "@
            + message_id@ + " on `"@ + alias + "`"@,
        WalletEvent::Reattachment { message_id } => "Transaction reattached: "@ + message_id@
            + " on `"@ + alias + "`"@,
    }
}

/// The stdout line printed when the notification sink fails: balance changes
/// are tagged, message events fall back to the body itself.
pub open spec fn spec_fallback_line(e: WalletEvent, alias: Seq<char>) -> Seq<char> {
    match e {
        WalletEvent::BalanceChange { .. } => "[BALANCE] "@ + spec_event_body(e, alias),
        _ => spec_event_body(e, alias),
    }
}

fn event_body(e: &WalletEvent, alias: &str) -> (r: String)
    ensures
        r@ == spec_event_body(*e, alias@),
{
    match e {
        WalletEvent::BalanceChange { address, spent, received } => {
            let amount = if *spent > 0 {
                u64_to_string(*spent)
            } else {
                u64_to_string(*received)
            };
            let movement = if *spent > 0 {
                " spent on address "
            } else {
                " received on address "
            };
            amount.concat(movement).concat(address.as_str()).concat(" on `").concat(alias).concat(
                "`",
            )
        },
        WalletEvent::NewTransaction { message_id } => String::from_str("New transaction: ").concat(
            message_id.as_str(),
        ).concat(" on `").concat(alias).concat("`"),
        WalletEvent::ConfirmationStateChange { message_id } => String::from_str(
            "Transaction confirmed: ",
        ).concat(message_id.as_str()).concat(" on `").concat(alias).concat("`"),
        WalletEvent::Reattachment { message_id } => String::from_str(
            "Transaction reattached: ",
        ).concat(message_id.as_str()).concat(" on `").concat(alias).concat("`"),
    }
}

/// The one notification attempt made for one delivered event.
pub fn notification_for(e: &WalletEvent, alias: &str) -> (r: NotificationRecord)
    ensures
        r.summary@ == "CLI Wallet"@,
        r.body@ == spec_event_body(*e, alias@),
{
    NotificationRecord { summary: String::from_str("CLI Wallet"), body: event_body(e, alias) }
}

/// What the worker prints after the notification attempt: nothing when the
/// sink accepted it, exactly one fallback line when it failed.
pub fn fallback_output(e: &WalletEvent, alias: &str, notified: bool) -> (r: Option<String>)
    ensures
        notified ==> r is None,
        !notified ==> (r matches Some(l) && l@ == spec_fallback_line(*e, alias@)),
{
    if notified {
        None
    } else {
        match e {
            WalletEvent::BalanceChange { .. } => {
                let body = event_body(e, alias);
                Some(String::from_str("[BALANCE] ").concat(body.as_str()))
            },
            _ => Some(event_body(e, alias)),
        }
    }
}

} // verus!
