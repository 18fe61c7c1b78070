//! Fixed, human-oriented rendering of records and status lines. Every line
//! the session prints is built here, with its exact text in the contract.

use vstd::prelude::*;
use vstd::string::StringExecFns;
use crate::number::spec_dec;
use crate::number::u64_to_string;
use crate::text::bool_str;
use crate::text::seq_views;

verus! {

/// A message as the prompt shows it: the engine's id and timestamp rendering
/// are carried as plain text, the flags and the optional transfer value as
/// plain values.
#[derive(Debug, Clone, PartialEq, Eq)]
pub struct MessageRecord {
    pub id: String,
    pub value: Option<u64>,
    pub timestamp: String,
    pub broadcasted: bool,
    pub confirmed: Option<bool>,
}

/// An address as the prompt shows it.
#[derive(Debug, Clone, PartialEq, Eq)]
pub struct AddressRecord {
    pub bech32: String,
    pub total_balance: u64,
    pub available_balance: u64,
    pub key_index: u64,
    pub internal: bool,
}

/// An account balance as the prompt shows it.
#[derive(Debug, Clone, Copy, PartialEq, Eq, Structural)]
pub struct BalanceRecord {
    pub total: u64,
    pub available: u64,
    pub incoming: u64,
    pub outgoing: u64,
}

pub open spec fn spec_bool_text(b: bool) -> Seq<char> {
    if b {
        "true"@
    } else {
        "false"@
    }
}

pub open spec fn spec_confirmed_text(c: Option<bool>) -> Seq<char> {
    match c {
        Some(b) => spec_bool_text(b),
        None => "unknown"@,
    }
}

/// The message block: id line, optional value line, timestamp line, flags
/// line.
pub open spec fn spec_message_block(m: MessageRecord) -> Seq<Seq<char>> {
    let head = seq!["MESSAGE "@ + m.id@];
    let value_lines = match m.value {
        Some(v) => seq!["--- Value: "@ + spec_dec(v as nat)],
        None => Seq::<Seq<char>>::empty(),
    };
    let tail = seq![
        "--- Timestamp: "@ + m.timestamp@,
        "--- Broadcasted: "@ + spec_bool_text(m.broadcasted) + ", confirmed: "@
            + spec_confirmed_text(m.confirmed),
    ];
    head + value_lines + tail
}

pub fn message_block(m: &MessageRecord) -> (r: Vec<String>)
    ensures
        seq_views(r@) == spec_message_block(*m),
{
    let mut lines: Vec<String> = Vec::new();
    lines.push(String::from_str("MESSAGE ").concat(m.id.as_str()));
    match &m.value {
        Some(v) => {
            let dec = u64_to_string(*v);
            lines.push(String::from_str("--- Value: ").concat(dec.as_str()));
        },
        None => {},
    }
    lines.push(String::from_str("--- Timestamp: ").concat(m.timestamp.as_str()));
    lines.push(
        String::from_str("--- Broadcasted: ").concat(bool_str(m.broadcasted)).concat(
            ", confirmed: ",
        ).concat(
            match &m.confirmed {
                Some(c) => bool_str(*c),
                None => "unknown",
            },
        ),
    );
    proof {
        assert(seq_views(lines@) =~~= spec_message_block(*m));
    }
    lines
}

/// The address block: quoted bech32 form, balances, key index, change flag.
pub open spec fn spec_address_block(a: AddressRecord) -> Seq<Seq<char>> {
    seq![
        "ADDRESS \""@ + a.bech32@ + "\""@,
        "Total balance: "@ + spec_dec(a.total_balance as nat),
        "--- Balance: "@ + spec_dec(a.available_balance as nat),
        "--- Index: "@ + spec_dec(a.key_index as nat),
        "--- Change address: "@ + spec_bool_text(a.internal),
    ]
}

pub fn address_block(a: &AddressRecord) -> (r: Vec<String>)
    ensures
        seq_views(r@) == spec_address_block(*a),
{
    let mut lines: Vec<String> = Vec::new();
    lines.push(String::from_str("ADDRESS \"").concat(a.bech32.as_str()).concat("\""));
    let total = u64_to_string(a.total_balance);
    lines.push(String::from_str("Total balance: ").concat(total.as_str()));
    let avail = u64_to_string(a.available_balance);
    lines.push(String::from_str("--- Balance: ").concat(avail.as_str()));
    let index = u64_to_string(a.key_index);
    lines.push(String::from_str("--- Index: ").concat(index.as_str()));
    lines.push(String::from_str("--- Change address: ").concat(bool_str(a.internal)));
    proof {
        assert(seq_views(lines@) =~~= spec_address_block(*a));
    }
    lines
}

/// The one-line rendering of a balance record.
pub open spec fn spec_balance_line(b: BalanceRecord) -> Seq<char> {
    "Balance { total: "@ + spec_dec(b.total as nat) + ", available: "@ + spec_dec(
        b.available as nat,
    ) + ", incoming: "@ + spec_dec(b.incoming as nat) + ", outgoing: "@ + spec_dec(
        b.outgoing as nat,
    ) + " }"@
}

pub fn balance_line(b: &BalanceRecord) -> (r: String)
    ensures
        r@ == spec_balance_line(*b),
{
    let total = u64_to_string(b.total);
    let available = u64_to_string(b.available);
    let incoming = u64_to_string(b.incoming);
    let outgoing = u64_to_string(b.outgoing);
    String::from_str("Balance { total: ").concat(total.as_str()).concat(", available: ").concat(
        available.as_str(),
    ).concat(", incoming: ").concat(incoming.as_str()).concat(", outgoing: ").concat(
        outgoing.as_str(),
    ).concat(" }")
}

/// The blocks of a list of messages, in order.
pub open spec fn spec_message_blocks(msgs: Seq<MessageRecord>) -> Seq<Seq<char>>
    decreases msgs.len(),
{
    if msgs.len() == 0 {
        Seq::empty()
    } else {
        spec_message_block(msgs[0]) + spec_message_blocks(msgs.skip(1))
    }
}

/// The blocks of a list of addresses, in order.
pub open spec fn spec_address_blocks(addrs: Seq<AddressRecord>) -> Seq<Seq<char>>
    decreases addrs.len(),
{
    if addrs.len() == 0 {
        Seq::empty()
    } else {
        spec_address_block(addrs[0]) + spec_address_blocks(addrs.skip(1))
    }
}

fn message_blocks_from(msgs: &Vec<MessageRecord>, start: usize) -> (r: Vec<String>)
    requires
        start <= msgs@.len(),
    ensures
        seq_views(r@) == spec_message_blocks(msgs@.skip(start as int)),
    decreases msgs@.len() - start,
{
    if start == msgs.len() {
        let r: Vec<String> = Vec::new();
        proof {
            assert(seq_views(r@) =~~= spec_message_blocks(msgs@.skip(start as int)));
        }
        r
    } else {
        let mut out = message_block(&msgs[start]);
        let mut rest = message_blocks_from(msgs, start + 1);
        out.append(&mut rest);
        proof {
            assert(msgs@.skip(start as int)[0] == msgs@[start as int]);
            assert(msgs@.skip(start as int).skip(1) =~= msgs@.skip(start as int + 1));
            assert(seq_views(out@) =~~= spec_message_blocks(msgs@.skip(start as int)));
        }
        out
    }
}

fn address_blocks_from(addrs: &Vec<AddressRecord>, start: usize) -> (r: Vec<String>)
    requires
        start <= addrs@.len(),
    ensures
        seq_views(r@) == spec_address_blocks(addrs@.skip(start as int)),
    decreases addrs@.len() - start,
{
    if start == addrs.len() {
        let r: Vec<String> = Vec::new();
        proof {
            assert(seq_views(r@) =~~= spec_address_blocks(addrs@.skip(start as int)));
        }
        r
    } else {
        let mut out = address_block(&addrs[start]);
        let mut rest = address_blocks_from(addrs, start + 1);
        out.append(&mut rest);
        proof {
            assert(addrs@.skip(start as int)[0] == addrs@[start as int]);
            assert(addrs@.skip(start as int).skip(1) =~= addrs@.skip(start as int + 1));
            assert(seq_views(out@) =~~= spec_address_blocks(addrs@.skip(start as int)));
        }
        out
    }
}

/// What `list-messages` prints for a list of matching messages: their blocks
/// in order, or one `No messages found` line.
pub fn messages_report(msgs: &Vec<MessageRecord>) -> (r: Vec<String>)
    ensures
        msgs@.len() == 0 ==> seq_views(r@) == seq!["No messages found"@],
        msgs@.len() > 0 ==> seq_views(r@) == spec_message_blocks(msgs@),
{
    if msgs.len() == 0 {
        let mut r: Vec<String> = Vec::new();
        r.push(String::from_str("No messages found"));
        proof {
            assert(seq_views(r@) =~~= seq!["No messages found"@]);
        }
        r
    } else {
        let r = message_blocks_from(msgs, 0);
        proof {
            assert(msgs@.skip(0) =~= msgs@);
        }
        r
    }
}

/// What `list-addresses` prints: the address blocks in order, or one
/// `No addresses found` line.
pub fn addresses_report(addrs: &Vec<AddressRecord>) -> (r: Vec<String>)
    ensures
        addrs@.len() == 0 ==> seq_views(r@) == seq!["No addresses found"@],
        addrs@.len() > 0 ==> seq_views(r@) == spec_address_blocks(addrs@),
{
    if addrs.len() == 0 {
        let mut r: Vec<String> = Vec::new();
        r.push(String::from_str("No addresses found"));
        proof {
            assert(seq_views(r@) =~~= seq!["No addresses found"@]);
        }
        r
    } else {
        let r = address_blocks_from(addrs, 0);
        proof {
            assert(addrs@.skip(0) =~= addrs@);
        }
        r
    }
}

/// What a finished account sync prints: the newly surfaced addresses, then
/// the newly surfaced messages.
pub fn sync_report(addrs: &Vec<AddressRecord>, msgs: &Vec<MessageRecord>) -> (r: Vec<String>)
    ensures
        seq_views(r@) == spec_address_blocks(addrs@) + spec_message_blocks(msgs@),
{
    let mut out = address_blocks_from(addrs, 0);
    let mut rest = message_blocks_from(msgs, 0);
    out.append(&mut rest);
    proof {
        assert(addrs@.skip(0) =~= addrs@);
        assert(msgs@.skip(0) =~= msgs@);
        assert(seq_views(out@) =~~= spec_address_blocks(addrs@) + spec_message_blocks(msgs@));
    }
    out
}

/// Uniform error rendering: `ERROR: <message>`.
pub fn error_line(msg: &str) -> (r: String)
    ensures
        r@ == "ERROR: "@ + msg@,
{
    String::from_str("ERROR: ").concat(msg)
}

/// The line printed after an account is created.
pub fn created_account_line(alias: &str) -> (r: String)
    ensures
        r@ == "Created account `"@ + alias@ + "`"@,
{
    String::from_str("Created account `").concat(alias).concat("`")
}

/// The line printed after all accounts were synchronized.
pub fn synchronized_line(count: u64) -> (r: String)
    ensures
        r@ == "Synchronized "@ + spec_dec(count as nat) + " accounts"@,
{
    let dec = u64_to_string(count);
    String::from_str("Synchronized ").concat(dec.as_str()).concat(" accounts")
}

/// The line printed before a sync that uses an explicit gap limit.
pub fn syncing_gap_line(gap: u64) -> (r: String)
    ensures
        r@ == "Syncing with gap limit "@ + spec_dec(gap as nat),
{
    let dec = u64_to_string(gap);
    String::from_str("Syncing with gap limit ").concat(dec.as_str())
}

/// The line printed after a backup was written, quoting the path.
pub fn backup_stored_line(path: &str) -> (r: String)
    ensures
        r@ == "Backup stored at \""@ + path@ + "\""@,
{
    String::from_str("Backup stored at \"").concat(path).concat("\"")
}

pub fn message_not_found_line() -> (r: &'static str)
    ensures
        r@ == "Message not found"@,
{
    "Message not found"
}

pub fn no_messages_line() -> (r: &'static str)
    ensures
        r@ == "No messages found"@,
{
    "No messages found"
}

pub fn no_addresses_line() -> (r: &'static str)
    ensures
        r@ == "No addresses found"@,
{
    "No addresses found"
}

pub fn account_not_found_line() -> (r: &'static str)
    ensures
        r@ == "Account not found"@,
{
    "Account not found"
}

pub fn account_removed_line() -> (r: &'static str)
    ensures
        r@ == "Account removed"@,
{
    "Account removed"
}

pub fn backup_imported_line() -> (r: &'static str)
    ensures
        r@ == "Backup successfully imported"@,
{
    "Backup successfully imported"
}

pub fn wrong_password_line() -> (r: &'static str)
    ensures
        r@ == "Wrong password. Try again."@,
{
    "Wrong password. Try again."
}

pub fn password_mismatch_line() -> (r: &'static str)
    ensures
        r@ == "Password mismatch"@,
{
    "Password mismatch"
}

} // verus!
