//! The account prompt grammar: a line of free text is tokenized on single
//! spaces and matched against the account command language.
//!
//! The grammar is stated relationally: `parse_ok` says which token sequences
//! denote which commands, `parse_err` says which token sequences are rejected
//! and why. The parser is proved to return a result that stands in exactly
//! one of the two relations with its input.

use vstd::prelude::*;
use vstd::string::StrSliceExecFns;
use vstd::string::StringExecFns;
use vstd::pervasive::VecAdditionalExecFns;
use crate::text::push_char;
use crate::text::seq_views;
use crate::text::str_eq;

verus! {

/// Splitting a line on single space characters, as the prompt does; a blank
/// line yields one empty token, consecutive spaces yield empty tokens.
pub open spec fn spec_split(s: Seq<char>) -> Seq<Seq<char>>
    decreases s.len(),
{
    if s.len() == 0 {
        seq![Seq::<char>::empty()]
    } else if s[0] == ' ' {
        seq![Seq::<char>::empty()] + spec_split(s.skip(1))
    } else {
        let rest = spec_split(s.skip(1));
        seq![seq![s[0]] + rest[0]] + rest.skip(1)
    }
}

pub proof fn lemma_spec_split_nonempty(s: Seq<char>)
    ensures
        spec_split(s).len() >= 1,
    decreases s.len(),
{
    if s.len() != 0 {
        lemma_spec_split_nonempty(s.skip(1));
    }
}

/// Splits a line on single spaces; the result is exactly `spec_split`.
pub fn tokenize(s: &str) -> (r: Vec<String>)
    ensures
        seq_views(r@) == spec_split(s@),
    decreases s@.len(),
{
    let len = s.unicode_len();
    if len == 0 {
        let mut v: Vec<String> = Vec::new();
        v.push(String::new());
        proof {
            assert(seq_views(v@) =~~= spec_split(s@));
        }
        v
    } else {
        let c = s.get_char(0);
        let rest = s.substring_char(1, len);
        proof {
            assert(rest@ =~= s@.skip(1));
        }
        let mut toks = tokenize(rest);
        proof {
            lemma_spec_split_nonempty(rest@);
        }
        if c == ' ' {
            toks.insert(0, String::new());
            proof {
                assert(seq_views(toks@) =~~= spec_split(s@));
            }
        } else {
            let mut first = String::new();
            push_char(&mut first, c);
            first.append(toks[0].as_str());
            proof {
                assert(first@ =~= seq![s@[0]] + spec_split(s@.skip(1))[0]);
            }
            toks.set(0, first);
            proof {
                assert(seq_views(toks@) =~~= spec_split(s@));
            }
        }
        toks
    }
}

#[derive(Debug, Clone, Copy, PartialEq, Eq, Structural)]
pub enum MessageKind {
    Received,
    Sent,
    Failed,
    Unconfirmed,
    Value,
}

#[derive(Debug, Clone, Copy, PartialEq, Eq, Structural)]
pub enum ReplayKind {
    Promote,
    Retry,
    Reattach,
}

/// A structurally valid line of the account grammar. Field values carry the
/// raw token text; shape checks on ids and amounts happen at dispatch.
#[derive(Debug, Clone, PartialEq, Eq)]
pub enum AccountCommand {
    Exit,
    ListMessages { id: Option<String>, kind: Option<MessageKind> },
    ListAddresses,
    Sync { gap: Option<String> },
    GenerateAddress,
    Balance,
    Transfer { address: String, amount: String },
    Replay { kind: ReplayKind, id: String },
    SetNode { url: String },
    SetAlias { alias: String },
}

#[derive(Debug, Clone, Copy, PartialEq, Eq, Structural)]
pub enum ParseError {
    EmptyInput,
    UnknownCommand,
    BadArguments,
    UnknownMessageKind,
}

impl ParseError {
    /// The message printed at the prompt when a line is rejected.
    pub fn message(&self) -> (r: &'static str)
        ensures
            *self == ParseError::EmptyInput ==> r@ == "no command supplied"@,
            *self == ParseError::UnknownCommand ==> r@ == "unrecognized command"@,
            *self == ParseError::BadArguments ==> r@ == "invalid command arguments"@,
            *self == ParseError::UnknownMessageKind ==> r@ == "unexpected message type"@,
    {
        match self {
            ParseError::EmptyInput => "no command supplied",
            ParseError::UnknownCommand => "unrecognized command",
            ParseError::BadArguments => "invalid command arguments",
            ParseError::UnknownMessageKind => "unexpected message type",
        }
    }
}

pub open spec fn kind_word(k: MessageKind) -> Seq<char> {
    match k {
        MessageKind::Received => "received"@,
        MessageKind::Sent => "sent"@,
        MessageKind::Failed => "failed"@,
        MessageKind::Unconfirmed => "unconfirmed"@,
        MessageKind::Value => "value"@,
    }
}

pub open spec fn is_kind_word(w: Seq<char>) -> bool {
    w == "received"@ || w == "sent"@ || w == "failed"@ || w == "unconfirmed"@ || w == "value"@
}

pub open spec fn replay_word(k: ReplayKind) -> Seq<char> {
    match k {
        ReplayKind::Promote => "promote"@,
        ReplayKind::Retry => "retry"@,
        ReplayKind::Reattach => "reattach"@,
    }
}

pub open spec fn known_word(w: Seq<char>) -> bool {
    ||| w == "exit"@
    ||| w == "list-messages"@
    ||| w == "list-addresses"@
    ||| w == "sync"@
    ||| w == "address"@
    ||| w == "balance"@
    ||| w == "transfer"@
    ||| w == "promote"@
    ||| w == "retry"@
    ||| w == "reattach"@
    ||| w == "set-node"@
    ||| w == "set-alias"@
}

/// The account grammar proper: which token sequences denote which commands.
/// Optional flags may come in either order; every flag takes one value.
pub open spec fn parse_ok(t: Seq<Seq<char>>, c: AccountCommand) -> bool {
    match c {
        AccountCommand::Exit => t.len() == 1 && t[0] == "exit"@,
        AccountCommand::ListAddresses => t.len() == 1 && t[0] == "list-addresses"@,
        AccountCommand::GenerateAddress => t.len() == 1 && t[0] == "address"@,
        AccountCommand::Balance => t.len() == 1 && t[0] == "balance"@,
        AccountCommand::ListMessages { id, kind } => t.len() >= 1 && t[0] == "list-messages"@
            && match (id, kind) {
            (None, None) => t.len() == 1,
            (Some(i), None) => t.len() == 3 && t[1] == "--id"@ && t[2] == i@,
            (None, Some(k)) => t.len() == 3 && t[1] == "--type"@ && t[2] == kind_word(k),
            (Some(i), Some(k)) => t.len() == 5 && ((t[1] == "--id"@ && t[2] == i@ && t[3]
                == "--type"@ && t[4] == kind_word(k)) || (t[1] == "--type"@ && t[2] == kind_word(k)
                && t[3] == "--id"@ && t[4] == i@)),
        },
        AccountCommand::Sync { gap } => t.len() >= 1 && t[0] == "sync"@ && match gap {
            None => t.len() == 1,
            Some(g) => t.len() == 3 && t[1] == "--gap"@ && t[2] == g@,
        },
        AccountCommand::Transfer { address, amount } => t.len() == 5 && t[0] == "transfer"@ && ((t[1]
            == "--address"@ && t[2] == address@ && t[3] == "--amount"@ && t[4] == amount@) || (t[1]
            == "--amount"@ && t[2] == amount@ && t[3] == "--address"@ && t[4] == address@)),
        AccountCommand::Replay { kind, id } => t.len() == 3 && t[0] == replay_word(kind) && t[1]
            == "--id"@ && t[2] == id@,
        AccountCommand::SetNode { url } => t.len() == 3 && t[0] == "set-node"@ && t[1] == "--node"@
            && t[2] == url@,
        AccountCommand::SetAlias { alias } => t.len() == 3 && t[0] == "set-alias"@ && t[1]
            == "--alias"@ && t[2] == alias@,
    }
}

/// A `list-messages` line whose `--type` value is outside the enumerated set.
pub open spec fn bad_kind_shape(t: Seq<Seq<char>>) -> bool {
    t.len() >= 1 && t[0] == "list-messages"@ && ((t.len() == 3 && t[1] == "--type"@ && !is_kind_word(
        t[2],
    )) || (t.len() == 5 && t[1] == "--id"@ && t[3] == "--type"@ && !is_kind_word(t[4])) || (t.len()
        == 5 && t[1] == "--type"@ && !is_kind_word(t[2]) && t[3] == "--id"@))
}

/// Which token sequences are rejected, and with which error.
pub open spec fn parse_err(t: Seq<Seq<char>>, e: ParseError) -> bool {
    match e {
        ParseError::EmptyInput => t.len() == 1 && t[0].len() == 0,
        ParseError::UnknownCommand => t.len() == 0 || (!known_word(t[0]) && !(t.len() == 1
            && t[0].len() == 0)),
        ParseError::UnknownMessageKind => bad_kind_shape(t),
        ParseError::BadArguments => t.len() >= 1 && known_word(t[0]) && !bad_kind_shape(t) && !(
        exists|c: AccountCommand| parse_ok(t, c)),
    }
}

/// The contents of every word of the grammar, so that distinct words can be
/// told apart without revealing the literals at each use.
pub proof fn lemma_grammar_words()
    ensures
        "exit"@ == seq!['e', 'x', 'i', 't'],
        "list-messages"@ == seq!['l', 'i', 's', 't', '-', 'm', 'e', 's', 's', 'a', 'g', 'e', 's'],
        "list-addresses"@ == seq![
            'l', 'i', 's', 't', '-', 'a', 'd', 'd', 'r', 'e', 's', 's', 'e', 's',
        ],
        "sync"@ == seq!['s', 'y', 'n', 'c'],
        "address"@ == seq!['a', 'd', 'd', 'r', 'e', 's', 's'],
        "balance"@ == seq!['b', 'a', 'l', 'a', 'n', 'c', 'e'],
        "transfer"@ == seq!['t', 'r', 'a', 'n', 's', 'f', 'e', 'r'],
        "promote"@ == seq!['p', 'r', 'o', 'm', 'o', 't', 'e'],
        "retry"@ == seq!['r', 'e', 't', 'r', 'y'],
        "reattach"@ == seq!['r', 'e', 'a', 't', 't', 'a', 'c', 'h'],
        "set-node"@ == seq!['s', 'e', 't', '-', 'n', 'o', 'd', 'e'],
        "set-alias"@ == seq!['s', 'e', 't', '-', 'a', 'l', 'i', 'a', 's'],
        "--id"@ == seq!['-', '-', 'i', 'd'],
        "--type"@ == seq!['-', '-', 't', 'y', 'p', 'e'],
        "--gap"@ == seq!['-', '-', 'g', 'a', 'p'],
        "--address"@ == seq!['-', '-', 'a', 'd', 'd', 'r', 'e', 's', 's'],
        "--amount"@ == seq!['-', '-', 'a', 'm', 'o', 'u', 'n', 't'],
        "--node"@ == seq!['-', '-', 'n', 'o', 'd', 'e'],
        "--alias"@ == seq!['-', '-', 'a', 'l', 'i', 'a', 's'],
        "received"@ == seq!['r', 'e', 'c', 'e', 'i', 'v', 'e', 'd'],
        "sent"@ == seq!['s', 'e', 'n', 't'],
        "failed"@ == seq!['f', 'a', 'i', 'l', 'e', 'd'],
        "unconfirmed"@ == seq!['u', 'n', 'c', 'o', 'n', 'f', 'i', 'r', 'm', 'e', 'd'],
        "value"@ == seq!['v', 'a', 'l', 'u', 'e'],
{
    reveal_strlit("exit");
    reveal_strlit("list-messages");
    reveal_strlit("list-addresses");
    reveal_strlit("sync");
    reveal_strlit("address");
    reveal_strlit("balance");
    reveal_strlit("transfer");
    reveal_strlit("promote");
    reveal_strlit("retry");
    reveal_strlit("reattach");
    reveal_strlit("set-node");
    reveal_strlit("set-alias");
    reveal_strlit("--id");
    reveal_strlit("--type");
    reveal_strlit("--gap");
    reveal_strlit("--address");
    reveal_strlit("--amount");
    reveal_strlit("--node");
    reveal_strlit("--alias");
    reveal_strlit("received");
    reveal_strlit("sent");
    reveal_strlit("failed");
    reveal_strlit("unconfirmed");
    reveal_strlit("value");
    assert("exit"@ =~= seq!['e', 'x', 'i', 't']);
    assert("list-messages"@ =~= seq![
        'l', 'i', 's', 't', '-', 'm', 'e', 's', 's', 'a', 'g', 'e', 's',
    ]);
    assert("list-addresses"@ =~= seq![
        'l', 'i', 's', 't', '-', 'a', 'd', 'd', 'r', 'e', 's', 's', 'e', 's',
    ]);
    assert("sync"@ =~= seq!['s', 'y', 'n', 'c']);
    assert("address"@ =~= seq!['a', 'd', 'd', 'r', 'e', 's', 's']);
    assert("balance"@ =~= seq!['b', 'a', 'l', 'a', 'n', 'c', 'e']);
    assert("transfer"@ =~= seq!['t', 'r', 'a', 'n', 's', 'f', 'e', 'r']);
    assert("promote"@ =~= seq!['p', 'r', 'o', 'm', 'o', 't', 'e']);
    assert("retry"@ =~= seq!['r', 'e', 't', 'r', 'y']);
    assert("reattach"@ =~= seq!['r', 'e', 'a', 't', 't', 'a', 'c', 'h']);
    assert("set-node"@ =~= seq!['s', 'e', 't', '-', 'n', 'o', 'd', 'e']);
    assert("set-alias"@ =~= seq!['s', 'e', 't', '-', 'a', 'l', 'i', 'a', 's']);
    assert("--id"@ =~= seq!['-', '-', 'i', 'd']);
    assert("--type"@ =~= seq!['-', '-', 't', 'y', 'p', 'e']);
    assert("--gap"@ =~= seq!['-', '-', 'g', 'a', 'p']);
    assert("--address"@ =~= seq!['-', '-', 'a', 'd', 'd', 'r', 'e', 's', 's']);
    assert("--amount"@ =~= seq!['-', '-', 'a', 'm', 'o', 'u', 'n', 't']);
    assert("--node"@ =~= seq!['-', '-', 'n', 'o', 'd', 'e']);
    assert("--alias"@ =~= seq!['-', '-', 'a', 'l', 'i', 'a', 's']);
    assert("received"@ =~= seq!['r', 'e', 'c', 'e', 'i', 'v', 'e', 'd']);
    assert("sent"@ =~= seq!['s', 'e', 'n', 't']);
    assert("failed"@ =~= seq!['f', 'a', 'i', 'l', 'e', 'd']);
    assert("unconfirmed"@ =~= seq!['u', 'n', 'c', 'o', 'n', 'f', 'i', 'r', 'm', 'e', 'd']);
    assert("value"@ =~= seq!['v', 'a', 'l', 'u', 'e']);
}

fn parse_kind(w: &str) -> (r: Option<MessageKind>)
    ensures
        match r {
            Some(k) => kind_word(k) == w@,
            None => !is_kind_word(w@),
        },
{
    if str_eq(w, "received") {
        Some(MessageKind::Received)
    } else if str_eq(w, "sent") {
        Some(MessageKind::Sent)
    } else if str_eq(w, "failed") {
        Some(MessageKind::Failed)
    } else if str_eq(w, "unconfirmed") {
        Some(MessageKind::Unconfirmed)
    } else if str_eq(w, "value") {
        Some(MessageKind::Value)
    } else {
        None
    }
}

/// Parses one tokenized prompt line against the account grammar.
pub fn parse_tokens(toks: &Vec<String>) -> (r: Result<AccountCommand, ParseError>)
    ensures
        match r {
            Ok(c) => parse_ok(seq_views(toks@), c),
            Err(e) => parse_err(seq_views(toks@), e),
        },
{
    let ghost t = seq_views(toks@);
    proof {
        assert(t.len() == toks@.len());
        assert(forall|i: int| 0 <= i < toks@.len() ==> t[i] == toks@[i]@);
    }
    if toks.len() == 0 {
        return Err(ParseError::UnknownCommand);
    }
    let n = toks.len();
    if n == 1 && toks[0].as_str().unicode_len() == 0 {
        return Err(ParseError::EmptyInput);
    }
    if str_eq(toks[0].as_str(), "exit") {
        if n == 1 {
            Ok(AccountCommand::Exit)
        } else {
            proof {
                lemma_grammar_words();
                assert(forall|c: AccountCommand| !parse_ok(t, c));
            }
            Err(ParseError::BadArguments)
        }
    } else if str_eq(toks[0].as_str(), "list-addresses") {
        if n == 1 {
            Ok(AccountCommand::ListAddresses)
        } else {
            proof {
                lemma_grammar_words();
                assert(forall|c: AccountCommand| !parse_ok(t, c));
            }
            Err(ParseError::BadArguments)
        }
    } else if str_eq(toks[0].as_str(), "address") {
        if n == 1 {
            Ok(AccountCommand::GenerateAddress)
        } else {
            proof {
                lemma_grammar_words();
                assert(forall|c: AccountCommand| !parse_ok(t, c));
            }
            Err(ParseError::BadArguments)
        }
    } else if str_eq(toks[0].as_str(), "balance") {
        if n == 1 {
            Ok(AccountCommand::Balance)
        } else {
            proof {
                lemma_grammar_words();
                assert(forall|c: AccountCommand| !parse_ok(t, c));
            }
            Err(ParseError::BadArguments)
        }
    } else if str_eq(toks[0].as_str(), "sync") {
        if n == 1 {
            Ok(AccountCommand::Sync { gap: None })
        } else if n == 3 && str_eq(toks[1].as_str(), "--gap") {
            Ok(AccountCommand::Sync { gap: Some(toks[2].clone()) })
        } else {
            proof {
                lemma_grammar_words();
                assert(forall|c: AccountCommand| !parse_ok(t, c));
            }
            Err(ParseError::BadArguments)
        }
    } else if str_eq(toks[0].as_str(), "list-messages") {
        if n == 1 {
            Ok(AccountCommand::ListMessages { id: None, kind: None })
        } else if n == 3 && str_eq(toks[1].as_str(), "--id") {
            Ok(AccountCommand::ListMessages { id: Some(toks[2].clone()), kind: None })
        } else if n == 3 && str_eq(toks[1].as_str(), "--type") {
            match parse_kind(toks[2].as_str()) {
                Some(k) => Ok(AccountCommand::ListMessages { id: None, kind: Some(k) }),
                None => Err(ParseError::UnknownMessageKind),
            }
        } else if n == 5 && str_eq(toks[1].as_str(), "--id") && str_eq(
            toks[3].as_str(),
            "--type",
        ) {
            match parse_kind(toks[4].as_str()) {
                Some(k) => Ok(
                    AccountCommand::ListMessages { id: Some(toks[2].clone()), kind: Some(k) },
                ),
                None => Err(ParseError::UnknownMessageKind),
            }
        } else if n == 5 && str_eq(toks[1].as_str(), "--type") && str_eq(
            toks[3].as_str(),
            "--id",
        ) {
            match parse_kind(toks[2].as_str()) {
                Some(k) => Ok(
                    AccountCommand::ListMessages { id: Some(toks[4].clone()), kind: Some(k) },
                ),
                None => Err(ParseError::UnknownMessageKind),
            }
        } else {
            proof {
                lemma_grammar_words();
                assert(forall|c: AccountCommand| !parse_ok(t, c));
            }
            Err(ParseError::BadArguments)
        }
    } else if str_eq(toks[0].as_str(), "transfer") {
        if n == 5 && str_eq(toks[1].as_str(), "--address") && str_eq(toks[3].as_str(), "--amount") {
            Ok(AccountCommand::Transfer { address: toks[2].clone(), amount: toks[4].clone() })
        } else if n == 5 && str_eq(toks[1].as_str(), "--amount") && str_eq(
            toks[3].as_str(),
            "--address",
        ) {
            Ok(AccountCommand::Transfer { address: toks[4].clone(), amount: toks[2].clone() })
        } else {
            proof {
                lemma_grammar_words();
                assert(forall|c: AccountCommand| !parse_ok(t, c));
            }
            Err(ParseError::BadArguments)
        }
    } else if str_eq(toks[0].as_str(), "promote") {
        if n == 3 && str_eq(toks[1].as_str(), "--id") {
            Ok(AccountCommand::Replay { kind: ReplayKind::Promote, id: toks[2].clone() })
        } else {
            proof {
                lemma_grammar_words();
                assert(forall|c: AccountCommand| !parse_ok(t, c));
            }
            Err(ParseError::BadArguments)
        }
    } else if str_eq(toks[0].as_str(), "retry") {
        if n == 3 && str_eq(toks[1].as_str(), "--id") {
            Ok(AccountCommand::Replay { kind: ReplayKind::Retry, id: toks[2].clone() })
        } else {
            proof {
                lemma_grammar_words();
                assert(forall|c: AccountCommand| !parse_ok(t, c));
            }
            Err(ParseError::BadArguments)
        }
    } else if str_eq(toks[0].as_str(), "reattach") {
        if n == 3 && str_eq(toks[1].as_str(), "--id") {
            Ok(AccountCommand::Replay { kind: ReplayKind::Reattach, id: toks[2].clone() })
        } else {
            proof {
                lemma_grammar_words();
                assert(forall|c: AccountCommand| !parse_ok(t, c));
            }
            Err(ParseError::BadArguments)
        }
    } else if str_eq(toks[0].as_str(), "set-node") {
        if n == 3 && str_eq(toks[1].as_str(), "--node") {
            Ok(AccountCommand::SetNode { url: toks[2].clone() })
        } else {
            proof {
                lemma_grammar_words();
                assert(forall|c: AccountCommand| !parse_ok(t, c));
            }
            Err(ParseError::BadArguments)
        }
    } else if str_eq(toks[0].as_str(), "set-alias") {
        if n == 3 && str_eq(toks[1].as_str(), "--alias") {
            Ok(AccountCommand::SetAlias { alias: toks[2].clone() })
        } else {
            proof {
                lemma_grammar_words();
                assert(forall|c: AccountCommand| !parse_ok(t, c));
            }
            Err(ParseError::BadArguments)
        }
    } else {
        Err(ParseError::UnknownCommand)
    }
}

} // verus!
