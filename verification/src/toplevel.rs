//! The top-level command grammar: process arguments (without the binary
//! name) name exactly one command. `mnemonic`, `account` and `delete` take
//! one positional value; `backup` and `import` take `--path`; `new` takes a
//! repeatable `--node` and optional `--type`, `--pow` and `--alias` flags in
//! any order, each of the optional flags at most once.

use vstd::prelude::*;
use crate::text::seq_views;
use crate::text::str_eq;

verus! {

/// The key-custody backend used to sign transactions.
#[derive(Debug, Clone, Copy, PartialEq, Eq, Structural)]
pub enum SignerKind {
    Stronghold,
    LedgerNanoSimulator,
    LedgerNano,
}

/// Where proof of work runs. Unknown values are rejected, not folded.
#[derive(Debug, Clone, Copy, PartialEq, Eq, Structural)]
pub enum PowMode {
    Local,
    Remote,
}

/// One parsed top-level command.
#[derive(Debug, Clone, PartialEq, Eq)]
pub enum TopCommand {
    Mnemonic { phrase: String },
    New { nodes: Vec<String>, signer: SignerKind, pow: PowMode, alias: Option<String> },
    Account { alias: String },
    Delete { alias: String },
    SyncAll,
    Backup { path: String },
    Import { path: String },
}

#[derive(Debug, Clone, Copy, PartialEq, Eq, Structural)]
pub enum TopParseError {
    /// No arguments at all: the caller shows the grammar help instead.
    NoCommand,
    UnknownCommand,
    BadArguments,
    UnknownSignerKind,
    UnknownPowMode,
}

impl TopParseError {
    pub fn message(&self) -> (r: &'static str)
        ensures
            *self == TopParseError::NoCommand ==> r@ == "no command supplied"@,
            *self == TopParseError::UnknownCommand ==> r@ == "unrecognized command"@,
            *self == TopParseError::BadArguments ==> r@ == "invalid command arguments"@,
            *self == TopParseError::UnknownSignerKind ==> r@ == "unexpected account type"@,
            *self == TopParseError::UnknownPowMode ==> r@ == "unexpected pow value"@,
    {
        match self {
            TopParseError::NoCommand => "no command supplied",
            TopParseError::UnknownCommand => "unrecognized command",
            TopParseError::BadArguments => "invalid command arguments",
            TopParseError::UnknownSignerKind => "unexpected account type",
            TopParseError::UnknownPowMode => "unexpected pow value",
        }
    }
}

pub open spec fn signer_of_word(w: Seq<char>) -> Option<SignerKind> {
    if w == "stronghold"@ {
        Some(SignerKind::Stronghold)
    } else if w == "ledger-nano-simulator"@ {
        Some(SignerKind::LedgerNanoSimulator)
    } else if w == "ledger-nano"@ {
        Some(SignerKind::LedgerNano)
    } else {
        None
    }
}

pub open spec fn pow_of_word(w: Seq<char>) -> Option<PowMode> {
    if w == "local"@ {
        Some(PowMode::Local)
    } else if w == "remote"@ {
        Some(PowMode::Remote)
    } else {
        None
    }
}

pub open spec fn top_word(w: Seq<char>) -> bool {
    ||| w == "mnemonic"@
    ||| w == "new"@
    ||| w == "account"@
    ||| w == "delete"@
    ||| w == "sync"@
    ||| w == "backup"@
    ||| w == "import"@
}

/// The flags of `new`, folded left to right.
pub struct NewFlags {
    pub nodes: Seq<Seq<char>>,
    pub signer: Option<SignerKind>,
    pub pow: Option<PowMode>,
    pub alias: Option<Seq<char>>,
}

pub open spec fn new_flags_empty() -> NewFlags {
    NewFlags { nodes: Seq::empty(), signer: None, pow: None, alias: None }
}

/// Folds the flag/value pairs after `new`: `--node` repeats, the other flags
/// appear at most once, every flag takes one value.
pub open spec fn spec_new_parse(t: Seq<Seq<char>>, acc: NewFlags) -> Result<NewFlags, TopParseError>
    decreases t.len(),
{
    if t.len() == 0 {
        Ok(acc)
    } else if t.len() == 1 {
        Err(TopParseError::BadArguments)
    } else {
        let f = t[0];
        let v = t[1];
        let rest = t.skip(2);
        if f == "--node"@ {
            spec_new_parse(
                rest,
                NewFlags { nodes: acc.nodes.push(v), signer: acc.signer, pow: acc.pow, alias: acc.alias },
            )
        } else if f == "--type"@ {
            if acc.signer is Some {
                Err(TopParseError::BadArguments)
            } else {
                match signer_of_word(v) {
                    Some(s) => spec_new_parse(
                        rest,
                        NewFlags { nodes: acc.nodes, signer: Some(s), pow: acc.pow, alias: acc.alias },
                    ),
                    None => Err(TopParseError::UnknownSignerKind),
                }
            }
        } else if f == "--pow"@ {
            if acc.pow is Some {
                Err(TopParseError::BadArguments)
            } else {
                match pow_of_word(v) {
                    Some(p) => spec_new_parse(
                        rest,
                        NewFlags { nodes: acc.nodes, signer: acc.signer, pow: Some(p), alias: acc.alias },
                    ),
                    None => Err(TopParseError::UnknownPowMode),
                }
            }
        } else if f == "--alias"@ {
            if acc.alias is Some {
                Err(TopParseError::BadArguments)
            } else {
                spec_new_parse(
                    rest,
                    NewFlags { nodes: acc.nodes, signer: acc.signer, pow: acc.pow, alias: Some(v) },
                )
            }
        } else {
            Err(TopParseError::BadArguments)
        }
    }
}

/// The top-level grammar: which argument sequences denote which commands.
pub open spec fn top_ok(t: Seq<Seq<char>>, c: TopCommand) -> bool {
    match c {
        TopCommand::Mnemonic { phrase } => t.len() == 2 && t[0] == "mnemonic"@ && t[1] == phrase@,
        TopCommand::Account { alias } => t.len() == 2 && t[0] == "account"@ && t[1] == alias@,
        TopCommand::Delete { alias } => t.len() == 2 && t[0] == "delete"@ && t[1] == alias@,
        TopCommand::SyncAll => t.len() == 1 && t[0] == "sync"@,
        TopCommand::Backup { path } => t.len() == 3 && t[0] == "backup"@ && t[1] == "--path"@
            && t[2] == path@,
        TopCommand::Import { path } => t.len() == 3 && t[0] == "import"@ && t[1] == "--path"@
            && t[2] == path@,
        TopCommand::New { nodes, signer, pow, alias } => t.len() >= 1 && t[0] == "new"@ && (
        spec_new_parse(t.skip(1), new_flags_empty()) matches Ok(acc) && seq_views(nodes@)
            == acc.nodes && signer == (match acc.signer {
            Some(s) => s,
            None => SignerKind::Stronghold,
        }) && pow == (match acc.pow {
            Some(p) => p,
            None => PowMode::Local,
        }) && (match (alias, acc.alias) {
            (None, None) => true,
            (Some(a), Some(v)) => a@ == v,
            _ => false,
        })),
    }
}

/// Which argument sequences are rejected, and with which error.
pub open spec fn top_err(t: Seq<Seq<char>>, e: TopParseError) -> bool {
    match e {
        TopParseError::NoCommand => t.len() == 0,
        TopParseError::UnknownCommand => t.len() >= 1 && !top_word(t[0]),
        TopParseError::BadArguments => t.len() >= 1 && (((t[0] == "mnemonic"@ || t[0] == "account"@
            || t[0] == "delete"@) && t.len() != 2) || (t[0] == "sync"@ && t.len() != 1) || ((t[0]
            == "backup"@ || t[0] == "import"@) && !(t.len() == 3 && t[1] == "--path"@)) || (t[0]
            == "new"@ && spec_new_parse(t.skip(1), new_flags_empty()) == Err::<
            NewFlags,
            TopParseError,
        >(TopParseError::BadArguments))),
        TopParseError::UnknownSignerKind => t.len() >= 1 && t[0] == "new"@ && spec_new_parse(
            t.skip(1),
            new_flags_empty(),
        ) == Err::<NewFlags, TopParseError>(TopParseError::UnknownSignerKind),
        TopParseError::UnknownPowMode => t.len() >= 1 && t[0] == "new"@ && spec_new_parse(
            t.skip(1),
            new_flags_empty(),
        ) == Err::<NewFlags, TopParseError>(TopParseError::UnknownPowMode),
    }
}

fn parse_signer(w: &str) -> (r: Option<SignerKind>)
    ensures
        r == signer_of_word(w@),
{
    if str_eq(w, "stronghold") {
        Some(SignerKind::Stronghold)
    } else if str_eq(w, "ledger-nano-simulator") {
        Some(SignerKind::LedgerNanoSimulator)
    } else if str_eq(w, "ledger-nano") {
        Some(SignerKind::LedgerNano)
    } else {
        None
    }
}

fn parse_pow(w: &str) -> (r: Option<PowMode>)
    ensures
        r == pow_of_word(w@),
{
    if str_eq(w, "local") {
        Some(PowMode::Local)
    } else if str_eq(w, "remote") {
        Some(PowMode::Remote)
    } else {
        None
    }
}

/// The flag accumulator of `new` as the fold sees it.
pub open spec fn flags_of(
    nodes: Seq<String>,
    signer: Option<SignerKind>,
    pow: Option<PowMode>,
    alias: Option<String>,
) -> NewFlags {
    NewFlags {
        nodes: seq_views(nodes),
        signer,
        pow,
        alias: match alias {
            Some(a) => Some(a@),
            None => None,
        },
    }
}

fn parse_new_args(args: &Vec<String>) -> (r: Result<TopCommand, TopParseError>)
    requires
        args@.len() >= 1,
        seq_views(args@)[0] == "new"@,
    ensures
        match r {
            Ok(c) => top_ok(seq_views(args@), c),
            Err(e) => top_err(seq_views(args@), e),
        },
{
    let ghost t = seq_views(args@);
    proof {
        assert(t.len() == args@.len());
        assert(forall|i: int| 0 <= i < args@.len() ==> t[i] == args@[i]@);
    }
    let mut nodes: Vec<String> = Vec::new();
    let mut signer: Option<SignerKind> = None;
    let mut pow: Option<PowMode> = None;
    let mut alias: Option<String> = None;
    let mut idx: usize = 1;
    proof {
        assert(seq_views(nodes@) =~= Seq::<Seq<char>>::empty());
        assert(flags_of(nodes@, signer, pow, alias) == new_flags_empty());
    }
    while idx < args.len()
        invariant
            1 <= idx <= args@.len(),
            t[0] == "new"@,
            t == seq_views(args@),
            t.len() == args@.len(),
            forall|i: int| 0 <= i < args@.len() ==> t[i] == args@[i]@,
            spec_new_parse(t.skip(1), new_flags_empty()) == spec_new_parse(
                t.skip(idx as int),
                flags_of(nodes@, signer, pow, alias),
            ),
        decreases args@.len() - idx,
    {
        let ghost acc = flags_of(nodes@, signer, pow, alias);
        proof {
            assert(t.skip(idx as int)[0] == t[idx as int]);
        }
        if idx + 1 == args.len() {
            proof {
                assert(t.skip(idx as int).len() == 1);
            }
            return Err(TopParseError::BadArguments);
        }
        proof {
            assert(t.skip(idx as int)[1] == t[idx as int + 1]);
            assert(t.skip(idx as int).skip(2) =~= t.skip(idx as int + 2));
        }
        let value = args[idx + 1].clone();
        if str_eq(args[idx].as_str(), "--node") {
            nodes.push(value);
            proof {
                assert(flags_of(nodes@, signer, pow, alias).nodes =~= acc.nodes.push(
                    t[idx as int + 1],
                ));
            }
        } else if str_eq(args[idx].as_str(), "--type") {
            if signer.is_some() {
                return Err(TopParseError::BadArguments);
            }
            match parse_signer(value.as_str()) {
                Some(s) => {
                    signer = Some(s);
                },
                None => {
                    return Err(TopParseError::UnknownSignerKind);
                },
            }
        } else if str_eq(args[idx].as_str(), "--pow") {
            if pow.is_some() {
                return Err(TopParseError::BadArguments);
            }
            match parse_pow(value.as_str()) {
                Some(p) => {
                    pow = Some(p);
                },
                None => {
                    return Err(TopParseError::UnknownPowMode);
                },
            }
        } else if str_eq(args[idx].as_str(), "--alias") {
            if alias.is_some() {
                return Err(TopParseError::BadArguments);
            }
            alias = Some(value);
        } else {
            return Err(TopParseError::BadArguments);
        }
        idx = idx + 2;
    }
    proof {
        assert(t.skip(idx as int).len() == 0);
        assert(spec_new_parse(t.skip(1), new_flags_empty()) == Ok::<NewFlags, TopParseError>(
            flags_of(nodes@, signer, pow, alias),
        ));
    }
    let signer_kind = match signer {
        Some(s) => s,
        None => SignerKind::Stronghold,
    };
    let pow_mode = match pow {
        Some(p) => p,
        None => PowMode::Local,
    };
    Ok(TopCommand::New { nodes, signer: signer_kind, pow: pow_mode, alias })
}

/// Parses the process arguments, without the binary name, against the
/// top-level grammar.
pub fn parse_top_args(args: &Vec<String>) -> (r: Result<TopCommand, TopParseError>)
    ensures
        match r {
            Ok(c) => top_ok(seq_views(args@), c),
            Err(e) => top_err(seq_views(args@), e),
        },
{
    let ghost t = seq_views(args@);
    proof {
        assert(t.len() == args@.len());
        assert(forall|i: int| 0 <= i < args@.len() ==> t[i] == args@[i]@);
    }
    if args.len() == 0 {
        return Err(TopParseError::NoCommand);
    }
    if str_eq(args[0].as_str(), "mnemonic") {
        if args.len() == 2 {
            Ok(TopCommand::Mnemonic { phrase: args[1].clone() })
        } else {
            Err(TopParseError::BadArguments)
        }
    } else if str_eq(args[0].as_str(), "account") {
        if args.len() == 2 {
            Ok(TopCommand::Account { alias: args[1].clone() })
        } else {
            Err(TopParseError::BadArguments)
        }
    } else if str_eq(args[0].as_str(), "delete") {
        if args.len() == 2 {
            Ok(TopCommand::Delete { alias: args[1].clone() })
        } else {
            Err(TopParseError::BadArguments)
        }
    } else if str_eq(args[0].as_str(), "sync") {
        if args.len() == 1 {
            Ok(TopCommand::SyncAll)
        } else {
            Err(TopParseError::BadArguments)
        }
    } else if str_eq(args[0].as_str(), "backup") {
        if args.len() == 3 && str_eq(args[1].as_str(), "--path") {
            Ok(TopCommand::Backup { path: args[2].clone() })
        } else {
            Err(TopParseError::BadArguments)
        }
    } else if str_eq(args[0].as_str(), "import") {
        if args.len() == 3 && str_eq(args[1].as_str(), "--path") {
            Ok(TopCommand::Import { path: args[2].clone() })
        } else {
            Err(TopParseError::BadArguments)
        }
    } else if str_eq(args[0].as_str(), "new") {
        parse_new_args(args)
    } else {
        Err(TopParseError::UnknownCommand)
    }
}

} // verus!
