//! One iteration of the account prompt: read a line, decide what it means.
//! Only `exit` leaves the loop; every failure is reported and the prompt
//! comes back.

use vstd::prelude::*;
use vstd::string::StringExecFns;
use crate::grammar::AccountCommand;
use crate::grammar::ParseError;
use crate::grammar::parse_ok;
use crate::grammar::parse_err;
use crate::grammar::parse_tokens;
use crate::grammar::spec_split;
use crate::grammar::tokenize;
use crate::text::str_eq;

verus! {

/// What one prompt iteration does with the line that was read.
#[derive(Debug, Clone, PartialEq, Eq)]
pub enum ReplAction {
    /// The literal line `h`: print the grammar's help text.
    PrintHelp,
    /// The literal line `clear`: clear the screen.
    ClearScreen,
    /// A parsed `exit`: return from this account's prompt.
    Exit,
    /// Any other parsed command: dispatch it.
    Dispatch(AccountCommand),
    /// A line the grammar rejects: print the error, stay at the prompt.
    Report(ParseError),
}

/// The prompt's contract: `h` and `clear` are handled verbatim; any other
/// line is split and judged by the grammar alone.
pub open spec fn spec_repl_step(line: Seq<char>, r: ReplAction) -> bool {
    if line == "h"@ {
        r == ReplAction::PrintHelp
    } else if line == "clear"@ {
        r == ReplAction::ClearScreen
    } else {
        let t = spec_split(line);
        match r {
            ReplAction::Exit => parse_ok(t, AccountCommand::Exit),
            ReplAction::Dispatch(c) => parse_ok(t, c) && !(c matches AccountCommand::Exit),
            ReplAction::Report(e) => parse_err(t, e),
            _ => false,
        }
    }
}

/// Decides what one line of prompt input does.
pub fn repl_step(line: &str) -> (r: ReplAction)
    ensures
        spec_repl_step(line@, r),
{
    if str_eq(line, "h") {
        ReplAction::PrintHelp
    } else if str_eq(line, "clear") {
        ReplAction::ClearScreen
    } else {
        let toks = tokenize(line);
        match parse_tokens(&toks) {
            Ok(c) => match c {
                AccountCommand::Exit => ReplAction::Exit,
                _ => ReplAction::Dispatch(c),
            },
            Err(e) => ReplAction::Report(e),
        }
    }
}

/// The prompt text shown for an account, a function of the alias alone: two
/// prompts for the same alias read the same.
pub fn prompt_for(alias: &str) -> (r: String)
    ensures
        r@ == "Account `"@ + alias@ + "` command (h for help)"@,
{
    String::from_str("Account `").concat(alias).concat("` command (h for help)")
}

/// Outside the verbatim lines `h` and `clear`, the prompt's behavior is a
/// function of the grammar's verdict alone; a line the grammar rejects is
/// only reported, so a parse failure neither exits the prompt nor reaches
/// the engine.
pub proof fn lemma_rejected_line_only_reported(line: Seq<char>, r: ReplAction)
    requires
        spec_repl_step(line, r),
        line != "h"@,
        line != "clear"@,
        forall|c: AccountCommand| !parse_ok(spec_split(line), c),
    ensures
        r matches ReplAction::Report(_),
{
    match r {
        ReplAction::Exit => {
            assert(!parse_ok(spec_split(line), AccountCommand::Exit));
        },
        _ => {},
    }
}

/// The prompt is left only by a line that the grammar parses as the `exit`
/// command, and that line dispatches nothing to the engine: the session and
/// its account are left as they were.
pub proof fn lemma_exit_only_by_exit_command(line: Seq<char>, r: ReplAction)
    requires
        spec_repl_step(line, r),
        r == ReplAction::Exit,
    ensures
        line != "h"@ && line != "clear"@,
        parse_ok(spec_split(line), AccountCommand::Exit),
        !(r matches ReplAction::Dispatch(_)),
{
}

} // verus!
