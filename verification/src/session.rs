//! Bootstrap decisions: storage-path resolution, import detection, the
//! password prompt's mode, the unlock retry loop, first-run detection and
//! interactive account selection.

use vstd::prelude::*;
use vstd::string::StringExecFns;
use crate::text::str_eq;

verus! {

/// Resolves the engine storage path: the environment value when one is set,
/// else the fixed default.
pub fn storage_path_or_default(env_value: Option<String>) -> (r: String)
    ensures
        match env_value {
            Some(p) => r@ == p@,
            None => r@ == "./wallet-cli-database"@,
        },
{
    match env_value {
        Some(p) => p,
        None => String::from_str("./wallet-cli-database"),
    }
}

/// Whether the invocation is an import: some raw argument is literally
/// `import`. The unlock loop is skipped exactly in that case.
pub fn is_import_invocation(args: &Vec<String>) -> (r: bool)
    ensures
        r == (exists|i: int| 0 <= i < args@.len() && args@[i]@ == "import"@),
{
    let mut i: usize = 0;
    while i < args.len()
        invariant
            i <= args@.len(),
            forall|j: int| 0 <= j < i ==> args@[j]@ != "import"@,
        decreases args@.len() - i,
    {
        if str_eq(args[i].as_str(), "import") {
            return true;
        }
        i = i + 1;
    }
    false
}

/// The password prompt solicits a confirmation exactly when the storage path
/// does not exist yet.
pub fn prompt_needs_confirmation(storage_exists: bool) -> (r: bool)
    ensures
        r == !storage_exists,
{
    !storage_exists
}

/// In confirmation mode, an entry is accepted exactly when both entries are
/// the same; otherwise `Password mismatch` is reported and the prompt runs
/// again.
pub fn confirmation_matches(entry: &str, confirm: &str) -> (r: bool)
    ensures
        r == (entry@ == confirm@),
{
    str_eq(entry, confirm)
}

/// One round of the unlock loop.
#[derive(Debug, Clone, Copy, PartialEq, Eq, Structural)]
pub enum UnlockStep {
    /// The keystore accepted the password: the loop ends.
    Done,
    /// Wrong password: print `Wrong password. Try again.` and re-prompt.
    Retry,
}

/// The unlock loop's only decision: it ends exactly when the keystore
/// accepted the password.
pub fn unlock_step(password_accepted: bool) -> (r: UnlockStep)
    ensures
        (r == UnlockStep::Done) == password_accepted,
        (r == UnlockStep::Retry) == !password_accepted,
{
    if password_accepted {
        UnlockStep::Done
    } else {
        UnlockStep::Retry
    }
}

/// The round at which a trace of unlock attempts first succeeds.
pub open spec fn first_accepted(attempts: Seq<bool>) -> Option<int>
    decreases attempts.len(),
{
    if attempts.len() == 0 {
        None
    } else if attempts[0] {
        Some(0)
    } else {
        match first_accepted(attempts.skip(1)) {
            Some(i) => Some(i + 1),
            None => None,
        }
    }
}

proof fn lemma_first_accepted_characterization(attempts: Seq<bool>)
    ensures
        match first_accepted(attempts) {
            Some(i) => 0 <= i < attempts.len() && attempts[i] && (forall|j: int|
                0 <= j < i ==> !attempts[j]),
            None => forall|i: int| 0 <= i < attempts.len() ==> !attempts[i],
        },
    decreases attempts.len(),
{
    if attempts.len() == 0 {
    } else if attempts[0] {
    } else {
        let rest = attempts.skip(1);
        lemma_first_accepted_characterization(rest);
        assert(forall|j: int| 0 <= j < rest.len() ==> rest[j] == attempts[j + 1]);
        match first_accepted(rest) {
            Some(i) => {
                assert forall|j: int| 0 <= j < i + 1 implies !attempts[j] by {
                    if j > 0 {
                        assert(rest[j - 1] == attempts[j]);
                    }
                }
            },
            None => {
                assert forall|i: int| 0 <= i < attempts.len() implies !attempts[i] by {
                    if i > 0 {
                        assert(rest[i - 1] == attempts[i]);
                    }
                }
            },
        }
    }
}

/// The unlock loop is idempotent under wrong passwords and terminates exactly
/// when a correct password is supplied: on a trace of attempt outcomes the
/// loop retries once per failure, unchanged, and stops at the first accepted
/// attempt; when no attempt is accepted it never stops.
pub proof fn lemma_unlock_terminates_iff_accepted(attempts: Seq<bool>)
    ensures
        (first_accepted(attempts) is Some) == (exists|i: int|
            0 <= i < attempts.len() && attempts[i]),
        match first_accepted(attempts) {
            Some(i) => 0 <= i < attempts.len() && attempts[i] && (forall|j: int|
                0 <= j < i ==> !attempts[j]),
            None => forall|i: int| 0 <= i < attempts.len() ==> !attempts[i],
        },
{
    lemma_first_accepted_characterization(attempts);
}

/// First-run detection: a fresh mnemonic is generated exactly when the
/// invocation is not an import, no keystore file is present on disk, and no
/// explicit mnemonic command was executed.
pub fn first_run(is_importing: bool, keystore_present: bool, mnemonic_set: bool) -> (r: bool)
    ensures
        r == (!is_importing && !keystore_present && !mnemonic_set),
{
    !(is_importing || keystore_present || mnemonic_set)
}

/// What interactive-selection mode does, by the number of accounts.
#[derive(Debug, Clone, Copy, PartialEq, Eq, Structural)]
pub enum SelectionPlan {
    /// No accounts: return at once, with no prompt.
    NoAccounts,
    /// Exactly one account: enter its prompt directly.
    SingleAccount,
    /// Several accounts: loop on the picker until the user cancels.
    PickLoop,
}

pub fn selection_plan(count: usize) -> (r: SelectionPlan)
    ensures
        count == 0 ==> r == SelectionPlan::NoAccounts,
        count == 1 ==> r == SelectionPlan::SingleAccount,
        count >= 2 ==> r == SelectionPlan::PickLoop,
{
    if count == 0 {
        SelectionPlan::NoAccounts
    } else if count == 1 {
        SelectionPlan::SingleAccount
    } else {
        SelectionPlan::PickLoop
    }
}

/// The picker never yields an out-of-range index: a choice is entered only
/// after this check.
pub fn pick_in_range(count: usize, choice: usize) -> (r: bool)
    ensures
        r == (choice < count),
{
    choice < count
}

} // verus!
