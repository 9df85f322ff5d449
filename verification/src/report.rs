//! The report that tells a claimant which accounts of an identity were
//! found invalid.

use crate::primitives::{Address, AddressType};
use vstd::prelude::*;

verus! {

/// How many similar display names a report lists at most.
pub const VIOLATIONS_CAP: usize = 5;

/// Opens a report of invalid accounts.
pub const REPORT_HEAD: &'static str = "Please note that the following information is invalid:\n\n";

/// Closes a report of invalid accounts.
pub const REPORT_TAIL: &'static str =
    "\nPlease update the on-chain identity data. No new `requestJudgement` extrinsic must be issued after the update.";

/// The bullets of the display names that a name is too similar to.
pub open spec fn violation_lines(names: Seq<Address>) -> Seq<char>
    decreases names.len(),
{
    if names.len() == 0 {
        Seq::empty()
    } else {
        violation_lines(names.drop_last()) + ("  * \""@ + names.last()@ + "\"\n"@)
    }
}

/// How many of the similar names are listed.
pub open spec fn listed(names: Seq<Address>) -> int {
    if names.len() <= VIOLATIONS_CAP {
        names.len() as int
    } else {
        VIOLATIONS_CAP as int
    }
}

/// The bullet of a display name that is too similar to existing names: the
/// names up to the cap, and a closing mark where the cap was reached.
pub open spec fn similarity_line(account: Seq<char>, names: Seq<Address>) -> Seq<char> {
    let article = if names.len() == 1 {
        "an "@
    } else {
        Seq::empty()
    };
    let noun = if names.len() == 1 {
        "name"@
    } else {
        "names"@
    };
    let mark = if names.len() >= VIOLATIONS_CAP {
        "  * etc.\n"@
    } else {
        Seq::empty()
    };
    "* \""@ + account + "\" (Display Name) is too similar to "@ + article + "existing display "@
        + noun + ":\n"@ + violation_lines(names.take(listed(names))) + mark
}

/// The bullet of an account that could not be reached.
pub open spec fn unreachable_line(account_ty: AddressType, account: Seq<char>) -> Seq<char> {
    "* \""@ + account + "\" ("@ + account_ty.name() + "), could not be reached\n"@
}

/// The names behind an optional list of names.
pub open spec fn names_of(violations: Option<Vec<Address>>) -> Option<Seq<Address>> {
    match violations {
        Some(names) => Some(names@),
        None => None,
    }
}

/// The bullet of one invalid account.
pub open spec fn account_line(
    entry: (AddressType, Address),
    violations: Option<Seq<Address>>,
) -> Seq<char> {
    match violations {
        Some(names) if entry.0 == AddressType::DisplayName => similarity_line(entry.1@, names),
        _ => unreachable_line(entry.0, entry.1@),
    }
}

/// The bullets of a list of invalid accounts.
pub open spec fn account_lines(
    accounts: Seq<(AddressType, Address)>,
    violations: Option<Seq<Address>>,
) -> Seq<char>
    decreases accounts.len(),
{
    if accounts.len() == 0 {
        Seq::empty()
    } else {
        account_lines(accounts.drop_last(), violations) + account_line(accounts.last(), violations)
    }
}

/// The report of the accounts of an identity that were found invalid.
pub open spec fn invalid_accounts_report(
    accounts: Seq<(AddressType, Address)>,
    violations: Option<Seq<Address>>,
) -> Seq<char> {
    REPORT_HEAD@ + account_lines(accounts, violations) + REPORT_TAIL@
}

/// Appends the bullet of a display name that is too similar to others.
fn push_similarity_line(message: &mut String, account: &Address, names: &Vec<Address>)
    ensures
        final(message)@ == old(message)@ + similarity_line(account@, names@),
{
    let ghost before = message@;
    message.append("* \"");
    message.append(account.as_str());
    message.append("\" (Display Name) is too similar to ");
    if names.len() == 1 {
        message.append("an ");
    }
    message.append("existing display ");
    if names.len() == 1 {
        message.append("name");
    } else {
        message.append("names");
    }
    message.append(":\n");
    let count: usize = if names.len() <= VIOLATIONS_CAP {
        names.len()
    } else {
        VIOLATIONS_CAP
    };
    let ghost head = message@;
    let ghost shown = names@.take(count as int);
    let mut i: usize = 0;
    assert(message@ =~= head + violation_lines(shown.take(0)));
    while i < count
        invariant
            i <= count <= names.len(),
            shown == names@.take(count as int),
            message@ == head + violation_lines(shown.take(i as int)),
        decreases count - i,
    {
        proof {
            let next = shown.take(i + 1);
            assert(next.drop_last() =~= shown.take(i as int));
            assert(next.last() == names@[i as int]);
        }
        let ghost held = message@;
        message.append("  * \"");
        message.append(names[i].as_str());
        message.append("\"\n");
        i += 1;
        assert(message@ =~= held + ("  * \""@ + names@[i - 1]@ + "\"\n"@));
        assert(message@ =~= head + violation_lines(shown.take(i as int)));
    }
    assert(shown.take(i as int) =~= shown);
    if names.len() >= VIOLATIONS_CAP {
        message.append("  * etc.\n");
    }
    assert(message@ =~= before + similarity_line(account@, names@));
}

/// Appends the bullet of an account that could not be reached.
fn push_unreachable_line(message: &mut String, account_ty: AddressType, account: &Address)
    ensures
        final(message)@ == old(message)@ + unreachable_line(account_ty, account@),
{
    let ghost before = message@;
    message.append("* \"");
    message.append(account.as_str());
    message.append("\" (");
    message.append(account_ty.as_str());
    message.append("), could not be reached\n");
    assert(message@ =~= before + unreachable_line(account_ty, account@));
}

/// The report of the accounts of an identity that were found invalid. A
/// display name is told which existing names it is too similar to, where
/// such names are given; every other account is told that it could not be
/// reached.
pub fn invalid_accounts_message(
    accounts: &[(AddressType, Address)],
    violations: Option<Vec<Address>>,
) -> (message: String)
    ensures
        message@ == invalid_accounts_report(accounts@, names_of(violations)),
{
    let given = violations;
    let ghost violations = names_of(given);
    let mut message = String::new();
    message.append(REPORT_HEAD);
    let ghost head = message@;
    let mut i: usize = 0;
    assert(message@ =~= head + account_lines(accounts@.take(0), violations));
    while i < accounts.len()
        invariant
            i <= accounts.len(),
            violations == names_of(given),
            message@ == head + account_lines(accounts@.take(i as int), violations),
        decreases accounts.len() - i,
    {
        proof {
            let next = accounts@.take(i + 1);
            assert(next.drop_last() =~= accounts@.take(i as int));
            assert(next.last() == accounts@[i as int]);
        }
        let ghost held = message@;
        let entry = &accounts[i];
        match &given {
            Some(names) if entry.0 == AddressType::DisplayName => {
                push_similarity_line(&mut message, &entry.1, names);
            },
            _ => {
                push_unreachable_line(&mut message, entry.0, &entry.1);
            },
        }
        i += 1;
        assert(message@ =~= held + account_line(accounts@[i - 1], violations));
        assert(message@ =~= head + account_lines(accounts@.take(i as int), violations));
    }
    assert(accounts@.take(i as int) =~= accounts@);
    message.append(REPORT_TAIL);
    assert(message@ =~= invalid_accounts_report(accounts@, violations));
    message
}

} // verus!
