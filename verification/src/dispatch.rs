//! The command dispatcher: maps an external command name and its ordered
//! string arguments onto exactly one ledger operation, after checking the
//! argument count and shape.  Validation failures never touch the store.

use vstd::prelude::*;
use crate::store::Store;
use crate::ledger::{
    LedgerErr,
    register,
    update,
    balance,
    tip,
    giveme5,
    valid_address,
    register_effect,
    credit,
    tip_effect,
    tip_allowed,
    faucet_threshold,
    faucet_grant,
};
use crate::text::{str_eq, parse_i64, is_int_str, int_str_val};

verus! {

/// The one ledger operation (or help request) a recognized command line
/// asks for, with its arguments already shaped.
#[derive(Debug, PartialEq, Eq)]
pub enum Action {
    /// `tiphelp`: the static help text, no ledger call.
    Tiphelp,
    /// `register <address>`.
    Register(String),
    /// `update <address>`.
    Update(String),
    /// `balance`.
    Balance,
    /// `tip <recipient> <amount>`.
    Tip(String, i64),
    /// `giveme5`.
    Giveme5,
}

/// How a command line fails validation before any ledger call.
#[derive(Clone, Copy, Debug, PartialEq, Eq, Structural)]
pub enum ParseErr {
    /// The command name is not one the dispatcher knows; such a message is
    /// ignored.
    UnknownCommand,
    /// The number of arguments does not fit the command.
    WrongArity,
    /// The tip amount is not an integer (or does not fit an `i64`).
    BadAmount,
}

/// The reply a processed command produces, for the transport to put into
/// words.
#[derive(Debug, PartialEq, Eq)]
pub enum Reply {
    /// The static help text.
    Help,
    /// A registration went through.
    Registered,
    /// An address update went through.
    Updated,
    /// The queried balance.
    Balance(i64),
    /// A tip of the given amount reached the given recipient.
    Tipped(String, i64),
    /// The faucet paid; the new balance.
    Funded(i64),
    /// The ledger refused or failed the operation.
    Failed(LedgerErr),
    /// The command line itself was rejected before any ledger call.
    Rejected(ParseErr),
}

/// The six command names the dispatcher recognizes.
pub open spec fn recognized_command(c: Seq<char>) -> bool {
    ||| c == "tiphelp"@
    ||| c == "register"@
    ||| c == "update"@
    ||| c == "balance"@
    ||| c == "tip"@
    ||| c == "giveme5"@
}

/// The help command: no ledger call, only the static help reply.
pub fn tiphelp() -> (r: Reply)
    ensures
        r == Reply::Help,
{
    Reply::Help
}

/// Turns a command name and its argument list into the one action it asks
/// for, or the exact reason the command line is rejected.
pub fn parse_command(command: &str, args: &Vec<String>) -> (r: Result<Action, ParseErr>)
    ensures
        (r matches Err(e) && e == ParseErr::UnknownCommand) <==> !recognized_command(command@),
        command@ == "tiphelp"@ ==> (if args@.len() == 0 {
            r matches Ok(a) && a == Action::Tiphelp
        } else {
            r matches Err(e) && e == ParseErr::WrongArity
        }),
        command@ == "register"@ ==> (if args@.len() == 1 {
            r matches Ok(a) && (a matches Action::Register(addr) && addr@ == args@[0]@)
        } else {
            r matches Err(e) && e == ParseErr::WrongArity
        }),
        command@ == "update"@ ==> (if args@.len() == 1 {
            r matches Ok(a) && (a matches Action::Update(addr) && addr@ == args@[0]@)
        } else {
            r matches Err(e) && e == ParseErr::WrongArity
        }),
        command@ == "balance"@ ==> (if args@.len() == 0 {
            r matches Ok(a) && a == Action::Balance
        } else {
            r matches Err(e) && e == ParseErr::WrongArity
        }),
        command@ == "giveme5"@ ==> (if args@.len() == 0 {
            r matches Ok(a) && a == Action::Giveme5
        } else {
            r matches Err(e) && e == ParseErr::WrongArity
        }),
        command@ == "tip"@ ==> (if args@.len() != 2 {
            r matches Err(e) && e == ParseErr::WrongArity
        } else if is_int_str(args@[1]@) && i64::MIN <= int_str_val(args@[1]@) && int_str_val(
            args@[1]@,
        ) <= i64::MAX {
            r matches Ok(a) && (a matches Action::Tip(rec, amount) && rec@ == args@[0]@ && amount
                as int == int_str_val(args@[1]@))
        } else {
            r matches Err(e) && e == ParseErr::BadAmount
        }),
        r matches Ok(a) ==> recognized_command(command@),
        (r matches Ok(a) && a == Action::Tiphelp) ==> command@ == "tiphelp"@ && args@.len() == 0,
        r matches Ok(Action::Register(addr2)) ==> command@ == "register"@ && args@.len() == 1
            && addr2@ == args@[0]@,
        r matches Ok(Action::Update(addr3)) ==> command@ == "update"@ && args@.len() == 1 && addr3@
            == args@[0]@,
        (r matches Ok(a) && a == Action::Balance) ==> command@ == "balance"@ && args@.len() == 0,
        (r matches Ok(a) && a == Action::Giveme5) ==> command@ == "giveme5"@ && args@.len() == 0,
        r matches Ok(Action::Tip(rec2, amount2)) ==> command@ == "tip"@ && args@.len() == 2 && rec2@
            == args@[0]@ && is_int_str(args@[1]@) && amount2 as int == int_str_val(args@[1]@),
        (r matches Err(e) && e == ParseErr::BadAmount) ==> command@ == "tip"@ && args@.len() == 2,
{
    proof {
        reveal_strlit("tiphelp");
        reveal_strlit("register");
        reveal_strlit("update");
        reveal_strlit("balance");
        reveal_strlit("tip");
        reveal_strlit("giveme5");
        assert("tiphelp"@.len() == 7);
        assert("register"@.len() == 8);
        assert("update"@.len() == 6);
        assert("balance"@.len() == 7);
        assert("tip"@.len() == 3);
        assert("giveme5"@.len() == 7);
        assert("tiphelp"@[0] == 't');
        assert("balance"@[0] == 'b');
        assert("giveme5"@[0] == 'g');
    }
    if str_eq(command, "tiphelp") {
        if args.len() != 0 {
            return Err(ParseErr::WrongArity);
        }
        Ok(Action::Tiphelp)
    } else if str_eq(command, "register") {
        if args.len() != 1 {
            return Err(ParseErr::WrongArity);
        }
        Ok(Action::Register(args[0].clone()))
    } else if str_eq(command, "update") {
        if args.len() != 1 {
            return Err(ParseErr::WrongArity);
        }
        Ok(Action::Update(args[0].clone()))
    } else if str_eq(command, "balance") {
        if args.len() != 0 {
            return Err(ParseErr::WrongArity);
        }
        Ok(Action::Balance)
    } else if str_eq(command, "tip") {
        if args.len() != 2 {
            return Err(ParseErr::WrongArity);
        }
        match parse_i64(args[1].as_str()) {
            Some(v) => Ok(Action::Tip(args[0].clone(), v)),
            None => Err(ParseErr::BadAmount),
        }
    } else if str_eq(command, "giveme5") {
        if args.len() != 0 {
            return Err(ParseErr::WrongArity);
        }
        Ok(Action::Giveme5)
    } else {
        Err(ParseErr::UnknownCommand)
    }
}

/// Runs one command line from `author_id` against the store: validates the
/// shape, calls the one ledger operation it names, and reports the
/// outcome.  A rejected command line never touches the store.
pub fn dispatch(store: &mut Store, author_id: &str, command: &str, args: &Vec<String>) -> (r: Reply)
    requires
        old(store).wf(),
    ensures
        final(store).wf(),
        r matches Reply::Rejected(pe) ==> final(store)@ == old(store)@,
        (r matches Reply::Rejected(pe) && pe == ParseErr::UnknownCommand) <==> !recognized_command(
            command@,
        ),
        command@ == "tiphelp"@ ==> final(store)@ == old(store)@ && (if args@.len() == 0 {
            r == Reply::Help
        } else {
            r == Reply::Rejected(ParseErr::WrongArity)
        }),
        command@ == "balance"@ ==> final(store)@ == old(store)@,
        (command@ == "register"@ || command@ == "update"@) && args@.len() != 1 ==> r
            == Reply::Rejected(ParseErr::WrongArity),
        (command@ == "balance"@ || command@ == "giveme5"@) && args@.len() != 0 ==> r
            == Reply::Rejected(ParseErr::WrongArity),
        command@ == "tip"@ && args@.len() != 2 ==> r == Reply::Rejected(ParseErr::WrongArity),
        command@ == "register"@ && args@.len() == 1 ==> ((r == Reply::Registered || (
        r matches Reply::Failed(e) && (e == LedgerErr::InvalidAddress || e
            == LedgerErr::AlreadyRegistered || e == LedgerErr::StorageFault))) && (r
            == Reply::Registered ==> !old(store)@.contains_key(author_id@) && final(store)@
            == register_effect(old(store)@, author_id@, args@[0]@)) && ((r matches Reply::Failed(e)
            && e == LedgerErr::InvalidAddress) <==> !valid_address(args@[0]@)) && (
        r matches Reply::Failed(e) ==> final(store)@ == old(store)@)),
        command@ == "update"@ && args@.len() == 1 ==> ((r == Reply::Updated || (
        r matches Reply::Failed(e) && (e == LedgerErr::InvalidAddress || e
            == LedgerErr::NotRegistered || e == LedgerErr::StorageFault))) && (r == Reply::Updated
            ==> old(store)@.contains_key(author_id@) && final(store)@ == old(store)@.insert(
            author_id@,
            (args@[0]@, old(store)@[author_id@].1),
        )) && ((r matches Reply::Failed(e) && e == LedgerErr::InvalidAddress) <==> !valid_address(
            args@[0]@,
        )) && ((r matches Reply::Failed(e) && e == LedgerErr::NotRegistered) ==> !old(
            store,
        )@.contains_key(author_id@)) && (r matches Reply::Failed(e) ==> final(store)@ == old(
            store,
        )@)),
        command@ == "balance"@ && args@.len() == 0 ==> ((r matches Reply::Balance(b) ==> old(
            store,
        )@.contains_key(author_id@) && b as int == old(store)@[author_id@].1) && (
        r matches Reply::Balance(b) || (r matches Reply::Failed(e) && (e == LedgerErr::NotRegistered
            || e == LedgerErr::StorageFault))) && ((r matches Reply::Failed(e) && e
            == LedgerErr::NotRegistered) ==> !old(store)@.contains_key(author_id@))),
        command@ == "giveme5"@ && args@.len() == 0 ==> ((r matches Reply::Funded(b) ==> old(
            store,
        )@.contains_key(author_id@) && old(store)@[author_id@].1 < faucet_threshold() && b as int
            == old(store)@[author_id@].1 + faucet_grant() && final(store)@ == credit(
            old(store)@,
            author_id@,
            faucet_grant(),
        )) && (r matches Reply::Failed(e) ==> final(store)@ == old(store)@) && (
        r matches Reply::Funded(b) || (r matches Reply::Failed(e) && ((
        e matches LedgerErr::AlreadyFunded(b2)) || e == LedgerErr::NotRegistered || e
            == LedgerErr::StorageFault))) && (r matches Reply::Failed(
            LedgerErr::AlreadyFunded(b3),
        ) ==> old(store)@.contains_key(author_id@) && b3 as int == old(store)@[author_id@].1 && b3
            as int >= faucet_threshold())),
        command@ == "tip"@ && args@.len() == 2 ==> ((r == Reply::Rejected(ParseErr::BadAmount) <==> (
        !is_int_str(args@[1]@) || int_str_val(args@[1]@) < i64::MIN || int_str_val(args@[1]@)
            > i64::MAX)) && (r matches Reply::Tipped(rec, amount) ==> rec@ == args@[0]@ && amount
            as int == int_str_val(args@[1]@) && tip_allowed(
            old(store)@,
            author_id@,
            args@[0]@,
            amount as int,
        ) && final(store)@ == tip_effect(old(store)@, author_id@, args@[0]@, amount as int)) && (
        r matches Reply::Failed(e) ==> (e == LedgerErr::InvalidAmount || e == LedgerErr::SelfTip
            || e == LedgerErr::NotRegistered || e == LedgerErr::InsufficientBalance || e
            == LedgerErr::TransferFailed || e == LedgerErr::StorageFault)) && ((
        r matches Reply::Failed(e) && (e == LedgerErr::InvalidAmount || e == LedgerErr::SelfTip || e
            == LedgerErr::NotRegistered || e == LedgerErr::InsufficientBalance)) ==> final(store)@
            == old(store)@) && ((r matches Reply::Failed(e) && e == LedgerErr::SelfTip) ==> args@[0]@
            == author_id@) && ((r matches Reply::Failed(e) && e == LedgerErr::InvalidAmount) ==>
            int_str_val(args@[1]@) <= 0) && ((r matches Reply::Failed(e) && e
            == LedgerErr::InsufficientBalance) ==> old(store)@.contains_key(author_id@) && old(
            store,
        )@[author_id@].1 < int_str_val(args@[1]@))),
{
    proof {
        reveal_strlit("tiphelp");
        reveal_strlit("register");
        reveal_strlit("update");
        reveal_strlit("balance");
        reveal_strlit("tip");
        reveal_strlit("giveme5");
        assert("tiphelp"@.len() == 7);
        assert("register"@.len() == 8);
        assert("update"@.len() == 6);
        assert("balance"@.len() == 7);
        assert("tip"@.len() == 3);
        assert("giveme5"@.len() == 7);
        assert("tiphelp"@[0] == 't');
        assert("balance"@[0] == 'b');
        assert("giveme5"@[0] == 'g');
    }
    let action = match parse_command(command, args) {
        Ok(a) => a,
        Err(e) => {
            return Reply::Rejected(e);
        },
    };
    match action {
        Action::Tiphelp => tiphelp(),
        Action::Register(address) => match register(store, author_id, address.as_str()) {
            Ok(_) => Reply::Registered,
            Err(e) => Reply::Failed(e),
        },
        Action::Update(address) => match update(store, author_id, address.as_str()) {
            Ok(_) => Reply::Updated,
            Err(e) => Reply::Failed(e),
        },
        Action::Balance => match balance(store, author_id) {
            Ok(b) => Reply::Balance(b),
            Err(e) => Reply::Failed(e),
        },
        Action::Tip(recipient, amount) => match tip(store, author_id, recipient.as_str(), amount) {
            Ok(_) => Reply::Tipped(recipient, amount),
            Err(e) => Reply::Failed(e),
        },
        Action::Giveme5 => match giveme5(store, author_id) {
            Ok(b) => Reply::Funded(b),
            Err(e) => Reply::Failed(e),
        },
    }
}

} // verus!
