//! The ledger operations: the domain rules enforced on top of the store.
//!
//! Each operation validates its arguments, then drives the store through
//! one or more single-statement calls.  The store is held by `&mut` for the
//! whole operation, so no other operation can interleave with a multi-step
//! one; in particular a tip's balance check, debit and credit act on one
//! consistent view of the table.

use vstd::prelude::*;
use crate::store::{Store, StoreErr, Table};
use crate::text::str_eq;
use vstd::string::StrSliceExecFns;

verus! {

/// The balance a row starts with, at registration as well as when a tip
/// recipient is created implicitly.
pub open spec fn default_balance() -> int {
    0
}

/// The faucet pays only to users whose balance lies below this threshold.
pub open spec fn faucet_threshold() -> int {
    1
}

/// What one faucet call grants.
pub open spec fn faucet_grant() -> int {
    5
}

/// How a ledger operation fails.  Every variant is user-visible; apart from
/// `TransferFailed` and `StorageFault` each also promises that the store
/// was not touched.
#[derive(Clone, Copy, Debug, PartialEq, Eq, Structural)]
pub enum LedgerErr {
    /// The address is not `0x` followed by 40 hexadecimal digits.
    InvalidAddress,
    /// The tip amount is not a positive integer.
    InvalidAmount,
    /// Sender and recipient of a tip are the same user.
    SelfTip,
    /// The operation needed a row that does not exist.
    NotRegistered,
    /// A registration was attempted for an existing user.
    AlreadyRegistered,
    /// The sender's balance does not cover the tip amount.
    InsufficientBalance,
    /// The recipient credit failed after the sender debit; the payload-free
    /// report of a compensated (or, after a double fault, half-done) tip.
    TransferFailed,
    /// The faucet found the balance already at or above the threshold; the
    /// payload reports that balance.
    AlreadyFunded(i64),
    /// The underlying store failed.
    StorageFault,
}

/// Whether `c` is a hexadecimal digit, either case.
pub open spec fn is_hex_digit(c: char) -> bool {
    (48 <= c as u32 && c as u32 <= 57) || (97 <= c as u32 && c as u32 <= 102) || (65 <= c as u32
        && c as u32 <= 70)
}

/// A valid external address: `0x` followed by exactly 40 hexadecimal
/// digits.
pub open spec fn valid_address(s: Seq<char>) -> bool {
    &&& s.len() == 42
    &&& s[0] == '0'
    &&& s[1] == 'x'
    &&& forall|i: int| 2 <= i < 42 ==> is_hex_digit(s[i])
}

/// Checks the address format, character by character.
pub fn check_address(s: &str) -> (r: bool)
    ensures
        r == valid_address(s@),
{
    let n = s.unicode_len();
    if n != 42 {
        return false;
    }
    if s.get_char(0) != '0' || s.get_char(1) != 'x' {
        return false;
    }
    let mut i: usize = 2;
    while i < 42
        invariant
            2 <= i <= 42,
            s@.len() == 42,
            forall|j: int| 2 <= j < i ==> is_hex_digit(s@[j]),
        decreases 42 - i,
    {
        let u = s.get_char(i) as u32;
        let digit = 48 <= u && u <= 57;
        let lower = 97 <= u && u <= 102;
        let upper = 65 <= u && u <= 70;
        if !(digit || lower || upper) {
            return false;
        }
        i += 1;
    }
    true
}

/// The table after a successful registration: the new row carries the
/// given address and the default starting balance.
pub open spec fn register_effect(m: Table, user: Seq<char>, addr: Seq<char>) -> Table {
    m.insert(user, (addr, default_balance()))
}

/// The table after making sure `user` has a row: an existing row is kept,
/// a missing one appears with an empty address and the default balance.
pub open spec fn auto_insert(m: Table, user: Seq<char>) -> Table {
    if m.contains_key(user) {
        m
    } else {
        m.insert(user, (Seq::empty(), default_balance()))
    }
}

/// The table after taking `n` from `user`'s balance.
pub open spec fn debit(m: Table, user: Seq<char>, n: int) -> Table {
    m.insert(user, (m[user].0, m[user].1 - n))
}

/// The table after adding `n` to `user`'s balance.
pub open spec fn credit(m: Table, user: Seq<char>, n: int) -> Table {
    m.insert(user, (m[user].0, m[user].1 + n))
}

/// The table after a fully successful tip: the recipient's row exists
/// (created if needed), the sender paid `n`, the recipient received `n`.
pub open spec fn tip_effect(m: Table, sender: Seq<char>, recipient: Seq<char>, n: int) -> Table {
    credit(debit(auto_insert(m, recipient), sender, n), recipient, n)
}

/// The table of a tip that stopped after the debit: the recipient's row
/// exists but the transferred amount has left the sender only.
pub open spec fn tip_debited(m: Table, sender: Seq<char>, recipient: Seq<char>, n: int) -> Table {
    debit(auto_insert(m, recipient), sender, n)
}

/// A tip's arguments pass validation: a positive amount between two
/// distinct users.
pub open spec fn tip_args_ok(sender: Seq<char>, recipient: Seq<char>, n: int) -> bool {
    n > 0 && sender != recipient
}

/// A tip may go through: the arguments pass validation and the sender's
/// balance covers the amount.
pub open spec fn tip_allowed(m: Table, sender: Seq<char>, recipient: Seq<char>, n: int) -> bool {
    tip_args_ok(sender, recipient, n) && m.contains_key(sender) && m[sender].1 >= n
}

/// Crediting back what was just debited restores the table.
proof fn lemma_credit_undoes_debit(m: Table, user: Seq<char>, n: int)
    requires
        m.contains_key(user),
    ensures
        credit(debit(m, user, n), user, n) == m,
{
    assert(credit(debit(m, user, n), user, n) =~= m);
}

/// Registers `user_id` under `address`: validates the address format, then
/// creates the row with the default starting balance.
pub fn register(store: &mut Store, user_id: &str, address: &str) -> (r: Result<(), LedgerErr>)
    requires
        old(store).wf(),
    ensures
        final(store).wf(),
        (r matches Err(e) && e == LedgerErr::InvalidAddress) <==> !valid_address(address@),
        r is Ok ==> !old(store)@.contains_key(user_id@) && final(store)@ == register_effect(
            old(store)@,
            user_id@,
            address@,
        ),
        (r matches Err(e) && e == LedgerErr::AlreadyRegistered) ==> old(store)@.contains_key(
            user_id@,
        ),
        r is Err ==> final(store)@ == old(store)@,
        r matches Err(e) ==> e == LedgerErr::InvalidAddress || e == LedgerErr::AlreadyRegistered
            || e == LedgerErr::StorageFault,
        (valid_address(address@) && old(store)@.contains_key(user_id@)) ==> (r matches Err(e)
            && (e == LedgerErr::AlreadyRegistered || e == LedgerErr::StorageFault)),
        (valid_address(address@) && !old(store)@.contains_key(user_id@)) ==> (r is Ok || (
        r matches Err(e) && e == LedgerErr::StorageFault)),
{
    if !check_address(address) {
        return Err(LedgerErr::InvalidAddress);
    }
    match store.insert_row(user_id, address, 0) {
        Ok(_) => Ok(()),
        Err(StoreErr::DuplicateUser) => Err(LedgerErr::AlreadyRegistered),
        Err(_) => Err(LedgerErr::StorageFault),
    }
}

/// Overwrites the registered address of `user_id` after validating the
/// format; the balance is untouched.
pub fn update(store: &mut Store, user_id: &str, address: &str) -> (r: Result<(), LedgerErr>)
    requires
        old(store).wf(),
    ensures
        final(store).wf(),
        (r matches Err(e) && e == LedgerErr::InvalidAddress) <==> !valid_address(address@),
        r is Ok ==> old(store)@.contains_key(user_id@) && final(store)@ == old(store)@.insert(
            user_id@,
            (address@, old(store)@[user_id@].1),
        ),
        (r matches Err(e) && e == LedgerErr::NotRegistered) ==> !old(store)@.contains_key(
            user_id@,
        ),
        r is Err ==> final(store)@ == old(store)@,
        r matches Err(e) ==> e == LedgerErr::InvalidAddress || e == LedgerErr::NotRegistered || e
            == LedgerErr::StorageFault,
        (valid_address(address@) && old(store)@.contains_key(user_id@)) ==> (r is Ok || (
        r matches Err(e) && e == LedgerErr::StorageFault)),
        (valid_address(address@) && !old(store)@.contains_key(user_id@)) ==> (r matches Err(e)
            && (e == LedgerErr::NotRegistered || e == LedgerErr::StorageFault)),
{
    if !check_address(address) {
        return Err(LedgerErr::InvalidAddress);
    }
    match store.update_address(user_id, address) {
        Ok(_) => Ok(()),
        Err(StoreErr::NotFound) => Err(LedgerErr::NotRegistered),
        Err(_) => Err(LedgerErr::StorageFault),
    }
}

/// Reads the balance of `user_id`.  A query: the store is taken by shared
/// reference, so the table cannot change.
pub fn balance(store: &Store, user_id: &str) -> (r: Result<i64, LedgerErr>)
    requires
        store.wf(),
    ensures
        r matches Ok(b) ==> store@.contains_key(user_id@) && b as int == store@[user_id@].1,
        (r matches Err(e) && e == LedgerErr::NotRegistered) ==> !store@.contains_key(user_id@),
        r matches Err(e) ==> e == LedgerErr::NotRegistered || e == LedgerErr::StorageFault,
{
    match store.get_balance(user_id) {
        Ok(b) => Ok(b),
        Err(StoreErr::NotFound) => Err(LedgerErr::NotRegistered),
        Err(_) => Err(LedgerErr::StorageFault),
    }
}

/// Grants the faucet amount when the balance lies below the threshold;
/// otherwise leaves the row alone.
pub fn add_balance(store: &mut Store, user_id: &str) -> (r: Result<(), StoreErr>)
    requires
        old(store).wf(),
    ensures
        final(store).wf(),
        r is Ok ==> old(store)@.contains_key(user_id@) && ((old(store)@[user_id@].1
            < faucet_threshold()) ==> final(store)@ == credit(
            old(store)@,
            user_id@,
            faucet_grant(),
        )) && ((old(store)@[user_id@].1 >= faucet_threshold()) ==> final(store)@ == old(store)@),
        r is Err ==> final(store)@ == old(store)@,
        (r matches Err(e) && e == StoreErr::NotFound) ==> !old(store)@.contains_key(user_id@),
        r matches Err(e) ==> e == StoreErr::NotFound || e == StoreErr::StorageFault,
{
    let b = match store.get_balance(user_id) {
        Ok(b) => b,
        Err(StoreErr::NotFound) => {
            return Err(StoreErr::NotFound);
        },
        Err(_) => {
            return Err(StoreErr::StorageFault);
        },
    };
    if b < 1 {
        match store.plus_balance(user_id, 5) {
            Ok(_) => Ok(()),
            Err(_) => Err(StoreErr::StorageFault),
        }
    } else {
        Ok(())
    }
}

/// The faucet command: pays the grant once, while the balance is below the
/// threshold, and reports the new balance; otherwise reports the current
/// balance inside `AlreadyFunded`.
pub fn giveme5(store: &mut Store, user_id: &str) -> (r: Result<i64, LedgerErr>)
    requires
        old(store).wf(),
    ensures
        final(store).wf(),
        r matches Ok(b) ==> old(store)@.contains_key(user_id@) && old(store)@[user_id@].1
            < faucet_threshold() && b as int == old(store)@[user_id@].1 + faucet_grant() && final(store)@ == credit(old(store)@, user_id@, faucet_grant()),
        r matches Err(LedgerErr::AlreadyFunded(b)) ==> old(store)@.contains_key(user_id@) && b
            as int == old(store)@[user_id@].1 && b as int >= faucet_threshold() && final(store)@
            == old(store)@,
        (r matches Err(e) && e == LedgerErr::NotRegistered) ==> !old(store)@.contains_key(user_id@)
            && final(store)@ == old(store)@,
        (r matches Err(e) && e == LedgerErr::StorageFault) ==> final(store)@ == old(store)@,
        r matches Err(e) ==> (e matches LedgerErr::AlreadyFunded(_)) || e
            == LedgerErr::NotRegistered || e == LedgerErr::StorageFault,
        (old(store)@.contains_key(user_id@) && old(store)@[user_id@].1 < faucet_threshold()) ==> (
        r is Ok || (r matches Err(e) && e == LedgerErr::StorageFault)),
        (old(store)@.contains_key(user_id@) && old(store)@[user_id@].1 >= faucet_threshold()) ==> (
        (r matches Err(e) && ((e matches LedgerErr::AlreadyFunded(_)) || e
            == LedgerErr::StorageFault))),
{
    let b = match store.get_balance(user_id) {
        Ok(b) => b,
        Err(StoreErr::NotFound) => {
            return Err(LedgerErr::NotRegistered);
        },
        Err(_) => {
            return Err(LedgerErr::StorageFault);
        },
    };
    if b < 1 {
        match add_balance(store, user_id) {
            Ok(_) => Ok(b + 5),
            Err(_) => Err(LedgerErr::StorageFault),
        }
    } else {
        Err(LedgerErr::AlreadyFunded(b))
    }
}

/// Transfers `amount` from `sender_id` to `recipient_id`.
///
/// Validation comes first and touches nothing: the amount must be
/// positive, the two users distinct, the sender registered with a covering
/// balance.  A recipient without a row is created with an empty address.
/// Then the sender is debited and the recipient credited, each in one
/// atomic statement; when the credit fails after the debit, the debit is
/// compensated and the tip reported as `TransferFailed`.
pub fn tip(store: &mut Store, sender_id: &str, recipient_id: &str, amount: i64) -> (r: Result<
    (),
    LedgerErr,
>)
    requires
        old(store).wf(),
    ensures
        final(store).wf(),
        (r matches Err(e) && e == LedgerErr::InvalidAmount) <==> amount <= 0,
        (r matches Err(e) && e == LedgerErr::SelfTip) <==> (amount > 0 && sender_id@
            == recipient_id@),
        (r matches Err(e) && e == LedgerErr::NotRegistered) ==> !old(store)@.contains_key(
            sender_id@,
        ),
        (r matches Err(e) && e == LedgerErr::InsufficientBalance) ==> old(store)@.contains_key(
            sender_id@,
        ) && old(store)@[sender_id@].1 < amount,
        (r matches Err(e) && (e == LedgerErr::InvalidAmount || e == LedgerErr::SelfTip || e
            == LedgerErr::NotRegistered || e == LedgerErr::InsufficientBalance)) ==> final(store)@
            == old(store)@,
        (r matches Err(e) && e == LedgerErr::StorageFault) ==> final(store)@ == old(store)@
            || final(store)@ == auto_insert(old(store)@, recipient_id@),
        (r matches Err(e) && e == LedgerErr::StorageFault && !tip_allowed(
            old(store)@,
            sender_id@,
            recipient_id@,
            amount as int,
        )) ==> final(store)@ == old(store)@,
        (r matches Err(e) && e == LedgerErr::TransferFailed) ==> tip_allowed(
            old(store)@,
            sender_id@,
            recipient_id@,
            amount as int,
        ) && (final(store)@ == auto_insert(old(store)@, recipient_id@) || final(store)@
            == tip_debited(old(store)@, sender_id@, recipient_id@, amount as int)),
        r is Ok ==> tip_allowed(old(store)@, sender_id@, recipient_id@, amount as int)
            && final(store)@ == tip_effect(old(store)@, sender_id@, recipient_id@, amount as int),
        r matches Err(e) ==> e == LedgerErr::InvalidAmount || e == LedgerErr::SelfTip || e
            == LedgerErr::NotRegistered || e == LedgerErr::InsufficientBalance || e
            == LedgerErr::TransferFailed || e == LedgerErr::StorageFault,
        tip_allowed(old(store)@, sender_id@, recipient_id@, amount as int) ==> (r is Ok || (
        r matches Err(e) && (e == LedgerErr::StorageFault || e == LedgerErr::TransferFailed))),
{
    let ghost m0: Table = store@;
    if amount <= 0 {
        return Err(LedgerErr::InvalidAmount);
    }
    if str_eq(sender_id, recipient_id) {
        return Err(LedgerErr::SelfTip);
    }
    let sbal = match store.get_balance(sender_id) {
        Ok(b) => b,
        Err(StoreErr::NotFound) => {
            return Err(LedgerErr::NotRegistered);
        },
        Err(_) => {
            return Err(LedgerErr::StorageFault);
        },
    };
    if sbal < amount {
        return Err(LedgerErr::InsufficientBalance);
    }
    let rbal = match store.get_user(recipient_id) {
        Ok(u) => u.balance,
        Err(StoreErr::NotFound) => {
            match store.insert_row(recipient_id, "", 0) {
                Ok(_) => {
                    proof {
                        reveal_strlit("");
                        assert(""@ =~= Seq::<char>::empty());
                    }
                    0
                },
                Err(_) => {
                    return Err(LedgerErr::StorageFault);
                },
            }
        },
        Err(_) => {
            return Err(LedgerErr::StorageFault);
        },
    };
    let ghost m1: Table = store@;
    proof {
        assert(m1 == auto_insert(m0, recipient_id@));
    }
    match store.minus_balance(sender_id, amount) {
        Ok(_) => {},
        Err(_) => {
            return Err(LedgerErr::StorageFault);
        },
    }
    proof {
        assert(store@ == tip_debited(m0, sender_id@, recipient_id@, amount as int));
    }
    if rbal <= i64::MAX - amount {
        match store.plus_balance(recipient_id, amount) {
            Ok(_) => {
                proof {
                    assert(store@ == tip_effect(m0, sender_id@, recipient_id@, amount as int));
                }
                return Ok(());
            },
            Err(_) => {},
        }
    }
    // the credit failed (or would overflow the recipient's balance):
    // compensate the sender's debit
    match store.plus_balance(sender_id, amount) {
        Ok(_) => {
            proof {
                lemma_credit_undoes_debit(m1, sender_id@, amount as int);
            }
            Err(LedgerErr::TransferFailed)
        },
        Err(_) => Err(LedgerErr::TransferFailed),
    }
}

} // verus!
