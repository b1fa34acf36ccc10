//! Laws of the ledger, stated over the table model and proved once and for
//! all: what registration seeds, what a successful tip moves, that queries
//! are repeatable, and that a burst of tips serialized against one sender
//! can never overdraw the sender's balance.

use vstd::prelude::*;
use crate::store::Table;
use crate::ledger::{
    register_effect,
    tip_effect,
    default_balance,
    valid_address,
    tip_allowed,
};

verus! {

/// Registration seeds the default balance: after a successful `register`
/// of a fresh user under a valid address, the new row exists and a balance
/// query on it returns exactly the default starting balance.
pub proof fn lemma_register_default_balance(m: Table, user: Seq<char>, addr: Seq<char>)
    requires
        valid_address(addr),
        !m.contains_key(user),
    ensures
        register_effect(m, user, addr).contains_key(user),
        register_effect(m, user, addr)[user].1 == default_balance(),
        register_effect(m, user, addr)[user].0 == addr,
{
}

/// A successful tip moves exactly `n` and conserves the total: the
/// sender's balance drops by `n`, the recipient's rises by `n` (from the
/// default balance if the row had to be created), and the sum over the
/// two rows is what it was before.
pub proof fn lemma_tip_conserves(m: Table, sender: Seq<char>, recipient: Seq<char>, n: int)
    requires
        tip_allowed(m, sender, recipient, n),
    ensures
        tip_effect(m, sender, recipient, n).contains_key(sender),
        tip_effect(m, sender, recipient, n).contains_key(recipient),
        tip_effect(m, sender, recipient, n)[sender].1 == m[sender].1 - n,
        tip_effect(m, sender, recipient, n)[recipient].1 == (if m.contains_key(recipient) {
            m[recipient].1
        } else {
            default_balance()
        }) + n,
        tip_effect(m, sender, recipient, n)[sender].1 + tip_effect(m, sender, recipient, n)[recipient].1
            == m[sender].1 + (if m.contains_key(recipient) {
            m[recipient].1
        } else {
            default_balance()
        }),
{
}

/// Balance queries are idempotent: a query takes the store by shared
/// reference, so the table cannot change under it, and its result is a
/// function of the table alone; two reads of the same user against the
/// same table therefore return the same value.
pub proof fn lemma_balance_idempotent(m: Table, user: Seq<char>, b1: int, b2: int)
    requires
        m.contains_key(user),
        b1 == m[user].1,
        b2 == m[user].1,
    ensures
        b1 == b2,
{
}

/// How many of a sequence of outcomes succeeded.
pub open spec fn count_true(s: Seq<bool>) -> int
    decreases s.len(),
{
    if s.len() == 0 {
        0
    } else {
        count_true(s.drop_last()) + (if s.last() {
            1int
        } else {
            0int
        })
    }
}

/// One observed tip outcome from `sender`: on success the tip was allowed
/// against the table it saw and took full effect; on failure the table is
/// untouched.
pub open spec fn tip_step(
    pre: Table,
    post: Table,
    sender: Seq<char>,
    recipient: Seq<char>,
    n: int,
    ok: bool,
) -> bool {
    if ok {
        tip_allowed(pre, sender, recipient, n) && post == tip_effect(pre, sender, recipient, n)
    } else {
        post == pre
    }
}

/// The sender's balance after a prefix of the outcomes: each success has
/// cost exactly `n`, and the balance never went negative on the way.
proof fn lemma_tips_prefix(
    states: Seq<Table>,
    recipients: Seq<Seq<char>>,
    successes: Seq<bool>,
    sender: Seq<char>,
    n: int,
    k: int,
    j: int,
)
    requires
        k >= 1,
        n > 0,
        states.len() == k + 1,
        recipients.len() == k,
        successes.len() == k,
        states[0].contains_key(sender),
        states[0][sender].1 >= 0,
        forall|i: int| 0 <= i < k ==> recipients[i] != sender,
        forall|i: int|
            0 <= i < k ==> #[trigger] tip_step(
                states[i],
                states[i + 1],
                sender,
                recipients[i],
                n,
                successes[i],
            ),
        0 <= j <= k,
    ensures
        states[j].contains_key(sender),
        states[j][sender].1 == states[0][sender].1 - n * count_true(successes.subrange(0, j)),
        forall|i: int| 0 <= i <= j ==> states[i].contains_key(sender) && states[i][sender].1 >= 0,
    decreases j,
{
    if j == 0 {
        assert(successes.subrange(0, 0) =~= Seq::empty());
        assert(count_true(successes.subrange(0, 0)) == 0);
    } else {
        lemma_tips_prefix(states, recipients, successes, sender, n, k, j - 1);
        let pre = successes.subrange(0, j - 1);
        let cur = successes.subrange(0, j);
        assert(cur.drop_last() =~= pre);
        assert(cur.last() == successes[j - 1]);
        assert(tip_step(states[j - 1], states[j - 1 + 1], sender, recipients[j - 1], n, successes[j
            - 1]));
        if successes[j - 1] {
            assert(states[j][sender].1 == states[j - 1][sender].1 - n);
            assert(count_true(cur) == count_true(pre) + 1);
            let a = count_true(pre);
            assert(n * (a + 1) == n * a + n) by (nonlinear_arith);
        } else {
            assert(count_true(cur) == count_true(pre));
        }
    }
}

/// Serializability bounds concurrent spending: when `k` tips from one
/// sender, each needing balance `n`, run against a sender who starts with
/// exactly `(k-1) * n`, at most `k - 1` of them can succeed, and the
/// sender's balance stays non-negative throughout.  The store serializes
/// the tips (each holds the store exclusively), so any concurrent run is
/// one such sequence of outcomes.
pub proof fn lemma_concurrent_tips(
    states: Seq<Table>,
    recipients: Seq<Seq<char>>,
    successes: Seq<bool>,
    sender: Seq<char>,
    n: int,
    k: int,
)
    requires
        k >= 1,
        n > 0,
        states.len() == k + 1,
        recipients.len() == k,
        successes.len() == k,
        states[0].contains_key(sender),
        states[0][sender].1 == (k - 1) * n,
        forall|i: int| 0 <= i < k ==> recipients[i] != sender,
        forall|i: int|
            0 <= i < k ==> #[trigger] tip_step(
                states[i],
                states[i + 1],
                sender,
                recipients[i],
                n,
                successes[i],
            ),
    ensures
        count_true(successes) <= k - 1,
        forall|i: int| 0 <= i <= k ==> states[i].contains_key(sender) && states[i][sender].1 >= 0,
{
    assert((k - 1) * n >= 0) by (nonlinear_arith)
        requires
            k >= 1,
            n > 0,
    ;
    lemma_tips_prefix(states, recipients, successes, sender, n, k, k);
    assert(successes.subrange(0, k as int) =~= successes);
    let c = count_true(successes);
    assert(states[k as int][sender].1 == (k - 1) * n - n * c);
    assert((k - 1) * n - n * c >= 0 && n > 0 ==> c <= k - 1) by (nonlinear_arith);
}

} // verus!
