use seedtip::ledger::{
    add_balance, balance, check_address, giveme5, register, tip, update, LedgerErr,
};
use seedtip::store::{Store, StoreErr, User};

const ADDR_A: &str = "0xaaaaaaaaaaaaaaaaaaaaaaaaaaaaaaaaaaaaaaaa";
const ADDR_B: &str = "0xbbbbbbbbbbbbbbbbbbbbbbbbbbbbbbbbbbbbbbbb";
const ADDR_MIXED: &str = "0xAb0123456789abcdefABCDEF0123456789aBcDeF";

fn fresh() -> Store {
    Store::open_in_memory().unwrap()
}

#[test]
fn register_then_balance_returns_default() {
    let mut s = fresh();
    assert_eq!(register(&mut s, "100", ADDR_A), Ok(()));
    assert_eq!(balance(&s, "100"), Ok(0));
}

#[test]
fn register_accepts_mixed_case_hex() {
    let mut s = fresh();
    assert_eq!(register(&mut s, "100", ADDR_MIXED), Ok(()));
    let u = s.get_user("100").unwrap();
    assert_eq!(u.address, ADDR_MIXED);
    assert_eq!(u.balance, 0);
}

#[test]
fn register_rejects_bad_addresses_without_mutation() {
    let mut s = fresh();
    let bad = [
        "",
        "0x",
        "abc",
        "0xaaaaaaaaaaaaaaaaaaaaaaaaaaaaaaaaaaaaaaa",   // 39 digits
        "0xaaaaaaaaaaaaaaaaaaaaaaaaaaaaaaaaaaaaaaaaa", // 41 digits
        "1xaaaaaaaaaaaaaaaaaaaaaaaaaaaaaaaaaaaaaaaa",  // wrong prefix
        "0xaaaaaaaaaaaaaaaaaaagaaaaaaaaaaaaaaaaaaaa",  // 'g' is not hex
        "aaaaaaaaaaaaaaaaaaaaaaaaaaaaaaaaaaaaaaaaaa",  // no 0x
    ];
    for a in bad {
        assert_eq!(register(&mut s, "100", a), Err(LedgerErr::InvalidAddress));
    }
    // the store was never touched: the user still does not exist
    assert_eq!(balance(&s, "100"), Err(LedgerErr::NotRegistered));
}

#[test]
fn register_twice_is_already_registered() {
    let mut s = fresh();
    assert_eq!(register(&mut s, "100", ADDR_A), Ok(()));
    assert_eq!(register(&mut s, "100", ADDR_B), Err(LedgerErr::AlreadyRegistered));
    // the first registration stands
    let u = s.get_user("100").unwrap();
    assert_eq!(u.address, ADDR_A);
}

#[test]
fn update_changes_address_and_keeps_balance() {
    let mut s = fresh();
    assert_eq!(register(&mut s, "100", ADDR_A), Ok(()));
    assert_eq!(giveme5(&mut s, "100"), Ok(5));
    assert_eq!(update(&mut s, "100", ADDR_B), Ok(()));
    let u = s.get_user("100").unwrap();
    assert_eq!(u.address, ADDR_B);
    assert_eq!(u.balance, 5);
}

#[test]
fn update_rejects_bad_address_without_mutation() {
    let mut s = fresh();
    assert_eq!(register(&mut s, "100", ADDR_A), Ok(()));
    assert_eq!(update(&mut s, "100", "0xnope"), Err(LedgerErr::InvalidAddress));
    let u = s.get_user("100").unwrap();
    assert_eq!(u.address, ADDR_A);
}

#[test]
fn update_unregistered_is_not_registered() {
    let mut s = fresh();
    assert_eq!(update(&mut s, "100", ADDR_A), Err(LedgerErr::NotRegistered));
}

#[test]
fn balance_unregistered_is_not_registered() {
    let s = fresh();
    assert_eq!(balance(&s, "100"), Err(LedgerErr::NotRegistered));
}

#[test]
fn balance_is_idempotent() {
    let mut s = fresh();
    assert_eq!(register(&mut s, "100", ADDR_A), Ok(()));
    assert_eq!(giveme5(&mut s, "100"), Ok(5));
    let b1 = balance(&s, "100").unwrap();
    let b2 = balance(&s, "100").unwrap();
    let b3 = balance(&s, "100").unwrap();
    assert_eq!(b1, 5);
    assert_eq!(b1, b2);
    assert_eq!(b2, b3);
}

#[test]
fn tip_moves_exactly_the_amount() {
    let mut s = fresh();
    assert_eq!(register(&mut s, "100", ADDR_A), Ok(()));
    assert_eq!(register(&mut s, "300", ADDR_B), Ok(()));
    assert_eq!(giveme5(&mut s, "100"), Ok(5));
    let before_sum = balance(&s, "100").unwrap() + balance(&s, "300").unwrap();
    assert_eq!(tip(&mut s, "100", "300", 2), Ok(()));
    let sb = balance(&s, "100").unwrap();
    let rb = balance(&s, "300").unwrap();
    assert_eq!(sb, 3);
    assert_eq!(rb, 2);
    assert_eq!(sb + rb, before_sum);
}

#[test]
fn tip_to_self_fails_and_mutates_nothing() {
    let mut s = fresh();
    assert_eq!(register(&mut s, "100", ADDR_A), Ok(()));
    assert_eq!(giveme5(&mut s, "100"), Ok(5));
    assert_eq!(tip(&mut s, "100", "100", 1), Err(LedgerErr::SelfTip));
    assert_eq!(tip(&mut s, "100", "100", 100), Err(LedgerErr::SelfTip));
    assert_eq!(balance(&s, "100"), Ok(5));
}

#[test]
fn tip_with_insufficient_balance_mutates_nothing() {
    let mut s = fresh();
    assert_eq!(register(&mut s, "100", ADDR_A), Ok(()));
    assert_eq!(register(&mut s, "300", ADDR_B), Ok(()));
    assert_eq!(giveme5(&mut s, "100"), Ok(5));
    assert_eq!(tip(&mut s, "100", "300", 9), Err(LedgerErr::InsufficientBalance));
    assert_eq!(balance(&s, "100"), Ok(5));
    assert_eq!(balance(&s, "300"), Ok(0));
}

#[test]
fn tip_rejects_non_positive_amounts() {
    let mut s = fresh();
    assert_eq!(register(&mut s, "100", ADDR_A), Ok(()));
    assert_eq!(giveme5(&mut s, "100"), Ok(5));
    assert_eq!(tip(&mut s, "100", "300", 0), Err(LedgerErr::InvalidAmount));
    assert_eq!(tip(&mut s, "100", "300", -4), Err(LedgerErr::InvalidAmount));
    assert_eq!(balance(&s, "100"), Ok(5));
    assert_eq!(balance(&s, "300"), Err(LedgerErr::NotRegistered));
}

#[test]
fn tip_from_unregistered_sender_fails() {
    let mut s = fresh();
    assert_eq!(tip(&mut s, "100", "300", 1), Err(LedgerErr::NotRegistered));
}

#[test]
fn tip_auto_creates_recipient_with_empty_address() {
    let mut s = fresh();
    assert_eq!(register(&mut s, "100", ADDR_A), Ok(()));
    assert_eq!(giveme5(&mut s, "100"), Ok(5));
    assert_eq!(tip(&mut s, "100", "200", 3), Ok(()));
    let u = s.get_user("200").unwrap();
    assert_eq!(u.user_id, "200");
    assert_eq!(u.address, "");
    assert_eq!(u.balance, 3);
    assert!(u.is_incomplete());
}

#[test]
fn serialized_tips_never_overdraw_the_sender() {
    // k tips needing n each, against a balance of exactly (k - 1) * n:
    // the store serializes them, at most k - 1 go through, and the
    // sender's balance never goes negative.
    let k = 4;
    let n = 2;
    let mut s = fresh();
    assert_eq!(register(&mut s, "100", ADDR_A), Ok(()));
    s.plus_balance("100", (k - 1) * n).unwrap();
    assert_eq!(balance(&s, "100"), Ok((k - 1) * n));
    let recipients = ["201", "202", "203", "204"];
    let mut successes = 0;
    for r in recipients {
        match tip(&mut s, "100", r, n) {
            Ok(()) => successes += 1,
            Err(e) => assert_eq!(e, LedgerErr::InsufficientBalance),
        }
        assert!(balance(&s, "100").unwrap() >= 0);
    }
    assert_eq!(successes, k - 1);
    assert_eq!(balance(&s, "100"), Ok(0));
}

#[test]
fn faucet_scenario_pays_once() {
    let mut s = fresh();
    assert_eq!(register(&mut s, "100", ADDR_A), Ok(()));
    assert_eq!(balance(&s, "100"), Ok(0));
    assert_eq!(giveme5(&mut s, "100"), Ok(5));
    assert_eq!(balance(&s, "100"), Ok(5));
    assert_eq!(giveme5(&mut s, "100"), Err(LedgerErr::AlreadyFunded(5)));
    assert_eq!(balance(&s, "100"), Ok(5));
}

#[test]
fn faucet_unregistered_is_not_registered() {
    let mut s = fresh();
    assert_eq!(giveme5(&mut s, "100"), Err(LedgerErr::NotRegistered));
}

#[test]
fn tip_scenario_auto_registers_recipient() {
    // user "100" holds 5, tips 3 to the never-registered "200"
    let mut s = fresh();
    assert_eq!(register(&mut s, "100", ADDR_A), Ok(()));
    assert_eq!(giveme5(&mut s, "100"), Ok(5));
    assert_eq!(tip(&mut s, "100", "200", 3), Ok(()));
    assert_eq!(balance(&s, "200"), Ok(3));
    assert_eq!(balance(&s, "100"), Ok(2));
}

#[test]
fn overflowing_credit_is_compensated() {
    let mut s = fresh();
    assert_eq!(register(&mut s, "100", ADDR_A), Ok(()));
    assert_eq!(register(&mut s, "300", ADDR_B), Ok(()));
    assert_eq!(giveme5(&mut s, "100"), Ok(5));
    s.plus_balance("300", i64::MAX).unwrap();
    assert_eq!(tip(&mut s, "100", "300", 3), Err(LedgerErr::TransferFailed));
    // the sender's debit was compensated, the recipient untouched
    assert_eq!(balance(&s, "100"), Ok(5));
    assert_eq!(balance(&s, "300"), Ok(i64::MAX));
}

#[test]
fn add_balance_pays_only_below_threshold() {
    let mut s = fresh();
    assert_eq!(register(&mut s, "100", ADDR_A), Ok(()));
    assert_eq!(add_balance(&mut s, "100"), Ok(()));
    assert_eq!(balance(&s, "100"), Ok(5));
    assert_eq!(add_balance(&mut s, "100"), Ok(()));
    assert_eq!(balance(&s, "100"), Ok(5));
    assert_eq!(add_balance(&mut s, "999"), Err(StoreErr::NotFound));
}

#[test]
fn insert_row_rejects_duplicates() {
    let mut s = fresh();
    s.insert_row("7", ADDR_A, 9).unwrap();
    assert_eq!(s.insert_row("7", ADDR_B, 1), Err(StoreErr::DuplicateUser));
}

#[test]
fn get_user_returns_the_stored_row() {
    let mut s = fresh();
    s.insert_row("7", ADDR_A, 9).unwrap();
    let u = s.get_user("7").unwrap();
    assert_eq!(u.user_id, "7");
    assert_eq!(u.address, ADDR_A);
    assert_eq!(u.balance, 9);
    assert_eq!(s.get_user("8"), Err(StoreErr::NotFound));
}

#[test]
fn plus_and_minus_balance_are_exact() {
    let mut s = fresh();
    s.insert_row("7", ADDR_A, 0).unwrap();
    s.plus_balance("7", 10).unwrap();
    s.minus_balance("7", 4).unwrap();
    assert_eq!(s.get_balance("7"), Ok(6));
    // a missing row is an error, never a silent no-op
    assert_eq!(s.plus_balance("8", 10), Err(StoreErr::NotFound));
    assert_eq!(s.minus_balance("8", 10), Err(StoreErr::NotFound));
    assert_eq!(s.get_balance("8"), Err(StoreErr::NotFound));
}

#[test]
fn update_address_requires_the_row() {
    let mut s = fresh();
    s.insert_row("7", ADDR_A, 0).unwrap();
    assert_eq!(s.update_address("7", ADDR_B), Ok(()));
    assert_eq!(s.get_user("7").unwrap().address, ADDR_B);
    assert_eq!(s.update_address("8", ADDR_B), Err(StoreErr::NotFound));
}

#[test]
fn open_rejects_a_foreign_users_table() {
    let path = "/tmp/seedtip_foreign_schema_test.db";
    let conn = rusqlite::Connection::open(path).unwrap();
    conn.execute("DROP TABLE IF EXISTS users", []).unwrap();
    conn.execute("CREATE TABLE users (user_id TEXT, address TEXT, balance INTEGER)", [])
        .unwrap();
    drop(conn);
    assert_eq!(Store::open(path).err(), Some(StoreErr::StorageFault));
}

#[test]
fn open_rejects_a_foreign_index_on_users() {
    let path = "/tmp/seedtip_foreign_index_test.db";
    let conn = rusqlite::Connection::open(path).unwrap();
    conn.execute("DROP TABLE IF EXISTS users", []).unwrap();
    conn.execute(
        "CREATE TABLE users (numba INTEGER PRIMARY KEY AUTOINCREMENT, user_id TEXT NOT NULL UNIQUE, address TEXT, balance INTEGER)",
        [],
    )
    .unwrap();
    conn.execute("CREATE UNIQUE INDEX users_addr_ix ON users(address)", []).unwrap();
    drop(conn);
    // the table's own statement text is right, but the foreign index
    // would change what the insert statement does
    assert_eq!(Store::open(path).err(), Some(StoreErr::StorageFault));
}

#[test]
fn open_refuses_a_second_store_on_one_file() {
    let path = "/tmp/seedtip_second_store_test.db";
    let conn = rusqlite::Connection::open(path).unwrap();
    conn.execute("DROP TABLE IF EXISTS users", []).unwrap();
    drop(conn);
    let s1 = Store::open(path).unwrap();
    // the first store holds the file exclusively while it lives
    assert_eq!(Store::open(path).err(), Some(StoreErr::StorageFault));
    drop(s1);
    // once it closes, the file opens again
    let s2 = Store::open(path).unwrap();
    assert_eq!(balance(&s2, "100"), Err(LedgerErr::NotRegistered));
}

#[test]
fn open_keeps_its_own_file_across_reopen() {
    let path = "/tmp/seedtip_reopen_test.db";
    let conn = rusqlite::Connection::open(path).unwrap();
    conn.execute("DROP TABLE IF EXISTS users", []).unwrap();
    drop(conn);
    let mut s = Store::open(path).unwrap();
    assert_eq!(register(&mut s, "100", ADDR_A), Ok(()));
    assert_eq!(giveme5(&mut s, "100"), Ok(5));
    drop(s);
    let s2 = Store::open(path).unwrap();
    assert_eq!(balance(&s2, "100"), Ok(5));
    let u = s2.get_user("100").unwrap();
    assert_eq!(u.address, ADDR_A);
}

#[test]
fn is_incomplete_checks_address_and_balance() {
    let full = User { user_id: "1".to_string(), address: ADDR_A.to_string(), balance: 3 };
    assert!(!full.is_incomplete());
    let no_addr = User { user_id: "1".to_string(), address: "".to_string(), balance: 3 };
    assert!(no_addr.is_incomplete());
    let broke = User { user_id: "1".to_string(), address: ADDR_A.to_string(), balance: 0 };
    assert!(broke.is_incomplete());
}

#[test]
fn check_address_accepts_exactly_the_pattern() {
    assert!(check_address(ADDR_A));
    assert!(check_address(ADDR_MIXED));
    assert!(check_address("0x0123456789abcdefABCDEF0123456789abcdefAB"));
    assert!(!check_address(""));
    assert!(!check_address("0x"));
    assert!(!check_address("0xaaaaaaaaaaaaaaaaaaaaaaaaaaaaaaaaaaaaaaa"));
    assert!(!check_address("0xaaaaaaaaaaaaaaaaaaaaaaaaaaaaaaaaaaaaaaaaa"));
    assert!(!check_address("0Xaaaaaaaaaaaaaaaaaaaaaaaaaaaaaaaaaaaaaaaa"));
    assert!(!check_address("0xaaaaaaaaaaaaaaaaaaaaaaaaaaaaaaaaaaaaaaag"));
}
