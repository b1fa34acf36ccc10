//! The user store: one SQLite table of `(user_id, address, balance)` rows,
//! reached through a `rusqlite` connection that the `Store` owns exclusively.
//!
//! The table is modelled as a `Map` from the user id (a character sequence)
//! to the stored address and balance.  Every operation below is one SQL
//! statement, so each is atomic at the storage layer: a statement either
//! takes full effect or leaves the table unchanged.
//!
//! A store is only ever built over this library's own `users` table: the
//! open path checks, against the database's own schema listing, that the
//! table was created with exactly this library's statement text and that
//! nothing else — no foreign index or trigger — is attached to it, and
//! refuses anything else.  The model also takes the store's connection to
//! be the only way the table is reached while the store lives; a
//! file-backed store enforces that with SQLite's exclusive locking mode,
//! under which a competing connection's access fails as a storage fault.

use vstd::prelude::*;

verus! {

/// The mathematical model of the `users` table: user id to (address, balance).
pub type Table = Map<Seq<char>, (Seq<char>, int)>;

/// Makes rusqlite's `Connection` known to Verus so that it can stand in
/// fields and signatures.  The type stays opaque; what the table behind it
/// holds is spoken of through `db_table` and `db_has_table`.
#[verifier::external_type_specification]
#[verifier::external_body]
pub struct ExConnection(rusqlite::Connection);

/// The rows of the `users` table behind a connection, keyed by user id.
/// Each user id maps to the pair (address, balance).  Meaningful only while
/// `db_has_table` holds of the same connection.
pub uninterp spec fn db_table(conn: rusqlite::Connection) -> Table;

/// Whether the database behind the connection holds this library's own
/// `users` table: one created with exactly the schema text below — so
/// that in particular `user_id` carries the UNIQUE constraint the
/// contracts rely on — and carrying nothing beyond the table and its
/// automatic UNIQUE index, so no foreign index or trigger can change
/// what the statement wrappers do.
pub uninterp spec fn db_has_table(conn: rusqlite::Connection) -> bool;

/// The empty table.
pub open spec fn empty_table() -> Table {
    Map::empty()
}

/// The text of the statement that creates the `users` table.  SQLite keeps
/// each table's creating statement text in its schema table, so this text
/// is also how an existing table is recognized as this library's own.
pub open spec fn users_schema_text() -> Seq<char> {
    "CREATE TABLE users (numba INTEGER PRIMARY KEY AUTOINCREMENT, user_id TEXT NOT NULL UNIQUE, address TEXT, balance INTEGER)"@
}

/// How a store operation fails.  `DuplicateUser` and `NotFound` report a
/// row-level conflict; `StorageFault` stands for any underlying database
/// error, which can strike any operation.
#[derive(Clone, Copy, Debug, PartialEq, Eq, Structural)]
pub enum StoreErr {
    DuplicateUser,
    NotFound,
    StorageFault,
}

/// One row of the `users` table as handed to callers.
#[derive(Clone, Debug, PartialEq, Eq)]
pub struct User {
    pub user_id: String,
    pub address: String,
    pub balance: i64,
}

impl User {
    /// A user who has not provided an address, or holds no balance, is
    /// incomplete: such a row was created implicitly (as a tip recipient)
    /// or has not been funded yet.
    pub fn is_incomplete(&self) -> (r: bool)
        ensures
            r == (self.address@.len() == 0 || self.balance == 0),
    {
        self.address.as_str().is_empty() || self.balance == 0
    }
}

/// Decides whether the `users` table is this library's own: created with
/// exactly the given statement text (which must be the schema text) and
/// carrying nothing beyond the table and its automatic UNIQUE index.
///
/// Relies on rusqlite's `Connection::query_row` over `sqlite_master`,
/// which lists every table, index, trigger and view together with the
/// table it belongs to (`tbl_name`) and its creating statement text
/// (`sql`); names starting with `sqlite_` are reserved for SQLite's own
/// entries, so the one admitted index can only be the table's automatic
/// UNIQUE index.
#[verifier::external_body]
fn users_table_is_own(conn: &rusqlite::Connection, sql: &str) -> (r: Result<bool, StoreErr>)
    requires
        sql@ == users_schema_text(),
    ensures
        r matches Ok(b) ==> b == db_has_table(*conn),
        r matches Err(e) ==> e == StoreErr::StorageFault,
{
    let stmt = "SELECT EXISTS(SELECT 1 FROM sqlite_master \
            WHERE type = 'table' AND name = 'users' AND sql = ?1) \
        AND NOT EXISTS(SELECT 1 FROM sqlite_master \
            WHERE tbl_name = 'users' AND name <> 'users' AND name <> 'sqlite_autoindex_users_1')";
    match conn.query_row(stmt, (sql,), |row| row.get(0)) {
        Ok(b) => Ok(b),
        Err(_) => Err(StoreErr::StorageFault),
    }
}

/// Puts the connection into SQLite's exclusive locking mode: from its next
/// access on, this connection keeps its file lock until it closes, so a
/// competing connection's write — which would fall outside the table
/// model — fails as a storage fault instead of going unnoticed.
///
/// Relies on rusqlite's `Connection::query_row` running the
/// `locking_mode` pragma, which changes how the database file is locked,
/// returns the new mode, and touches no table.
#[verifier::external_body]
fn set_exclusive_locking(conn: &mut rusqlite::Connection) -> (r: Result<(), StoreErr>)
    ensures
        db_has_table(*final(conn)) == db_has_table(*old(conn)),
        db_table(*final(conn)) == db_table(*old(conn)),
        r matches Err(e) ==> e == StoreErr::StorageFault,
{
    let stmt = "PRAGMA locking_mode = EXCLUSIVE";
    match conn.query_row(stmt, [], |row| row.get::<usize, String>(0)) {
        Ok(_) => Ok(()),
        Err(_) => Err(StoreErr::StorageFault),
    }
}

/// Runs the given CREATE statement, which must be this library's `users`
/// schema text.
///
/// Relies on rusqlite's `Connection::execute`: a plain `CREATE TABLE`
/// fails whenever any table named `users` already exists, whatever its
/// shape, and on success the newly created table is empty and carries
/// nothing but its automatic UNIQUE index.
#[verifier::external_body]
fn create_users_table(conn: &mut rusqlite::Connection, sql: &str) -> (r: Result<(), StoreErr>)
    requires
        sql@ == users_schema_text(),
    ensures
        r is Ok ==> !db_has_table(*old(conn)) && db_has_table(*final(conn)) && db_table(
            *final(conn),
        ) == empty_table(),
        r is Err ==> db_has_table(*final(conn)) == db_has_table(*old(conn)) && db_table(
            *final(conn),
        ) == db_table(*old(conn)),
        r matches Err(e) ==> e == StoreErr::StorageFault,
{
    match conn.execute(sql, []) {
        Ok(_) => Ok(()),
        Err(_) => Err(StoreErr::StorageFault),
    }
}

/// Makes sure the `users` table exists and is this library's own: an
/// existing table is checked — creating statement text and attached
/// objects both — and kept with its rows, a missing one is created
/// empty, and a table of any other shape, or one carrying a foreign
/// index or trigger, is refused as a storage fault.
pub fn create_table(conn: &mut rusqlite::Connection) -> (r: Result<(), StoreErr>)
    ensures
        r is Ok ==> db_has_table(*final(conn)),
        (r is Ok && db_has_table(*old(conn))) ==> db_table(*final(conn)) == db_table(*old(conn)),
        (r is Ok && !db_has_table(*old(conn))) ==> db_table(*final(conn)) == empty_table(),
        r is Err ==> db_has_table(*final(conn)) == db_has_table(*old(conn)) && db_table(
            *final(conn),
        ) == db_table(*old(conn)),
        r matches Err(e) ==> e == StoreErr::StorageFault,
{
    let schema =
        "CREATE TABLE users (numba INTEGER PRIMARY KEY AUTOINCREMENT, user_id TEXT NOT NULL UNIQUE, address TEXT, balance INTEGER)";
    match users_table_is_own(conn, schema) {
        Ok(true) => Ok(()),
        // no `users` table at all (objects cannot outlive their table, so
        // the CREATE below succeeds and makes it this library's own), or a
        // foreign one (the CREATE below fails on the existing table)
        Ok(false) => create_users_table(conn, schema),
        Err(e) => Err(e),
    }
}

/// Relies on rusqlite's `Connection::open_in_memory`: a fresh in-memory
/// database starts with no tables at all.
#[verifier::external_body]
fn conn_open_in_memory() -> (r: Result<rusqlite::Connection, StoreErr>)
    ensures
        r matches Ok(c) ==> !db_has_table(c),
        r matches Err(e) ==> e == StoreErr::StorageFault,
{
    match rusqlite::Connection::open_in_memory() {
        Ok(c) => Ok(c),
        Err(_) => Err(StoreErr::StorageFault),
    }
}

/// Relies on rusqlite's `Connection::open`: the database file is created
/// when absent, and an existing file comes up with whatever tables and rows
/// it holds, so nothing is stated of the contents.
#[verifier::external_body]
fn conn_open(path: &str) -> (r: Result<rusqlite::Connection, StoreErr>)
    ensures
        r matches Err(e) ==> e == StoreErr::StorageFault,
{
    match rusqlite::Connection::open(path) {
        Ok(c) => Ok(c),
        Err(_) => Err(StoreErr::StorageFault),
    }
}

/// The store: exclusive owner of one database connection.  All access to
/// the `users` table goes through its methods, each a single atomic SQL
/// statement; holding the store by `&mut` for a whole multi-step operation
/// is what keeps such an operation free of interleaving.
pub struct Store {
    conn: rusqlite::Connection,
}

impl View for Store {
    type V = Table;

    closed spec fn view(&self) -> Table {
        db_table(self.conn)
    }
}

impl Store {
    /// A store is well formed once this library's `users` table exists.
    pub closed spec fn wf(&self) -> bool {
        db_has_table(self.conn)
    }

    /// Opens a fresh in-memory store: well formed and empty.
    pub fn open_in_memory() -> (r: Result<Store, StoreErr>)
        ensures
            r matches Ok(s) ==> s.wf() && s@ == empty_table(),
            r matches Err(e) ==> e == StoreErr::StorageFault,
    {
        let mut c = match conn_open_in_memory() {
            Ok(c) => c,
            Err(e) => {
                return Err(e);
            },
        };
        match create_table(&mut c) {
            Ok(_) => Ok(Store { conn: c }),
            Err(e) => Err(e),
        }
    }

    /// Opens (creating it if needed) the database file at `path` and makes
    /// sure the `users` table exists and is this library's own.  A file
    /// holding a `users` table of another shape, or one with foreign
    /// objects attached, is refused; a file this library wrote keeps its
    /// rows, so nothing is promised of the contents.  The connection
    /// takes the file in exclusive locking mode: the store is the only
    /// way to the table while it lives, and a second store on the same
    /// file fails as a storage fault as soon as the two touch it.
    pub fn open(path: &str) -> (r: Result<Store, StoreErr>)
        ensures
            r matches Ok(s) ==> s.wf(),
            r matches Err(e) ==> e == StoreErr::StorageFault,
    {
        let mut c = match conn_open(path) {
            Ok(c) => c,
            Err(e) => {
                return Err(e);
            },
        };
        match set_exclusive_locking(&mut c) {
            Ok(_) => {},
            Err(e) => {
                return Err(e);
            },
        }
        match create_table(&mut c) {
            Ok(_) => Ok(Store { conn: c }),
            Err(e) => Err(e),
        }
    }

    /// Creates the row for `user_id`; a second row for the same id is
    /// rejected.
    ///
    /// Relies on rusqlite's `Connection::execute` running one `INSERT`: the
    /// UNIQUE constraint on `user_id` rejects a duplicate (the statement's
    /// only constraint that string parameters can break), and a failed
    /// statement leaves the table unchanged.
    #[verifier::external_body]
    pub fn insert_row(&mut self, user_id: &str, address: &str, balance: i64) -> (r: Result<(), StoreErr>)
        requires
            old(self).wf(),
        ensures
            final(self).wf(),
            r is Ok ==> !old(self)@.contains_key(user_id@) && final(self)@
                == old(self)@.insert(user_id@, (address@, balance as int)),
            r is Err ==> final(self)@ == old(self)@,
            old(self)@.contains_key(user_id@) ==> r is Err,
            (r matches Err(e) && e == StoreErr::DuplicateUser) ==> old(self)@.contains_key(user_id@),
            r matches Err(e) ==> e == StoreErr::DuplicateUser || e == StoreErr::StorageFault,
    {
        let stmt = "INSERT INTO users (user_id, address, balance) VALUES (?1, ?2, ?3)";
        match self.conn.execute(stmt, (user_id, address, balance)) {
            Ok(_) => Ok(()),
            Err(e) => {
                if e.sqlite_error_code() == Some(rusqlite::ErrorCode::ConstraintViolation) {
                    Err(StoreErr::DuplicateUser)
                } else {
                    Err(StoreErr::StorageFault)
                }
            },
        }
    }

    /// Reads the row for `user_id`.
    ///
    /// Relies on rusqlite's `Connection::query_row` running one `SELECT`:
    /// it returns the matching row's columns, and `QueryReturnedNoRows`
    /// exactly when no row matches.
    #[verifier::external_body]
    pub fn get_user(&self, user_id: &str) -> (r: Result<User, StoreErr>)
        requires
            self.wf(),
        ensures
            r matches Ok(u) ==> self@.contains_key(user_id@) && u.user_id@ == user_id@
                && u.address@ == self@[user_id@].0 && u.balance as int == self@[user_id@].1,
            (r matches Err(e) && e == StoreErr::NotFound) ==> !self@.contains_key(user_id@),
            r matches Err(e) ==> e == StoreErr::NotFound || e == StoreErr::StorageFault,
    {
        let stmt = "SELECT user_id, address, balance FROM users WHERE user_id = ?1";
        let mapped = self.conn.query_row(
            stmt,
            (user_id,),
            |row| Ok(User { user_id: row.get(0)?, address: row.get(1)?, balance: row.get(2)? }),
        );
        match mapped {
            Ok(u) => Ok(u),
            Err(rusqlite::Error::QueryReturnedNoRows) => Err(StoreErr::NotFound),
            Err(_) => Err(StoreErr::StorageFault),
        }
    }

    /// Reads only the balance of the row for `user_id`.
    ///
    /// Relies on rusqlite's `Connection::query_row` as `get_user` does.
    #[verifier::external_body]
    pub fn get_balance(&self, user_id: &str) -> (r: Result<i64, StoreErr>)
        requires
            self.wf(),
        ensures
            r matches Ok(b) ==> self@.contains_key(user_id@) && b as int == self@[user_id@].1,
            (r matches Err(e) && e == StoreErr::NotFound) ==> !self@.contains_key(user_id@),
            r matches Err(e) ==> e == StoreErr::NotFound || e == StoreErr::StorageFault,
    {
        let stmt = "SELECT balance FROM users WHERE user_id = ?1";
        match self.conn.query_row(stmt, (user_id,), |row| row.get(0)) {
            Ok(b) => Ok(b),
            Err(rusqlite::Error::QueryReturnedNoRows) => Err(StoreErr::NotFound),
            Err(_) => Err(StoreErr::StorageFault),
        }
    }

    /// Runs the UPDATE that overwrites the address of `user_id` and
    /// reports how many rows matched: 1 when the row exists, 0 when it
    /// does not (`user_id` is unique).
    ///
    /// Relies on rusqlite's `Connection::execute` running one `UPDATE`: it
    /// returns the number of rows changed, and a failed statement leaves
    /// the table unchanged.
    #[verifier::external_body]
    fn update_address_count(&mut self, user_id: &str, address: &str) -> (r: Result<usize, StoreErr>)
        requires
            old(self).wf(),
        ensures
            final(self).wf(),
            r matches Ok(n) ==> ((old(self)@.contains_key(user_id@) ==> n == 1 && final(self)@
                == old(self)@.insert(user_id@, (address@, old(self)@[user_id@].1)))
                && (!old(self)@.contains_key(user_id@) ==> n == 0 && final(self)@ == old(self)@)),
            r is Err ==> final(self)@ == old(self)@,
            r matches Err(e) ==> e == StoreErr::StorageFault,
    {
        let stmt = "UPDATE users SET address = ?2 WHERE user_id = ?1";
        match self.conn.execute(stmt, (user_id, address)) {
            Ok(n) => Ok(n),
            Err(_) => Err(StoreErr::StorageFault),
        }
    }

    /// Overwrites the address of the row for `user_id`; the balance is
    /// untouched, and a missing row fails with `NotFound`.
    pub fn update_address(&mut self, user_id: &str, address: &str) -> (r: Result<(), StoreErr>)
        requires
            old(self).wf(),
        ensures
            final(self).wf(),
            r is Ok ==> old(self)@.contains_key(user_id@) && final(self)@
                == old(self)@.insert(user_id@, (address@, old(self)@[user_id@].1)),
            (r matches Err(e) && e == StoreErr::NotFound) ==> !old(self)@.contains_key(user_id@),
            r is Err ==> final(self)@ == old(self)@,
            r matches Err(e) ==> e == StoreErr::NotFound || e == StoreErr::StorageFault,
            old(self)@.contains_key(user_id@) ==> (r is Ok || (r matches Err(e) && e
                == StoreErr::StorageFault)),
    {
        match self.update_address_count(user_id, address) {
            Ok(n) => {
                if n == 0 {
                    Err(StoreErr::NotFound)
                } else {
                    Ok(())
                }
            },
            Err(e) => Err(e),
        }
    }

    /// Runs the UPDATE that adds `amount` to the balance of `user_id` in
    /// one atomic statement and reports how many rows matched.
    ///
    /// Relies on rusqlite's `Connection::execute` running one `UPDATE`
    /// with `balance = balance + ?`: the read-modify-write happens inside
    /// the statement, the changed-row count comes back, and a failed
    /// statement leaves the table unchanged.  The sum must fit in an
    /// `i64`, SQLite's integer type.
    #[verifier::external_body]
    fn plus_balance_count(&mut self, user_id: &str, amount: i64) -> (r: Result<usize, StoreErr>)
        requires
            old(self).wf(),
            old(self)@.contains_key(user_id@) ==> i64::MIN <= old(self)@[user_id@].1 + amount
                <= i64::MAX,
        ensures
            final(self).wf(),
            r matches Ok(n) ==> ((old(self)@.contains_key(user_id@) ==> n == 1 && final(self)@
                == old(self)@.insert(user_id@, (old(self)@[user_id@].0, old(self)@[user_id@].1 + amount)))
                && (!old(self)@.contains_key(user_id@) ==> n == 0 && final(self)@ == old(self)@)),
            r is Err ==> final(self)@ == old(self)@,
            r matches Err(e) ==> e == StoreErr::StorageFault,
    {
        let stmt = "UPDATE users SET balance = balance + ?1 WHERE user_id = ?2";
        match self.conn.execute(stmt, (amount, user_id)) {
            Ok(n) => Ok(n),
            Err(_) => Err(StoreErr::StorageFault),
        }
    }

    /// Runs the UPDATE that subtracts `amount` from the balance of
    /// `user_id` in one atomic statement and reports how many rows
    /// matched.
    ///
    /// Relies on rusqlite's `Connection::execute` exactly as
    /// `plus_balance_count` does, with `balance = balance - ?`.
    #[verifier::external_body]
    fn minus_balance_count(&mut self, user_id: &str, amount: i64) -> (r: Result<usize, StoreErr>)
        requires
            old(self).wf(),
            old(self)@.contains_key(user_id@) ==> i64::MIN <= old(self)@[user_id@].1 - amount
                <= i64::MAX,
        ensures
            final(self).wf(),
            r matches Ok(n) ==> ((old(self)@.contains_key(user_id@) ==> n == 1 && final(self)@
                == old(self)@.insert(user_id@, (old(self)@[user_id@].0, old(self)@[user_id@].1 - amount)))
                && (!old(self)@.contains_key(user_id@) ==> n == 0 && final(self)@ == old(self)@)),
            r is Err ==> final(self)@ == old(self)@,
            r matches Err(e) ==> e == StoreErr::StorageFault,
    {
        let stmt = "UPDATE users SET balance = balance - ?1 WHERE user_id = ?2";
        match self.conn.execute(stmt, (amount, user_id)) {
            Ok(n) => Ok(n),
            Err(_) => Err(StoreErr::StorageFault),
        }
    }

    /// Adds `amount` (a delta, positive or negative through the paired
    /// method) to the stored balance of `user_id` atomically; a missing
    /// row fails with `NotFound`.
    pub fn plus_balance(&mut self, user_id: &str, amount: i64) -> (r: Result<(), StoreErr>)
        requires
            old(self).wf(),
            old(self)@.contains_key(user_id@) ==> i64::MIN <= old(self)@[user_id@].1 + amount
                <= i64::MAX,
        ensures
            final(self).wf(),
            r is Ok ==> old(self)@.contains_key(user_id@) && final(self)@
                == old(self)@.insert(user_id@, (old(self)@[user_id@].0, old(self)@[user_id@].1 + amount)),
            (r matches Err(e) && e == StoreErr::NotFound) ==> !old(self)@.contains_key(user_id@),
            r is Err ==> final(self)@ == old(self)@,
            r matches Err(e) ==> e == StoreErr::NotFound || e == StoreErr::StorageFault,
            old(self)@.contains_key(user_id@) ==> (r is Ok || (r matches Err(e) && e
                == StoreErr::StorageFault)),
    {
        match self.plus_balance_count(user_id, amount) {
            Ok(n) => {
                if n == 0 {
                    Err(StoreErr::NotFound)
                } else {
                    Ok(())
                }
            },
            Err(e) => Err(e),
        }
    }

    /// Subtracts `amount` from the stored balance of `user_id` atomically;
    /// a missing row fails with `NotFound`.
    pub fn minus_balance(&mut self, user_id: &str, amount: i64) -> (r: Result<(), StoreErr>)
        requires
            old(self).wf(),
            old(self)@.contains_key(user_id@) ==> i64::MIN <= old(self)@[user_id@].1 - amount
                <= i64::MAX,
        ensures
            final(self).wf(),
            r is Ok ==> old(self)@.contains_key(user_id@) && final(self)@
                == old(self)@.insert(user_id@, (old(self)@[user_id@].0, old(self)@[user_id@].1 - amount)),
            (r matches Err(e) && e == StoreErr::NotFound) ==> !old(self)@.contains_key(user_id@),
            r is Err ==> final(self)@ == old(self)@,
            r matches Err(e) ==> e == StoreErr::NotFound || e == StoreErr::StorageFault,
            old(self)@.contains_key(user_id@) ==> (r is Ok || (r matches Err(e) && e
                == StoreErr::StorageFault)),
    {
        match self.minus_balance_count(user_id, amount) {
            Ok(n) => {
                if n == 0 {
                    Err(StoreErr::NotFound)
                } else {
                    Ok(())
                }
            },
            Err(e) => Err(e),
        }
    }
}

} // verus!
