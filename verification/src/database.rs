use vstd::prelude::*;

use crate::npc::NameRecord;

pub mod npc;

verus! {

#[verifier::external_type_specification]
#[verifier::external_body]
pub struct ExConnection(rusqlite::Connection);

#[verifier::external_type_specification]
#[verifier::external_body]
pub struct ExError(rusqlite::Error);

/// What a connection has been told to do through this library's own
/// operations: the texts of the statements the database has executed, and
/// what those statements did to the `npc_names` table. A handle taken back
/// with `DatabaseConnection::into_inner` leaves the model behind: whatever
/// is issued through it afterwards is not recorded here.
pub struct DatabaseModel {
    /// The texts of the statements the database has executed through this
    /// connection, oldest first. A statement the database refused is not
    /// recorded.
    pub statements: Seq<Seq<char>>,
    /// Whether the `npc_names` table was created through this connection.
    pub npc_names_created: bool,
    /// The records inserted into `npc_names` through this connection,
    /// oldest first.
    pub npc_names_rows: Seq<NameRecord>,
}

impl DatabaseModel {
    /// The model of a connection through which nothing has been executed
    /// yet.
    pub open spec fn init() -> DatabaseModel {
        DatabaseModel {
            statements: Seq::<Seq<char>>::empty(),
            npc_names_created: false,
            npc_names_rows: Seq::<NameRecord>::empty(),
        }
    }
}

/// A handle to an embedded SQLite database, either file-backed or
/// in-memory. Its view is the `DatabaseModel` of what has been executed
/// through it.
pub struct DatabaseConnection {
    pub(crate) inner: rusqlite::Connection,
    pub(crate) model: Ghost<DatabaseModel>,
}

impl View for DatabaseConnection {
    type V = DatabaseModel;

    closed spec fn view(&self) -> DatabaseModel {
        self.model@
    }
}

impl DatabaseConnection {
    /// Hands back the raw database handle, leaving the model behind: what
    /// is executed through the raw handle from here on is not recorded
    /// anywhere.
    pub fn into_inner(self) -> rusqlite::Connection {
        self.inner
    }
}

/// Relies on rusqlite::Connection::open: opens the database at the given
/// path, creating the file when none exists there; the path ":memory:"
/// opens a fresh in-memory database. Returns `Err` when the underlying
/// SQLite open call fails.
#[verifier::external_body]
fn open_connection(database_url: &str) -> (r: Result<rusqlite::Connection, rusqlite::Error>) {
    rusqlite::Connection::open(database_url)
}

/// Relies on the `Display` implementation of rusqlite::Error: renders the
/// error as a human-readable message.
#[verifier::external_body]
pub(crate) fn error_message(err: &rusqlite::Error) -> (r: String) {
    err.to_string()
}

/// Connects to a SQLite database using the given connection string.
///
/// Whether the open succeeds is decided by SQLite against the machine's
/// state; on failure the database error is returned as its message. A
/// connection that opens has executed nothing yet, so it carries the
/// initial model.
pub fn manual_connect(database_url: String) -> (r: Result<DatabaseConnection, String>)
    ensures
        r matches Ok(c) ==> c@ == DatabaseModel::init(),
{
    match open_connection(database_url.as_str()) {
        Ok(inner) => Ok(DatabaseConnection { inner, model: Ghost(DatabaseModel::init()) }),
        Err(err) => Err(error_message(&err)),
    }
}

/// Connects to a SQLite database from the outcome of an environment lookup
/// of the connection string: a found string is opened as `manual_connect`
/// does, and a failed lookup is reported back as its own message.
pub fn connect_with(database_url: Result<String, String>) -> (r: Result<DatabaseConnection, String>)
    ensures
        database_url matches Err(message) ==> r matches Err(m) && m@ == message@,
        r matches Ok(c) ==> c@ == DatabaseModel::init(),
{
    match database_url {
        Ok(url) => manual_connect(url),
        Err(message) => Err(message),
    }
}

} // verus!
