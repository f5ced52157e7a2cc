use vstd::prelude::*;

use crate::database::{error_message, DatabaseConnection, DatabaseModel};

verus! {

/// An instance of a name is represented here.
///
/// A first name is considered a different instance than a last name; the
/// `position` field tells the two apart.
#[derive(Debug, Clone)]
pub struct Name {
    pub name: String,
    pub gender: String,
    pub origin: String,
    pub position: i32,
    pub race: String,
}

/// A name record as the database model holds it: the five column values of
/// one `npc_names` row.
pub struct NameRecord {
    pub name: Seq<char>,
    pub position: int,
    pub origin: Seq<char>,
    pub race: Seq<char>,
    pub gender: Seq<char>,
}

impl View for Name {
    type V = NameRecord;

    open spec fn view(&self) -> NameRecord {
        NameRecord {
            name: self.name@,
            position: self.position as int,
            origin: self.origin@,
            race: self.race@,
            gender: self.gender@,
        }
    }
}

impl Name {
    /// Returns a name record holding exactly the values given, field by
    /// field.
    pub fn new(name: &str, position: i32, origin: &str, race: &str, gender: &str) -> (r: Name)
        ensures
            r.name@ == name@,
            r.position == position,
            r.origin@ == origin@,
            r.race@ == race@,
            r.gender@ == gender@,
    {
        Name {
            name: String::from_str(name),
            position: position,
            origin: String::from_str(origin),
            race: String::from_str(race),
            gender: String::from_str(gender),
        }
    }
}

/// The one statement of the schema: it creates the `npc_names` table, with
/// an integer primary key and the five record columns, all `NOT NULL`.
pub open spec fn npc_names_create_sql() -> Seq<char> {
    "CREATE TABLE npc_names ( id INTEGER PRIMARY KEY, name VARCHAR NOT NULL, position INTEGER NOT NULL, origin VARCHAR NOT NULL, race VARCHAR NOT NULL, gender VARCHAR NOT NULL);"@
}

/// The statement that inserts one record: the five record columns, bound to
/// parameters ?1 through ?5 in the order name, position, origin, race,
/// gender.
pub open spec fn npc_names_insert_sql() -> Seq<char> {
    "INSERT INTO npc_names (name, position, origin, race, gender) VALUES (?1, ?2, ?3, ?4, ?5);"@
}

/// The model after the `npc_names` table was created on a connection whose
/// model was `m`: the creating statement is recorded and the table exists;
/// creating a table inserts no rows.
pub open spec fn created_model(m: DatabaseModel) -> DatabaseModel {
    DatabaseModel {
        statements: m.statements.push(npc_names_create_sql()),
        npc_names_created: true,
        npc_names_rows: m.npc_names_rows,
    }
}

/// The model after the record `r` was inserted into `npc_names` on a
/// connection whose model was `m`: the inserting statement is recorded and
/// the rows gained exactly that record.
pub open spec fn inserted_model(m: DatabaseModel, r: NameRecord) -> DatabaseModel {
    DatabaseModel {
        statements: m.statements.push(npc_names_insert_sql()),
        npc_names_created: m.npc_names_created,
        npc_names_rows: m.npc_names_rows.push(r),
    }
}

/// The DDL statement run by `create_tables`, exactly as the schema fixes it.
pub fn npc_names_create_statement() -> (s: &'static str)
    ensures
        s@ == npc_names_create_sql(),
{
    "CREATE TABLE npc_names ( id INTEGER PRIMARY KEY, name VARCHAR NOT NULL, position INTEGER NOT NULL, origin VARCHAR NOT NULL, race VARCHAR NOT NULL, gender VARCHAR NOT NULL);"
}

/// The INSERT statement run by `add_name`, exactly as the schema fixes it.
pub fn npc_names_insert_statement() -> (s: &'static str)
    ensures
        s@ == npc_names_insert_sql(),
{
    "INSERT INTO npc_names (name, position, origin, race, gender) VALUES (?1, ?2, ?3, ?4, ?5);"
}

/// Relies on rusqlite::Connection::execute: prepares and runs the given SQL
/// statement — here always the one that creates the `npc_names` table —
/// with no parameters, and returns `Err` when the underlying SQLite call
/// fails. On success the table exists and the model records the statement;
/// a refused statement (for one, when the table already exists) leaves the
/// database, and so the model, as it was.
#[verifier::external_body]
fn execute_create(connection: &mut DatabaseConnection, sql: &str) -> (r: Result<usize, rusqlite::Error>)
    requires
        sql@ == npc_names_create_sql(),
    ensures
        r is Ok ==> final(connection)@ == created_model(old(connection)@),
        r is Err ==> final(connection)@ == old(connection)@,
{
    connection.inner.execute(sql, ())
}

/// Relies on rusqlite::Connection::execute: prepares the given SQL
/// statement — here always the one that inserts a record into `npc_names` —
/// binds the five fields of the record to its parameters ?1 through ?5 in
/// the order name, position, origin, race, gender, runs it, and returns
/// `Err` when the underlying SQLite call fails. On success the rows gained
/// exactly that record and the model records the statement; a refused
/// statement (for one, when the table has not been created) leaves the
/// database, and so the model, as it was.
#[verifier::external_body]
fn execute_insert_name(connection: &mut DatabaseConnection, sql: &str, name: &Name) -> (r: Result<usize, rusqlite::Error>)
    requires
        sql@ == npc_names_insert_sql(),
    ensures
        r is Ok ==> final(connection)@ == inserted_model(old(connection)@, name@),
        r is Err ==> final(connection)@ == old(connection)@,
{
    connection.inner.execute(sql, (&name.name, name.position, &name.origin, &name.race, &name.gender))
}

/// Create all NPC database tables.
///
/// Runs exactly the statement `npc_names_create_statement` returns, and
/// nothing else. Whether it succeeds is decided by the database (it fails,
/// for one, when the table already exists); on success the connection's
/// model records that one statement and the table's existence, on failure
/// the model is unchanged and the database error is returned as its
/// message.
pub fn create_tables(connection: &mut DatabaseConnection) -> (r: Result<(), String>)
    ensures
        r is Ok ==> final(connection)@ == created_model(old(connection)@),
        r is Err ==> final(connection)@ == old(connection)@,
{
    let statement = npc_names_create_statement();
    match execute_create(connection, statement) {
        Ok(_) => Ok(()),
        Err(err) => Err(error_message(&err)),
    }
}

/// Add a NPC name record to the database.
///
/// Runs exactly the statement `npc_names_insert_statement` returns, and
/// nothing else, with the record's fields bound in the order name,
/// position, origin, race, gender. Whether it succeeds is decided by the
/// database (it fails, for one, when the table has not been created); on
/// success the connection's model records that one statement and gains
/// exactly the given record, on failure the model is unchanged and the
/// database error is returned as its message.
pub fn add_name(connection: &mut DatabaseConnection, name: Name) -> (r: Result<(), String>)
    ensures
        r is Ok ==> final(connection)@ == inserted_model(old(connection)@, name@),
        r is Err ==> final(connection)@ == old(connection)@,
{
    let statement = npc_names_insert_statement();
    match execute_insert_name(connection, statement, &name) {
        Ok(_) => Ok(()),
        Err(err) => Err(error_message(&err)),
    }
}

} // verus!
