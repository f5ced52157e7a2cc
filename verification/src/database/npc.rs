use vstd::prelude::*;

use crate::database::DatabaseConnection;
use crate::npc::created_model;

verus! {

/// Create all NPC database tables.
///
/// Runs the same schema statement as `crate::npc::create_tables`: exactly
/// the statement that `crate::npc::npc_names_create_statement` returns, and
/// nothing else. Whether it succeeds is decided by the database; on success
/// the connection's model records that one statement and the table's
/// existence, on failure the model is unchanged and the database error is
/// returned as its message.
pub fn create_tables(connection: &mut DatabaseConnection) -> (r: Result<(), String>)
    ensures
        r is Ok ==> final(connection)@ == created_model(old(connection)@),
        r is Err ==> final(connection)@ == old(connection)@,
{
    crate::npc::create_tables(connection)
}

} // verus!
