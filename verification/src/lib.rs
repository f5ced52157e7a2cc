//! A small persistence helper for game content: it opens a SQLite database
//! and keeps records of non-player-character (NPC) names in a fixed schema.

/// Database connections: opening a handle from an explicit connection
/// string, or resolving one looked up from the environment.
pub mod database;

/// NPC name records: the `Name` data type, the `npc_names` schema, and
/// inserting records into it.
pub mod npc;
