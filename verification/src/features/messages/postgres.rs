//! Messages read back from their rows.

use vstd::prelude::*;

use super::output::{Message, MessageType, PortError};

verus! {

/// The database adapter of messages; `P` is the connection pool.
pub struct PostgresAdapter<P> {
    pub pool: P,
}

impl<P> PostgresAdapter<P> {
    pub fn new(pool: P) -> (r: Self)
        ensures
            r.pool == pool,
    {
        Self { pool }
    }
}

/// Why a database operation on messages failed.
pub enum LocalError {
    /// The database failed, with its message.
    Sqlx(String),
    /// A row's message type names no type; the text is the type's.
    UnknownType(String),
}

impl LocalError {
    /// An internal port error with the failure's message.
    pub fn into_port_error(self) -> (r: PortError)
        ensures
            self matches LocalError::Sqlx(m) ==> r == PortError::Internal(m),
            self matches LocalError::UnknownType(t) ==> (r matches PortError::Internal(m) && m@
                == "Matching variant not found"@),
    {
        match self {
            LocalError::Sqlx(m) => PortError::Internal(m),
            LocalError::UnknownType(_) => PortError::Internal(String::from_str("Matching variant not found")),
        }
    }
}

/// A message row.
pub struct MessageDbRow {
    pub id: u128,
    pub sender_id: u128,
    pub receiver_id: u128,
    pub message_type: String,
    pub content: String,
    pub created_at: i64,
}

/// `m` is what `row` reads as, with type `t`.
pub open spec fn message_of_row(m: Message, row: MessageDbRow, t: MessageType) -> bool {
    &&& m.id == row.id
    &&& m.sender_id == row.sender_id
    &&& m.receiver_id == row.receiver_id
    &&& m.message_type == t
    &&& m.content == row.content
    &&& m.created_at == row.created_at
}

/// A message read from a row is the row's message: from the row's sender to
/// the row's receiver, with the row's id, content and time.
pub proof fn lemma_row_read_keeps_its_parties(m: Message, row: MessageDbRow, t: MessageType)
    requires
        message_of_row(m, row, t),
    ensures
        m.sender_id == row.sender_id,
        m.receiver_id == row.receiver_id,
        m.id == row.id,
        m.content@ == row.content@,
        m.created_at == row.created_at,
{
}

impl Message {
    /// A message read from its row; it fails when the type names no type.
    pub fn from_row(row: MessageDbRow) -> (r: Result<Message, LocalError>)
        ensures
            MessageType::parse_spec(row.message_type@) is None ==> (r matches Err(LocalError::UnknownType(t))
                && t == row.message_type),
            MessageType::parse_spec(row.message_type@) matches Some(t) ==> (r matches Ok(m)
                && message_of_row(m, row, t)),
            r matches Ok(m) ==> m.sender_id == row.sender_id && m.receiver_id == row.receiver_id && m.id
                == row.id && m.content@ == row.content@ && m.created_at == row.created_at
                && MessageType::parse_spec(row.message_type@) == Some(m.message_type),
    {
        match MessageType::parse(&row.message_type) {
            None => Err(LocalError::UnknownType(row.message_type)),
            Some(t) => Ok(
                Message {
                    id: row.id,
                    sender_id: row.sender_id,
                    receiver_id: row.receiver_id,
                    message_type: t,
                    content: row.content,
                    created_at: row.created_at,
                },
            ),
        }
    }
}

} // verus!
