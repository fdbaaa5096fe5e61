//! Users and friend requests read back from their rows, and the database
//! failures the friendship port reports.

use vstd::prelude::*;

use super::output::{ConflictError, FriendRequest, FriendRequestStatus, LastMessage, PortError, UserSummary};

verus! {

/// The database adapter of friendships; `P` is the connection pool.
pub struct PostgresAdapter<P> {
    pub pool: P,
}

impl<P> PostgresAdapter<P> {
    pub fn new(pool: P) -> (r: Self)
        ensures
            r.pool == pool,
    {
        Self { pool }
    }
}

/// The database's error code of a unique violation.
pub open spec fn unique_violation_code() -> Seq<char> {
    "23505"@
}

/// Whether a database error, by its code, is a unique violation: an
/// existing request between the same users.
pub fn is_unique_violation(code: &Option<String>) -> (b: bool)
    ensures
        b == (code matches Some(c) && c@ == unique_violation_code()),
{
    match code {
        Some(c) => *c == String::from_str("23505"),
        None => false,
    }
}

/// Why a database operation on friendships failed.
pub enum LocalError {
    Logic(PortError),
    /// The database failed, with its error code, if any, and its message.
    Sqlx { code: Option<String>, message: String },
}

impl LocalError {
    /// A unique violation is a pending request that already exists; another
    /// database failure is internal, with its message.
    pub fn into_port_error(self) -> (r: PortError)
        ensures
            self matches LocalError::Logic(e) ==> r == e,
            self matches LocalError::Sqlx { code, message } ==> ((code matches Some(c) && c@
                == unique_violation_code()) ==> r == PortError::Conflict(ConflictError::PendingRequestExists)),
            self matches LocalError::Sqlx { code, message } ==> (!(code matches Some(c) && c@
                == unique_violation_code()) ==> r == PortError::Internal(message)),
    {
        match self {
            LocalError::Logic(e) => e,
            LocalError::Sqlx { code, message } => {
                if is_unique_violation(&code) {
                    PortError::Conflict(ConflictError::PendingRequestExists)
                } else {
                    PortError::Internal(message)
                }
            },
        }
    }
}

/// A user row, with the last message exchanged, if any.
pub struct UserSummaryDbRow {
    pub id: u128,
    pub username: String,
    pub profile_picture_url: Option<String>,
    pub last_msg_id: Option<u128>,
    pub last_msg_sender_id: Option<u128>,
    pub last_msg_content: Option<String>,
    pub last_msg_created_at: Option<i64>,
}

/// The last message of a user row: present only when all its columns are.
pub open spec fn last_message_of(row: UserSummaryDbRow) -> Option<(u128, u128, String, i64)> {
    match row.last_msg_id {
        Some(id) => match row.last_msg_sender_id {
            Some(sender) => match row.last_msg_content {
                Some(content) => match row.last_msg_created_at {
                    Some(at) => Some((id, sender, content, at)),
                    None => None,
                },
                None => None,
            },
            None => None,
        },
        None => None,
    }
}

impl UserSummary {
    /// A user read from its row.
    pub fn from_row(row: UserSummaryDbRow) -> (u: UserSummary)
        ensures
            u.id == row.id,
            u.username == row.username,
            u.profile_picture_url == row.profile_picture_url,
            last_message_of(row) is None ==> u.last_message is None,
            last_message_of(row) matches Some(m) ==> (u.last_message matches Some(l) && l.id == m.0
                && l.sender_id == m.1 && l.content == m.2 && l.created_at == m.3),
    {
        let last_message = match (row.last_msg_id, row.last_msg_sender_id, row.last_msg_content, row.last_msg_created_at) {
            (Some(id), Some(sender_id), Some(content), Some(created_at)) => Some(
                LastMessage { id, sender_id, content, created_at },
            ),
            _ => None,
        };
        UserSummary {
            id: row.id,
            username: row.username,
            profile_picture_url: row.profile_picture_url,
            last_message,
        }
    }
}

/// A friend request row.
pub struct FriendRequestDbRow {
    pub id: u128,
    pub sender_id: u128,
    pub sender_username: String,
    pub receiver_id: u128,
    pub receiver_username: String,
    pub status: String,
    pub created_at: i64,
    pub updated_at: i64,
}

/// The status a stored text reads as: `accepted`, `rejected`, and pending
/// for any other text.
pub open spec fn status_of_text(s: Seq<char>) -> FriendRequestStatus {
    if s == "accepted"@ {
        FriendRequestStatus::Accepted
    } else if s == "rejected"@ {
        FriendRequestStatus::Rejected
    } else {
        FriendRequestStatus::Pending
    }
}

impl FriendRequest {
    /// A friend request read from its row.
    pub fn from_row(row: FriendRequestDbRow) -> (r: FriendRequest)
        ensures
            r.id == row.id,
            r.sender_id == row.sender_id,
            r.sender_username == row.sender_username,
            r.receiver_id == row.receiver_id,
            r.receiver_username == row.receiver_username,
            r.status == status_of_text(row.status@),
            r.created_at == row.created_at,
            r.updated_at == row.updated_at,
    {
        let status = if row.status == String::from_str("accepted") {
            FriendRequestStatus::Accepted
        } else if row.status == String::from_str("rejected") {
            FriendRequestStatus::Rejected
        } else {
            FriendRequestStatus::Pending
        };
        FriendRequest {
            id: row.id,
            sender_id: row.sender_id,
            sender_username: row.sender_username,
            receiver_id: row.receiver_id,
            receiver_username: row.receiver_username,
            status,
            created_at: row.created_at,
            updated_at: row.updated_at,
        }
    }
}

/// Reading a status's text back gives the status.
pub proof fn lemma_status_text_reads_back(s: FriendRequestStatus)
    ensures
        status_of_text(s.text_spec()) == s,
{
    reveal_strlit("pending");
    reveal_strlit("accepted");
    reveal_strlit("rejected");
    assert("pending"@ != "accepted"@) by {
        assert("pending"@[0] != "accepted"@[0]);
    }
    assert("pending"@ != "rejected"@) by {
        assert("pending"@[0] != "rejected"@[0]);
    }
    assert("rejected"@ != "accepted"@) by {
        assert("rejected"@[0] != "accepted"@[0]);
    }
}

} // verus!
