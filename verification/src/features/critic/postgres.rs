//! Critic applications read back from their rows.

use vstd::prelude::*;

use super::domain::{ApplicationStatus, CriticApplication};
use super::output::RepositoryError;

verus! {

/// The database adapter of critic applications; `P` is the connection pool.
pub struct PostgresAdapter<P> {
    pub pool: P,
}

impl<P> PostgresAdapter<P> {
    pub fn new(pool: P) -> (r: Self)
        ensures
            r.pool == pool,
    {
        Self { pool }
    }
}

/// Why a database operation on applications failed.
pub enum LocalError {
    /// The database failed, with its message.
    Sqlx(String),
    /// A row could not be read, with the reason.
    Parse(String),
}

impl LocalError {
    /// Both kinds of failure are internal repository errors with their text.
    pub fn into_repository_error(self) -> (r: RepositoryError)
        ensures
            self matches LocalError::Sqlx(m) ==> r == RepositoryError::Internal(m),
            self matches LocalError::Parse(m) ==> r == RepositoryError::Internal(m),
    {
        match self {
            LocalError::Sqlx(m) => RepositoryError::Internal(m),
            LocalError::Parse(m) => RepositoryError::Internal(m),
        }
    }
}

/// An application row.
pub struct CriticApplicationDbRow {
    pub id: u128,
    pub user_id: u128,
    pub status: String,
    pub applied_at: i64,
    pub reviewed_at: Option<i64>,
    pub reviewed_by: Option<u128>,
}

/// An application row with its user's name and email.
pub struct CriticApplicationWithUserDbRow {
    pub id: u128,
    pub user_id: u128,
    pub status: String,
    pub applied_at: i64,
    pub reviewed_at: Option<i64>,
    pub reviewed_by: Option<u128>,
    pub username: String,
    pub email: String,
}

/// Why a status text is refused: `Invalid application status '<text>':
/// Matching variant not found`.
pub open spec fn invalid_status_message(status: Seq<char>) -> Seq<char> {
    "Invalid application status '"@ + status + "': Matching variant not found"@
}

fn invalid_status(status: &String) -> (r: LocalError)
    ensures
        r matches LocalError::Parse(m) && m@ == invalid_status_message(status@),
{
    let mut m = String::from_str("Invalid application status '");
    m.append(status.as_str());
    m.append("': Matching variant not found");
    LocalError::Parse(m)
}

impl CriticApplication {
    /// An application read from its row, without user details; it fails when
    /// the status names no status.
    pub fn from_row(row: CriticApplicationDbRow) -> (r: Result<CriticApplication, LocalError>)
        ensures
            ApplicationStatus::parse_spec(row.status@) is None ==> (r matches Err(LocalError::Parse(m))
                && m@ == invalid_status_message(row.status@)),
            ApplicationStatus::parse_spec(row.status@) matches Some(s) ==> (r matches Ok(a) && a.id
                == row.id && a.user_id == row.user_id && a.status == s && a.applied_at == row.applied_at
                && a.reviewed_at == row.reviewed_at && a.reviewed_by == row.reviewed_by
                && a.username is None && a.email is None),
    {
        match ApplicationStatus::parse(&row.status) {
            None => Err(invalid_status(&row.status)),
            Some(status) => Ok(
                CriticApplication {
                    id: row.id,
                    user_id: row.user_id,
                    status,
                    applied_at: row.applied_at,
                    reviewed_at: row.reviewed_at,
                    reviewed_by: row.reviewed_by,
                    username: None,
                    email: None,
                },
            ),
        }
    }

    /// An application read from its row with its user's name and email; it
    /// fails when the status names no status.
    pub fn from_row_with_user(row: CriticApplicationWithUserDbRow) -> (r: Result<CriticApplication, LocalError>)
        ensures
            ApplicationStatus::parse_spec(row.status@) is None ==> (r matches Err(LocalError::Parse(m))
                && m@ == invalid_status_message(row.status@)),
            ApplicationStatus::parse_spec(row.status@) matches Some(s) ==> (r matches Ok(a)
                && with_user_row(a, row, s)),
    {
        match ApplicationStatus::parse(&row.status) {
            None => Err(invalid_status(&row.status)),
            Some(status) => Ok(
                CriticApplication {
                    id: row.id,
                    user_id: row.user_id,
                    status,
                    applied_at: row.applied_at,
                    reviewed_at: row.reviewed_at,
                    reviewed_by: row.reviewed_by,
                    username: Some(row.username),
                    email: Some(row.email),
                },
            ),
        }
    }
}

/// `a` is what `row` reads as, with status `s`.
pub open spec fn with_user_row(a: CriticApplication, row: CriticApplicationWithUserDbRow, s: ApplicationStatus) -> bool {
    &&& a.id == row.id
    &&& a.user_id == row.user_id
    &&& a.status == s
    &&& a.applied_at == row.applied_at
    &&& a.reviewed_at == row.reviewed_at
    &&& a.reviewed_by == row.reviewed_by
    &&& a.username == Some(row.username)
    &&& a.email == Some(row.email)
}

/// The index of the first row whose status names no status, if any.
pub open spec fn first_bad_status(rows: Seq<CriticApplicationWithUserDbRow>) -> Option<int>
    decreases rows.len(),
{
    if rows.len() == 0 {
        None
    } else {
        match first_bad_status(rows.drop_last()) {
            Some(i) => Some(i),
            None => if ApplicationStatus::parse_spec(rows.last().status@) is None {
                Some(rows.len() - 1)
            } else {
                None
            },
        }
    }
}

proof fn lemma_first_bad_prefix(s: Seq<CriticApplicationWithUserDbRow>, n: int)
    requires
        0 <= n <= s.len(),
        first_bad_status(s.take(n)) is Some,
    ensures
        first_bad_status(s) == first_bad_status(s.take(n)),
    decreases s.len() - n,
{
    if n < s.len() {
        assert(s.take(n + 1).drop_last() =~= s.take(n));
        lemma_first_bad_prefix(s, n + 1);
    } else {
        assert(s.take(n) =~= s);
    }
}

/// The applications of the rows, in order; it fails on the first row whose
/// status names no status.
pub fn applications_from_rows(rows: Vec<CriticApplicationWithUserDbRow>) -> (r: Result<
    Vec<CriticApplication>,
    LocalError,
>)
    ensures
        first_bad_status(rows@) matches Some(i) ==> (r matches Err(LocalError::Parse(m)) && m@
            == invalid_status_message(rows@[i].status@)),
        first_bad_status(rows@) is None ==> (r matches Ok(apps) && apps@.len() == rows@.len() && forall|
            i: int,
        |
            0 <= i < rows@.len() ==> #[trigger] with_user_row(
                apps@[i],
                rows@[i],
                ApplicationStatus::parse_spec(rows@[i].status@)->Some_0,
            )),
{
    let ghost src = rows@;
    let mut out: Vec<CriticApplication> = Vec::new();
    assert(src.take(0) =~= Seq::<CriticApplicationWithUserDbRow>::empty());
    for row in it: rows.into_iter()
        invariant
            it.seq() == src,
            out@.len() == it.index(),
            first_bad_status(src.take(it.index() as int)) is None,
            forall|k: int|
                0 <= k < it.index() ==> #[trigger] with_user_row(
                    out@[k],
                    src[k],
                    ApplicationStatus::parse_spec(src[k].status@)->Some_0,
                ),
    {
        let ghost k = it.index() as int;
        assert(src.take(k + 1).drop_last() =~= src.take(k));
        assert(src.take(k + 1).last() == row);
        match CriticApplication::from_row_with_user(row) {
            Err(e) => {
                proof {
                    lemma_first_bad_prefix(src, k + 1);
                }
                return Err(e);
            },
            Ok(a) => {
                out.push(a);
            },
        }
    }
    assert(src.take(src.len() as int) =~= src);
    Ok(out)
}

} // verus!
