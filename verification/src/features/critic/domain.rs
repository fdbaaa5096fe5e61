use vstd::prelude::*;

verus! {

/// An application of a user for the Critic role.
pub struct CriticApplication {
    pub id: u128,
    pub user_id: u128,
    pub status: ApplicationStatus,
    /// When the user applied, in microseconds since the epoch.
    pub applied_at: i64,
    pub reviewed_at: Option<i64>,
    pub reviewed_by: Option<u128>,
    /// Set when the application is listed with its user.
    pub username: Option<String>,
    /// Set when the application is listed with its user.
    pub email: Option<String>,
}

/// Where an application stands.
#[derive(Debug, Clone, Copy, PartialEq, Eq, Structural)]
pub enum ApplicationStatus {
    Pending,
    Approved,
    Rejected,
}

impl ApplicationStatus {
    pub open spec fn text_spec(self) -> Seq<char> {
        match self {
            ApplicationStatus::Pending => "pending"@,
            ApplicationStatus::Approved => "approved"@,
            ApplicationStatus::Rejected => "rejected"@,
        }
    }

    /// The status's text.
    pub fn as_text(&self) -> (r: String)
        ensures
            r@ == self.text_spec(),
    {
        match self {
            ApplicationStatus::Pending => String::from_str("pending"),
            ApplicationStatus::Approved => String::from_str("approved"),
            ApplicationStatus::Rejected => String::from_str("rejected"),
        }
    }

    pub open spec fn parse_spec(s: Seq<char>) -> Option<ApplicationStatus> {
        if s == "pending"@ {
            Some(ApplicationStatus::Pending)
        } else if s == "approved"@ {
            Some(ApplicationStatus::Approved)
        } else if s == "rejected"@ {
            Some(ApplicationStatus::Rejected)
        } else {
            None
        }
    }

    /// The status a text names, exactly `pending`, `approved` or `rejected`.
    pub fn parse(s: &String) -> (r: Option<ApplicationStatus>)
        ensures
            r == Self::parse_spec(s@),
    {
        if *s == String::from_str("pending") {
            Some(ApplicationStatus::Pending)
        } else if *s == String::from_str("approved") {
            Some(ApplicationStatus::Approved)
        } else if *s == String::from_str("rejected") {
            Some(ApplicationStatus::Rejected)
        } else {
            None
        }
    }
}

/// Reading a status's text gives the status back.
pub proof fn lemma_status_text_parses_back(s: ApplicationStatus)
    ensures
        ApplicationStatus::parse_spec(s.text_spec()) == Some(s),
{
    reveal_strlit("pending");
    reveal_strlit("approved");
    reveal_strlit("rejected");
    assert("approved"@ != "pending"@) by {
        assert("approved"@[0] != "pending"@[0]);
    }
    assert("rejected"@ != "pending"@) by {
        assert("rejected"@[0] != "pending"@[0]);
    }
    assert("rejected"@ != "approved"@) by {
        assert("rejected"@[0] != "approved"@[0]);
    }
}

} // verus!
