//! The forwarding-session state machine: a closed status enum with an
//! explicit transition table.

use vstd::prelude::*;

use crate::domain::error::DomainError;
use crate::text::{eq_ignore_ascii_case, lower_seq};

verus! {

#[derive(Debug, Clone, Copy, PartialEq, Eq, Structural)]
pub enum SessionStatus {
    Stopped,
    Connecting,
    Connected,
    Disconnected,
    Reconnecting,
    Failed,
}

/// The canonical label of each status, as stored and displayed.
pub open spec fn status_label(s: SessionStatus) -> Seq<char> {
    match s {
        SessionStatus::Stopped => "stopped"@,
        SessionStatus::Connecting => "connecting"@,
        SessionStatus::Connected => "connected"@,
        SessionStatus::Disconnected => "disconnected"@,
        SessionStatus::Reconnecting => "reconnecting"@,
        SessionStatus::Failed => "failed"@,
    }
}

/// The transition table: exactly these status changes are allowed.
pub open spec fn valid_transition(from: SessionStatus, to: SessionStatus) -> bool {
    ||| (from == SessionStatus::Connecting && to == SessionStatus::Connected)
    ||| (from == SessionStatus::Connecting && to == SessionStatus::Disconnected)
    ||| (from == SessionStatus::Connecting && to == SessionStatus::Failed)
    ||| (from == SessionStatus::Connected && to == SessionStatus::Disconnected)
    ||| (from == SessionStatus::Connected && to == SessionStatus::Stopped)
    ||| (from == SessionStatus::Disconnected && to == SessionStatus::Reconnecting)
    ||| (from == SessionStatus::Disconnected && to == SessionStatus::Stopped)
    ||| (from == SessionStatus::Disconnected && to == SessionStatus::Failed)
    ||| (from == SessionStatus::Reconnecting && to == SessionStatus::Connected)
    ||| (from == SessionStatus::Reconnecting && to == SessionStatus::Failed)
}

impl SessionStatus {
    /// The canonical label of this status.
    pub fn as_str(&self) -> (r: &'static str)
        ensures
            r@ == status_label(*self),
    {
        match self {
            SessionStatus::Stopped => "stopped",
            SessionStatus::Connecting => "connecting",
            SessionStatus::Connected => "connected",
            SessionStatus::Disconnected => "disconnected",
            SessionStatus::Reconnecting => "reconnecting",
            SessionStatus::Failed => "failed",
        }
    }

    /// Whether the session is currently live.
    pub fn is_active(&self) -> (r: bool)
        ensures
            r == (*self == SessionStatus::Connected || *self == SessionStatus::Reconnecting),
    {
        matches!(self, SessionStatus::Connected | SessionStatus::Reconnecting)
    }

    /// Whether the status admits no further transitions.
    pub fn is_terminal(&self) -> (r: bool)
        ensures
            r == (*self == SessionStatus::Stopped || *self == SessionStatus::Failed),
    {
        matches!(self, SessionStatus::Stopped | SessionStatus::Failed)
    }

    /// Attempt a transition. A terminal state rejects every transition; a
    /// non-terminal state accepts exactly the rows of the transition table.
    pub fn transition_to(self, target: SessionStatus) -> (r: Result<
        SessionStatus,
        DomainError,
    >)
        ensures
            match r {
                Ok(next) => {
                    &&& next == target
                    &&& !(self == SessionStatus::Stopped || self == SessionStatus::Failed)
                    &&& valid_transition(self, target)
                },
                Err(e) => {
                    &&& !valid_transition(self, target) || self == SessionStatus::Stopped
                        || self == SessionStatus::Failed
                    &&& e@ matches crate::domain::error::DomainErrorV::BusinessRuleViolation(m)
                        && (if self == SessionStatus::Stopped || self == SessionStatus::Failed {
                        m == "cannot transition from terminal state "@ + status_label(self)
                    } else {
                        m == "invalid transition from "@ + status_label(self) + " to "@
                            + status_label(target)
                    })
                },
            },
    {
        if self.is_terminal() {
            let m = String::from_str("cannot transition from terminal state ").concat(
                self.as_str(),
            );
            return Err(DomainError::BusinessRuleViolation(m));
        }
        let valid = matches!(
            (self, target),
            (SessionStatus::Connecting, SessionStatus::Connected)
                | (SessionStatus::Connecting, SessionStatus::Disconnected)
                | (SessionStatus::Connecting, SessionStatus::Failed)
                | (SessionStatus::Connected, SessionStatus::Disconnected)
                | (SessionStatus::Connected, SessionStatus::Stopped)
                | (SessionStatus::Disconnected, SessionStatus::Reconnecting)
                | (SessionStatus::Disconnected, SessionStatus::Stopped)
                | (SessionStatus::Disconnected, SessionStatus::Failed)
                | (SessionStatus::Reconnecting, SessionStatus::Connected)
                | (SessionStatus::Reconnecting, SessionStatus::Failed)
        );
        if valid {
            Ok(target)
        } else {
            let m = String::from_str("invalid transition from ").concat(self.as_str()).concat(
                " to ",
            ).concat(target.as_str());
            Err(DomainError::BusinessRuleViolation(m))
        }
    }

    /// Parse a status label, ignoring ASCII case. Accepts exactly the six
    /// canonical labels.
    pub fn from_str(s: &str) -> (r: Result<SessionStatus, DomainError>)
        ensures
            match r {
                Ok(v) => lower_seq(s@) == status_label(v),
                Err(e) => {
                    &&& forall|v: SessionStatus| lower_seq(s@) != status_label(v)
                    &&& e@ matches crate::domain::error::DomainErrorV::InvalidField {
                        field,
                        reason,
                    } && field == "session_status"@ && reason == "unknown status value"@
                },
            },
    {
        proof {
            lemma_status_labels_lowercase();
        }
        if eq_ignore_ascii_case(s, "stopped") {
            Ok(SessionStatus::Stopped)
        } else if eq_ignore_ascii_case(s, "connecting") {
            Ok(SessionStatus::Connecting)
        } else if eq_ignore_ascii_case(s, "connected") {
            Ok(SessionStatus::Connected)
        } else if eq_ignore_ascii_case(s, "disconnected") {
            Ok(SessionStatus::Disconnected)
        } else if eq_ignore_ascii_case(s, "reconnecting") {
            Ok(SessionStatus::Reconnecting)
        } else if eq_ignore_ascii_case(s, "failed") {
            Ok(SessionStatus::Failed)
        } else {
            proof {
                assert forall|v: SessionStatus| lower_seq(s@) != status_label(v) by {
                    lemma_status_labels_lowercase();
                }
            }
            Err(DomainError::InvalidField { field: "session_status", reason: "unknown status value" })
        }
    }
}

impl Default for SessionStatus {
    /// A freshly observed session starts out connecting.
    fn default() -> (r: Self)
        ensures
            r == SessionStatus::Connecting,
    {
        SessionStatus::Connecting
    }
}

/// A sequence without ASCII uppercase letters is a fixed point of ASCII
/// lower-casing.
proof fn lemma_lower_seq_fixed(s: Seq<char>)
    requires
        forall|i: int| 0 <= i < s.len() ==> !('A' <= #[trigger] s[i] && s[i] <= 'Z'),
    ensures
        lower_seq(s) == s,
{
    assert forall|i: int| 0 <= i < s.len() implies #[trigger] lower_seq(s)[i] == s[i] by {
        assert(!('A' <= s[i] && s[i] <= 'Z'));
    }
    assert(lower_seq(s) =~= s);
}

/// The six canonical status labels contain no uppercase characters, so each
/// is a fixed point of lower-casing.
proof fn lemma_status_labels_lowercase()
    ensures
        lower_seq("stopped"@) == "stopped"@,
        lower_seq("connecting"@) == "connecting"@,
        lower_seq("connected"@) == "connected"@,
        lower_seq("disconnected"@) == "disconnected"@,
        lower_seq("reconnecting"@) == "reconnecting"@,
        lower_seq("failed"@) == "failed"@,
{
    reveal_strlit("stopped");
    reveal_strlit("connecting");
    reveal_strlit("connected");
    reveal_strlit("disconnected");
    reveal_strlit("reconnecting");
    reveal_strlit("failed");
    lemma_lower_seq_fixed("stopped"@);
    lemma_lower_seq_fixed("connecting"@);
    lemma_lower_seq_fixed("connected"@);
    lemma_lower_seq_fixed("disconnected"@);
    lemma_lower_seq_fixed("reconnecting"@);
    lemma_lower_seq_fixed("failed"@);
}

} // verus!
