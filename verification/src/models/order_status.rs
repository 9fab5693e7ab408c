//! The states of an order and the tokens that stand for them.

use vstd::prelude::*;
use crate::error::EncodingError;
use crate::text::{ascii_lower, eq_ignore_ascii_case, str_eq_ignore_ascii_case};
use crate::text::lemma_eq_ignore_ascii_case_transitive;

verus! {

/// Where an order stands. Any status may follow any other.
#[derive(Clone, Copy, Debug, PartialEq, Eq, Structural)]
pub enum OrderStatus {
    Pending,
    Paid,
    Preparing,
    Ready,
    Completed,
    Cancelled,
}

impl OrderStatus {
    /// The lower-case token that stands for the status in storage and on the
    /// wire.
    pub open spec fn token(self) -> Seq<char> {
        match self {
            OrderStatus::Pending => "pending"@,
            OrderStatus::Paid => "paid"@,
            OrderStatus::Preparing => "preparing"@,
            OrderStatus::Ready => "ready"@,
            OrderStatus::Completed => "completed"@,
            OrderStatus::Cancelled => "cancelled"@,
        }
    }

    /// The status whose token `text` is, whatever the case of its letters.
    pub open spec fn parse(text: Seq<char>) -> Option<OrderStatus> {
        if eq_ignore_ascii_case(text, "pending"@) {
            Some(OrderStatus::Pending)
        } else if eq_ignore_ascii_case(text, "paid"@) {
            Some(OrderStatus::Paid)
        } else if eq_ignore_ascii_case(text, "preparing"@) {
            Some(OrderStatus::Preparing)
        } else if eq_ignore_ascii_case(text, "ready"@) {
            Some(OrderStatus::Ready)
        } else if eq_ignore_ascii_case(text, "completed"@) {
            Some(OrderStatus::Completed)
        } else if eq_ignore_ascii_case(text, "cancelled"@) {
            Some(OrderStatus::Cancelled)
        } else {
            None
        }
    }

    /// The token of the status.
    pub fn as_str(&self) -> (s: &'static str)
        ensures
            s@ == self.token(),
    {
        match self {
            OrderStatus::Pending => "pending",
            OrderStatus::Paid => "paid",
            OrderStatus::Preparing => "preparing",
            OrderStatus::Ready => "ready",
            OrderStatus::Completed => "completed",
            OrderStatus::Cancelled => "cancelled",
        }
    }

    /// The token of the status as an owned string.
    pub fn to_string(&self) -> (s: String)
        ensures
            s@ == self.token(),
    {
        self.as_str().to_owned()
    }

    /// Reads a status from its token, in any case; any other text is
    /// `InvalidEnumValue`.
    pub fn from_str(s: &str) -> (r: Result<OrderStatus, EncodingError>)
        ensures
            r == match Self::parse(s@) {
                Some(status) => Ok::<OrderStatus, EncodingError>(status),
                None => Err(EncodingError::InvalidEnumValue),
            },
    {
        if str_eq_ignore_ascii_case(s, "pending") {
            Ok(OrderStatus::Pending)
        } else if str_eq_ignore_ascii_case(s, "paid") {
            Ok(OrderStatus::Paid)
        } else if str_eq_ignore_ascii_case(s, "preparing") {
            Ok(OrderStatus::Preparing)
        } else if str_eq_ignore_ascii_case(s, "ready") {
            Ok(OrderStatus::Ready)
        } else if str_eq_ignore_ascii_case(s, "completed") {
            Ok(OrderStatus::Completed)
        } else if str_eq_ignore_ascii_case(s, "cancelled") {
            Ok(OrderStatus::Cancelled)
        } else {
            Err(EncodingError::InvalidEnumValue)
        }
    }
}

/// Writing a status and reading the text back gives the status again.
pub proof fn lemma_order_status_round_trip(status: OrderStatus)
    ensures
        OrderStatus::parse(status.token()) == Some(status),
{
    reveal_strlit("pending");
    reveal_strlit("paid");
    reveal_strlit("preparing");
    reveal_strlit("ready");
    reveal_strlit("completed");
    reveal_strlit("cancelled");
    assert("preparing"@[0] == 'p');
    assert("completed"@[0] == 'c');
    assert("completed"@[1] == 'o');
    assert("cancelled"@[0] == 'c');
    assert("cancelled"@[1] == 'a');
}

/// The case of its letters does not matter to how a text is read.
pub proof fn lemma_order_status_parse_ignores_case(a: Seq<char>, b: Seq<char>)
    requires
        eq_ignore_ascii_case(a, b),
    ensures
        OrderStatus::parse(a) == OrderStatus::parse(b),
{
    lemma_eq_ignore_ascii_case_transitive(a, b, "pending"@);
    lemma_eq_ignore_ascii_case_transitive(a, b, "paid"@);
    lemma_eq_ignore_ascii_case_transitive(a, b, "preparing"@);
    lemma_eq_ignore_ascii_case_transitive(a, b, "ready"@);
    lemma_eq_ignore_ascii_case_transitive(a, b, "completed"@);
    lemma_eq_ignore_ascii_case_transitive(a, b, "cancelled"@);
}

/// A token is in lower case throughout.
pub proof fn lemma_order_status_token_is_lower_case(status: OrderStatus)
    ensures
        forall|i: int|
            0 <= i < status.token().len() ==> ascii_lower(#[trigger] status.token()[i])
                == status.token()[i],
{
    reveal_strlit("pending");
    reveal_strlit("paid");
    reveal_strlit("preparing");
    reveal_strlit("ready");
    reveal_strlit("completed");
    reveal_strlit("cancelled");
}

} // verus!
