//! The sizes of a drink and the tokens that stand for them.

use vstd::prelude::*;
use crate::error::EncodingError;
use crate::text::{ascii_lower, eq_ignore_ascii_case, str_eq_ignore_ascii_case};
use crate::text::lemma_eq_ignore_ascii_case_transitive;

verus! {

/// The size in which a drink is ordered.
#[derive(Clone, Copy, Debug, PartialEq, Eq, Structural)]
pub enum DrinkSize {
    Small,
    Medium,
    Large,
    Standard,
}

impl DrinkSize {
    /// The lower-case token that stands for the size in storage and on the wire.
    pub open spec fn token(self) -> Seq<char> {
        match self {
            DrinkSize::Small => "small"@,
            DrinkSize::Medium => "medium"@,
            DrinkSize::Large => "large"@,
            DrinkSize::Standard => "standard"@,
        }
    }

    /// The size whose token `text` is, whatever the case of its letters.
    pub open spec fn parse(text: Seq<char>) -> Option<DrinkSize> {
        if eq_ignore_ascii_case(text, "small"@) {
            Some(DrinkSize::Small)
        } else if eq_ignore_ascii_case(text, "medium"@) {
            Some(DrinkSize::Medium)
        } else if eq_ignore_ascii_case(text, "large"@) {
            Some(DrinkSize::Large)
        } else if eq_ignore_ascii_case(text, "standard"@) {
            Some(DrinkSize::Standard)
        } else {
            None
        }
    }

    /// The token of the size.
    pub fn as_str(&self) -> (s: &'static str)
        ensures
            s@ == self.token(),
    {
        match self {
            DrinkSize::Small => "small",
            DrinkSize::Medium => "medium",
            DrinkSize::Large => "large",
            DrinkSize::Standard => "standard",
        }
    }

    /// The token of the size as an owned string.
    pub fn to_string(&self) -> (s: String)
        ensures
            s@ == self.token(),
    {
        self.as_str().to_owned()
    }

    /// Reads a size from its token, in any case; any other text is
    /// `InvalidEnumValue`.
    pub fn from_str(s: &str) -> (r: Result<DrinkSize, EncodingError>)
        ensures
            r == match Self::parse(s@) {
                Some(size) => Ok::<DrinkSize, EncodingError>(size),
                None => Err(EncodingError::InvalidEnumValue),
            },
    {
        if str_eq_ignore_ascii_case(s, "small") {
            Ok(DrinkSize::Small)
        } else if str_eq_ignore_ascii_case(s, "medium") {
            Ok(DrinkSize::Medium)
        } else if str_eq_ignore_ascii_case(s, "large") {
            Ok(DrinkSize::Large)
        } else if str_eq_ignore_ascii_case(s, "standard") {
            Ok(DrinkSize::Standard)
        } else {
            Err(EncodingError::InvalidEnumValue)
        }
    }
}

/// Writing a size and reading the text back gives the size again.
pub proof fn lemma_drink_size_round_trip(size: DrinkSize)
    ensures
        DrinkSize::parse(size.token()) == Some(size),
{
    reveal_strlit("small");
    reveal_strlit("medium");
    reveal_strlit("large");
    reveal_strlit("standard");
    assert("large"@[0] == 'l');
    assert("small"@[0] == 's');
}

/// The case of its letters does not matter to how a text is read.
pub proof fn lemma_drink_size_parse_ignores_case(a: Seq<char>, b: Seq<char>)
    requires
        eq_ignore_ascii_case(a, b),
    ensures
        DrinkSize::parse(a) == DrinkSize::parse(b),
{
    lemma_eq_ignore_ascii_case_transitive(a, b, "small"@);
    lemma_eq_ignore_ascii_case_transitive(a, b, "medium"@);
    lemma_eq_ignore_ascii_case_transitive(a, b, "large"@);
    lemma_eq_ignore_ascii_case_transitive(a, b, "standard"@);
}

/// A token is in lower case throughout.
pub proof fn lemma_drink_size_token_is_lower_case(size: DrinkSize)
    ensures
        forall|i: int|
            0 <= i < size.token().len() ==> ascii_lower(#[trigger] size.token()[i])
                == size.token()[i],
{
    reveal_strlit("small");
    reveal_strlit("medium");
    reveal_strlit("large");
    reveal_strlit("standard");
}

} // verus!
