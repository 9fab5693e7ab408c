//! The forms in which values stand in the store. The storage engine holds
//! text only: a decimal, a date, a date and time, a drink size and an order
//! status are each written as text on the way in and read from text on the
//! way out.

use vstd::prelude::*;
use vstd::std_specs::convert::FromSpecImpl;
use crate::datetime::{date_parsed, date_text, date_time_parsed, date_time_text};
use crate::datetime::{NaiveDate, NaiveDateTime, DATE_FORMAT, DATE_TIME_FORMAT};
use crate::decimal::{decimal_parsed, decimal_text, Decimal};
use crate::error::EncodingError;
use crate::models::drink_size::{lemma_drink_size_round_trip, DrinkSize};
use crate::models::order_status::{lemma_order_status_round_trip, OrderStatus};

verus! {

/// A decimal as it stands in the store.
#[derive(Clone, Copy, Debug, PartialEq, Eq, Structural)]
pub struct SqliteDecimal(pub Decimal);

/// A date and time as it stands in the store.
#[derive(Clone, Copy, Debug, PartialEq, Eq, Structural)]
pub struct SqliteDateTime(pub NaiveDateTime);

/// A date as it stands in the store.
#[derive(Clone, Copy, Debug, PartialEq, Eq, Structural)]
pub struct SqliteDate(pub NaiveDate);

/// A drink size as it stands in the store.
#[derive(Clone, Copy, Debug, PartialEq, Eq, Structural)]
pub struct SqliteDrinkSize(pub DrinkSize);

/// An order status as it stands in the store.
#[derive(Clone, Copy, Debug, PartialEq, Eq, Structural)]
pub struct SqliteOrderStatus(pub OrderStatus);

impl From<Decimal> for SqliteDecimal {
    fn from(value: Decimal) -> (r: Self) {
        SqliteDecimal(value)
    }
}

impl FromSpecImpl<Decimal> for SqliteDecimal {
    open spec fn obeys_from_spec() -> bool {
        true
    }

    open spec fn from_spec(value: Decimal) -> Self {
        SqliteDecimal(value)
    }
}

impl SqliteDecimal {
    /// The text that is stored for the decimal.
    pub open spec fn encoded(self) -> Seq<char> {
        self.0.text()
    }

    /// The decimal that stored text stands for; `InvalidDecimal` where it stands
    /// for none.
    pub open spec fn decoded(text: Seq<char>) -> Result<SqliteDecimal, EncodingError> {
        match Decimal::read(text) {
            Ok(d) => Ok(SqliteDecimal(d)),
            Err(e) => Err(e),
        }
    }

    /// The decimal itself.
    pub fn into_decimal(self) -> (d: Decimal)
        ensures
            d == self.0,
    {
        self.0
    }

    /// Writes the decimal as the text that is stored for it.
    pub fn encode(&self) -> (s: String)
        ensures
            s@ == self.encoded(),
    {
        self.0.to_text()
    }

    /// Reads the decimal that stored text stands for.
    pub fn decode(text: &str) -> (r: Result<SqliteDecimal, EncodingError>)
        ensures
            r == Self::decoded(text@),
    {
        match Decimal::from_text(text) {
            Ok(d) => Ok(SqliteDecimal(d)),
            Err(e) => Err(e),
        }
    }
}

impl From<NaiveDateTime> for SqliteDateTime {
    fn from(value: NaiveDateTime) -> (r: Self) {
        SqliteDateTime(value)
    }
}

impl FromSpecImpl<NaiveDateTime> for SqliteDateTime {
    open spec fn obeys_from_spec() -> bool {
        true
    }

    open spec fn from_spec(value: NaiveDateTime) -> Self {
        SqliteDateTime(value)
    }
}

impl SqliteDateTime {
    /// The text that is stored for the date and time.
    pub open spec fn encoded(self) -> Seq<char> {
        self.0.text()
    }

    /// The date and time that stored text stands for; `InvalidTimestamp` where
    /// it stands for none.
    pub open spec fn decoded(text: Seq<char>) -> Result<SqliteDateTime, EncodingError> {
        match NaiveDateTime::read(text) {
            Ok(t) => Ok(SqliteDateTime(t)),
            Err(e) => Err(e),
        }
    }

    /// The date and time itself.
    pub fn into_naive_date_time(self) -> (t: NaiveDateTime)
        ensures
            t == self.0,
    {
        self.0
    }

    /// Writes the date and time as the text that is stored for it.
    pub fn encode(&self) -> (s: String)
        ensures
            s@ == self.encoded(),
    {
        self.0.to_text()
    }

    /// Reads the date and time that stored text stands for.
    pub fn decode(text: &str) -> (r: Result<SqliteDateTime, EncodingError>)
        ensures
            r == Self::decoded(text@),
    {
        match NaiveDateTime::from_text(text) {
            Ok(t) => Ok(SqliteDateTime(t)),
            Err(e) => Err(e),
        }
    }
}

impl From<NaiveDate> for SqliteDate {
    fn from(value: NaiveDate) -> (r: Self) {
        SqliteDate(value)
    }
}

impl FromSpecImpl<NaiveDate> for SqliteDate {
    open spec fn obeys_from_spec() -> bool {
        true
    }

    open spec fn from_spec(value: NaiveDate) -> Self {
        SqliteDate(value)
    }
}

impl SqliteDate {
    /// The text that is stored for the date.
    pub open spec fn encoded(self) -> Seq<char> {
        self.0.text()
    }

    /// The date that stored text stands for; `InvalidTimestamp` where it stands
    /// for none.
    pub open spec fn decoded(text: Seq<char>) -> Result<SqliteDate, EncodingError> {
        match NaiveDate::read(text) {
            Ok(d) => Ok(SqliteDate(d)),
            Err(e) => Err(e),
        }
    }

    /// The date itself.
    pub fn into_naive_date(self) -> (d: NaiveDate)
        ensures
            d == self.0,
    {
        self.0
    }

    /// Writes the date as the text that is stored for it.
    pub fn encode(&self) -> (s: String)
        ensures
            s@ == self.encoded(),
    {
        self.0.to_text()
    }

    /// Reads the date that stored text stands for.
    pub fn decode(text: &str) -> (r: Result<SqliteDate, EncodingError>)
        ensures
            r == Self::decoded(text@),
    {
        match NaiveDate::from_text(text) {
            Ok(d) => Ok(SqliteDate(d)),
            Err(e) => Err(e),
        }
    }
}

impl From<DrinkSize> for SqliteDrinkSize {
    fn from(value: DrinkSize) -> (r: Self) {
        SqliteDrinkSize(value)
    }
}

impl FromSpecImpl<DrinkSize> for SqliteDrinkSize {
    open spec fn obeys_from_spec() -> bool {
        true
    }

    open spec fn from_spec(value: DrinkSize) -> Self {
        SqliteDrinkSize(value)
    }
}

impl SqliteDrinkSize {
    /// The text that is stored for the size: its token.
    pub open spec fn encoded(self) -> Seq<char> {
        self.0.token()
    }

    /// The size that stored text stands for; `InvalidEnumValue` where it is no
    /// token.
    pub open spec fn decoded(text: Seq<char>) -> Result<SqliteDrinkSize, EncodingError> {
        match DrinkSize::parse(text) {
            Some(size) => Ok(SqliteDrinkSize(size)),
            None => Err(EncodingError::InvalidEnumValue),
        }
    }

    /// The size itself.
    pub fn into_drink_size(self) -> (size: DrinkSize)
        ensures
            size == self.0,
    {
        self.0
    }

    /// Writes the size as the text that is stored for it.
    pub fn encode(&self) -> (s: String)
        ensures
            s@ == self.encoded(),
    {
        self.0.to_string()
    }

    /// Reads the size that stored text stands for.
    pub fn decode(text: &str) -> (r: Result<SqliteDrinkSize, EncodingError>)
        ensures
            r == Self::decoded(text@),
    {
        match DrinkSize::from_str(text) {
            Ok(size) => Ok(SqliteDrinkSize(size)),
            Err(e) => Err(e),
        }
    }
}

impl From<OrderStatus> for SqliteOrderStatus {
    fn from(value: OrderStatus) -> (r: Self) {
        SqliteOrderStatus(value)
    }
}

impl FromSpecImpl<OrderStatus> for SqliteOrderStatus {
    open spec fn obeys_from_spec() -> bool {
        true
    }

    open spec fn from_spec(value: OrderStatus) -> Self {
        SqliteOrderStatus(value)
    }
}

impl SqliteOrderStatus {
    /// The text that is stored for the status: its token.
    pub open spec fn encoded(self) -> Seq<char> {
        self.0.token()
    }

    /// The status that stored text stands for; `InvalidEnumValue` where it is
    /// no token.
    pub open spec fn decoded(text: Seq<char>) -> Result<SqliteOrderStatus, EncodingError> {
        match OrderStatus::parse(text) {
            Some(status) => Ok(SqliteOrderStatus(status)),
            None => Err(EncodingError::InvalidEnumValue),
        }
    }

    /// The status itself.
    pub fn into_order_status(self) -> (status: OrderStatus)
        ensures
            status == self.0,
    {
        self.0
    }

    /// Writes the status as the text that is stored for it.
    pub fn encode(&self) -> (s: String)
        ensures
            s@ == self.encoded(),
    {
        self.0.to_string()
    }

    /// Reads the status that stored text stands for.
    pub fn decode(text: &str) -> (r: Result<SqliteOrderStatus, EncodingError>)
        ensures
            r == Self::decoded(text@),
    {
        match OrderStatus::from_str(text) {
            Ok(status) => Ok(SqliteOrderStatus(status)),
            Err(e) => Err(e),
        }
    }
}

/// What is stored for a drink size is read back as that size.
pub proof fn lemma_stored_drink_size_round_trip(stored: SqliteDrinkSize)
    ensures
        SqliteDrinkSize::decoded(stored.encoded()) == Ok::<SqliteDrinkSize, EncodingError>(stored),
{
    lemma_drink_size_round_trip(stored.0);
}

/// What is stored for an order status is read back as that status.
pub proof fn lemma_stored_order_status_round_trip(stored: SqliteOrderStatus)
    ensures
        SqliteOrderStatus::decoded(stored.encoded()) == Ok::<SqliteOrderStatus, EncodingError>(
            stored,
        ),
{
    lemma_order_status_round_trip(stored.0);
}

/// Reading a stored decimal loses nothing that `rust_decimal` keeps: where it
/// reads the text that it wrote for a decimal as the parts of that decimal,
/// `decode` gives the decimal that `encode` was given.
pub proof fn lemma_stored_decimal_round_trip(stored: SqliteDecimal)
    requires
        stored.0.parts().is_valid(),
    ensures
        decimal_parsed(decimal_text(stored.0.parts())) == Some(stored.0.parts())
            ==> SqliteDecimal::decoded(stored.encoded()) == Ok::<SqliteDecimal, EncodingError>(
            stored,
        ),
{
    stored.0.lemma_parts_make_up();
}

/// Reading a stored date and time loses nothing that `chrono` keeps: where it
/// reads the text that it wrote for a date and time as the fields of that date
/// and time, `decode` gives the date and time that `encode` was given.
pub proof fn lemma_stored_date_time_round_trip(stored: SqliteDateTime)
    requires
        stored.0.fields().is_valid(),
    ensures
        date_time_parsed(date_time_text(stored.0.fields(), DATE_TIME_FORMAT@), DATE_TIME_FORMAT@)
            == Some(stored.0.fields()) ==> SqliteDateTime::decoded(stored.encoded()) == Ok::<
            SqliteDateTime,
            EncodingError,
        >(stored),
{
    stored.0.lemma_fields_make_up();
}

/// Reading a stored date loses nothing that `chrono` keeps: where it reads
/// the text that it wrote for a date as the fields of that date, `decode`
/// gives the date that `encode` was given.
pub proof fn lemma_stored_date_round_trip(stored: SqliteDate)
    requires
        stored.0.fields().is_valid(),
    ensures
        date_parsed(date_text(stored.0.fields(), DATE_FORMAT@), DATE_FORMAT@) == Some(
            stored.0.fields(),
        ) ==> SqliteDate::decoded(stored.encoded()) == Ok::<SqliteDate, EncodingError>(stored),
{
    stored.0.lemma_fields_make_up();
}

} // verus!
