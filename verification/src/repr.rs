use vstd::prelude::*;
use vstd::string::*;
use crate::number::{decimal, signed_decimal, signed_to_string, unsigned_to_string};
use crate::text::{enclose, enclosed};

verus! {

/// `text` between single quotes. Nothing inside is escaped.
pub open spec fn quoted(text: Seq<char>) -> Seq<char> {
    enclosed("'"@, text, "'"@)
}

/// `text` as the argument of the call that turns an identifier's text into
/// its binary form.
pub open spec fn identifier_call(text: Seq<char>) -> Seq<char> {
    enclosed("UUID_TO_BIN('"@, text, "')"@)
}

/// A value that has a literal form in SQL.
pub trait ToSqlRepr {
    /// The literal that stands for the value.
    spec fn sql_repr(&self) -> Seq<char>;

    /// Writes the value as its literal.
    fn to_sql_repr(&self) -> (r: String)
        ensures
            r@ == self.sql_repr(),
    ;
}

/// Writes a value as its literal.
pub fn format_literal<T: ToSqlRepr>(value: &T) -> (r: String)
    ensures
        r@ == value.sql_repr(),
{
    value.to_sql_repr()
}

/// Puts a text between single quotes.
pub fn quote(text: &str) -> (r: String)
    ensures
        r@ == quoted(text@),
{
    enclose("'", text, "'")
}

impl ToSqlRepr for i8 {
    open spec fn sql_repr(&self) -> Seq<char> {
        signed_decimal(*self as int)
    }

    fn to_sql_repr(&self) -> (r: String) {
        signed_to_string(*self as i64)
    }
}

impl ToSqlRepr for i16 {
    open spec fn sql_repr(&self) -> Seq<char> {
        signed_decimal(*self as int)
    }

    fn to_sql_repr(&self) -> (r: String) {
        signed_to_string(*self as i64)
    }
}

impl ToSqlRepr for i32 {
    open spec fn sql_repr(&self) -> Seq<char> {
        signed_decimal(*self as int)
    }

    fn to_sql_repr(&self) -> (r: String) {
        signed_to_string(*self as i64)
    }
}

impl ToSqlRepr for i64 {
    open spec fn sql_repr(&self) -> Seq<char> {
        signed_decimal(*self as int)
    }

    fn to_sql_repr(&self) -> (r: String) {
        signed_to_string(*self as i64)
    }
}

impl ToSqlRepr for u8 {
    open spec fn sql_repr(&self) -> Seq<char> {
        decimal(*self as nat)
    }

    fn to_sql_repr(&self) -> (r: String) {
        unsigned_to_string(*self as u64)
    }
}

impl ToSqlRepr for u16 {
    open spec fn sql_repr(&self) -> Seq<char> {
        decimal(*self as nat)
    }

    fn to_sql_repr(&self) -> (r: String) {
        unsigned_to_string(*self as u64)
    }
}

impl ToSqlRepr for u32 {
    open spec fn sql_repr(&self) -> Seq<char> {
        decimal(*self as nat)
    }

    fn to_sql_repr(&self) -> (r: String) {
        unsigned_to_string(*self as u64)
    }
}

impl ToSqlRepr for u64 {
    open spec fn sql_repr(&self) -> Seq<char> {
        decimal(*self as nat)
    }

    fn to_sql_repr(&self) -> (r: String) {
        unsigned_to_string(*self as u64)
    }
}

impl ToSqlRepr for bool {
    open spec fn sql_repr(&self) -> Seq<char> {
        if *self {
            "TRUE"@
        } else {
            "FALSE"@
        }
    }

    fn to_sql_repr(&self) -> (r: String) {
        if *self {
            String::from_str("TRUE")
        } else {
            String::from_str("FALSE")
        }
    }
}

impl ToSqlRepr for String {
    open spec fn sql_repr(&self) -> Seq<char> {
        quoted(self@)
    }

    fn to_sql_repr(&self) -> (r: String) {
        quote(self.as_str())
    }
}

impl ToSqlRepr for &str {
    open spec fn sql_repr(&self) -> Seq<char> {
        quoted(self@)
    }

    fn to_sql_repr(&self) -> (r: String) {
        quote(*self)
    }
}

impl<T: ToSqlRepr> ToSqlRepr for Option<T> {
    open spec fn sql_repr(&self) -> Seq<char> {
        match self {
            Some(value) => value.sql_repr(),
            None => "NULL"@,
        }
    }

    fn to_sql_repr(&self) -> (r: String) {
        match self {
            Some(value) => value.to_sql_repr(),
            None => String::from_str("NULL"),
        }
    }
}

/// An absent value is written as `NULL`, whatever the type of the value that
/// is missing, and a present one as the value itself.
pub proof fn lemma_absent_is_null<T: ToSqlRepr>(value: T)
    ensures
        None::<T>.sql_repr() == "NULL"@,
        Some(value).sql_repr() == value.sql_repr(),
{
}

#[verifier::external_type_specification]
#[verifier::external_body]
pub struct ExUuid(uuid::Uuid);

#[verifier::external_type_specification]
#[verifier::external_body]
pub struct ExValue(serde_json::Value);

/// The text of an identifier: its hexadecimal digits in lower case, in five
/// groups with hyphens between them.
pub uninterp spec fn uuid_text(id: uuid::Uuid) -> Seq<char>;

/// The compact JSON text of a structured value.
pub uninterp spec fn json_text(value: serde_json::Value) -> Seq<char>;

/// `Uuid::to_string` of uuid: the hyphenated lower-case form of the
/// identifier, which depends on its 128 bits alone.
#[verifier::external_body]
fn uuid_to_text(id: &uuid::Uuid) -> (r: String)
    ensures
        r@ == uuid_text(*id),
{
    id.to_string()
}

/// `Value::to_string` of serde_json: the value serialised as compact JSON,
/// which depends on the value alone.
#[verifier::external_body]
fn json_to_text(value: &serde_json::Value) -> (r: String)
    ensures
        r@ == json_text(*value),
{
    value.to_string()
}

impl ToSqlRepr for uuid::Uuid {
    open spec fn sql_repr(&self) -> Seq<char> {
        identifier_call(uuid_text(*self))
    }

    fn to_sql_repr(&self) -> (r: String) {
        let text = uuid_to_text(self);
        enclose("UUID_TO_BIN('", text.as_str(), "')")
    }
}

impl ToSqlRepr for serde_json::Value {
    open spec fn sql_repr(&self) -> Seq<char> {
        quoted(json_text(*self))
    }

    fn to_sql_repr(&self) -> (r: String) {
        let text = json_to_text(self);
        quote(text.as_str())
    }
}

} // verus!
