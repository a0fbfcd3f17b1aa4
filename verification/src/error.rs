use vstd::prelude::*;
use vstd::string::*;
use crate::number::{decimal, unsigned_to_string};

verus! {

/// What can go wrong when a statement is assembled.
#[derive(Debug, Clone, Copy, PartialEq, Eq, Structural)]
pub enum Error {
    /// An update was built without a column to set.
    NoUpdateFields,
    /// An update was built without a predicate.
    NoUpdateConditions,
    /// A record was added, or an insert built, before any column was declared.
    NoInsertFields,
    /// An insert was built without a record.
    NoInsertValues,
    /// A record's length differs from the number of declared columns:
    /// the number of columns, then the number of values.
    FieldValueNotMatch(usize, usize),
    /// A delete was built without a predicate.
    NoDeleteConditions,
    /// A direction was asked for before any ordering column was named.
    NoOrderByClause,
}

impl Error {
    /// What the error tells its reader.
    pub open spec fn message_text(self) -> Seq<char> {
        match self {
            Error::NoUpdateFields => "you should provide fields that need to be updated."@,
            Error::NoUpdateConditions =>
                "you should provide constraint(s) before you update record(s)."@,
            Error::NoInsertFields =>
                "you should provide field(s) before you add record(s) to insert."@,
            Error::NoInsertValues => "you should provide value(s) that be inserted."@,
            Error::FieldValueNotMatch(fields, values) =>
                "the number of fields and values are not match, fields: "@ + decimal(
                    fields as nat,
                ) + ", values: "@ + decimal(values as nat),
            Error::NoDeleteConditions =>
                "deleting all records from a table is not allowed, you should provide constraint(s)."@,
            Error::NoOrderByClause =>
                "you should provide field(s) before you call 'desc' or 'asc'."@,
        }
    }

    /// Writes the error out for its reader.
    pub fn message(&self) -> (r: String)
        ensures
            r@ == self.message_text(),
    {
        match self {
            Error::NoUpdateFields => String::from_str(
                "you should provide fields that need to be updated.",
            ),
            Error::NoUpdateConditions => String::from_str(
                "you should provide constraint(s) before you update record(s).",
            ),
            Error::NoInsertFields => String::from_str(
                "you should provide field(s) before you add record(s) to insert.",
            ),
            Error::NoInsertValues => String::from_str(
                "you should provide value(s) that be inserted.",
            ),
            Error::FieldValueNotMatch(fields, values) => {
                let fields_text = unsigned_to_string(*fields as u64);
                let values_text = unsigned_to_string(*values as u64);
                let mut out = String::from_str(
                    "the number of fields and values are not match, fields: ",
                );
                out.append(fields_text.as_str());
                out.append(", values: ");
                out.append(values_text.as_str());
                out
            },
            Error::NoDeleteConditions => String::from_str(
                "deleting all records from a table is not allowed, you should provide constraint(s).",
            ),
            Error::NoOrderByClause => String::from_str(
                "you should provide field(s) before you call 'desc' or 'asc'.",
            ),
        }
    }
}

} // verus!
