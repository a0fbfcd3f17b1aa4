use vstd::prelude::*;
use vstd::string::*;
use crate::error::Error;
use crate::text::{enclose, enclosed, join, join_strings, join_strs, str_views, string_views};
use crate::SqlBuilder;

verus! {

/// The text of one record: its values with commas between them, in
/// parentheses.
pub open spec fn record_text(values: Seq<Seq<char>>) -> Seq<char> {
    enclosed("("@, join(values, ", "@), ")"@)
}

/// What an insert holds: the table, the declared columns, and the text of
/// each record added so far.
pub struct Insertion {
    pub table: Seq<char>,
    pub columns: Seq<Seq<char>>,
    pub records: Seq<Seq<char>>,
}

impl Insertion {
    /// The insert with one more record, made of `values`.
    pub open spec fn with_record(self, values: Seq<Seq<char>>) -> Insertion {
        Insertion { records: self.records.push(record_text(values)), ..self }
    }

    /// Whether a record of `count` values fits the declared columns. While
    /// no column is declared, every record does.
    pub open spec fn fits(self, count: nat) -> bool {
        self.columns.len() == 0 || self.columns.len() == count
    }

    /// The statement: it needs a column, and then a record.
    pub open spec fn sql(self) -> Result<Seq<char>, Error> {
        if self.columns.len() == 0 {
            Err(Error::NoInsertFields)
        } else if self.records.len() == 0 {
            Err(Error::NoInsertValues)
        } else {
            Ok(
                "INSERT INTO "@ + self.table + " ("@ + join(self.columns, ", "@) + ") VALUES "@
                    + join(self.records, ", "@),
            )
        }
    }
}

/// A value that can be added to an insert as one record. Which values it
/// stands for is the implementor's to say: any type can be a record, also one
/// that is written without proof.
pub trait AsInsertRecord {
    /// The literals of the record's values, in the order of the columns.
    fn as_insert_record(&self) -> Vec<String>;
}

/// A statement that adds records to one table.
#[derive(Debug, Clone)]
pub struct InsertQuery {
    table: &'static str,
    columns: Vec<&'static str>,
    values: Vec<String>,
}

impl View for InsertQuery {
    type V = Insertion;

    closed spec fn view(&self) -> Insertion {
        Insertion {
            table: self.table@,
            columns: str_views(self.columns@),
            records: string_views(self.values@),
        }
    }
}

impl InsertQuery {
    /// The insert into `table`, with no column and no record yet.
    pub fn new(table: &'static str) -> (r: InsertQuery)
        ensures
            r@ == (Insertion { table: table@, columns: Seq::empty(), records: Seq::empty() }),
    {
        let r = InsertQuery { table: table, columns: Vec::new(), values: Vec::new() };
        assert(r@.columns =~= Seq::empty());
        assert(r@.records =~= Seq::empty());
        r
    }

    /// Declares one more column.
    pub fn add_column(&mut self, column: &'static str) -> (r: &mut InsertQuery)
        ensures
            *final(self) == *final(r),
            r@ == (Insertion { columns: old(self)@.columns.push(column@), ..old(self)@ }),
    {
        self.columns.push(column);
        assert(self@.columns =~= old(self)@.columns.push(column@));
        self
    }

    /// Declares more columns, in the order given.
    pub fn add_columns(&mut self, columns: Vec<&'static str>) -> (r: &mut InsertQuery)
        ensures
            *final(self) == *final(r),
            r@ == (Insertion {
                columns: old(self)@.columns + str_views(columns@),
                ..old(self)@
            }),
    {
        let mut rest = columns;
        self.columns.append(&mut rest);
        assert(self@.columns =~= old(self)@.columns + str_views(columns@));
        self
    }

    /// Adds the record made of `record`, unless columns are declared and
    /// their number differs from the number of values.
    pub fn add_record_values(&mut self, record: &[String]) -> (r: Result<&mut InsertQuery, Error>)
        ensures
            match r {
                Ok(q) => {
                    &&& old(self)@.fits(record@.len())
                    &&& *final(self) == *final(q)
                    &&& q@ == old(self)@.with_record(string_views(record@))
                },
                Err(e) => {
                    &&& !old(self)@.fits(record@.len())
                    &&& *final(self) == *old(self)
                    &&& e matches Error::FieldValueNotMatch(columns, count)
                    &&& columns == old(self)@.columns.len()
                    &&& count == record@.len()
                },
            },
    {
        if self.columns.len() != 0 && self.columns.len() != record.len() {
            return Err(Error::FieldValueNotMatch(self.columns.len(), record.len()));
        }
        let values = join_strings(record, ", ");
        self.values.push(enclose("(", values.as_str(), ")"));
        assert(self@.records =~= old(self)@.records.push(record_text(string_views(record@))));
        Ok(self)
    }

    /// Adds the record made of `record`. A column must have been declared,
    /// and there must be as many values as columns.
    pub fn add_record_raw(&mut self, record: &[String]) -> (r: Result<&mut InsertQuery, Error>)
        ensures
            match r {
                Ok(q) => {
                    &&& old(self)@.columns.len() == record@.len()
                    &&& record@.len() > 0
                    &&& *final(self) == *final(q)
                    &&& q@ == old(self)@.with_record(string_views(record@))
                },
                Err(e) => {
                    &&& *final(self) == *old(self)
                    &&& old(self)@.columns.len() == 0 ==> e == Error::NoInsertFields
                    &&& old(self)@.columns.len() != 0 ==> {
                        &&& old(self)@.columns.len() != record@.len()
                        &&& e matches Error::FieldValueNotMatch(columns, count)
                        &&& columns == old(self)@.columns.len()
                        &&& count == record@.len()
                    }
                },
            },
    {
        if self.columns.len() == 0 {
            return Err(Error::NoInsertFields);
        }
        self.add_record_values(record)
    }

    /// Adds the record that `record` stands for. Which values that is, the
    /// record decides; they are asked for once, and what is done with them is
    /// what `add_record_values` does. While no column is declared the record
    /// is always added.
    pub fn add_record_from<T: AsInsertRecord>(&mut self, record: &T) -> (r: Result<
        &mut InsertQuery,
        Error,
    >)
        ensures
            old(self)@.columns.len() == 0 ==> r is Ok,
            match r {
                Ok(q) => {
                    &&& *final(self) == *final(q)
                    &&& exists|values: Seq<Seq<char>>|
                        old(self)@.fits(values.len()) && q@ == #[trigger] old(self)@.with_record(
                            values,
                        )
                },
                Err(e) => {
                    &&& *final(self) == *old(self)
                    &&& e matches Error::FieldValueNotMatch(columns, count)
                    &&& columns == old(self)@.columns.len()
                    &&& !old(self)@.fits(count as nat)
                },
            },
    {
        let values = record.as_insert_record();
        match self.add_record_values(values.as_slice()) {
            Ok(q) => {
                proof {
                    let added = string_views(values@);
                    assert(old(self)@.fits(added.len()));
                    assert(q@ == old(self)@.with_record(added));
                }
                Ok(q)
            },
            Err(e) => Err(e),
        }
    }
}

impl SqlBuilder for InsertQuery {
    open spec fn sql(&self) -> Result<Seq<char>, Error> {
        self@.sql()
    }

    /// Fails while no column is declared, and then while no record is added.
    fn build(&self) -> (r: Result<String, Error>) {
        if self.columns.len() == 0 {
            return Err(Error::NoInsertFields);
        }
        if self.values.len() == 0 {
            return Err(Error::NoInsertValues);
        }
        let columns = join_strs(&self.columns, ", ");
        let values = join_strings(self.values.as_slice(), ", ");
        let mut sql = String::from_str("INSERT INTO ");
        sql.append(self.table);
        sql.append(" (");
        sql.append(columns.as_str());
        sql.append(") VALUES ");
        sql.append(values.as_str());
        Ok(sql)
    }
}

} // verus!
