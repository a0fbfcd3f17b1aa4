use vstd::prelude::*;
use vstd::string::*;
use crate::error::Error;
use crate::predicate::Predicate;
use crate::text::{join, join_strings, str_views, string_views};
use crate::where_clause::WhereClause;
use crate::SqlBuilder;

verus! {

/// The text that sets `column` to a value that is bound later.
pub open spec fn assignment(column: Seq<char>) -> Seq<char> {
    column + " = ?"@
}

/// The assignment of each column of `columns`.
pub open spec fn assignments(columns: Seq<Seq<char>>) -> Seq<Seq<char>> {
    Seq::new(columns.len(), |i: int| assignment(columns[i]))
}

/// What an update holds: the table, the columns to set, and the predicate
/// that picks the rows.
pub struct Modification {
    pub table: Seq<char>,
    pub columns: Seq<Seq<char>>,
    pub predicate: Option<Predicate>,
}

impl Modification {
    /// The statement: it needs a column to set, and then a predicate.
    pub open spec fn sql(self) -> Result<Seq<char>, Error> {
        if self.columns.len() == 0 {
            Err(Error::NoUpdateFields)
        } else {
            match self.predicate {
                None => Err(Error::NoUpdateConditions),
                Some(p) => Ok(
                    "UPDATE "@ + self.table + " SET "@ + join(assignments(self.columns), ", "@)
                        + " WHERE "@ + p.render(),
                ),
            }
        }
    }
}

/// An update that names a column fails for want of a predicate, and only
/// then; with a predicate it ends in ` WHERE ` and the predicate's own text.
pub proof fn lemma_update_needs_predicate(update: Modification)
    requires
        update.columns.len() > 0,
    ensures
        update.predicate is None <==> update.sql() == Err::<Seq<char>, Error>(
            Error::NoUpdateConditions,
        ),
        update.predicate is Some ==> update.sql() == Ok::<Seq<char>, Error>(
            "UPDATE "@ + update.table + " SET "@ + join(assignments(update.columns), ", "@)
                + " WHERE "@ + update.predicate->Some_0.render(),
        ),
{
}

/// A statement that changes rows of one table.
pub struct UpdateQuery {
    pub table: &'static str,
    pub columns: Vec<&'static str>,
    pub where_clause: Option<WhereClause>,
}

impl View for UpdateQuery {
    type V = Modification;

    open spec fn view(&self) -> Modification {
        Modification {
            table: self.table@,
            columns: str_views(self.columns@),
            predicate: match self.where_clause {
                Some(w) => Some(w@),
                None => None,
            },
        }
    }
}

impl UpdateQuery {
    /// The update of `table`, with no column and no predicate yet.
    pub fn new(table: &'static str) -> (r: Self)
        ensures
            r@ == (Modification { table: table@, columns: Seq::empty(), predicate: None }),
    {
        let r = UpdateQuery { table: table, columns: Vec::new(), where_clause: None };
        assert(r@.columns =~= Seq::empty());
        r
    }

    /// Names one more column to set.
    pub fn add_column(&mut self, column: &'static str) -> (r: &mut Self)
        ensures
            *final(self) == *final(r),
            r@ == (Modification { columns: old(self)@.columns.push(column@), ..old(self)@ }),
    {
        self.columns.push(column);
        assert(self@.columns =~= old(self)@.columns.push(column@));
        self
    }

    /// Names more columns to set, in the order given.
    pub fn add_columns(&mut self, columns: Vec<&'static str>) -> (r: &mut Self)
        ensures
            *final(self) == *final(r),
            r@ == (Modification {
                columns: old(self)@.columns + str_views(columns@),
                ..old(self)@
            }),
    {
        let mut rest = columns;
        self.columns.append(&mut rest);
        assert(self@.columns =~= old(self)@.columns + str_views(columns@));
        self
    }

    /// Sets the predicate that picks the rows, in place of an earlier one.
    pub fn where_clause(&mut self, where_clause: WhereClause) -> (r: &mut Self)
        ensures
            *final(self) == *final(r),
            r@ == (Modification { predicate: Some(where_clause@), ..old(self)@ }),
    {
        self.where_clause = Some(where_clause);
        self
    }

    /// The assignment of each column, in order.
    fn assignment_texts(&self) -> (r: Vec<String>)
        ensures
            string_views(r@) == assignments(self@.columns),
    {
        let mut out: Vec<String> = Vec::new();
        let mut i: usize = 0;
        while i < self.columns.len()
            invariant
                i <= self.columns.len(),
                out@.len() == i,
                forall|k: int| 0 <= k < i ==> (#[trigger] out@[k])@ == assignment(self.columns@[k]@),
            decreases self.columns.len() - i,
        {
            let mut text = String::from_str(self.columns[i]);
            text.append(" = ?");
            out.push(text);
            i += 1;
        }
        assert(string_views(out@) =~= assignments(self@.columns));
        out
    }
}

impl SqlBuilder for UpdateQuery {
    open spec fn sql(&self) -> Result<Seq<char>, Error> {
        self@.sql()
    }

    /// Fails while no column is named, and then while no predicate is set.
    fn build(&self) -> (r: Result<String, Error>) {
        if self.columns.len() == 0 {
            return Err(Error::NoUpdateFields);
        }
        match &self.where_clause {
            None => Err(Error::NoUpdateConditions),
            Some(predicate) => {
                let texts = self.assignment_texts();
                let updated = join_strings(texts.as_slice(), ", ");
                let filter = predicate.to_sql();
                let mut sql = String::from_str("UPDATE ");
                sql.append(self.table);
                sql.append(" SET ");
                sql.append(updated.as_str());
                sql.append(" WHERE ");
                sql.append(filter.as_str());
                Ok(sql)
            },
        }
    }
}

} // verus!
