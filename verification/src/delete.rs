use vstd::prelude::*;
use vstd::string::*;
use crate::error::Error;
use crate::predicate::Predicate;
use crate::where_clause::WhereClause;
use crate::SqlBuilder;

verus! {

/// What a delete holds: the table, and the predicate that picks the rows.
pub struct Deletion {
    pub table: Seq<char>,
    pub predicate: Option<Predicate>,
}

impl Deletion {
    /// The statement: it needs a predicate, so that no delete empties a table.
    pub open spec fn sql(self) -> Result<Seq<char>, Error> {
        match self.predicate {
            None => Err(Error::NoDeleteConditions),
            Some(p) => Ok("DELETE FROM "@ + self.table + " WHERE "@ + p.render()),
        }
    }
}

/// A delete fails for want of a predicate, and only then; with a predicate
/// it ends in ` WHERE ` and the predicate's own text.
pub proof fn lemma_delete_needs_predicate(delete: Deletion)
    ensures
        delete.predicate is None <==> delete.sql() is Err,
        delete.predicate is None ==> delete.sql() == Err::<Seq<char>, Error>(
            Error::NoDeleteConditions,
        ),
        delete.predicate is Some ==> delete.sql() == Ok::<Seq<char>, Error>(
            "DELETE FROM "@ + delete.table + " WHERE "@ + delete.predicate->Some_0.render(),
        ),
{
}

/// A statement that removes rows of one table.
pub struct DeleteQuery {
    pub table: &'static str,
    pub where_clause: Option<WhereClause>,
}

impl View for DeleteQuery {
    type V = Deletion;

    open spec fn view(&self) -> Deletion {
        Deletion {
            table: self.table@,
            predicate: match self.where_clause {
                Some(w) => Some(w@),
                None => None,
            },
        }
    }
}

impl DeleteQuery {
    /// The delete from `table`, with no predicate yet.
    pub fn new(table: &'static str) -> (r: Self)
        ensures
            r@ == (Deletion { table: table@, predicate: None }),
    {
        DeleteQuery { table: table, where_clause: None }
    }

    /// Sets the predicate that picks the rows, in place of an earlier one.
    pub fn where_clause(self, where_clause: WhereClause) -> (r: Self)
        ensures
            r@ == (Deletion { table: self@.table, predicate: Some(where_clause@) }),
    {
        DeleteQuery { table: self.table, where_clause: Some(where_clause) }
    }
}

impl SqlBuilder for DeleteQuery {
    open spec fn sql(&self) -> Result<Seq<char>, Error> {
        self@.sql()
    }

    /// Fails while no predicate is set.
    fn build(&self) -> (r: Result<String, Error>) {
        match &self.where_clause {
            None => Err(Error::NoDeleteConditions),
            Some(predicate) => {
                let filter = predicate.to_sql();
                let mut sql = String::from_str("DELETE FROM ");
                sql.append(self.table);
                sql.append(" WHERE ");
                sql.append(filter.as_str());
                Ok(sql)
            },
        }
    }
}

} // verus!
