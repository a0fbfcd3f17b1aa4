use vstd::prelude::*;
use vstd::string::*;
use crate::error::Error;
use crate::number::{decimal, unsigned_to_string};
use crate::predicate::Predicate;
use crate::text::{join, join_strings, join_strs, str_views, string_views};
use crate::where_clause::WhereClause;
use crate::SqlBuilder;

verus! {

/// The direction in which rows are sorted.
#[derive(Debug, Clone, Copy, PartialEq, Eq, Structural)]
pub enum Order {
    Asc,
    Desc,
}

impl Order {
    /// The keyword of the direction.
    pub open spec fn keyword(self) -> Seq<char> {
        match self {
            Order::Asc => "ASC"@,
            Order::Desc => "DESC"@,
        }
    }
}

impl Default for Order {
    /// Ascending, unless asked otherwise.
    fn default() -> (r: Self)
        ensures
            r == Order::Asc,
    {
        Order::Asc
    }
}

impl SqlBuilder for Order {
    open spec fn sql(&self) -> Result<Seq<char>, Error> {
        Ok(self.keyword())
    }

    /// Never fails.
    fn build(&self) -> (r: Result<String, Error>) {
        match self {
            Order::Asc => Ok(String::from_str("ASC")),
            Order::Desc => Ok(String::from_str("DESC")),
        }
    }
}

/// What one sort term holds: the names of its columns and the direction.
pub struct SortTerm {
    pub columns: Seq<Seq<char>>,
    pub order: Order,
}

impl SortTerm {
    /// The columns with commas between them, a blank, and the direction.
    pub open spec fn text(self) -> Seq<char> {
        join(self.columns, ", "@) + " "@ + self.order.keyword()
    }
}

/// One sort term: its columns, and the direction that follows them.
#[derive(Debug, Clone)]
pub struct OrderBy {
    pub columns: Vec<&'static str>,
    pub order: Order,
}

impl View for OrderBy {
    type V = SortTerm;

    open spec fn view(&self) -> SortTerm {
        SortTerm { columns: str_views(self.columns@), order: self.order }
    }
}

impl OrderBy {
    /// A term on one column, ascending.
    pub fn order_by(field: &'static str) -> (r: Self)
        ensures
            r@ == (SortTerm { columns: seq![field@], order: Order::Asc }),
    {
        let mut columns: Vec<&'static str> = Vec::new();
        columns.push(field);
        let r = OrderBy { columns: columns, order: Order::Asc };
        assert(r@.columns =~= seq![field@]);
        r
    }

    /// A term on the given columns, ascending.
    pub fn order_by_columns(columns: Vec<&'static str>) -> (r: Self)
        ensures
            r.columns == columns,
            r@ == (SortTerm { columns: str_views(columns@), order: Order::Asc }),
    {
        OrderBy { columns: columns, order: Order::Asc }
    }

    /// Turns the term to descending.
    pub fn desc(&mut self)
        ensures
            final(self).columns == old(self).columns,
            final(self).order == Order::Desc,
    {
        self.order = Order::Desc;
    }

    /// Turns the term to ascending.
    pub fn asc(&mut self)
        ensures
            final(self).columns == old(self).columns,
            final(self).order == Order::Asc,
    {
        self.order = Order::Asc;
    }

    /// Writes the term out.
    pub fn to_sql(&self) -> (r: String)
        ensures
            r@ == self@.text(),
    {
        let mut out = join_strs(&self.columns, ", ");
        out.append(" ");
        match self.order {
            Order::Asc => out.append("ASC"),
            Order::Desc => out.append("DESC"),
        }
        out
    }
}

impl SqlBuilder for OrderBy {
    open spec fn sql(&self) -> Result<Seq<char>, Error> {
        Ok(self@.text())
    }

    /// Never fails.
    fn build(&self) -> (r: Result<String, Error>) {
        Ok(self.to_sql())
    }
}

/// The view of each sort term of `terms`.
pub open spec fn sort_terms(terms: Seq<OrderBy>) -> Seq<SortTerm> {
    Seq::new(terms.len(), |i: int| terms[i]@)
}

/// The text of each sort term of `terms`.
pub open spec fn sort_texts(terms: Seq<SortTerm>) -> Seq<Seq<char>> {
    Seq::new(terms.len(), |i: int| terms[i].text())
}

/// What a query holds.
pub struct Selection {
    pub table: Seq<char>,
    pub columns: Seq<Seq<char>>,
    pub predicate: Option<Predicate>,
    pub order_by: Seq<SortTerm>,
    pub limit: Option<nat>,
    pub offset: Option<nat>,
}

impl Selection {
    /// The columns that are read: all of them where none is named.
    pub open spec fn column_list(self) -> Seq<char> {
        if self.columns.len() == 0 {
            "*"@
        } else {
            join(self.columns, ", "@)
        }
    }

    /// The filter, where there is a predicate.
    pub open spec fn where_part(self) -> Seq<char> {
        match self.predicate {
            Some(p) => " WHERE "@ + p.render(),
            None => Seq::empty(),
        }
    }

    /// The sort terms with commas between them, where there is one.
    pub open spec fn order_part(self) -> Seq<char> {
        if self.order_by.len() == 0 {
            Seq::empty()
        } else {
            " ORDER BY "@ + join(sort_texts(self.order_by), ", "@)
        }
    }

    /// The largest number of rows, where it is set.
    pub open spec fn limit_part(self) -> Seq<char> {
        match self.limit {
            Some(n) => " LIMIT "@ + decimal(n),
            None => Seq::empty(),
        }
    }

    /// The number of rows that are skipped, where it is set.
    pub open spec fn offset_part(self) -> Seq<char> {
        match self.offset {
            Some(n) => " OFFSET "@ + decimal(n),
            None => Seq::empty(),
        }
    }

    /// The statement, part by part.
    pub open spec fn text(self) -> Seq<char> {
        "SELECT "@ + self.column_list() + " FROM "@ + self.table + self.where_part()
            + self.order_part() + self.limit_part() + self.offset_part()
    }

    /// The query with the direction of its last sort term set to `order`.
    pub open spec fn turned(self, order: Order) -> Selection
        recommends
            self.order_by.len() > 0,
    {
        Selection {
            order_by: self.order_by.update(
                self.order_by.len() - 1,
                SortTerm { order: order, ..self.order_by.last() },
            ),
            ..self
        }
    }
}

/// A query that reads rows of one table.
#[derive(Debug, Clone)]
pub struct SelectQuery {
    table: &'static str,
    columns: Vec<&'static str>,
    where_clause: Option<WhereClause>,
    order_by: Vec<OrderBy>,
    limit: Option<usize>,
    offset: Option<usize>,
}

impl View for SelectQuery {
    type V = Selection;

    closed spec fn view(&self) -> Selection {
        Selection {
            table: self.table@,
            columns: str_views(self.columns@),
            predicate: match self.where_clause {
                Some(w) => Some(w@),
                None => None,
            },
            order_by: sort_terms(self.order_by@),
            limit: match self.limit {
                Some(n) => Some(n as nat),
                None => None,
            },
            offset: match self.offset {
                Some(n) => Some(n as nat),
                None => None,
            },
        }
    }
}

impl Default for SelectQuery {
    /// The query on the table without a name.
    fn default() -> (r: Self)
        ensures
            r@ == (Selection {
                table: ""@,
                columns: Seq::empty(),
                predicate: None,
                order_by: Seq::empty(),
                limit: None,
                offset: None,
            }),
    {
        SelectQuery::new("")
    }
}

impl SelectQuery {
    /// The query that reads every column of every row of `table`.
    pub fn new(table: &'static str) -> (r: Self)
        ensures
            r@ == (Selection {
                table: table@,
                columns: Seq::empty(),
                predicate: None,
                order_by: Seq::empty(),
                limit: None,
                offset: None,
            }),
    {
        let r = SelectQuery {
            table: table,
            columns: Vec::new(),
            where_clause: None,
            order_by: Vec::new(),
            limit: None,
            offset: None,
        };
        assert(r@.columns =~= Seq::empty());
        assert(r@.order_by =~= Seq::empty());
        r
    }

    /// Names one more column to read.
    pub fn add_column(&mut self, column: &'static str) -> (r: &mut Self)
        ensures
            *final(self) == *final(r),
            r@ == (Selection { columns: old(self)@.columns.push(column@), ..old(self)@ }),
    {
        self.columns.push(column);
        assert(self@.columns =~= old(self)@.columns.push(column@));
        self
    }

    /// Names more columns to read, in the order given.
    pub fn add_columns(&mut self, columns: Vec<&'static str>) -> (r: &mut Self)
        ensures
            *final(self) == *final(r),
            r@ == (Selection {
                columns: old(self)@.columns + str_views(columns@),
                ..old(self)@
            }),
    {
        let mut rest = columns;
        self.columns.append(&mut rest);
        assert(self@.columns =~= old(self)@.columns + str_views(columns@));
        self
    }

    /// Sets the predicate that rows must meet, in place of an earlier one.
    pub fn where_clause(&mut self, where_clause: WhereClause) -> (r: &mut Self)
        ensures
            *final(self) == *final(r),
            r@ == (Selection { predicate: Some(where_clause@), ..old(self)@ }),
    {
        self.where_clause = Some(where_clause);
        self
    }

    /// Adds a sort term on one column, ascending.
    pub fn order_by(&mut self, field: &'static str) -> (r: &mut Self)
        ensures
            *final(self) == *final(r),
            r@ == (Selection {
                order_by: old(self)@.order_by.push(
                    SortTerm { columns: seq![field@], order: Order::Asc },
                ),
                ..old(self)@
            }),
    {
        let term = OrderBy::order_by(field);
        self.order_by.push(term);
        assert(self@.order_by =~= old(self)@.order_by.push(term@));
        self
    }

    /// Adds a sort term on the given columns, ascending.
    pub fn order_by_columns(&mut self, columns: Vec<&'static str>) -> (r: &mut Self)
        ensures
            *final(self) == *final(r),
            r@ == (Selection {
                order_by: old(self)@.order_by.push(
                    SortTerm { columns: str_views(columns@), order: Order::Asc },
                ),
                ..old(self)@
            }),
    {
        let term = OrderBy::order_by_columns(columns);
        self.order_by.push(term);
        assert(self@.order_by =~= old(self)@.order_by.push(term@));
        self
    }

    /// Sets the direction of the last sort term. Where the query has no sort
    /// term there is nothing to turn: the call fails and leaves the query as
    /// it was.
    fn turn(&mut self, order: Order) -> (r: Result<&mut Self, Error>)
        ensures
            match r {
                Ok(q) => {
                    &&& old(self)@.order_by.len() > 0
                    &&& *final(self) == *final(q)
                    &&& q@ == old(self)@.turned(order)
                },
                Err(e) => {
                    &&& old(self)@.order_by.len() == 0
                    &&& e == Error::NoOrderByClause
                    &&& *final(self) == *old(self)
                },
            },
    {
        if self.order_by.len() == 0 {
            return Err(Error::NoOrderByClause);
        }
        let mut last = self.order_by.pop().unwrap();
        last.order = order;
        self.order_by.push(last);
        assert(self@.order_by =~= old(self)@.turned(order).order_by);
        Ok(self)
    }

    /// Turns the last sort term to descending. Fails, and changes nothing,
    /// where no sort term was added before.
    pub fn desc(&mut self) -> (r: Result<&mut Self, Error>)
        ensures
            match r {
                Ok(q) => {
                    &&& old(self)@.order_by.len() > 0
                    &&& *final(self) == *final(q)
                    &&& q@ == old(self)@.turned(Order::Desc)
                },
                Err(e) => {
                    &&& old(self)@.order_by.len() == 0
                    &&& e == Error::NoOrderByClause
                    &&& *final(self) == *old(self)
                },
            },
    {
        self.turn(Order::Desc)
    }

    /// Turns the last sort term to ascending. Fails, and changes nothing,
    /// where no sort term was added before.
    pub fn asc(&mut self) -> (r: Result<&mut Self, Error>)
        ensures
            match r {
                Ok(q) => {
                    &&& old(self)@.order_by.len() > 0
                    &&& *final(self) == *final(q)
                    &&& q@ == old(self)@.turned(Order::Asc)
                },
                Err(e) => {
                    &&& old(self)@.order_by.len() == 0
                    &&& e == Error::NoOrderByClause
                    &&& *final(self) == *old(self)
                },
            },
    {
        self.turn(Order::Asc)
    }

    /// Sets the largest number of rows to read.
    pub fn limit(&mut self, limit: usize) -> (r: &mut Self)
        ensures
            *final(self) == *final(r),
            r@ == (Selection { limit: Some(limit as nat), ..old(self)@ }),
    {
        self.limit = Some(limit);
        self
    }

    /// Sets the number of rows to skip.
    pub fn offset(&mut self, offset: usize) -> (r: &mut Self)
        ensures
            *final(self) == *final(r),
            r@ == (Selection { offset: Some(offset as nat), ..old(self)@ }),
    {
        self.offset = Some(offset);
        self
    }

    /// The text of each sort term, in order.
    fn sort_term_texts(&self) -> (r: Vec<String>)
        ensures
            string_views(r@) == sort_texts(self@.order_by),
    {
        let mut out: Vec<String> = Vec::new();
        let mut i: usize = 0;
        while i < self.order_by.len()
            invariant
                i <= self.order_by.len(),
                out@.len() == i,
                forall|k: int| 0 <= k < i ==> (#[trigger] out@[k])@ == self.order_by@[k]@.text(),
            decreases self.order_by.len() - i,
        {
            out.push(self.order_by[i].to_sql());
            i += 1;
        }
        assert(string_views(out@) =~= sort_texts(self@.order_by));
        out
    }

    /// The columns that are read.
    fn column_list(&self) -> (r: String)
        ensures
            r@ == self@.column_list(),
    {
        if self.columns.len() == 0 {
            String::from_str("*")
        } else {
            join_strs(&self.columns, ", ")
        }
    }

    /// The filter, or nothing.
    fn where_part(&self) -> (r: String)
        ensures
            r@ == self@.where_part(),
    {
        match &self.where_clause {
            Some(predicate) => {
                let text = predicate.to_sql();
                let mut out = String::from_str(" WHERE ");
                out.append(text.as_str());
                out
            },
            None => String::new(),
        }
    }

    /// The sort terms, or nothing.
    fn order_part(&self) -> (r: String)
        ensures
            r@ == self@.order_part(),
    {
        if self.order_by.len() == 0 {
            String::new()
        } else {
            let texts = self.sort_term_texts();
            let terms = join_strings(texts.as_slice(), ", ");
            let mut out = String::from_str(" ORDER BY ");
            out.append(terms.as_str());
            out
        }
    }

    /// The largest number of rows, or nothing.
    fn limit_part(&self) -> (r: String)
        ensures
            r@ == self@.limit_part(),
    {
        match self.limit {
            Some(limit) => {
                let digits = unsigned_to_string(limit as u64);
                let mut out = String::from_str(" LIMIT ");
                out.append(digits.as_str());
                out
            },
            None => String::new(),
        }
    }

    /// The number of rows that are skipped, or nothing.
    fn offset_part(&self) -> (r: String)
        ensures
            r@ == self@.offset_part(),
    {
        match self.offset {
            Some(offset) => {
                let digits = unsigned_to_string(offset as u64);
                let mut out = String::from_str(" OFFSET ");
                out.append(digits.as_str());
                out
            },
            None => String::new(),
        }
    }
}

impl SqlBuilder for SelectQuery {
    open spec fn sql(&self) -> Result<Seq<char>, Error> {
        Ok(self@.text())
    }

    /// Never fails: a query needs nothing but its table.
    fn build(&self) -> (r: Result<String, Error>) {
        let columns = self.column_list();
        let filter = self.where_part();
        let order = self.order_part();
        let limit = self.limit_part();
        let offset = self.offset_part();
        let mut sql = String::from_str("SELECT ");
        sql.append(columns.as_str());
        sql.append(" FROM ");
        sql.append(self.table);
        sql.append(filter.as_str());
        sql.append(order.as_str());
        sql.append(limit.as_str());
        sql.append(offset.as_str());
        Ok(sql)
    }
}

} // verus!
