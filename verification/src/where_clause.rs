use vstd::prelude::*;
use vstd::string::*;
use crate::error::Error;
use crate::predicate::{Leaf, Operator, Predicate};
use crate::repr::ToSqlRepr;
use crate::text::{copy_strings, join, join_strings, lemma_join_push, string_views};
use crate::SqlBuilder;

verus! {

/// The text that stands for a value that is bound later.
pub open spec fn placeholder() -> Seq<char> {
    "?"@
}

/// `count` placeholders.
pub open spec fn placeholders(count: nat) -> Seq<Seq<char>> {
    Seq::new(count, |i: int| placeholder())
}

/// The leaf on `column` with `op`, each of its `count` values a placeholder.
pub open spec fn placeholder_leaf(column: Seq<char>, op: Operator, count: nat) -> Leaf {
    Leaf { column: column, op: op, values: placeholders(count) }
}

/// The leaf on `column` with `op` and the one value text `value`.
pub open spec fn value_leaf(column: Seq<char>, op: Operator, value: Seq<char>) -> Leaf {
    Leaf { column: column, op: op, values: seq![value] }
}

/// The leaf that stands for a fragment written out as it is.
pub open spec fn raw_leaf(fragment: Seq<char>) -> Leaf {
    Leaf { column: fragment, op: Operator::Raw, values: Seq::empty() }
}

/// The list of a membership test holds one placeholder for each value, with a
/// comma and a blank between neighbours: nothing for no value, one
/// placeholder alone for one value, and `3 * count - 2` characters in all for
/// `count` values.
pub proof fn lemma_placeholder_list(count: nat)
    ensures
        placeholders(count).len() == count,
        join(placeholders(0), ", "@) == Seq::<char>::empty(),
        join(placeholders(1), ", "@) == placeholder(),
        count > 0 ==> join(placeholders(count), ", "@) == join(placeholders((count - 1) as nat), ", "@)
            + (if count == 1 {
            Seq::<char>::empty()
        } else {
            ", "@
        }) + placeholder(),
        join(placeholders(count), ", "@).len() == if count == 0 {
            0
        } else {
            3 * count - 2
        },
    decreases count,
{
    reveal_strlit("?");
    reveal_strlit(", ");
    assert(placeholders(1)[0] == placeholder());
    if count > 0 {
        let shorter = placeholders((count - 1) as nat);
        lemma_placeholder_list((count - 1) as nat);
        assert(placeholders(count) =~= shorter.push(placeholder()));
        lemma_join_push(shorter, ", "@, placeholder());
        if count == 1 {
            assert(join(shorter, ", "@) + Seq::<char>::empty() + placeholder() =~= placeholder());
        }
    }
}

/// A membership test on `column` is written as the column, the keyword, and
/// the list of its values in parentheses.
pub proof fn lemma_membership_text(column: Seq<char>, count: nat)
    ensures
        placeholder_leaf(column, Operator::In, count).render() == column + " IN ("@ + join(
            placeholders(count),
            ", "@,
        ) + ")"@,
        placeholder_leaf(column, Operator::NotIn, count).render() == column + " NOT IN ("@ + join(
            placeholders(count),
            ", "@,
        ) + ")"@,
{
}

/// A leaf condition: one column, one operator, and the texts of the values
/// that the operator takes. Each variant holds exactly as many value texts as
/// its operator needs.
#[derive(Debug)]
pub enum WhereCond {
    Equal(&'static str, String),
    NotEqual(&'static str, String),
    GreaterThan(&'static str, String),
    GreaterThanOrEqual(&'static str, String),
    LessThan(&'static str, String),
    LessThanOrEqual(&'static str, String),
    Between(&'static str, String, String),
    NotBetween(&'static str, String, String),
    In(&'static str, Vec<String>),
    NotIn(&'static str, Vec<String>),
    Like(&'static str, String),
    NotLike(&'static str, String),
    IsNull(&'static str),
    IsNotNull(&'static str),
    RawCondition(&'static str),
}

impl View for WhereCond {
    type V = Leaf;

    open spec fn view(&self) -> Leaf {
        match *self {
            WhereCond::Equal(field, value) => Leaf {
                column: field@,
                op: Operator::Equal,
                values: seq![value@],
            },
            WhereCond::NotEqual(field, value) => Leaf {
                column: field@,
                op: Operator::NotEqual,
                values: seq![value@],
            },
            WhereCond::GreaterThan(field, value) => Leaf {
                column: field@,
                op: Operator::GreaterThan,
                values: seq![value@],
            },
            WhereCond::GreaterThanOrEqual(field, value) => Leaf {
                column: field@,
                op: Operator::GreaterThanOrEqual,
                values: seq![value@],
            },
            WhereCond::LessThan(field, value) => Leaf {
                column: field@,
                op: Operator::LessThan,
                values: seq![value@],
            },
            WhereCond::LessThanOrEqual(field, value) => Leaf {
                column: field@,
                op: Operator::LessThanOrEqual,
                values: seq![value@],
            },
            WhereCond::Between(field, low, high) => Leaf {
                column: field@,
                op: Operator::Between,
                values: seq![low@, high@],
            },
            WhereCond::NotBetween(field, low, high) => Leaf {
                column: field@,
                op: Operator::NotBetween,
                values: seq![low@, high@],
            },
            WhereCond::In(field, values) => Leaf {
                column: field@,
                op: Operator::In,
                values: string_views(values@),
            },
            WhereCond::NotIn(field, values) => Leaf {
                column: field@,
                op: Operator::NotIn,
                values: string_views(values@),
            },
            WhereCond::Like(field, value) => Leaf {
                column: field@,
                op: Operator::Like,
                values: seq![value@],
            },
            WhereCond::NotLike(field, value) => Leaf {
                column: field@,
                op: Operator::NotLike,
                values: seq![value@],
            },
            WhereCond::IsNull(field) => Leaf {
                column: field@,
                op: Operator::IsNull,
                values: Seq::empty(),
            },
            WhereCond::IsNotNull(field) => Leaf {
                column: field@,
                op: Operator::IsNotNull,
                values: Seq::empty(),
            },
            WhereCond::RawCondition(fragment) => raw_leaf(fragment@),
        }
    }
}

impl Clone for WhereCond {
    /// The copy stands for the same leaf.
    fn clone(&self) -> (r: Self)
        ensures
            r@ == self@,
    {
        match self {
            WhereCond::Equal(field, value) => WhereCond::Equal(*field, value.clone()),
            WhereCond::NotEqual(field, value) => WhereCond::NotEqual(*field, value.clone()),
            WhereCond::GreaterThan(field, value) => WhereCond::GreaterThan(*field, value.clone()),
            WhereCond::GreaterThanOrEqual(field, value) => WhereCond::GreaterThanOrEqual(*field, value.clone()),
            WhereCond::LessThan(field, value) => WhereCond::LessThan(*field, value.clone()),
            WhereCond::LessThanOrEqual(field, value) => WhereCond::LessThanOrEqual(*field, value.clone()),
            WhereCond::Between(field, low, high) => WhereCond::Between(
                *field,
                low.clone(),
                high.clone(),
            ),
            WhereCond::NotBetween(field, low, high) => WhereCond::NotBetween(
                *field,
                low.clone(),
                high.clone(),
            ),
            WhereCond::In(field, values) => WhereCond::In(*field, copy_strings(values)),
            WhereCond::NotIn(field, values) => WhereCond::NotIn(*field, copy_strings(values)),
            WhereCond::Like(field, value) => WhereCond::Like(*field, value.clone()),
            WhereCond::NotLike(field, value) => WhereCond::NotLike(*field, value.clone()),
            WhereCond::IsNull(field) => WhereCond::IsNull(*field),
            WhereCond::IsNotNull(field) => WhereCond::IsNotNull(*field),
            WhereCond::RawCondition(field) => WhereCond::RawCondition(*field),
        }
    }
}

/// A text that holds one placeholder.
fn placeholder_text() -> (r: String)
    ensures
        r@ == placeholder(),
{
    String::from_str("?")
}

/// `count` texts, each one placeholder.
fn placeholder_texts(count: usize) -> (r: Vec<String>)
    ensures
        string_views(r@) == placeholders(count as nat),
{
    let mut out: Vec<String> = Vec::new();
    let mut i: usize = 0;
    while i < count
        invariant
            i <= count,
            out@.len() == i,
            forall|k: int| 0 <= k < i ==> (#[trigger] out@[k])@ == placeholder(),
        decreases count - i,
    {
        out.push(placeholder_text());
        i += 1;
    }
    assert(string_views(out@) =~= placeholders(count as nat));
    out
}

impl WhereCond {
    /// The condition that `field` equals a value, the value left as a placeholder.
    pub fn equal(field: &'static str) -> (r: Self)
        ensures
            r@ == placeholder_leaf(field@, Operator::Equal, 1),
    {
        let r = WhereCond::Equal(field, placeholder_text());
        assert(r@.values =~= placeholders(1));
        r
    }

    /// The condition that `field` differs from a value, the value left as a placeholder.
    pub fn not_equal(field: &'static str) -> (r: Self)
        ensures
            r@ == placeholder_leaf(field@, Operator::NotEqual, 1),
    {
        let r = WhereCond::NotEqual(field, placeholder_text());
        assert(r@.values =~= placeholders(1));
        r
    }

    /// The condition that `field` is greater than a value, the value left as a placeholder.
    pub fn greater_than(field: &'static str) -> (r: Self)
        ensures
            r@ == placeholder_leaf(field@, Operator::GreaterThan, 1),
    {
        let r = WhereCond::GreaterThan(field, placeholder_text());
        assert(r@.values =~= placeholders(1));
        r
    }

    /// The condition that `field` is at least a value, the value left as a placeholder.
    pub fn greater_than_or_equal(field: &'static str) -> (r: Self)
        ensures
            r@ == placeholder_leaf(field@, Operator::GreaterThanOrEqual, 1),
    {
        let r = WhereCond::GreaterThanOrEqual(field, placeholder_text());
        assert(r@.values =~= placeholders(1));
        r
    }

    /// The condition that `field` is less than a value, the value left as a placeholder.
    pub fn less_than(field: &'static str) -> (r: Self)
        ensures
            r@ == placeholder_leaf(field@, Operator::LessThan, 1),
    {
        let r = WhereCond::LessThan(field, placeholder_text());
        assert(r@.values =~= placeholders(1));
        r
    }

    /// The condition that `field` is at most a value, the value left as a placeholder.
    pub fn less_than_or_equal(field: &'static str) -> (r: Self)
        ensures
            r@ == placeholder_leaf(field@, Operator::LessThanOrEqual, 1),
    {
        let r = WhereCond::LessThanOrEqual(field, placeholder_text());
        assert(r@.values =~= placeholders(1));
        r
    }

    /// The condition that `field` lies between two values, both included, both left as placeholders.
    pub fn between(field: &'static str) -> (r: Self)
        ensures
            r@ == placeholder_leaf(field@, Operator::Between, 2),
    {
        let r = WhereCond::Between(field, placeholder_text(), placeholder_text());
        assert(r@.values =~= placeholders(2));
        r
    }

    /// The condition that `field` lies outside two values, both left as placeholders.
    pub fn not_between(field: &'static str) -> (r: Self)
        ensures
            r@ == placeholder_leaf(field@, Operator::NotBetween, 2),
    {
        let r = WhereCond::NotBetween(field, placeholder_text(), placeholder_text());
        assert(r@.values =~= placeholders(2));
        r
    }

    /// The condition that `field` is one of `count` values, each left as a placeholder.
    pub fn in_(field: &'static str, count: usize) -> (r: Self)
        ensures
            r@ == placeholder_leaf(field@, Operator::In, count as nat),
    {
        WhereCond::In(field, placeholder_texts(count))
    }

    /// The condition that `field` is none of `count` values, each left as a placeholder.
    pub fn not_in(field: &'static str, count: usize) -> (r: Self)
        ensures
            r@ == placeholder_leaf(field@, Operator::NotIn, count as nat),
    {
        WhereCond::NotIn(field, placeholder_texts(count))
    }

    /// The condition that `field` matches a pattern, the value left as a placeholder.
    pub fn like(field: &'static str) -> (r: Self)
        ensures
            r@ == placeholder_leaf(field@, Operator::Like, 1),
    {
        let r = WhereCond::Like(field, placeholder_text());
        assert(r@.values =~= placeholders(1));
        r
    }

    /// The condition that `field` does not match a pattern, the value left as a placeholder.
    pub fn not_like(field: &'static str) -> (r: Self)
        ensures
            r@ == placeholder_leaf(field@, Operator::NotLike, 1),
    {
        let r = WhereCond::NotLike(field, placeholder_text());
        assert(r@.values =~= placeholders(1));
        r
    }

    /// The condition that `field` is null.
    pub fn is_null(field: &'static str) -> (r: Self)
        ensures
            r@ == placeholder_leaf(field@, Operator::IsNull, 0),
    {
        let r = WhereCond::IsNull(field);
        assert(r@.values =~= placeholders(0));
        r
    }

    /// The condition that `field` is not null.
    pub fn is_not_null(field: &'static str) -> (r: Self)
        ensures
            r@ == placeholder_leaf(field@, Operator::IsNotNull, 0),
    {
        let r = WhereCond::IsNotNull(field);
        assert(r@.values =~= placeholders(0));
        r
    }

    /// The condition that is the text `condition`, written out unchanged.
    pub fn raw_condition(condition: &'static str) -> (r: Self)
        ensures
            r@ == raw_leaf(condition@),
    {
        WhereCond::RawCondition(condition)
    }

    /// The operator of the condition.
    pub fn operator(&self) -> (r: Operator)
        ensures
            r == self@.op,
    {
        match self {
            WhereCond::Equal(_, _) => Operator::Equal,
            WhereCond::NotEqual(_, _) => Operator::NotEqual,
            WhereCond::GreaterThan(_, _) => Operator::GreaterThan,
            WhereCond::GreaterThanOrEqual(_, _) => Operator::GreaterThanOrEqual,
            WhereCond::LessThan(_, _) => Operator::LessThan,
            WhereCond::LessThanOrEqual(_, _) => Operator::LessThanOrEqual,
            WhereCond::Between(_, _, _) => Operator::Between,
            WhereCond::NotBetween(_, _, _) => Operator::NotBetween,
            WhereCond::In(_, _) => Operator::In,
            WhereCond::NotIn(_, _) => Operator::NotIn,
            WhereCond::Like(_, _) => Operator::Like,
            WhereCond::NotLike(_, _) => Operator::NotLike,
            WhereCond::IsNull(_) => Operator::IsNull,
            WhereCond::IsNotNull(_) => Operator::IsNotNull,
            WhereCond::RawCondition(_) => Operator::Raw,
        }
    }

    /// Every condition holds as many values as its operator takes.
    pub proof fn lemma_well_formed(&self)
        ensures
            self@.well_formed(),
    {
    }
}

/// A column and the keyword behind it.
fn suffixed(field: &str, keyword: &str) -> (r: String)
    ensures
        r@ == field@ + keyword@,
{
    let mut out = String::from_str(field);
    out.append(keyword);
    out
}

/// A column, a keyword and one value text, in that order.
fn comparison(field: &str, keyword: &str, value: &str) -> (r: String)
    ensures
        r@ == field@ + keyword@ + value@,
{
    let mut out = String::from_str(field);
    out.append(keyword);
    out.append(value);
    out
}

/// A column, a keyword and two value texts with `AND` between them.
fn range(field: &str, keyword: &str, low: &str, high: &str) -> (r: String)
    ensures
        r@ == field@ + keyword@ + low@ + " AND "@ + high@,
{
    let mut out = comparison(field, keyword, low);
    out.append(" AND ");
    out.append(high);
    out
}

/// A column, a keyword that opens a list, the value texts with commas
/// between them, and the closing parenthesis.
fn membership(field: &str, keyword: &str, values: &Vec<String>) -> (r: String)
    ensures
        r@ == field@ + keyword@ + join(string_views(values@), ", "@) + ")"@,
{
    let list = join_strings(values.as_slice(), ", ");
    let mut out = comparison(field, keyword, list.as_str());
    out.append(")");
    out
}

impl WhereCond {
    /// Writes the condition out as one clause.
    pub fn to_sql(&self) -> (r: String)
        ensures
            r@ == self@.render(),
    {
        match self {
            WhereCond::Equal(field, value) => comparison(field, " = ", value.as_str()),
            WhereCond::NotEqual(field, value) => comparison(field, " != ", value.as_str()),
            WhereCond::GreaterThan(field, value) => comparison(field, " > ", value.as_str()),
            WhereCond::GreaterThanOrEqual(field, value) => comparison(
                field,
                " >= ",
                value.as_str(),
            ),
            WhereCond::LessThan(field, value) => comparison(field, " < ", value.as_str()),
            WhereCond::LessThanOrEqual(field, value) => comparison(
                field,
                " <= ",
                value.as_str(),
            ),
            WhereCond::Between(field, low, high) => range(
                field,
                " BETWEEN ",
                low.as_str(),
                high.as_str(),
            ),
            WhereCond::NotBetween(field, low, high) => range(
                field,
                " NOT BETWEEN ",
                low.as_str(),
                high.as_str(),
            ),
            WhereCond::In(field, values) => membership(field, " IN (", values),
            WhereCond::NotIn(field, values) => membership(field, " NOT IN (", values),
            WhereCond::Like(field, value) => comparison(field, " LIKE ", value.as_str()),
            WhereCond::NotLike(field, value) => comparison(field, " NOT LIKE ", value.as_str()),
            WhereCond::IsNull(field) => suffixed(field, " IS NULL"),
            WhereCond::IsNotNull(field) => suffixed(field, " IS NOT NULL"),
            WhereCond::RawCondition(fragment) => {
                let out = String::from_str(fragment);
                assert(out@ =~= fragment@ + Seq::<char>::empty());
                out
            },
        }
    }
}

impl SqlBuilder for WhereCond {
    open spec fn sql(&self) -> Result<Seq<char>, Error> {
        Ok(self@.render())
    }

    /// Never fails: every condition stands for a clause.
    fn build(&self) -> (r: Result<String, Error>) {
        Ok(self.to_sql())
    }
}

/// A predicate tree: conditions joined by `AND` and `OR`. Each node owns its
/// two operands.
#[derive(Debug)]
pub enum WhereClause {
    And(Box<WhereClause>, Box<WhereClause>),
    Or(Box<WhereClause>, Box<WhereClause>),
    Condition(WhereCond),
}

impl View for WhereClause {
    type V = Predicate;

    open spec fn view(&self) -> Predicate
        decreases self,
    {
        match self {
            WhereClause::And(l, r) => Predicate::And(Box::new((**l).view()), Box::new((**r).view())),
            WhereClause::Or(l, r) => Predicate::Or(Box::new((**l).view()), Box::new((**r).view())),
            WhereClause::Condition(c) => Predicate::Condition(c@),
        }
    }
}

impl Clone for WhereClause {
    /// The copy stands for the same predicate.
    fn clone(&self) -> (r: Self)
        ensures
            r@ == self@,
        decreases self,
    {
        match self {
            WhereClause::And(left, right) => WhereClause::And(
                Box::new((&**left).clone()),
                Box::new((&**right).clone()),
            ),
            WhereClause::Or(left, right) => WhereClause::Or(
                Box::new((&**left).clone()),
                Box::new((&**right).clone()),
            ),
            WhereClause::Condition(cond) => WhereClause::Condition(cond.clone()),
        }
    }
}

impl WhereClause {
    /// The conjunction of this tree and `other`.
    pub fn and(self, other: WhereClause) -> (r: Self)
        ensures
            r == WhereClause::And(Box::new(self), Box::new(other)),
            r@ == self@.and(other@),
    {
        WhereClause::And(Box::new(self), Box::new(other))
    }

    /// The disjunction of this tree and `other`.
    pub fn or(self, other: WhereClause) -> (r: Self)
        ensures
            r == WhereClause::Or(Box::new(self), Box::new(other)),
            r@ == self@.or(other@),
    {
        WhereClause::Or(Box::new(self), Box::new(other))
    }

    /// The tree that is the single condition `cond`.
    pub fn condition(cond: WhereCond) -> (r: Self)
        ensures
            r == WhereClause::Condition(cond),
            r@ == Predicate::Condition(cond@),
    {
        WhereClause::Condition(cond)
    }

    /// Whether the root of the tree is a disjunction.
    pub fn is_or(&self) -> (r: bool)
        ensures
            r == (self@ is Or),
    {
        match self {
            WhereClause::Or(_, _) => true,
            _ => false,
        }
    }

    /// Writes the tree out. A disjunction is put in parentheses exactly where
    /// it is an operand of a conjunction.
    pub fn to_sql(&self) -> (r: String)
        ensures
            r@ == self@.render(),
        decreases self, 0nat,
    {
        match self {
            WhereClause::Condition(cond) => cond.to_sql(),
            WhereClause::And(left, right) => {
                let mut out = left.operand_to_sql();
                let right_text = right.operand_to_sql();
                out.append(" AND ");
                out.append(right_text.as_str());
                out
            },
            WhereClause::Or(left, right) => {
                let mut out = left.to_sql();
                let right_text = right.to_sql();
                out.append(" OR ");
                out.append(right_text.as_str());
                out
            },
        }
    }

    /// Writes the tree out as an operand of a conjunction.
    fn operand_to_sql(&self) -> (r: String)
        ensures
            r@ == self@.render_operand(),
        decreases self, 1nat,
    {
        if self.is_or() {
            let inner = self.to_sql();
            let mut out = String::from_str("(");
            out.append(inner.as_str());
            out.append(")");
            out
        } else {
            self.to_sql()
        }
    }
}

impl WhereClause {
    /// Every leaf of every tree holds as many values as its operator takes.
    pub proof fn lemma_well_formed(&self)
        ensures
            self@.well_formed(),
        decreases self,
    {
        match self {
            WhereClause::And(l, r) => {
                (**l).lemma_well_formed();
                (**r).lemma_well_formed();
            },
            WhereClause::Or(l, r) => {
                (**l).lemma_well_formed();
                (**r).lemma_well_formed();
            },
            WhereClause::Condition(c) => {
                c.lemma_well_formed();
            },
        }
    }
}

impl SqlBuilder for WhereClause {
    open spec fn sql(&self) -> Result<Seq<char>, Error> {
        Ok(self@.render())
    }

    /// Never fails: every tree stands for a text.
    fn build(&self) -> (r: Result<String, Error>) {
        Ok(self.to_sql())
    }
}

impl WhereClause {
    /// The tree that is the condition that `field` equals a value.
    pub fn equal(field: &'static str) -> (r: Self)
        ensures
            r@ == Predicate::Condition(placeholder_leaf(field@, Operator::Equal, 1)),
    {
        WhereClause::condition(WhereCond::equal(field))
    }

    /// The tree that is the condition that `field` differs from a value.
    pub fn not_equal(field: &'static str) -> (r: Self)
        ensures
            r@ == Predicate::Condition(placeholder_leaf(field@, Operator::NotEqual, 1)),
    {
        WhereClause::condition(WhereCond::not_equal(field))
    }

    /// The tree that is the condition that `field` is greater than a value.
    pub fn greater_than(field: &'static str) -> (r: Self)
        ensures
            r@ == Predicate::Condition(placeholder_leaf(field@, Operator::GreaterThan, 1)),
    {
        WhereClause::condition(WhereCond::greater_than(field))
    }

    /// The tree that is the condition that `field` is at least a value.
    pub fn greater_than_or_equal(field: &'static str) -> (r: Self)
        ensures
            r@ == Predicate::Condition(placeholder_leaf(field@, Operator::GreaterThanOrEqual, 1)),
    {
        WhereClause::condition(WhereCond::greater_than_or_equal(field))
    }

    /// The tree that is the condition that `field` is less than a value.
    pub fn less_than(field: &'static str) -> (r: Self)
        ensures
            r@ == Predicate::Condition(placeholder_leaf(field@, Operator::LessThan, 1)),
    {
        WhereClause::condition(WhereCond::less_than(field))
    }

    /// The tree that is the condition that `field` is at most a value.
    pub fn less_than_or_equal(field: &'static str) -> (r: Self)
        ensures
            r@ == Predicate::Condition(placeholder_leaf(field@, Operator::LessThanOrEqual, 1)),
    {
        WhereClause::condition(WhereCond::less_than_or_equal(field))
    }

    /// The tree that is the condition that `field` lies between two values, both included.
    pub fn between(field: &'static str) -> (r: Self)
        ensures
            r@ == Predicate::Condition(placeholder_leaf(field@, Operator::Between, 2)),
    {
        WhereClause::condition(WhereCond::between(field))
    }

    /// The tree that is the condition that `field` lies outside two values.
    pub fn not_between(field: &'static str) -> (r: Self)
        ensures
            r@ == Predicate::Condition(placeholder_leaf(field@, Operator::NotBetween, 2)),
    {
        WhereClause::condition(WhereCond::not_between(field))
    }

    /// The tree that is the condition that `field` is one of `count` values.
    pub fn in_(field: &'static str, count: usize) -> (r: Self)
        ensures
            r@ == Predicate::Condition(placeholder_leaf(field@, Operator::In, count as nat)),
    {
        WhereClause::condition(WhereCond::in_(field, count))
    }

    /// The tree that is the condition that `field` is none of `count` values.
    pub fn not_in(field: &'static str, count: usize) -> (r: Self)
        ensures
            r@ == Predicate::Condition(placeholder_leaf(field@, Operator::NotIn, count as nat)),
    {
        WhereClause::condition(WhereCond::not_in(field, count))
    }

    /// The tree that is the condition that `field` matches a pattern.
    pub fn like(field: &'static str) -> (r: Self)
        ensures
            r@ == Predicate::Condition(placeholder_leaf(field@, Operator::Like, 1)),
    {
        WhereClause::condition(WhereCond::like(field))
    }

    /// The tree that is the condition that `field` does not match a pattern.
    pub fn not_like(field: &'static str) -> (r: Self)
        ensures
            r@ == Predicate::Condition(placeholder_leaf(field@, Operator::NotLike, 1)),
    {
        WhereClause::condition(WhereCond::not_like(field))
    }

    /// The tree that is the condition that `field` is null.
    pub fn is_null(field: &'static str) -> (r: Self)
        ensures
            r@ == Predicate::Condition(placeholder_leaf(field@, Operator::IsNull, 0)),
    {
        WhereClause::condition(WhereCond::is_null(field))
    }

    /// The tree that is the condition that `field` is not null.
    pub fn is_not_null(field: &'static str) -> (r: Self)
        ensures
            r@ == Predicate::Condition(placeholder_leaf(field@, Operator::IsNotNull, 0)),
    {
        WhereClause::condition(WhereCond::is_not_null(field))
    }

    /// The tree that is the condition that is the text `condition`.
    pub fn raw_condition(condition: &'static str) -> (r: Self)
        ensures
            r@ == Predicate::Condition(raw_leaf(condition@)),
    {
        WhereClause::condition(WhereCond::raw_condition(condition))
    }

    /// The conjunction of this tree and the condition that `field` equals a value.
    pub fn and_equal(self, field: &'static str) -> (r: Self)
        ensures
            r@ == self@.and(Predicate::Condition(placeholder_leaf(field@, Operator::Equal, 1))),
    {
        self.and(WhereClause::condition(WhereCond::equal(field)))
    }

    /// The conjunction of this tree and the condition that `field` differs from a value.
    pub fn and_not_equal(self, field: &'static str) -> (r: Self)
        ensures
            r@ == self@.and(Predicate::Condition(placeholder_leaf(field@, Operator::NotEqual, 1))),
    {
        self.and(WhereClause::condition(WhereCond::not_equal(field)))
    }

    /// The conjunction of this tree and the condition that `field` is greater than a value.
    pub fn and_greater_than(self, field: &'static str) -> (r: Self)
        ensures
            r@ == self@.and(Predicate::Condition(placeholder_leaf(field@, Operator::GreaterThan, 1))),
    {
        self.and(WhereClause::condition(WhereCond::greater_than(field)))
    }

    /// The conjunction of this tree and the condition that `field` is at least a value.
    pub fn and_greater_than_or_equal(self, field: &'static str) -> (r: Self)
        ensures
            r@ == self@.and(Predicate::Condition(placeholder_leaf(field@, Operator::GreaterThanOrEqual, 1))),
    {
        self.and(WhereClause::condition(WhereCond::greater_than_or_equal(field)))
    }

    /// The conjunction of this tree and the condition that `field` is less than a value.
    pub fn and_less_than(self, field: &'static str) -> (r: Self)
        ensures
            r@ == self@.and(Predicate::Condition(placeholder_leaf(field@, Operator::LessThan, 1))),
    {
        self.and(WhereClause::condition(WhereCond::less_than(field)))
    }

    /// The conjunction of this tree and the condition that `field` is at most a value.
    pub fn and_less_than_or_equal(self, field: &'static str) -> (r: Self)
        ensures
            r@ == self@.and(Predicate::Condition(placeholder_leaf(field@, Operator::LessThanOrEqual, 1))),
    {
        self.and(WhereClause::condition(WhereCond::less_than_or_equal(field)))
    }

    /// The conjunction of this tree and the condition that `field` lies between two values, both included.
    pub fn and_between(self, field: &'static str) -> (r: Self)
        ensures
            r@ == self@.and(Predicate::Condition(placeholder_leaf(field@, Operator::Between, 2))),
    {
        self.and(WhereClause::condition(WhereCond::between(field)))
    }

    /// The conjunction of this tree and the condition that `field` lies outside two values.
    pub fn and_not_between(self, field: &'static str) -> (r: Self)
        ensures
            r@ == self@.and(Predicate::Condition(placeholder_leaf(field@, Operator::NotBetween, 2))),
    {
        self.and(WhereClause::condition(WhereCond::not_between(field)))
    }

    /// The conjunction of this tree and the condition that `field` is one of `count` values.
    pub fn and_in(self, field: &'static str, count: usize) -> (r: Self)
        ensures
            r@ == self@.and(Predicate::Condition(placeholder_leaf(field@, Operator::In, count as nat))),
    {
        self.and(WhereClause::condition(WhereCond::in_(field, count)))
    }

    /// The conjunction of this tree and the condition that `field` is none of `count` values.
    pub fn and_not_in(self, field: &'static str, count: usize) -> (r: Self)
        ensures
            r@ == self@.and(Predicate::Condition(placeholder_leaf(field@, Operator::NotIn, count as nat))),
    {
        self.and(WhereClause::condition(WhereCond::not_in(field, count)))
    }

    /// The conjunction of this tree and the condition that `field` matches a pattern.
    pub fn and_like(self, field: &'static str) -> (r: Self)
        ensures
            r@ == self@.and(Predicate::Condition(placeholder_leaf(field@, Operator::Like, 1))),
    {
        self.and(WhereClause::condition(WhereCond::like(field)))
    }

    /// The conjunction of this tree and the condition that `field` does not match a pattern.
    pub fn and_not_like(self, field: &'static str) -> (r: Self)
        ensures
            r@ == self@.and(Predicate::Condition(placeholder_leaf(field@, Operator::NotLike, 1))),
    {
        self.and(WhereClause::condition(WhereCond::not_like(field)))
    }

    /// The conjunction of this tree and the condition that `field` is null.
    pub fn and_is_null(self, field: &'static str) -> (r: Self)
        ensures
            r@ == self@.and(Predicate::Condition(placeholder_leaf(field@, Operator::IsNull, 0))),
    {
        self.and(WhereClause::condition(WhereCond::is_null(field)))
    }

    /// The conjunction of this tree and the condition that `field` is not null.
    pub fn and_is_not_null(self, field: &'static str) -> (r: Self)
        ensures
            r@ == self@.and(Predicate::Condition(placeholder_leaf(field@, Operator::IsNotNull, 0))),
    {
        self.and(WhereClause::condition(WhereCond::is_not_null(field)))
    }

    /// The conjunction of this tree and the condition that is the text `condition`.
    pub fn and_raw_condition(self, condition: &'static str) -> (r: Self)
        ensures
            r@ == self@.and(Predicate::Condition(raw_leaf(condition@))),
    {
        self.and(WhereClause::condition(WhereCond::raw_condition(condition)))
    }

    /// The disjunction of this tree and the condition that `field` equals a value.
    pub fn or_equal(self, field: &'static str) -> (r: Self)
        ensures
            r@ == self@.or(Predicate::Condition(placeholder_leaf(field@, Operator::Equal, 1))),
    {
        self.or(WhereClause::condition(WhereCond::equal(field)))
    }

    /// The disjunction of this tree and the condition that `field` differs from a value.
    pub fn or_not_equal(self, field: &'static str) -> (r: Self)
        ensures
            r@ == self@.or(Predicate::Condition(placeholder_leaf(field@, Operator::NotEqual, 1))),
    {
        self.or(WhereClause::condition(WhereCond::not_equal(field)))
    }

    /// The disjunction of this tree and the condition that `field` is greater than a value.
    pub fn or_greater_than(self, field: &'static str) -> (r: Self)
        ensures
            r@ == self@.or(Predicate::Condition(placeholder_leaf(field@, Operator::GreaterThan, 1))),
    {
        self.or(WhereClause::condition(WhereCond::greater_than(field)))
    }

    /// The disjunction of this tree and the condition that `field` is at least a value.
    pub fn or_greater_than_or_equal(self, field: &'static str) -> (r: Self)
        ensures
            r@ == self@.or(Predicate::Condition(placeholder_leaf(field@, Operator::GreaterThanOrEqual, 1))),
    {
        self.or(WhereClause::condition(WhereCond::greater_than_or_equal(field)))
    }

    /// The disjunction of this tree and the condition that `field` is less than a value.
    pub fn or_less_than(self, field: &'static str) -> (r: Self)
        ensures
            r@ == self@.or(Predicate::Condition(placeholder_leaf(field@, Operator::LessThan, 1))),
    {
        self.or(WhereClause::condition(WhereCond::less_than(field)))
    }

    /// The disjunction of this tree and the condition that `field` is at most a value.
    pub fn or_less_than_or_equal(self, field: &'static str) -> (r: Self)
        ensures
            r@ == self@.or(Predicate::Condition(placeholder_leaf(field@, Operator::LessThanOrEqual, 1))),
    {
        self.or(WhereClause::condition(WhereCond::less_than_or_equal(field)))
    }

    /// The disjunction of this tree and the condition that `field` lies between two values, both included.
    pub fn or_between(self, field: &'static str) -> (r: Self)
        ensures
            r@ == self@.or(Predicate::Condition(placeholder_leaf(field@, Operator::Between, 2))),
    {
        self.or(WhereClause::condition(WhereCond::between(field)))
    }

    /// The disjunction of this tree and the condition that `field` lies outside two values.
    pub fn or_not_between(self, field: &'static str) -> (r: Self)
        ensures
            r@ == self@.or(Predicate::Condition(placeholder_leaf(field@, Operator::NotBetween, 2))),
    {
        self.or(WhereClause::condition(WhereCond::not_between(field)))
    }

    /// The disjunction of this tree and the condition that `field` is one of `count` values.
    pub fn or_in(self, field: &'static str, count: usize) -> (r: Self)
        ensures
            r@ == self@.or(Predicate::Condition(placeholder_leaf(field@, Operator::In, count as nat))),
    {
        self.or(WhereClause::condition(WhereCond::in_(field, count)))
    }

    /// The disjunction of this tree and the condition that `field` is none of `count` values.
    pub fn or_not_in(self, field: &'static str, count: usize) -> (r: Self)
        ensures
            r@ == self@.or(Predicate::Condition(placeholder_leaf(field@, Operator::NotIn, count as nat))),
    {
        self.or(WhereClause::condition(WhereCond::not_in(field, count)))
    }

    /// The disjunction of this tree and the condition that `field` matches a pattern.
    pub fn or_like(self, field: &'static str) -> (r: Self)
        ensures
            r@ == self@.or(Predicate::Condition(placeholder_leaf(field@, Operator::Like, 1))),
    {
        self.or(WhereClause::condition(WhereCond::like(field)))
    }

    /// The disjunction of this tree and the condition that `field` does not match a pattern.
    pub fn or_not_like(self, field: &'static str) -> (r: Self)
        ensures
            r@ == self@.or(Predicate::Condition(placeholder_leaf(field@, Operator::NotLike, 1))),
    {
        self.or(WhereClause::condition(WhereCond::not_like(field)))
    }

    /// The disjunction of this tree and the condition that `field` is null.
    pub fn or_is_null(self, field: &'static str) -> (r: Self)
        ensures
            r@ == self@.or(Predicate::Condition(placeholder_leaf(field@, Operator::IsNull, 0))),
    {
        self.or(WhereClause::condition(WhereCond::is_null(field)))
    }

    /// The disjunction of this tree and the condition that `field` is not null.
    pub fn or_is_not_null(self, field: &'static str) -> (r: Self)
        ensures
            r@ == self@.or(Predicate::Condition(placeholder_leaf(field@, Operator::IsNotNull, 0))),
    {
        self.or(WhereClause::condition(WhereCond::is_not_null(field)))
    }

    /// The disjunction of this tree and the condition that is the text `condition`.
    pub fn or_raw_condition(self, condition: &'static str) -> (r: Self)
        ensures
            r@ == self@.or(Predicate::Condition(raw_leaf(condition@))),
    {
        self.or(WhereClause::condition(WhereCond::raw_condition(condition)))
    }

}

impl WhereCond {
    /// The condition that `field` equals `value`, written as its literal.
    pub fn equals<T: ToSqlRepr>(field: &'static str, value: T) -> (r: Self)
        ensures
            r@ == value_leaf(field@, Operator::Equal, value.sql_repr()),
    {
        WhereCond::Equal(field, value.to_sql_repr())
    }
}

impl WhereClause {
    /// The tree that is the condition that `field` equals `value`.
    pub fn equals<T: ToSqlRepr>(field: &'static str, value: T) -> (r: Self)
        ensures
            r@ == Predicate::Condition(value_leaf(field@, Operator::Equal, value.sql_repr())),
    {
        WhereClause::condition(WhereCond::equals(field, value))
    }

    /// The conjunction of this tree and the condition that `field` equals
    /// `value`.
    pub fn and_equals<T: ToSqlRepr>(self, field: &'static str, value: T) -> (r: Self)
        ensures
            r@ == self@.and(
                Predicate::Condition(value_leaf(field@, Operator::Equal, value.sql_repr())),
            ),
    {
        self.and(WhereClause::condition(WhereCond::equals(field, value)))
    }

    /// The disjunction of this tree and the condition that `field` equals
    /// `value`.
    pub fn or_equals<T: ToSqlRepr>(self, field: &'static str, value: T) -> (r: Self)
        ensures
            r@ == self@.or(
                Predicate::Condition(value_leaf(field@, Operator::Equal, value.sql_repr())),
            ),
    {
        self.or(WhereClause::condition(WhereCond::equals(field, value)))
    }
}

} // verus!
