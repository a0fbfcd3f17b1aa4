use vstd::prelude::*;
use crate::text::join;

verus! {

/// The test that a leaf condition applies to its column.
#[derive(Debug, Clone, Copy, PartialEq, Eq, Structural)]
pub enum Operator {
    Equal,
    NotEqual,
    GreaterThan,
    GreaterThanOrEqual,
    LessThan,
    LessThanOrEqual,
    Between,
    NotBetween,
    In,
    NotIn,
    Like,
    NotLike,
    IsNull,
    IsNotNull,
    /// A fragment that is written out as it stands.
    Raw,
}

impl Operator {
    /// Whether the operator takes exactly `count` value texts.
    pub open spec fn accepts(self, count: nat) -> bool {
        match self {
            Operator::IsNull | Operator::IsNotNull | Operator::Raw => count == 0,
            Operator::Between | Operator::NotBetween => count == 2,
            Operator::In | Operator::NotIn => true,
            _ => count == 1,
        }
    }

    /// The operator's text between a column and what follows it.
    pub open spec fn keyword(self) -> Seq<char> {
        match self {
            Operator::Equal => " = "@,
            Operator::NotEqual => " != "@,
            Operator::GreaterThan => " > "@,
            Operator::GreaterThanOrEqual => " >= "@,
            Operator::LessThan => " < "@,
            Operator::LessThanOrEqual => " <= "@,
            Operator::Between => " BETWEEN "@,
            Operator::NotBetween => " NOT BETWEEN "@,
            Operator::In => " IN ("@,
            Operator::NotIn => " NOT IN ("@,
            Operator::Like => " LIKE "@,
            Operator::NotLike => " NOT LIKE "@,
            Operator::IsNull => " IS NULL"@,
            Operator::IsNotNull => " IS NOT NULL"@,
            Operator::Raw => Seq::empty(),
        }
    }
}

/// A leaf condition: a column, an operator and the texts of its values.
/// For `Operator::Raw` the column holds the fragment.
pub struct Leaf {
    pub column: Seq<char>,
    pub op: Operator,
    pub values: Seq<Seq<char>>,
}

impl Leaf {
    /// The number of values is the one that the operator takes.
    pub open spec fn well_formed(self) -> bool {
        self.op.accepts(self.values.len())
    }

    /// The single clause that the leaf stands for.
    pub open spec fn render(self) -> Seq<char> {
        match self.op {
            Operator::IsNull | Operator::IsNotNull | Operator::Raw => self.column
                + self.op.keyword(),
            Operator::Between | Operator::NotBetween => self.column + self.op.keyword()
                + self.values[0] + " AND "@ + self.values[1],
            Operator::In | Operator::NotIn => self.column + self.op.keyword() + join(
                self.values,
                ", "@,
            ) + ")"@,
            _ => self.column + self.op.keyword() + self.values[0],
        }
    }
}

/// A predicate: leaf conditions joined by the two connectives.
pub enum Predicate {
    Condition(Leaf),
    And(Box<Predicate>, Box<Predicate>),
    Or(Box<Predicate>, Box<Predicate>),
}

impl Predicate {
    /// The conjunction of two predicates.
    pub open spec fn and(self, other: Predicate) -> Predicate {
        Predicate::And(Box::new(self), Box::new(other))
    }

    /// The disjunction of two predicates.
    pub open spec fn or(self, other: Predicate) -> Predicate {
        Predicate::Or(Box::new(self), Box::new(other))
    }

    /// Every leaf has the number of values that its operator takes.
    pub open spec fn well_formed(self) -> bool
        decreases self,
    {
        match self {
            Predicate::Condition(leaf) => leaf.well_formed(),
            Predicate::And(l, r) => l.well_formed() && r.well_formed(),
            Predicate::Or(l, r) => l.well_formed() && r.well_formed(),
        }
    }

    /// The text of the predicate. `AND` binds tighter than `OR`, so a
    /// disjunction is put in parentheses exactly where it is an operand of a
    /// conjunction.
    pub open spec fn render(self) -> Seq<char>
        decreases self, 0nat,
    {
        match self {
            Predicate::Condition(leaf) => leaf.render(),
            Predicate::And(l, r) => l.render_operand() + " AND "@ + r.render_operand(),
            Predicate::Or(l, r) => l.render() + " OR "@ + r.render(),
        }
    }

    /// The text of the predicate as an operand of a conjunction.
    pub open spec fn render_operand(self) -> Seq<char>
        decreases self, 1nat,
    {
        if self is Or {
            "("@ + self.render() + ")"@
        } else {
            self.render()
        }
    }
}

/// The tree that is one leaf.
pub open spec fn leaf(l: Leaf) -> Predicate {
    Predicate::Condition(l)
}

/// Parentheses stand exactly round a disjunction that is an operand of a
/// conjunction: the text of a conjunction is its two operands, each in
/// parentheses if and only if it is a disjunction, with `AND` between them,
/// and the text of a disjunction is its two operands as they are, with `OR`
/// between them.
pub proof fn lemma_parentheses(l: Predicate, r: Predicate)
    ensures
        l.and(r).render() == l.render_operand() + " AND "@ + r.render_operand(),
        l.or(r).render() == l.render() + " OR "@ + r.render(),
        l is Or ==> l.render_operand() == "("@ + l.render() + ")"@,
        !(l is Or) ==> l.render_operand() == l.render(),
{
}

/// A conjunction and then a disjunction need no parentheses:
/// `a AND b OR c`.
pub proof fn lemma_and_then_or(a: Leaf, b: Leaf, c: Leaf)
    ensures
        leaf(a).and(leaf(b)).or(leaf(c)).render() == a.render() + " AND "@ + b.render() + " OR "@
            + c.render(),
{
    reveal_with_fuel(Predicate::render, 4);
    reveal_with_fuel(Predicate::render_operand, 4);
    let tree = leaf(a).and(leaf(b)).or(leaf(c));
    assert(leaf(a).and(leaf(b)).render() == a.render() + " AND "@ + b.render());
    assert(tree.render() =~= a.render() + " AND "@ + b.render() + " OR "@ + c.render());
}

/// A disjunction whose right operand is a conjunction needs no parentheses:
/// `a OR b AND c`.
pub proof fn lemma_or_of_and(a: Leaf, b: Leaf, c: Leaf)
    ensures
        leaf(a).or(leaf(b).and(leaf(c))).render() == a.render() + " OR "@ + b.render() + " AND "@
            + c.render(),
{
    reveal_with_fuel(Predicate::render, 4);
    reveal_with_fuel(Predicate::render_operand, 4);
    let tree = leaf(a).or(leaf(b).and(leaf(c)));
    assert(leaf(b).and(leaf(c)).render() == b.render() + " AND "@ + c.render());
    assert(tree.render() =~= a.render() + " OR "@ + b.render() + " AND "@ + c.render());
}

/// A disjunction as the left operand of a conjunction is put in parentheses:
/// `(a OR b) AND c`.
pub proof fn lemma_or_then_and(a: Leaf, b: Leaf, c: Leaf)
    ensures
        leaf(a).or(leaf(b)).and(leaf(c)).render() == "("@ + a.render() + " OR "@ + b.render()
            + ")"@ + " AND "@ + c.render(),
{
    reveal_with_fuel(Predicate::render, 4);
    reveal_with_fuel(Predicate::render_operand, 4);
    let inner = leaf(a).or(leaf(b));
    assert(inner.render() == a.render() + " OR "@ + b.render());
    assert(inner.render_operand() == "("@ + inner.render() + ")"@);
    assert(inner.and(leaf(c)).render() =~= "("@ + a.render() + " OR "@ + b.render() + ")"@
        + " AND "@ + c.render());
}

/// A disjunction as the right operand of a conjunction is put in parentheses:
/// `a AND (b OR c)`.
pub proof fn lemma_and_of_or(a: Leaf, b: Leaf, c: Leaf)
    ensures
        leaf(a).and(leaf(b).or(leaf(c))).render() == a.render() + " AND "@ + "("@ + b.render()
            + " OR "@ + c.render() + ")"@,
{
    reveal_with_fuel(Predicate::render, 4);
    reveal_with_fuel(Predicate::render_operand, 4);
    let inner = leaf(b).or(leaf(c));
    assert(inner.render() == b.render() + " OR "@ + c.render());
    assert(inner.render_operand() == "("@ + inner.render() + ")"@);
    assert(leaf(a).and(inner).render() =~= a.render() + " AND "@ + "("@ + b.render() + " OR "@
        + c.render() + ")"@);
}

/// Nested disjunctions need no parentheses: `a OR b OR c`.
pub proof fn lemma_or_chain(a: Leaf, b: Leaf, c: Leaf)
    ensures
        leaf(a).or(leaf(b)).or(leaf(c)).render() == a.render() + " OR "@ + b.render() + " OR "@
            + c.render(),
{
    reveal_with_fuel(Predicate::render, 4);
    reveal_with_fuel(Predicate::render_operand, 4);
    let inner = leaf(a).or(leaf(b));
    assert(inner.render() == a.render() + " OR "@ + b.render());
    assert(inner.or(leaf(c)).render() =~= a.render() + " OR "@ + b.render() + " OR "@
        + c.render());
}

/// Nested conjunctions need no parentheses: `a AND b AND c`.
pub proof fn lemma_and_chain(a: Leaf, b: Leaf, c: Leaf)
    ensures
        leaf(a).and(leaf(b)).and(leaf(c)).render() == a.render() + " AND "@ + b.render()
            + " AND "@ + c.render(),
{
    reveal_with_fuel(Predicate::render, 4);
    reveal_with_fuel(Predicate::render_operand, 4);
    let inner = leaf(a).and(leaf(b));
    assert(inner.render() == a.render() + " AND "@ + b.render());
    assert(inner.render_operand() == inner.render());
    assert(inner.and(leaf(c)).render() =~= a.render() + " AND "@ + b.render() + " AND "@
        + c.render());
}

/// Both connectives are associative in the text: how the operands of one
/// connective are grouped does not show.
pub proof fn lemma_same_connective_regroups(a: Predicate, b: Predicate, c: Predicate)
    ensures
        a.or(b).or(c).render() == a.or(b.or(c)).render(),
        a.and(b).and(c).render() == a.and(b.and(c)).render(),
{
    reveal_with_fuel(Predicate::render, 4);
    reveal_with_fuel(Predicate::render_operand, 4);
    assert(a.or(b).render() == a.render() + " OR "@ + b.render());
    assert(b.or(c).render() == b.render() + " OR "@ + c.render());
    assert(a.or(b).or(c).render() =~= a.or(b.or(c)).render());
    assert(a.and(b).render() == a.render_operand() + " AND "@ + b.render_operand());
    assert(b.and(c).render() == b.render_operand() + " AND "@ + c.render_operand());
    assert(a.and(b).render_operand() == a.and(b).render());
    assert(b.and(c).render_operand() == b.and(c).render());
    assert(a.and(b).and(c).render() =~= a.and(b.and(c)).render());
}

} // verus!
