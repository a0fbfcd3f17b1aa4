use vstd::prelude::*;
use vstd::string::*;
use crate::error::Error;
use crate::text::enclose;
use crate::where_clause::WhereCond;
use crate::SqlBuilder;

verus! {

/// The word that joins a term to the terms before it.
#[derive(Debug, Clone, Copy, PartialEq, Eq, Structural)]
pub enum Connective {
    And,
    Or,
}

impl Connective {
    /// The connective's keyword with a blank on either side.
    pub open spec fn keyword(self) -> Seq<char> {
        match self {
            Connective::And => " AND "@,
            Connective::Or => " OR "@,
        }
    }
}

/// One term of a list: a condition, or a list of its own.
#[derive(Debug)]
pub enum Term {
    Condition(WhereCond),
    Group(ConditionList),
}

/// A term with the connective that joins it to what stands before it.
#[derive(Debug)]
pub struct Entry {
    pub connective: Connective,
    pub term: Term,
}

/// Conditions and groups in the order in which they were added, each with
/// its own connective. Nothing is regrouped by precedence: the terms are
/// written one after the other, and only a group gets parentheses.
#[derive(Debug)]
pub struct ConditionList {
    pub entries: Vec<Entry>,
}

/// The text of a term: a condition as it is, a group in parentheses,
/// whatever it holds.
pub open spec fn term_text(term: Term) -> Seq<char>
    decreases term, 0nat,
{
    match term {
        Term::Condition(cond) => cond@.render(),
        Term::Group(group) => "("@ + prefix_text(group.entries@, group.entries@.len()) + ")"@,
    }
}

/// The text of the first `count` entries: the first term bare, every later
/// one behind its own connective.
pub open spec fn prefix_text(entries: Seq<Entry>, count: nat) -> Seq<char>
    decreases entries, count,
{
    if count == 0 || count > entries.len() {
        Seq::empty()
    } else if count == 1 {
        term_text(entries[0].term)
    } else {
        prefix_text(entries, (count - 1) as nat) + entries[count - 1].connective.keyword()
            + term_text(entries[count - 1].term)
    }
}

/// Adding a term appends its text: bare where it is the first, behind its
/// own connective otherwise. Earlier terms are written as before.
pub proof fn lemma_text_of_push(entries: Seq<Entry>, entry: Entry)
    ensures
        prefix_text(entries.push(entry), entries.len() + 1) == if entries.len() == 0 {
            term_text(entry.term)
        } else {
            prefix_text(entries, entries.len()) + entry.connective.keyword() + term_text(
                entry.term,
            )
        },
{
    let longer = entries.push(entry);
    lemma_prefix_ignores_rest(entries, longer, entries.len());
}

/// The text of the first `count` entries depends on those entries alone.
pub proof fn lemma_prefix_ignores_rest(first: Seq<Entry>, second: Seq<Entry>, count: nat)
    requires
        count <= first.len(),
        count <= second.len(),
        forall|i: int| 0 <= i < count ==> first[i] == second[i],
    ensures
        prefix_text(first, count) == prefix_text(second, count),
    decreases count,
{
    if count > 1 {
        lemma_prefix_ignores_rest(first, second, (count - 1) as nat);
    }
}

/// A group is written in parentheses whatever it holds, and a condition
/// never is.
pub proof fn lemma_group_in_parentheses(group: ConditionList, cond: WhereCond)
    ensures
        term_text(Term::Group(group)) == "("@ + group.text() + ")"@,
        term_text(Term::Condition(cond)) == cond@.render(),
{
}

/// The connective of the first term does not show.
pub proof fn lemma_first_connective_is_silent(entries: Seq<Entry>, other: Connective)
    requires
        entries.len() > 0,
    ensures
        prefix_text(entries, entries.len()) == prefix_text(
            entries.update(0, Entry { connective: other, term: entries[0].term }),
            entries.len(),
        ),
    decreases entries.len(),
{
    let changed = entries.update(0, Entry { connective: other, term: entries[0].term });
    if entries.len() > 1 {
        let shorter = entries.drop_last();
        lemma_first_connective_is_silent(shorter, other);
        let shorter_changed = shorter.update(
            0,
            Entry { connective: other, term: shorter[0].term },
        );
        lemma_prefix_ignores_rest(shorter, entries, shorter.len());
        lemma_prefix_ignores_rest(shorter_changed, changed, shorter.len());
    }
}

impl ConditionList {
    /// The text of the whole list.
    pub open spec fn text(&self) -> Seq<char> {
        prefix_text(self.entries@, self.entries@.len())
    }

    /// The list with one more entry at its end.
    pub open spec fn with(&self, connective: Connective, term: Term) -> Seq<Entry> {
        self.entries@.push(Entry { connective: connective, term: term })
    }

    /// The list without a term.
    pub fn new() -> (r: Self)
        ensures
            r.entries@ == Seq::<Entry>::empty(),
            r.text() == Seq::<char>::empty(),
    {
        ConditionList { entries: Vec::new() }
    }

    /// The number of terms. A group counts as one.
    pub fn len(&self) -> (r: usize)
        ensures
            r == self.entries@.len(),
    {
        self.entries.len()
    }

    /// Whether the list holds no term.
    pub fn is_empty(&self) -> (r: bool)
        ensures
            r == (self.entries@.len() == 0),
    {
        self.entries.len() == 0
    }

    /// Adds a term behind the given connective.
    pub fn push(&mut self, connective: Connective, term: Term) -> (r: &mut Self)
        ensures
            *final(self) == *final(r),
            r.entries@ == old(self).with(connective, term),
            r.text() == if old(self).entries@.len() == 0 {
                term_text(term)
            } else {
                old(self).text() + connective.keyword() + term_text(term)
            },
    {
        proof {
            lemma_text_of_push(self.entries@, Entry { connective: connective, term: term });
        }
        self.entries.push(Entry { connective: connective, term: term });
        self
    }

    /// Adds a condition behind `AND`.
    pub fn and(&mut self, cond: WhereCond) -> (r: &mut Self)
        ensures
            *final(self) == *final(r),
            r.entries@ == old(self).with(Connective::And, Term::Condition(cond)),
            r.text() == if old(self).entries@.len() == 0 {
                cond@.render()
            } else {
                old(self).text() + " AND "@ + cond@.render()
            },
    {
        self.push(Connective::And, Term::Condition(cond))
    }

    /// Adds a condition behind `OR`.
    pub fn or(&mut self, cond: WhereCond) -> (r: &mut Self)
        ensures
            *final(self) == *final(r),
            r.entries@ == old(self).with(Connective::Or, Term::Condition(cond)),
            r.text() == if old(self).entries@.len() == 0 {
                cond@.render()
            } else {
                old(self).text() + " OR "@ + cond@.render()
            },
    {
        self.push(Connective::Or, Term::Condition(cond))
    }

    /// Adds a list as a group, in parentheses, behind `AND`.
    pub fn and_group(&mut self, group: ConditionList) -> (r: &mut Self)
        ensures
            *final(self) == *final(r),
            r.entries@ == old(self).with(Connective::And, Term::Group(group)),
            r.text() == if old(self).entries@.len() == 0 {
                "("@ + group.text() + ")"@
            } else {
                old(self).text() + " AND "@ + ("("@ + group.text() + ")"@)
            },
    {
        self.push(Connective::And, Term::Group(group))
    }

    /// Adds a list as a group, in parentheses, behind `OR`.
    pub fn or_group(&mut self, group: ConditionList) -> (r: &mut Self)
        ensures
            *final(self) == *final(r),
            r.entries@ == old(self).with(Connective::Or, Term::Group(group)),
            r.text() == if old(self).entries@.len() == 0 {
                "("@ + group.text() + ")"@
            } else {
                old(self).text() + " OR "@ + ("("@ + group.text() + ")"@)
            },
    {
        self.push(Connective::Or, Term::Group(group))
    }

    /// Writes the list out.
    pub fn to_sql(&self) -> (r: String)
        ensures
            r@ == self.text(),
        decreases self,
    {
        let mut out = String::new();
        let mut i: usize = 0;
        while i < self.entries.len()
            invariant
                i <= self.entries.len(),
                out@ == prefix_text(self.entries@, i as nat),
            decreases self.entries.len() - i,
        {
            let entry = &self.entries[i];
            let piece = match &entry.term {
                Term::Condition(cond) => cond.to_sql(),
                Term::Group(group) => {
                    let inner = group.to_sql();
                    enclose("(", inner.as_str(), ")")
                },
            };
            assert(piece@ == term_text(entry.term));
            if i > 0 {
                match entry.connective {
                    Connective::And => out.append(" AND "),
                    Connective::Or => out.append(" OR "),
                }
            }
            out.append(piece.as_str());
            i += 1;
        }
        out
    }
}

impl SqlBuilder for ConditionList {
    open spec fn sql(&self) -> Result<Seq<char>, Error> {
        Ok(self.text())
    }

    /// Never fails: a list without a term stands for the empty text.
    fn build(&self) -> (r: Result<String, Error>) {
        Ok(self.to_sql())
    }
}

} // verus!
