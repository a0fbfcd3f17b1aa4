use vstd::prelude::*;

pub mod condition_list;
pub mod delete;
pub mod error;
pub mod insert;
pub mod number;
pub mod predicate;
pub mod repr;
pub mod select;
pub mod text;
pub mod timestamp;
pub mod update;
pub mod where_clause;

use crate::error::Error;

verus! {

/// What a call of `build` returned, with the text taken by its view.
pub open spec fn built(r: Result<String, Error>) -> Result<Seq<char>, Error> {
    match r {
        Ok(text) => Ok(text@),
        Err(e) => Err(e),
    }
}

/// A value that can be written out as SQL text.
pub trait SqlBuilder {
    /// The text that this value stands for, or the reason why it stands for none.
    spec fn sql(&self) -> Result<Seq<char>, Error>;

    /// Writes the value out: the text of `sql`, or its error.
    fn build(&self) -> (r: Result<String, Error>)
        ensures
            built(r) == self.sql(),
    ;
}

/// Building is a function of the value: two results for one value hold the same
/// text, or the same error.
pub proof fn lemma_build_is_pure<T: SqlBuilder>(
    value: &T,
    first: Result<String, Error>,
    second: Result<String, Error>,
)
    requires
        built(first) == value.sql(),
        built(second) == value.sql(),
    ensures
        built(first) == built(second),
        first is Ok ==> second is Ok && first->Ok_0@ == second->Ok_0@,
{
}

} // verus!
