use crate::json::{Json, JsonView, new_slots, written};
use vstd::prelude::*;

verus! {

/// Matches every document. It is written as an empty object.
#[derive(Debug, Clone)]
pub struct MatchAll;

/// What a `MatchAll` holds.
pub struct MatchAllView;

impl MatchAllView {
    /// The clause; it has nothing to set.
    pub open spec fn empty() -> MatchAllView {
        MatchAllView
    }

    /// The slots of the object that the clause is written as, in the order
    /// written.
    pub open spec fn slots(self) -> Seq<(Seq<char>, Option<JsonView>)> {
        Seq::empty()
    }

    /// The entries of the object that the clause is written as: those of the
    /// slots that hold a value.
    pub open spec fn body(self) -> Seq<(Seq<char>, JsonView)> {
        written(self.slots())
    }

    /// The document that the clause is written as.
    pub open spec fn doc(self) -> JsonView {
        JsonView::Object(self.body())
    }
}

impl View for MatchAll {
    type V = MatchAllView;

    closed spec fn view(&self) -> MatchAllView {
        MatchAllView
    }
}

impl MatchAll {
    /// The clause; there is nothing to set.
    pub fn new() -> (r: MatchAll)
        ensures
            r@ == MatchAllView::empty(),
    {
        MatchAll
    }

    /// The document that the clause is written as.
    pub fn encode(&self) -> (j: Json)
        ensures
            j@ == self@.doc(),
    {
        let slots = new_slots();
        Json::object_of(slots)
    }
}

impl Default for MatchAll {
    fn default() -> (r: MatchAll)
        ensures
            r@ == MatchAllView::empty(),
    {
        MatchAll::new()
    }
}

} // verus!
