//! The direction in which a list is walked.

use vstd::prelude::*;
use crate::json::same_text;

verus! {

/// The order of the items of a list.
#[derive(Clone, Copy, Debug, PartialEq, Eq, Structural)]
pub enum Order {
    ASC,
    DESC,
}

impl Default for Order {
    fn default() -> (order: Self)
        ensures
            order == Order::DESC,
    {
        Order::DESC
    }
}

impl Order {
    /// The order in lower case, as a query and a response carry it.
    pub open spec fn tag(self) -> Seq<char> {
        match self {
            Order::ASC => seq!['a', 's', 'c'],
            Order::DESC => seq!['d', 'e', 's', 'c'],
        }
    }

    /// The order that a tag names, if it names one.
    pub open spec fn of_tag(tag: Seq<char>) -> Option<Order> {
        if tag == Order::ASC.tag() {
            Some(Order::ASC)
        } else if tag == Order::DESC.tag() {
            Some(Order::DESC)
        } else {
            None
        }
    }

    /// The order in lower case.
    pub fn as_str(&self) -> (text: &'static str)
        ensures
            text@ == self.tag(),
    {
        proof {
            reveal_strlit("asc");
            reveal_strlit("desc");
        }
        let text = match self {
            Order::ASC => "asc",
            Order::DESC => "desc",
        };
        assert(text@ =~= self.tag());
        text
    }

    /// The order that a tag names: `asc` or `desc`, and no other.
    pub fn from_tag(tag: &str) -> (r: Option<Order>)
        ensures
            r == Order::of_tag(tag@),
    {
        if same_text(tag, Order::ASC.as_str()) {
            Some(Order::ASC)
        } else if same_text(tag, Order::DESC.as_str()) {
            Some(Order::DESC)
        } else {
            None
        }
    }

    /// The order in lower case, as an owned text.
    pub fn to_string(&self) -> (text: String)
        ensures
            text@ == self.tag(),
    {
        self.as_str().to_owned()
    }
}

/// The tag of an order names that order and no other.
pub proof fn lemma_order_tag_round_trip(order: Order)
    ensures
        Order::of_tag(order.tag()) == Some(order),
{
    assert(Order::ASC.tag().len() == 3);
    assert(Order::DESC.tag().len() == 4);
}

} // verus!
