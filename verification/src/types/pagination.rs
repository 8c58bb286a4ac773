//! The cursor of a list: how many items, in which order, from where.

use vstd::prelude::*;
use crate::decimal::decimal;
use crate::decimal::decimal_u64;
use crate::decode::Decode;
use crate::json::count_member;
use crate::json::has_only;
use crate::json::names;
use crate::json::only_members;
use crate::json::optional_text_member;
use crate::json::read_count;
use crate::json::read_optional_text;
use crate::json::read_text;
use crate::json::text_member;
use crate::json::text_view;
use crate::json::Json;
use crate::types::order::Order;

verus! {

/// The number of items a list holds when nothing else is asked for.
pub const DEFAULT_LIMIT: usize = 25;

/// Where in a list a page lies. The last two fields say what the service
/// answered; they are never sent back.
#[derive(Clone, Debug)]
pub struct Pagination {
    pub limit: usize,
    pub order: Order,
    pub ending_before: Option<String>,
    pub starting_after: Option<String>,
    pub previous_uri: Option<String>,
    pub next_uri: Option<String>,
    pub previous_ending_before: Option<String>,
    pub next_starting_after: Option<String>,
}

/// A cursor as contracts speak of it.
pub ghost struct PaginationView {
    pub limit: nat,
    pub order: Order,
    pub ending_before: Option<Seq<char>>,
    pub starting_after: Option<Seq<char>>,
    pub previous_uri: Option<Seq<char>>,
    pub next_uri: Option<Seq<char>>,
    pub previous_ending_before: Option<Seq<char>>,
    pub next_starting_after: Option<Seq<char>>,
}

impl View for Pagination {
    type V = PaginationView;

    open spec fn view(&self) -> PaginationView {
        PaginationView {
            limit: self.limit as nat,
            order: self.order,
            ending_before: text_view(self.ending_before),
            starting_after: text_view(self.starting_after),
            previous_uri: text_view(self.previous_uri),
            next_uri: text_view(self.next_uri),
            previous_ending_before: text_view(self.previous_ending_before),
            next_starting_after: text_view(self.next_starting_after),
        }
    }
}

/// The cursor of a first page: twenty-five items, newest first.
pub open spec fn first_page() -> PaginationView {
    PaginationView {
        limit: DEFAULT_LIMIT as nat,
        order: Order::DESC,
        ending_before: None,
        starting_after: None,
        previous_uri: None,
        next_uri: None,
        previous_ending_before: None,
        next_starting_after: None,
    }
}

/// The pair that a cursor token adds to a query under `key`: one pair if
/// the token is set, none if it is not.
pub open spec fn token_pair(key: Seq<char>, token: Option<Seq<char>>) -> Seq<(Seq<char>, Seq<char>)> {
    match token {
        Some(value) => seq![(key, value)],
        None => Seq::empty(),
    }
}

/// The query of a list request: the limit and the order always, then
/// `ending_before` and `starting_after`, each only if it is set. What the
/// service answered about neighbouring pages plays no part.
pub open spec fn query_pairs(page: PaginationView) -> Seq<(Seq<char>, Seq<char>)> {
    seq![("limit"@, decimal(page.limit as int)), ("order"@, page.order.tag())] + token_pair(
        "ending_before"@,
        page.ending_before,
    ) + token_pair("starting_after"@, page.starting_after)
}

/// The pairs of a query as contracts speak of them.
pub open spec fn pair_views(pairs: Seq<(&'static str, String)>) -> Seq<(Seq<char>, Seq<char>)> {
    Seq::new(pairs.len(), |i: int| (pairs[i].0@, pairs[i].1@))
}

/// The names of the members of a cursor.
pub open spec fn pagination_members() -> Seq<Seq<char>> {
    seq![
        "limit"@,
        "order"@,
        "ending_before"@,
        "starting_after"@,
        "previous_uri"@,
        "next_uri"@,
        "previous_ending_before"@,
        "next_starting_after"@,
    ]
}

/// The order that the member `order` names, where it is there and names
/// one.
pub open spec fn order_member(entries: Seq<(String, Json)>) -> Option<Order> {
    match text_member(entries, "order"@) {
        Some(tag) => Order::of_tag(tag),
        None => None,
    }
}

/// What a cursor decodes to: an object with the count `limit` and the
/// order `order`, perhaps some of the six texts, and no other member.
pub open spec fn decoded_pagination(json: Json) -> Option<PaginationView> {
    match json {
        Json::Object(entries) => {
            let limit = count_member(entries@, "limit"@);
            let order = order_member(entries@);
            let ending_before = optional_text_member(entries@, "ending_before"@);
            let starting_after = optional_text_member(entries@, "starting_after"@);
            let previous_uri = optional_text_member(entries@, "previous_uri"@);
            let next_uri = optional_text_member(entries@, "next_uri"@);
            let previous_ending_before = optional_text_member(entries@, "previous_ending_before"@);
            let next_starting_after = optional_text_member(entries@, "next_starting_after"@);
            if only_members(entries@, pagination_members()) && limit is Some && order is Some
                && ending_before is Some && starting_after is Some && previous_uri is Some
                && next_uri is Some && previous_ending_before is Some && next_starting_after is Some {
                Some(
                    PaginationView {
                        limit: limit->0,
                        order: order->0,
                        ending_before: ending_before->0,
                        starting_after: starting_after->0,
                        previous_uri: previous_uri->0,
                        next_uri: next_uri->0,
                        previous_ending_before: previous_ending_before->0,
                        next_starting_after: next_starting_after->0,
                    },
                )
            } else {
                None
            }
        },
        _ => None,
    }
}

fn pagination_names() -> (allowed: Vec<&'static str>)
    ensures
        names(allowed@) == pagination_members(),
{
    let allowed = vec![
        "limit",
        "order",
        "ending_before",
        "starting_after",
        "previous_uri",
        "next_uri",
        "previous_ending_before",
        "next_starting_after",
    ];
    assert(names(allowed@) =~= pagination_members());
    allowed
}

fn read_order(entries: &Vec<(String, Json)>) -> (r: Option<Order>)
    ensures
        r == order_member(entries@),
{
    match read_text(entries, "order") {
        Some(tag) => Order::from_tag(tag.as_str()),
        None => None,
    }
}

impl Decode for Pagination {
    type Model = PaginationView;

    open spec fn model(&self) -> PaginationView {
        self@
    }

    open spec fn decoded(json: Json) -> Option<PaginationView> {
        decoded_pagination(json)
    }

    open spec fn absent() -> PaginationView {
        first_page()
    }

    fn decode(json: &Json) -> (r: Option<Self>) {
        match json {
            Json::Object(entries) => {
                let allowed = pagination_names();
                if !has_only(entries, &allowed) {
                    return None;
                }
                let limit = read_count(entries, "limit")?;
                let order = read_order(entries)?;
                let ending_before = read_optional_text(entries, "ending_before")?;
                let starting_after = read_optional_text(entries, "starting_after")?;
                let previous_uri = read_optional_text(entries, "previous_uri")?;
                let next_uri = read_optional_text(entries, "next_uri")?;
                let previous_ending_before = read_optional_text(entries, "previous_ending_before")?;
                let next_starting_after = read_optional_text(entries, "next_starting_after")?;
                Some(
                    Pagination {
                        limit,
                        order,
                        ending_before,
                        starting_after,
                        previous_uri,
                        next_uri,
                        previous_ending_before,
                        next_starting_after,
                    },
                )
            },
            _ => None,
        }
    }

    fn fallback() -> (value: Self) {
        Pagination::default()
    }
}

impl Default for Pagination {
    fn default() -> (page: Self)
        ensures
            page@ == first_page(),
    {
        Pagination {
            limit: DEFAULT_LIMIT,
            order: Order::default(),
            ending_before: None,
            starting_after: None,
            previous_uri: None,
            next_uri: None,
            previous_ending_before: None,
            next_starting_after: None,
        }
    }
}

impl Pagination {
    /// The query of a list request for this page.
    pub fn to_query(&self) -> (query: Vec<(&'static str, String)>)
        ensures
            pair_views(query@) == query_pairs(self@),
    {
        let mut query: Vec<(&'static str, String)> = Vec::new();
        query.push(("limit", decimal_u64(self.limit as u64)));
        query.push(("order", self.order.to_string()));
        assert(pair_views(query@) =~= seq![
            ("limit"@, decimal(self.limit as int)),
            ("order"@, self.order.tag()),
        ]);
        let ghost head = pair_views(query@);
        match &self.ending_before {
            Some(value) => {
                query.push(("ending_before", value.clone()));
            },
            None => {},
        }
        assert(pair_views(query@) =~= head + token_pair("ending_before"@, self@.ending_before));
        let ghost middle = pair_views(query@);
        match &self.starting_after {
            Some(value) => {
                query.push(("starting_after", value.clone()));
            },
            None => {},
        }
        assert(pair_views(query@) =~= middle + token_pair("starting_after"@, self@.starting_after));
        query
    }
}

/// The query of a page depends on its limit, its order and its two tokens
/// alone: what the service answered about neighbouring pages is never sent
/// back.
pub proof fn lemma_query_ignores_answers(first: PaginationView, second: PaginationView)
    requires
        first.limit == second.limit,
        first.order == second.order,
        first.ending_before == second.ending_before,
        first.starting_after == second.starting_after,
    ensures
        query_pairs(first) == query_pairs(second),
{
}

/// The query of a page begins with the limit and the order, and holds one
/// more pair for each token that is set: a token that is not set adds no
/// pair, whatever the service answered.
pub proof fn lemma_query_shape(page: PaginationView)
    ensures
        query_pairs(page).len() == 2 + (if page.ending_before is Some {
            1int
        } else {
            0int
        }) + (if page.starting_after is Some {
            1int
        } else {
            0int
        }),
        query_pairs(page)[0] == ("limit"@, decimal(page.limit as int)),
        query_pairs(page)[1] == ("order"@, page.order.tag()),
        page.ending_before matches Some(token) ==> query_pairs(page)[2] == ("ending_before"@, token),
        page.starting_after matches Some(token) ==> query_pairs(page).last() == (
            "starting_after"@,
            token,
        ),
        page.starting_after is None ==> forall|i: int|
            0 <= i < query_pairs(page).len() ==> (#[trigger] query_pairs(page)[i]).0
                != "starting_after"@,
        page.ending_before is None ==> forall|i: int|
            0 <= i < query_pairs(page).len() ==> (#[trigger] query_pairs(page)[i]).0
                != "ending_before"@,
{
    reveal_strlit("limit");
    reveal_strlit("order");
    reveal_strlit("ending_before");
    reveal_strlit("starting_after");
    assert("limit"@.len() == 5);
    assert("order"@.len() == 5);
    assert("ending_before"@.len() == 13);
    assert("starting_after"@.len() == 14);
}

} // verus!
