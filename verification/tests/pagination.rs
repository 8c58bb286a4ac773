use coinbase::types::Language;
use coinbase::types::Order;
use coinbase::types::Pagination;

#[test]
fn query_of_a_page_that_ends_before_a_token() {
    let page = Pagination {
        limit: 25,
        order: Order::DESC,
        ending_before: Some(String::from("tx_1")),
        ..Pagination::default()
    };
    assert_eq!(
        page.to_query(),
        vec![
            ("limit", String::from("25")),
            ("order", String::from("desc")),
            ("ending_before", String::from("tx_1")),
        ]
    );
    assert!(page.to_query().iter().all(|pair| pair.0 != "starting_after"));
}

#[test]
fn query_of_the_first_page() {
    let page = Pagination::default();
    assert_eq!(page.limit, 25);
    assert_eq!(page.order, Order::DESC);
    assert_eq!(page.ending_before, None);
    assert_eq!(page.starting_after, None);
    assert_eq!(page.previous_uri, None);
    assert_eq!(page.next_uri, None);
    assert_eq!(page.to_query(), vec![("limit", String::from("25")), ("order", String::from("desc"))]);
}

#[test]
fn query_with_both_tokens() {
    let page = Pagination {
        limit: 100,
        order: Order::ASC,
        ending_before: Some(String::from("a")),
        starting_after: Some(String::from("b")),
        ..Pagination::default()
    };
    assert_eq!(
        page.to_query(),
        vec![
            ("limit", String::from("100")),
            ("order", String::from("asc")),
            ("ending_before", String::from("a")),
            ("starting_after", String::from("b")),
        ]
    );
}

#[test]
fn query_ignores_what_the_service_answered() {
    let page = Pagination {
        limit: 0,
        previous_ending_before: Some(String::from("p")),
        next_starting_after: Some(String::from("n")),
        previous_uri: Some(String::from("/prev")),
        next_uri: Some(String::from("/next")),
        starting_after: Some(String::from("s")),
        ..Pagination::default()
    };
    assert_eq!(
        page.to_query(),
        vec![
            ("limit", String::from("0")),
            ("order", String::from("desc")),
            ("starting_after", String::from("s")),
        ]
    );
}

#[test]
fn order_tags() {
    assert_eq!(Order::ASC.to_string(), "asc");
    assert_eq!(Order::DESC.to_string(), "desc");
    assert_eq!(Order::default(), Order::DESC);
    assert_eq!(Order::from_tag("asc"), Some(Order::ASC));
    assert_eq!(Order::from_tag("desc"), Some(Order::DESC));
    assert_eq!(Order::from_tag("ASC"), None);
    assert_eq!(Order::from_tag(""), None);
}

#[test]
fn language_tags() {
    assert_eq!(Language::default(), Language::EN);
    assert_eq!(Language::DE.to_string(), "de");
    assert_eq!(Language::EN.to_string(), "en");
    assert_eq!(Language::ES.to_string(), "es");
    assert_eq!(Language::ESMX.to_string(), "es-mx");
    assert_eq!(Language::FR.to_string(), "fr");
    assert_eq!(Language::ID.to_string(), "id");
    assert_eq!(Language::IT.to_string(), "it");
    assert_eq!(Language::NL.to_string(), "nl");
    assert_eq!(Language::PT.to_string(), "pt");
    assert_eq!(Language::PTBR.to_string(), "pt-br");
}
