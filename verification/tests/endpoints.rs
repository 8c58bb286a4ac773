use coinbase::client::Client;
use coinbase::endpoints::Call;
use coinbase::error::Error;
use coinbase::message::Method;
use coinbase::types::DateTime;

fn expect(call: Call, method: Method, path: &str, body: &str) {
    assert_eq!(call.method, method);
    assert_eq!(call.path, path);
    assert_eq!(call.body, body);
}

#[test]
fn public_operations() {
    let client = Client::new();
    expect(client.time(), Method::GET, "time", "");
    expect(client.currencies(), Method::GET, "currencies", "");
    expect(client.rates(Some("EUR")), Method::GET, "exchange-rates?currency=EUR", "");
    expect(client.rates(None), Method::GET, "exchange-rates?currency=USD", "");
    expect(client.buy_price("ETH", "USD"), Method::GET, "prices/ETH-USD/buy", "");
    expect(client.sell_price("LTC", "EUR"), Method::GET, "prices/LTC-EUR/sell", "");
    expect(client.spot_price("BTC", "USD"), Method::GET, "prices/BTC-USD/spot", "");
    expect(
        client.historic_spot_price("BTC", "USD", "2019-01-01"),
        Method::GET,
        "prices/BTC-USD/spot?date=2019-01-01",
        "",
    );
}

#[test]
fn user_and_notification_operations() {
    let client = Client::new();
    expect(client.list_notifications(), Method::GET, "notifications", "");
    expect(client.get_notification("n1"), Method::GET, "notifications/n1", "");
    expect(client.get_user("u1"), Method::GET, "users/u1", "");
    expect(client.current_user(), Method::GET, "user", "");
    expect(client.current_user_auth(), Method::GET, "user/auth", "");
    expect(client.update_user(String::from("{\"name\":\"x\"}")), Method::PUT, "user", "{\"name\":\"x\"}");
    expect(client.list_payment_methods(), Method::GET, "payment-methods", "");
    expect(client.get_payment_method("p1"), Method::GET, "payment-methods/p1", "");
}

#[test]
fn account_and_address_operations() {
    let client = Client::new();
    expect(client.list_accounts(), Method::GET, "accounts", "");
    expect(client.get_account("a1"), Method::GET, "accounts/a1", "");
    expect(client.set_primary_account("a1"), Method::POST, "accounts/a1/primary", "");
    expect(client.list_addresses("a1"), Method::GET, "accounts/a1/addresses", "");
    expect(client.get_address("a1", "d1"), Method::GET, "accounts/a1/addresses/d1", "");
    expect(
        client.list_address_transactions("a1", "d1"),
        Method::GET,
        "accounts/a1/addresses/d1/transactions",
        "",
    );
    expect(client.update_account("a1", "Savings").unwrap(), Method::PUT, "accounts/a1", "{\"name\":\"Savings\"}");
    expect(
        client.update_account("a1", "My \"best\"\nwallet").unwrap(),
        Method::PUT,
        "accounts/a1",
        "{\"name\":\"My \\\"best\\\"\\nwallet\"}",
    );
    expect(
        client.create_address("a1", Some("Gift")).unwrap(),
        Method::POST,
        "accounts/a1/addresses",
        "{\"name\":\"Gift\"}",
    );
    expect(client.create_address("a1", None).unwrap(), Method::POST, "accounts/a1/addresses", "");
    let written: Result<Call, Error> = client.update_account("", "");
    expect(written.unwrap(), Method::PUT, "accounts/", "{\"name\":\"\"}");
}

#[test]
fn transaction_operations() {
    let client = Client::new();
    expect(client.list_transactions("a1"), Method::GET, "accounts/a1/transactions", "");
    expect(client.get_transaction("a1", "t1"), Method::GET, "accounts/a1/transactions/t1", "");
    expect(
        client.create_transaction("a1", String::from("{}")),
        Method::POST,
        "accounts/a1/transactions",
        "{}",
    );
    expect(
        client.complete_request("a1", "t1"),
        Method::POST,
        "accounts/a1/transactions/t1/complete",
        "",
    );
    expect(client.resend_request("a1", "t1"), Method::POST, "accounts/a1/transactions/t1/resend", "");
}

#[test]
fn transfer_operations() {
    let client = Client::new();
    expect(client.list_buys("a1"), Method::GET, "accounts/a1/buys", "");
    expect(client.get_buy("a1", "b1"), Method::GET, "accounts/a1/buys/b1", "");
    expect(client.create_buy("a1", String::from("{}")), Method::POST, "accounts/a1/buys", "{}");
    expect(client.commit_buy("a1", "b1"), Method::POST, "accounts/a1/buys/b1/commit", "");
    expect(client.list_sells("a1"), Method::GET, "accounts/a1/sells", "");
    expect(client.get_sell("a1", "s1"), Method::GET, "accounts/a1/sells/s1", "");
    expect(client.create_sell("a1", String::from("{}")), Method::POST, "accounts/a1/sells", "{}");
    expect(client.commit_sell("a1", "s1"), Method::POST, "accounts/a1/sells/s1/commit", "");
    expect(client.list_deposits("a1"), Method::GET, "accounts/a1/deposits", "");
    expect(client.get_deposit("a1", "d1"), Method::GET, "accounts/a1/deposits/d1", "");
    expect(client.create_deposit("a1", String::from("{}")), Method::POST, "accounts/a1/deposits", "{}");
    expect(client.commit_deposit("a1", "d1"), Method::POST, "accounts/a1/deposits/d1/commit", "");
    expect(client.list_withdrawals("a1"), Method::GET, "accounts/a1/withdrawals", "");
    expect(client.get_withdrawal("a1", "w1"), Method::GET, "accounts/a1/withdrawals/w1", "");
    expect(
        client.create_withdrawal("a1", String::from("{}")),
        Method::POST,
        "accounts/a1/withdrawals",
        "{}",
    );
    expect(client.commit_withdrawal("a1", "w1"), Method::POST, "accounts/a1/withdrawals/w1/commit", "");
}

#[test]
fn requests_for_reading_creating_and_replacing() {
    let client = Client::new();
    let read = client.get("time").unwrap().unwrap();
    assert_eq!(read.method, Method::GET);
    assert_eq!(read.url, "https://api.coinbase.com/v2/time");
    assert_eq!(read.body, "");
    let created = client.post("accounts/a1/buys?x=1", String::from("{}")).unwrap().unwrap();
    assert_eq!(created.method, Method::POST);
    assert_eq!(created.url, "https://api.coinbase.com/v2/accounts/a1/buys?x=1");
    assert_eq!(created.body, "{}");
    let replaced = client.put("user", String::from("{\"a\":1}")).unwrap().unwrap();
    assert_eq!(replaced.method, Method::PUT);
    assert_eq!(replaced.body, "{\"a\":1}");
    assert_eq!(replaced.headers.len(), 5);
}

#[test]
fn signed_request_uses_a_fresh_timestamp() {
    let client = Client::private("k", "s");
    let request = client.get("user").unwrap().unwrap();
    assert_eq!(request.headers.len(), 8);
    let stamp: i64 = request.headers[7].value.parse().unwrap();
    assert!(stamp > 1_600_000_000);
    let expected = coinbase::signer::sign(b"s", &format!("{}GET/v2/user", stamp)).unwrap();
    assert_eq!(request.headers[6].value, expected);
}

#[test]
fn instants_show_as_text() {
    assert_eq!(
        DateTime { seconds: 1431648000, nanos: 0 }.to_string(),
        Some(String::from("2015-05-15 00:00:00 UTC"))
    );
    assert_eq!(DateTime::default().to_string(), Some(String::from("1970-01-01 00:00:00 UTC")));
    assert_eq!(DateTime { seconds: i64::MAX, nanos: 0 }.to_string(), None);
    assert_eq!(DateTime { seconds: 0, nanos: u32::MAX }.to_string(), None);
}
