use coinbase::client::Client;
use coinbase::message::Method;
use coinbase::types::decode;
use coinbase::types::Currency;
use coinbase::types::Money;
use coinbase::types::Rates;
use coinbase::types::Response;
use coinbase::types::Time;

#[test]
fn test_time() {
    let call = Client::new().time();
    assert_eq!(call.method, Method::GET);
    assert_eq!(call.path, "time");
    let text = "{\"data\":{\"iso\":\"2019-11-15T10:00:00Z\",\"epoch\":1573812000}}";
    let _: Response<Time> = decode(text).unwrap();
}

#[test]
fn test_currencies() {
    let call = Client::new().currencies();
    assert_eq!(call.path, "currencies");
    let text = "{\"data\":[{\"id\":\"AED\",\"name\":\"United Arab Emirates Dirham\",\
                \"min_size\":\"0.01000000\"},{\"id\":\"AFN\",\"name\":\"Afghan Afghani\",\
                \"min_size\":\"0.01000000\"}]}";
    let response: Response<Vec<Currency>> = decode(text).unwrap();

    assert!(response.data.len() > 0);
}

#[test]
fn test_rates() {
    let call = Client::new().rates(Some("EUR"));
    assert_eq!(call.path, "exchange-rates?currency=EUR");
    let text = "{\"data\":{\"currency\":\"EUR\",\"rates\":{\"BTC\":\"0.00013\",\"ETH\":\"0.0059\",\
                \"LTC\":\"0.018\",\"USD\":\"1.10\"}}}";
    let response: Response<Rates> = decode(text).unwrap();

    assert_eq!(response.data.currency, String::from("EUR"));
    assert!(response.data.contains_key("BTC"));
    assert!(response.data.contains_key("ETH"));
    assert!(response.data.contains_key("LTC"));
}

#[test]
fn test_buy_price() {
    let call = Client::new().buy_price("ETH", "USD");
    assert_eq!(call.path, "prices/ETH-USD/buy");
    let text = "{\"data\":{\"base\":\"ETH\",\"currency\":\"USD\",\"amount\":\"184.03\"}}";
    let response: Response<Money> = decode(text).unwrap();

    assert_eq!(response.data.currency, String::from("USD"));
    assert_eq!(response.data.base, Some(String::from("ETH")));
}

#[test]
fn test_sell_price() {
    let call = Client::new().sell_price("LTC", "EUR");
    assert_eq!(call.path, "prices/LTC-EUR/sell");
    let text = "{\"data\":{\"base\":\"LTC\",\"currency\":\"EUR\",\"amount\":\"53.12\"}}";
    let response: Response<Money> = decode(text).unwrap();

    assert_eq!(response.data.currency, String::from("EUR"));
    assert_eq!(response.data.base, Some(String::from("LTC")));
}

#[test]
fn test_spot_price() {
    let call = Client::new().spot_price("BTC", "USD");
    assert_eq!(call.path, "prices/BTC-USD/spot");
    let text = "{\"data\":{\"base\":\"BTC\",\"currency\":\"USD\",\"amount\":8500.5}}";
    let response: Response<Money> = decode(text).unwrap();

    assert_eq!(response.data.currency, String::from("USD"));
    assert_eq!(response.data.base, Some(String::from("BTC")));
}
