use coinbase::error::Error;
use coinbase::error::JsonFailure;
use coinbase::numeric::is_numeric_text;
use coinbase::types::decode;
use coinbase::types::Currency;
use coinbase::types::DateTime;
use coinbase::types::Money;
use coinbase::types::Response;
use coinbase::types::Time;

#[test]
fn amount_as_number_and_as_text_decode_alike() {
    let number: Response<Money> =
        decode("{\"data\": {\"amount\": 1.5, \"currency\": \"USD\"}}").unwrap();
    let text: Response<Money> =
        decode("{\"data\": {\"amount\": \"1.5\", \"currency\": \"USD\"}}").unwrap();
    assert_eq!(number.data.amount, "1.5");
    assert_eq!(text.data.amount, "1.5");
    assert_eq!(number.data.amount.parse::<f64>().unwrap(), 1.5);
    assert_eq!(text.data.amount.parse::<f64>().unwrap(), 1.5);
    assert_eq!(number.data.currency, "USD");
    assert_eq!(number.data.base, None);
    assert_eq!(number.data.scale, None);
}

#[test]
fn amount_that_is_not_numeric_is_refused() {
    let text = "{\"data\": {\"amount\": \"abc\", \"currency\": \"USD\"}}";
    let outcome: Result<Response<Money>, Error> = decode(text);
    match outcome {
        Err(Error::JSON { error: JsonFailure::Shape, data }) => {
            assert_eq!(data, Some(String::from(text)));
        }
        other => panic!("expected a failure of shape, got {:?}", other),
    }
    let flag: Result<Response<Money>, Error> =
        decode("{\"data\": {\"amount\": true, \"currency\": \"USD\"}}");
    assert!(flag.is_err());
    let null: Result<Response<Money>, Error> =
        decode("{\"data\": {\"amount\": null, \"currency\": \"USD\"}}");
    assert!(null.is_err());
    let missing: Result<Response<Money>, Error> = decode("{\"data\": {\"currency\": \"USD\"}}");
    assert!(missing.is_err());
}

#[test]
fn money_with_every_member() {
    let envelope: Response<Money> = decode(
        "{\"data\": {\"amount\": \"1020.25\", \"currency\": \"USD\", \"base\": \"BTC\", \"scale\": 2}}",
    )
    .unwrap();
    assert_eq!(envelope.data.amount, "1020.25");
    assert_eq!(envelope.data.currency, "USD");
    assert_eq!(envelope.data.base, Some(String::from("BTC")));
    assert_eq!(envelope.data.scale, Some(2));
    let whole: Response<Money> = decode("{\"data\": {\"amount\": 3, \"currency\": \"EUR\"}}").unwrap();
    assert_eq!(whole.data.amount, "3");
}

#[test]
fn money_defaults() {
    let money = Money::default();
    assert_eq!(money.amount, "0");
    assert_eq!(money.currency, "");
    assert_eq!(money.base, None);
    assert_eq!(money.scale, None);
}

#[test]
fn numeric_texts_follow_the_float_grammar() {
    let accepted = [
        "0", "1", "1.5", "-1.5", "+1.5", "1.", ".5", "-.5", "1e5", "1E5", "1e+5", "1e-5", "1.e5",
        ".5e5", "1.25e-10", "007", "inf", "INF", "Infinity", "-infinity", "nan", "NaN", "+nan",
        "123456789012345678901234567890",
    ];
    for text in accepted.iter() {
        assert!(is_numeric_text(text), "{} should be numeric", text);
        assert!(text.parse::<f64>().is_ok(), "{} should parse", text);
    }
    let refused = [
        "", "abc", "+", "-", ".", "-.", "e5", ".e5", "1e", "1e+", "1e5.5", "1.5.5", "1 ", " 1",
        "1,5", "0x10", "1_000", "--1", "+-1", "1e5e5", "infinit", "na", "1f", "١",
    ];
    for text in refused.iter() {
        assert!(!is_numeric_text(text), "{} should not be numeric", text);
        assert!(text.parse::<f64>().is_err(), "{} should not parse", text);
    }
}

#[test]
fn currency_decodes_with_either_form_of_min_size() {
    let envelope: Response<Vec<Currency>> = decode(
        "{\"data\": [{\"id\": \"USD\", \"name\": \"US Dollar\", \"min_size\": \"0.01000000\"}, \
         {\"id\": \"JPY\", \"name\": \"Yen\", \"min_size\": 1}]}",
    )
    .unwrap();
    assert_eq!(envelope.data.len(), 2);
    assert_eq!(envelope.data[0].id, "USD");
    assert_eq!(envelope.data[0].name, "US Dollar");
    assert_eq!(envelope.data[0].min_size, "0.01000000");
    assert_eq!(envelope.data[1].min_size, "1");
    let bad: Result<Response<Vec<Currency>>, Error> =
        decode("{\"data\": [{\"id\": \"USD\", \"name\": \"US Dollar\", \"min_size\": \"tiny\"}]}");
    assert!(matches!(bad, Err(Error::JSON { error: JsonFailure::Shape, .. })));
}

#[test]
fn time_decodes() {
    let envelope: Response<Time> =
        decode("{\"data\": {\"iso\": \"2015-06-23T18:02:51Z\", \"epoch\": 1435082571}}").unwrap();
    assert_eq!(envelope.data.iso, DateTime { seconds: 1435082571, nanos: 0 });
    assert_eq!(envelope.data.epoch, "1435082571");
    let text: Result<Response<Time>, Error> =
        decode("{\"data\": {\"iso\": \"2015-06-23T18:02:51Z\", \"epoch\": \"1435082571\"}}");
    assert!(text.is_err());
}
