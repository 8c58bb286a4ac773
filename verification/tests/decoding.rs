use coinbase::error::Error;
use coinbase::error::JsonFailure;
use coinbase::json::Json;
use coinbase::types::decode;
use coinbase::types::AccountCurrency;
use coinbase::types::AccountType;
use coinbase::types::DateTime;
use coinbase::types::Order;
use coinbase::types::Pagination;
use coinbase::types::PaymentMethodType;
use coinbase::types::Rates;
use coinbase::types::ResourceMeta;
use coinbase::types::ResourceRef;
use coinbase::types::ResourceType;
use coinbase::types::Response;
use coinbase::types::TransactionStatus;
use coinbase::types::TransactionType;
use coinbase::types::TransferStatus;
use coinbase::types::UserAuth;
use coinbase::types::UserCountry;

#[test]
fn envelope_defaults_what_is_missing() {
    let text = "{\"data\": {\"currency\":\"EUR\",\"rates\":{\"BTC\":\"1\"}}}";
    let envelope: Response<Rates> = decode(text).unwrap();
    assert!(envelope.pagination.is_none());
    assert!(envelope.errors.is_empty());
    assert!(envelope.warnings.is_empty());
    assert_eq!(envelope.data.currency, "EUR");
    assert_eq!(envelope.data.rates, vec![(String::from("BTC"), String::from("1"))]);
    assert_eq!(envelope.data.rate("BTC"), Some(String::from("1")));
    assert!(envelope.data.contains_key("BTC"));
    assert!(!envelope.data.contains_key("ETH"));
}

#[test]
fn envelope_without_data_takes_the_default_payload() {
    let envelope: Response<Rates> = decode("{}").unwrap();
    assert_eq!(envelope.data.currency, "");
    assert!(envelope.data.rates.is_empty());
    let unit: Response<()> = decode("{\"warnings\": []}").unwrap();
    assert!(unit.warnings.is_empty());
    let list: Response<Vec<Rates>> = decode("{\"errors\": []}").unwrap();
    assert!(list.data.is_empty());
}

#[test]
fn envelope_with_every_member() {
    let text = "{\"data\": [\"a\", \"b\"], \"pagination\": {\"limit\": 10, \"order\": \"asc\", \
                \"ending_before\": null, \"starting_after\": \"x\", \"next_uri\": \"/v2/next\"}, \
                \"errors\": [{\"id\": \"e1\", \"message\": \"bad\", \"url\": \"http://e\"}], \
                \"warnings\": [{\"id\": \"w1\", \"message\": \"careful\"}]}";
    let envelope: Response<Vec<String>> = decode(text).unwrap();
    assert_eq!(envelope.data, vec![String::from("a"), String::from("b")]);
    let page = envelope.pagination.unwrap();
    assert_eq!(page.limit, 10);
    assert_eq!(page.order, Order::ASC);
    assert_eq!(page.ending_before, None);
    assert_eq!(page.starting_after, Some(String::from("x")));
    assert_eq!(page.previous_uri, None);
    assert_eq!(page.next_uri, Some(String::from("/v2/next")));
    assert_eq!(envelope.errors.len(), 1);
    assert_eq!(envelope.errors[0].id, "e1");
    assert_eq!(envelope.errors[0].message, "bad");
    assert_eq!(envelope.errors[0].url, Some(String::from("http://e")));
    assert_eq!(envelope.warnings.len(), 1);
    assert_eq!(envelope.warnings[0].id, "w1");
    assert_eq!(envelope.warnings[0].message, "careful");
    assert_eq!(envelope.warnings[0].url, None);
}

#[test]
fn envelope_with_null_pagination_has_no_cursor() {
    let envelope: Response<()> = decode("{\"pagination\": null}").unwrap();
    assert!(envelope.pagination.is_none());
}

#[test]
fn envelope_with_an_unknown_member_is_refused() {
    let text = "{\"data\": null, \"extra\": 1}";
    let outcome: Result<Response<()>, Error> = decode(text);
    match outcome {
        Err(Error::JSON { error: JsonFailure::Shape, data }) => {
            assert_eq!(data, Some(String::from(text)));
        }
        other => panic!("expected a failure of shape, got {:?}", other),
    }
}

#[test]
fn text_that_is_no_json_is_refused_with_the_text() {
    let text = "<html>busy</html>";
    let outcome: Result<Response<Rates>, Error> = decode(text);
    match outcome {
        Err(Error::JSON { error: JsonFailure::Syntax(message), data }) => {
            assert!(!message.is_empty());
            assert_eq!(data, Some(String::from(text)));
        }
        other => panic!("expected a failure of syntax, got {:?}", other),
    }
}

#[test]
fn envelope_that_is_no_object_is_refused() {
    let outcome: Result<Response<()>, Error> = decode("[1, 2]");
    assert!(matches!(outcome, Err(Error::JSON { error: JsonFailure::Shape, data: Some(_) })));
}

#[test]
fn payload_of_another_shape_is_refused() {
    let outcome: Result<Response<Rates>, Error> = decode("{\"data\": {\"currency\": 5, \"rates\": {}}}");
    assert!(matches!(outcome, Err(Error::JSON { error: JsonFailure::Shape, .. })));
    let missing: Result<Response<Rates>, Error> = decode("{\"data\": {\"currency\": \"EUR\"}}");
    assert!(matches!(missing, Err(Error::JSON { error: JsonFailure::Shape, .. })));
    let extra: Result<Response<Rates>, Error> =
        decode("{\"data\": {\"currency\": \"EUR\", \"rates\": {}, \"more\": 1}}");
    assert!(matches!(extra, Err(Error::JSON { error: JsonFailure::Shape, .. })));
    let number: Result<Response<Rates>, Error> =
        decode("{\"data\": {\"currency\": \"EUR\", \"rates\": {\"BTC\": 1}}}");
    assert!(matches!(number, Err(Error::JSON { error: JsonFailure::Shape, .. })));
}

#[test]
fn errors_of_another_shape_are_refused() {
    let outcome: Result<Response<()>, Error> = decode("{\"errors\": [{\"id\": \"e\"}]}");
    assert!(matches!(outcome, Err(Error::JSON { error: JsonFailure::Shape, .. })));
    let null: Result<Response<()>, Error> = decode("{\"errors\": null}");
    assert!(matches!(null, Err(Error::JSON { error: JsonFailure::Shape, .. })));
    let extra: Result<Response<()>, Error> =
        decode("{\"warnings\": [{\"id\": \"w\", \"message\": \"m\", \"code\": 1}]}");
    assert!(matches!(extra, Err(Error::JSON { error: JsonFailure::Shape, .. })));
}

#[test]
fn pagination_needs_limit_and_a_known_order() {
    let no_limit: Result<Response<()>, Error> = decode("{\"pagination\": {\"order\": \"asc\"}}");
    assert!(no_limit.is_err());
    let bad_order: Result<Response<()>, Error> =
        decode("{\"pagination\": {\"limit\": 1, \"order\": \"sideways\"}}");
    assert!(bad_order.is_err());
    let negative: Result<Response<()>, Error> =
        decode("{\"pagination\": {\"limit\": -1, \"order\": \"asc\"}}");
    assert!(negative.is_err());
    let fraction: Result<Response<()>, Error> =
        decode("{\"pagination\": {\"limit\": 1.5, \"order\": \"asc\"}}");
    assert!(fraction.is_err());
    let fine: Response<()> = decode("{\"pagination\": {\"limit\": 0, \"order\": \"desc\"}}").unwrap();
    let page: Pagination = fine.pagination.unwrap();
    assert_eq!(page.limit, 0);
    assert_eq!(page.order, Order::DESC);
}

#[test]
fn unknown_resource_tag_decodes_to_unknown() {
    let text = "{\"data\": {\"id\": \"abc\", \"resource\": \"some_future_type\", \
                \"resource_path\": \"/v2/things/abc\"}}";
    let envelope: Response<ResourceMeta> = decode(text).unwrap();
    assert_eq!(envelope.data.resource, ResourceType::Unknown);
    assert_eq!(envelope.data.id, "abc");
    assert_eq!(envelope.data.resource_path, "/v2/things/abc");
    assert_eq!(envelope.data.created_at, None);
    let reference: Response<ResourceRef> = decode(text).unwrap();
    assert_eq!(reference.data.resource, ResourceType::Unknown);
}

#[test]
fn known_resource_tags() {
    assert_eq!(ResourceType::from_tag("account"), ResourceType::Account);
    assert_eq!(ResourceType::from_tag("address"), ResourceType::Address);
    assert_eq!(ResourceType::from_tag("buy"), ResourceType::Buy);
    assert_eq!(ResourceType::from_tag("deposit"), ResourceType::Deposit);
    assert_eq!(ResourceType::from_tag("notification"), ResourceType::Notification);
    assert_eq!(ResourceType::from_tag("payment_method"), ResourceType::PaymentMethod);
    assert_eq!(ResourceType::from_tag("sell"), ResourceType::Sell);
    assert_eq!(ResourceType::from_tag("transaction"), ResourceType::Transaction);
    assert_eq!(ResourceType::from_tag("user"), ResourceType::User);
    assert_eq!(ResourceType::from_tag("withdrawal"), ResourceType::Withdrawal);
    assert_eq!(ResourceType::from_tag("Account"), ResourceType::Unknown);
    assert_eq!(ResourceType::from_tag(""), ResourceType::Unknown);
    assert_eq!(ResourceType::default(), ResourceType::Unknown);
}

#[test]
fn resource_tag_that_is_no_text_is_refused() {
    let text = "{\"data\": {\"id\": \"abc\", \"resource\": 5, \"resource_path\": \"/p\"}}";
    let outcome: Result<Response<ResourceRef>, Error> = decode(text);
    assert!(matches!(outcome, Err(Error::JSON { error: JsonFailure::Shape, .. })));
}

#[test]
fn resource_meta_reads_its_instants() {
    let text = "{\"data\": {\"id\": \"abc\", \"resource\": \"user\", \"resource_path\": \"/v2/user\", \
                \"created_at\": \"2015-01-31T20:49:02Z\", \"updated_at\": null}}";
    let envelope: Response<ResourceMeta> = decode(text).unwrap();
    assert_eq!(envelope.data.resource, ResourceType::User);
    assert_eq!(envelope.data.created_at, Some(DateTime { seconds: 1422737342, nanos: 0 }));
    assert_eq!(envelope.data.updated_at, None);
    let bad = "{\"data\": {\"id\": \"abc\", \"resource\": \"user\", \"resource_path\": \"/v2/user\", \
               \"created_at\": \"yesterday\"}}";
    let outcome: Result<Response<ResourceMeta>, Error> = decode(bad);
    assert!(matches!(outcome, Err(Error::JSON { error: JsonFailure::Shape, .. })));
}

#[test]
fn instants_parse_from_text() {
    assert_eq!(DateTime::parse("1970-01-01T00:00:00Z"), Some(DateTime { seconds: 0, nanos: 0 }));
    assert_eq!(DateTime::parse("1970-01-01T00:00:00Z"), Some(DateTime::default()));
    assert_eq!(
        DateTime::parse("2015-01-31T20:49:02.250+01:00"),
        Some(DateTime { seconds: 1422733742, nanos: 250000000 })
    );
    assert_eq!(DateTime::parse("not a date"), None);
}

#[test]
fn wallet_tags_are_tolerant() {
    assert_eq!(AccountType::from_tag("wallet"), AccountType::Wallet);
    assert_eq!(AccountType::from_tag("fiat"), AccountType::Fiat);
    assert_eq!(AccountType::from_tag("vault"), AccountType::Vault);
    assert_eq!(AccountType::from_tag("multisig"), AccountType::Unknown);
    assert_eq!(PaymentMethodType::from_tag("ach_bank_account"), PaymentMethodType::ACHBankAccount);
    assert_eq!(PaymentMethodType::from_tag("secure3d_card"), PaymentMethodType::Secure3dCard);
    assert_eq!(PaymentMethodType::from_tag("interac"), PaymentMethodType::Interac);
    assert_eq!(PaymentMethodType::from_tag("paypal"), PaymentMethodType::Unknown);
    assert_eq!(TransferStatus::from_tag("created"), TransferStatus::Created);
    assert_eq!(TransferStatus::from_tag("completed"), TransferStatus::Completed);
    assert_eq!(TransferStatus::from_tag("canceled"), TransferStatus::Canceled);
    assert_eq!(TransferStatus::from_tag("cancelled"), TransferStatus::Unknown);
    assert_eq!(TransactionStatus::from_tag("pending"), TransactionStatus::Pending);
    assert_eq!(
        TransactionStatus::from_tag("waitingforsignature"),
        TransactionStatus::WaitingForSignature
    );
    assert_eq!(TransactionStatus::from_tag("waiting_for_signature"), TransactionStatus::Unknown);
    assert_eq!(TransactionType::from_tag("send"), TransactionType::Send);
    assert_eq!(TransactionType::from_tag("vaultwithdrawal"), TransactionType::VaultWithdrawal);
    assert_eq!(TransactionType::from_tag("airdrop"), TransactionType::Unknown);
    assert_eq!(AccountType::default(), AccountType::Unknown);
    assert_eq!(TransactionType::default(), TransactionType::Unknown);
}

#[test]
fn wallet_tags_decode_inside_an_envelope() {
    let envelope: Response<Vec<TransactionStatus>> =
        decode("{\"data\": [\"pending\", \"brand_new_state\", \"failed\"]}").unwrap();
    assert_eq!(
        envelope.data,
        vec![TransactionStatus::Pending, TransactionStatus::Unknown, TransactionStatus::Failed]
    );
}

#[test]
fn account_currency_decodes() {
    let text = "{\"data\": {\"type\": \"crypto\", \"name\": \"Bitcoin\", \"address_regex\": \"^x$\", \
                \"asset_id\": \"a1\", \"code\": \"BTC\", \"color\": \"#fff\", \"exponent\": 8, \
                \"sort_index\": 100}}";
    let envelope: Response<AccountCurrency> = decode(text).unwrap();
    assert_eq!(envelope.data.kind, "crypto");
    assert_eq!(envelope.data.name, "Bitcoin");
    assert_eq!(envelope.data.code, "BTC");
    assert_eq!(envelope.data.exponent, 8);
    assert_eq!(envelope.data.sort_index, 100);
}

#[test]
fn user_country_and_auth_decode() {
    let country: Response<UserCountry> =
        decode("{\"data\": {\"code\": \"DE\", \"name\": \"Germany\", \"is_in_europe\": true}}").unwrap();
    assert_eq!(country.data.code, "DE");
    assert_eq!(country.data.is_in_europe, Some(true));
    let plain: Response<UserCountry> = decode("{\"data\": {\"code\": \"US\", \"name\": \"USA\"}}").unwrap();
    assert_eq!(plain.data.is_in_europe, None);
    let auth: Response<UserAuth> = decode(
        "{\"data\": {\"method\": \"oauth\", \"scopes\": [\"wallet:user:read\"], \
         \"oauth_meta\": {\"send_limit\": \"1\"}}}",
    )
    .unwrap();
    assert_eq!(auth.data.method, "oauth");
    assert_eq!(auth.data.scopes, vec![String::from("wallet:user:read")]);
    assert_eq!(auth.data.oauth_meta, Some(vec![(String::from("send_limit"), String::from("1"))]));
}

#[test]
fn documents_parse_into_values() {
    let json = Json::parse("{\"b\": [1, -2, 1.5, true, null, \"x\"], \"a\": {}}").unwrap();
    match json {
        Json::Object(entries) => {
            assert_eq!(entries.len(), 2);
            assert_eq!(entries[0].0, "a");
            assert_eq!(entries[1].0, "b");
            match &entries[1].1 {
                Json::List(items) => {
                    assert_eq!(items.len(), 6);
                    match &items[0] {
                        Json::Number(n) => {
                            assert_eq!(n.text, "1");
                            assert_eq!(n.unsigned, Some(1));
                        }
                        other => panic!("expected a number, got {:?}", other),
                    }
                    match &items[1] {
                        Json::Number(n) => {
                            assert_eq!(n.text, "-2");
                            assert_eq!(n.unsigned, None);
                        }
                        other => panic!("expected a number, got {:?}", other),
                    }
                    match &items[2] {
                        Json::Number(n) => {
                            assert_eq!(n.text, "1.5");
                            assert_eq!(n.unsigned, None);
                        }
                        other => panic!("expected a number, got {:?}", other),
                    }
                    assert!(matches!(items[3], Json::Bool(true)));
                    assert!(matches!(items[4], Json::Null));
                    assert_eq!(items[5].as_text(), Some(String::from("x")));
                }
                other => panic!("expected a list, got {:?}", other),
            }
        }
        other => panic!("expected an object, got {:?}", other),
    }
    assert!(Json::parse("{").is_err());
    assert!(Json::parse("").is_err());
}

#[test]
fn parcel_hands_out_the_payload_as_it_came() {
    let text = "{\"data\": {\"anything\": [1, 2]}, \"warnings\": [{\"id\": \"w\", \"message\": \"m\"}]}";
    let envelope = coinbase::types::decode_parcel(text).unwrap();
    assert_eq!(envelope.warnings.len(), 1);
    assert!(envelope.pagination.is_none());
    match envelope.data {
        Json::Object(entries) => {
            assert_eq!(entries.len(), 1);
            assert_eq!(entries[0].0, "anything");
        }
        other => panic!("expected an object, got {:?}", other),
    }
    let empty = coinbase::types::decode_parcel("{}").unwrap();
    assert!(matches!(empty.data, Json::Null));
    let closed = coinbase::types::decode_parcel("{\"data\": 1, \"more\": 2}");
    assert!(matches!(closed, Err(Error::JSON { error: JsonFailure::Shape, data: Some(_) })));
    let broken = coinbase::types::decode_parcel("{\"data\": ");
    assert!(matches!(broken, Err(Error::JSON { error: JsonFailure::Syntax(_), data: Some(_) })));
}
