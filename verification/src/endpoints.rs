//! The catalogue of operations: for each, the verb, the path below the
//! root of the service, and the body.

use vstd::prelude::*;
use crate::client::Client;
use crate::error::Error;
use crate::error::JsonFailure;
use crate::message::option_view;
use crate::message::Method;

verus! {

/// An operation to ask of the service: the verb, the path below the root
/// of the service, query included, and the body.
#[derive(Clone, Debug)]
pub struct Call {
    pub method: Method,
    pub path: String,
    pub body: String,
}

/// An operation as contracts speak of it.
pub ghost struct CallView {
    pub method: Method,
    pub path: Seq<char>,
    pub body: Seq<char>,
}

impl View for Call {
    type V = CallView;

    open spec fn view(&self) -> CallView {
        CallView { method: self.method, path: self.path@, body: self.body@ }
    }
}

/// The JSON text of an object with the one member `key`, a text.
pub uninterp spec fn json_object(key: Seq<char>, value: Seq<char>) -> Seq<char>;

/// The currency in which rates are given where none is asked for.
pub open spec fn rates_currency(currency: Option<Seq<char>>) -> Seq<char> {
    match currency {
        Some(c) => c,
        None => "USD"@,
    }
}

/// Writes an object with one member with `serde_json::to_string`, applied
/// to a `HashMap` that holds the one entry. The contract claims that the
/// text depends on the key and the value alone; the error is the
/// serialiser's message.
#[verifier::external_body]
fn object_text(key: &str, value: &str) -> (r: Result<String, String>)
    ensures
        r matches Ok(text) ==> text@ == json_object(key@, value@),
{
    let mut map = std::collections::HashMap::new();
    map.insert(key, value);
    serde_json::to_string(&map).map_err(|error| error.to_string())
}

/// What naming an object must give: an operation with the verb, the path
/// and the object that holds the name, or the failure to write the object.
pub open spec fn named_outcome(method: Method, path: Seq<char>, name: Seq<char>, r: Result<Call, Error>) -> bool {
    match r {
        Ok(call) => call@ == (CallView { method, path, body: json_object("name"@, name) }),
        Err(Error::JSON { error: JsonFailure::Syntax(_), data: None }) => true,
        Err(_) => false,
    }
}

/// Makes the operation that names something, from the outcome of writing
/// the object that holds the name.
pub fn named_call(method: Method, path: String, written: Result<String, String>) -> (r: Result<Call, Error>)
    ensures
        written matches Ok(text) ==> (r matches Ok(call) && call@ == (CallView {
            method,
            path: path@,
            body: text@,
        })),
        written is Err ==> (r matches Err(Error::JSON { error: JsonFailure::Syntax(_), data: None })),
{
    match written {
        Ok(body) => Ok(Call { method, path, body }),
        Err(message) => Err(Error::from(JsonFailure::Syntax(message))),
    }
}

impl Client {

    /// The time of the service.
    pub fn time(&self) -> (call: Call)
        ensures
            call@ == (CallView {
                method: Method::GET,
                path: "time"@,
                body: Seq::<char>::empty(),
            }),
    {
        let path = "time".to_owned();
        Call { method: Method::GET, path, body: String::new() }
    }

    /// The currencies that the service knows.
    pub fn currencies(&self) -> (call: Call)
        ensures
            call@ == (CallView {
                method: Method::GET,
                path: "currencies"@,
                body: Seq::<char>::empty(),
            }),
    {
        let path = "currencies".to_owned();
        Call { method: Method::GET, path, body: String::new() }
    }

    /// The price to buy one unit of `currency`, paid in `other`.
    pub fn buy_price(&self, currency: &str, other: &str) -> (call: Call)
        ensures
            call@ == (CallView {
                method: Method::GET,
                path: "prices/"@ + currency@ + "-"@ + other@ + "/buy"@,
                body: Seq::<char>::empty(),
            }),
    {
        let mut path = String::new();
        path.append("prices/");
        path.append(currency);
        path.append("-");
        path.append(other);
        path.append("/buy");
        assert(path@ =~= "prices/"@ + currency@ + "-"@ + other@ + "/buy"@);
        Call { method: Method::GET, path, body: String::new() }
    }

    /// The price to sell one unit of `currency`, paid in `other`.
    pub fn sell_price(&self, currency: &str, other: &str) -> (call: Call)
        ensures
            call@ == (CallView {
                method: Method::GET,
                path: "prices/"@ + currency@ + "-"@ + other@ + "/sell"@,
                body: Seq::<char>::empty(),
            }),
    {
        let mut path = String::new();
        path.append("prices/");
        path.append(currency);
        path.append("-");
        path.append(other);
        path.append("/sell");
        assert(path@ =~= "prices/"@ + currency@ + "-"@ + other@ + "/sell"@);
        Call { method: Method::GET, path, body: String::new() }
    }

    /// The market price of one unit of `currency` in `other`.
    pub fn spot_price(&self, currency: &str, other: &str) -> (call: Call)
        ensures
            call@ == (CallView {
                method: Method::GET,
                path: "prices/"@ + currency@ + "-"@ + other@ + "/spot"@,
                body: Seq::<char>::empty(),
            }),
    {
        let mut path = String::new();
        path.append("prices/");
        path.append(currency);
        path.append("-");
        path.append(other);
        path.append("/spot");
        assert(path@ =~= "prices/"@ + currency@ + "-"@ + other@ + "/spot"@);
        Call { method: Method::GET, path, body: String::new() }
    }

    /// The market price of one unit of `currency` in `other` on the day `date`.
    pub fn historic_spot_price(&self, currency: &str, other: &str, date: &str) -> (call: Call)
        ensures
            call@ == (CallView {
                method: Method::GET,
                path: "prices/"@ + currency@ + "-"@ + other@ + "/spot?date="@ + date@,
                body: Seq::<char>::empty(),
            }),
    {
        let mut path = String::new();
        path.append("prices/");
        path.append(currency);
        path.append("-");
        path.append(other);
        path.append("/spot?date=");
        path.append(date);
        assert(path@ =~= "prices/"@ + currency@ + "-"@ + other@ + "/spot?date="@ + date@);
        Call { method: Method::GET, path, body: String::new() }
    }

    /// The notifications that the current user subscribed to.
    pub fn list_notifications(&self) -> (call: Call)
        ensures
            call@ == (CallView {
                method: Method::GET,
                path: "notifications"@,
                body: Seq::<char>::empty(),
            }),
    {
        let path = "notifications".to_owned();
        Call { method: Method::GET, path, body: String::new() }
    }

    /// One notification of the current user.
    pub fn get_notification(&self, notification: &str) -> (call: Call)
        ensures
            call@ == (CallView {
                method: Method::GET,
                path: "notifications/"@ + notification@,
                body: Seq::<char>::empty(),
            }),
    {
        let mut path = String::new();
        path.append("notifications/");
        path.append(notification);
        assert(path@ =~= "notifications/"@ + notification@);
        Call { method: Method::GET, path, body: String::new() }
    }

    /// What any user shows in public.
    pub fn get_user(&self, user: &str) -> (call: Call)
        ensures
            call@ == (CallView {
                method: Method::GET,
                path: "users/"@ + user@,
                body: Seq::<char>::empty(),
            }),
    {
        let mut path = String::new();
        path.append("users/");
        path.append(user);
        assert(path@ =~= "users/"@ + user@);
        Call { method: Method::GET, path, body: String::new() }
    }

    /// What the current user shows in public.
    pub fn current_user(&self) -> (call: Call)
        ensures
            call@ == (CallView {
                method: Method::GET,
                path: "user"@,
                body: Seq::<char>::empty(),
            }),
    {
        let path = "user".to_owned();
        Call { method: Method::GET, path, body: String::new() }
    }

    /// How the current user is authorised.
    pub fn current_user_auth(&self) -> (call: Call)
        ensures
            call@ == (CallView {
                method: Method::GET,
                path: "user/auth"@,
                body: Seq::<char>::empty(),
            }),
    {
        let path = "user/auth".to_owned();
        Call { method: Method::GET, path, body: String::new() }
    }

    /// Changes the current user: `data` is the text of the changes.
    pub fn update_user(&self, data: String) -> (call: Call)
        ensures
            call@ == (CallView {
                method: Method::PUT,
                path: "user"@,
                body: data@,
            }),
    {
        let path = "user".to_owned();
        Call { method: Method::PUT, path, body: data }
    }

    /// The accounts of the current user.
    pub fn list_accounts(&self) -> (call: Call)
        ensures
            call@ == (CallView {
                method: Method::GET,
                path: "accounts"@,
                body: Seq::<char>::empty(),
            }),
    {
        let path = "accounts".to_owned();
        Call { method: Method::GET, path, body: String::new() }
    }

    /// One account of the current user.
    pub fn get_account(&self, account: &str) -> (call: Call)
        ensures
            call@ == (CallView {
                method: Method::GET,
                path: "accounts/"@ + account@,
                body: Seq::<char>::empty(),
            }),
    {
        let mut path = String::new();
        path.append("accounts/");
        path.append(account);
        assert(path@ =~= "accounts/"@ + account@);
        Call { method: Method::GET, path, body: String::new() }
    }

    /// Makes an account the primary one.
    pub fn set_primary_account(&self, account: &str) -> (call: Call)
        ensures
            call@ == (CallView {
                method: Method::POST,
                path: "accounts/"@ + account@ + "/primary"@,
                body: Seq::<char>::empty(),
            }),
    {
        let mut path = String::new();
        path.append("accounts/");
        path.append(account);
        path.append("/primary");
        assert(path@ =~= "accounts/"@ + account@ + "/primary"@);
        Call { method: Method::POST, path, body: String::new() }
    }

    /// The addresses of an account.
    pub fn list_addresses(&self, account: &str) -> (call: Call)
        ensures
            call@ == (CallView {
                method: Method::GET,
                path: "accounts/"@ + account@ + "/addresses"@,
                body: Seq::<char>::empty(),
            }),
    {
        let mut path = String::new();
        path.append("accounts/");
        path.append(account);
        path.append("/addresses");
        assert(path@ =~= "accounts/"@ + account@ + "/addresses"@);
        Call { method: Method::GET, path, body: String::new() }
    }

    /// One address of an account.
    pub fn get_address(&self, account: &str, address: &str) -> (call: Call)
        ensures
            call@ == (CallView {
                method: Method::GET,
                path: "accounts/"@ + account@ + "/addresses/"@ + address@,
                body: Seq::<char>::empty(),
            }),
    {
        let mut path = String::new();
        path.append("accounts/");
        path.append(account);
        path.append("/addresses/");
        path.append(address);
        assert(path@ =~= "accounts/"@ + account@ + "/addresses/"@ + address@);
        Call { method: Method::GET, path, body: String::new() }
    }

    /// The transactions that were sent to an address.
    pub fn list_address_transactions(&self, account: &str, address: &str) -> (call: Call)
        ensures
            call@ == (CallView {
                method: Method::GET,
                path: "accounts/"@ + account@ + "/addresses/"@ + address@ + "/transactions"@,
                body: Seq::<char>::empty(),
            }),
    {
        let mut path = String::new();
        path.append("accounts/");
        path.append(account);
        path.append("/addresses/");
        path.append(address);
        path.append("/transactions");
        assert(path@ =~= "accounts/"@ + account@ + "/addresses/"@ + address@ + "/transactions"@);
        Call { method: Method::GET, path, body: String::new() }
    }

    /// The transactions of an account.
    pub fn list_transactions(&self, account: &str) -> (call: Call)
        ensures
            call@ == (CallView {
                method: Method::GET,
                path: "accounts/"@ + account@ + "/transactions"@,
                body: Seq::<char>::empty(),
            }),
    {
        let mut path = String::new();
        path.append("accounts/");
        path.append(account);
        path.append("/transactions");
        assert(path@ =~= "accounts/"@ + account@ + "/transactions"@);
        Call { method: Method::GET, path, body: String::new() }
    }

    /// One transaction of an account.
    pub fn get_transaction(&self, account: &str, transaction: &str) -> (call: Call)
        ensures
            call@ == (CallView {
                method: Method::GET,
                path: "accounts/"@ + account@ + "/transactions/"@ + transaction@,
                body: Seq::<char>::empty(),
            }),
    {
        let mut path = String::new();
        path.append("accounts/");
        path.append(account);
        path.append("/transactions/");
        path.append(transaction);
        assert(path@ =~= "accounts/"@ + account@ + "/transactions/"@ + transaction@);
        Call { method: Method::GET, path, body: String::new() }
    }

    /// Sends, transfers or requests money: `data` is the text of the order.
    pub fn create_transaction(&self, account: &str, data: String) -> (call: Call)
        ensures
            call@ == (CallView {
                method: Method::POST,
                path: "accounts/"@ + account@ + "/transactions"@,
                body: data@,
            }),
    {
        let mut path = String::new();
        path.append("accounts/");
        path.append(account);
        path.append("/transactions");
        assert(path@ =~= "accounts/"@ + account@ + "/transactions"@);
        Call { method: Method::POST, path, body: data }
    }

    /// Pays a request for money.
    pub fn complete_request(&self, account: &str, transaction: &str) -> (call: Call)
        ensures
            call@ == (CallView {
                method: Method::POST,
                path: "accounts/"@ + account@ + "/transactions/"@ + transaction@ + "/complete"@,
                body: Seq::<char>::empty(),
            }),
    {
        let mut path = String::new();
        path.append("accounts/");
        path.append(account);
        path.append("/transactions/");
        path.append(transaction);
        path.append("/complete");
        assert(path@ =~= "accounts/"@ + account@ + "/transactions/"@ + transaction@ + "/complete"@);
        Call { method: Method::POST, path, body: String::new() }
    }

    /// Sends a request for money once more.
    pub fn resend_request(&self, account: &str, transaction: &str) -> (call: Call)
        ensures
            call@ == (CallView {
                method: Method::POST,
                path: "accounts/"@ + account@ + "/transactions/"@ + transaction@ + "/resend"@,
                body: Seq::<char>::empty(),
            }),
    {
        let mut path = String::new();
        path.append("accounts/");
        path.append(account);
        path.append("/transactions/");
        path.append(transaction);
        path.append("/resend");
        assert(path@ =~= "accounts/"@ + account@ + "/transactions/"@ + transaction@ + "/resend"@);
        Call { method: Method::POST, path, body: String::new() }
    }

    /// The buys of an account.
    pub fn list_buys(&self, account: &str) -> (call: Call)
        ensures
            call@ == (CallView {
                method: Method::GET,
                path: "accounts/"@ + account@ + "/buys"@,
                body: Seq::<char>::empty(),
            }),
    {
        let mut path = String::new();
        path.append("accounts/");
        path.append(account);
        path.append("/buys");
        assert(path@ =~= "accounts/"@ + account@ + "/buys"@);
        Call { method: Method::GET, path, body: String::new() }
    }

    /// One buy of an account.
    pub fn get_buy(&self, account: &str, buy: &str) -> (call: Call)
        ensures
            call@ == (CallView {
                method: Method::GET,
                path: "accounts/"@ + account@ + "/buys/"@ + buy@,
                body: Seq::<char>::empty(),
            }),
    {
        let mut path = String::new();
        path.append("accounts/");
        path.append(account);
        path.append("/buys/");
        path.append(buy);
        assert(path@ =~= "accounts/"@ + account@ + "/buys/"@ + buy@);
        Call { method: Method::GET, path, body: String::new() }
    }

    /// Buys: `data` is the text of the order.
    pub fn create_buy(&self, account: &str, data: String) -> (call: Call)
        ensures
            call@ == (CallView {
                method: Method::POST,
                path: "accounts/"@ + account@ + "/buys"@,
                body: data@,
            }),
    {
        let mut path = String::new();
        path.append("accounts/");
        path.append(account);
        path.append("/buys");
        assert(path@ =~= "accounts/"@ + account@ + "/buys"@);
        Call { method: Method::POST, path, body: data }
    }

    /// Completes a buy that was created uncommitted.
    pub fn commit_buy(&self, account: &str, buy: &str) -> (call: Call)
        ensures
            call@ == (CallView {
                method: Method::POST,
                path: "accounts/"@ + account@ + "/buys/"@ + buy@ + "/commit"@,
                body: Seq::<char>::empty(),
            }),
    {
        let mut path = String::new();
        path.append("accounts/");
        path.append(account);
        path.append("/buys/");
        path.append(buy);
        path.append("/commit");
        assert(path@ =~= "accounts/"@ + account@ + "/buys/"@ + buy@ + "/commit"@);
        Call { method: Method::POST, path, body: String::new() }
    }

    /// The sells of an account.
    pub fn list_sells(&self, account: &str) -> (call: Call)
        ensures
            call@ == (CallView {
                method: Method::GET,
                path: "accounts/"@ + account@ + "/sells"@,
                body: Seq::<char>::empty(),
            }),
    {
        let mut path = String::new();
        path.append("accounts/");
        path.append(account);
        path.append("/sells");
        assert(path@ =~= "accounts/"@ + account@ + "/sells"@);
        Call { method: Method::GET, path, body: String::new() }
    }

    /// One sell of an account.
    pub fn get_sell(&self, account: &str, sell: &str) -> (call: Call)
        ensures
            call@ == (CallView {
                method: Method::GET,
                path: "accounts/"@ + account@ + "/sells/"@ + sell@,
                body: Seq::<char>::empty(),
            }),
    {
        let mut path = String::new();
        path.append("accounts/");
        path.append(account);
        path.append("/sells/");
        path.append(sell);
        assert(path@ =~= "accounts/"@ + account@ + "/sells/"@ + sell@);
        Call { method: Method::GET, path, body: String::new() }
    }

    /// Sells: `data` is the text of the order.
    pub fn create_sell(&self, account: &str, data: String) -> (call: Call)
        ensures
            call@ == (CallView {
                method: Method::POST,
                path: "accounts/"@ + account@ + "/sells"@,
                body: data@,
            }),
    {
        let mut path = String::new();
        path.append("accounts/");
        path.append(account);
        path.append("/sells");
        assert(path@ =~= "accounts/"@ + account@ + "/sells"@);
        Call { method: Method::POST, path, body: data }
    }

    /// Completes a sell that was created uncommitted.
    pub fn commit_sell(&self, account: &str, sell: &str) -> (call: Call)
        ensures
            call@ == (CallView {
                method: Method::POST,
                path: "accounts/"@ + account@ + "/sells/"@ + sell@ + "/commit"@,
                body: Seq::<char>::empty(),
            }),
    {
        let mut path = String::new();
        path.append("accounts/");
        path.append(account);
        path.append("/sells/");
        path.append(sell);
        path.append("/commit");
        assert(path@ =~= "accounts/"@ + account@ + "/sells/"@ + sell@ + "/commit"@);
        Call { method: Method::POST, path, body: String::new() }
    }

    /// The deposits of an account.
    pub fn list_deposits(&self, account: &str) -> (call: Call)
        ensures
            call@ == (CallView {
                method: Method::GET,
                path: "accounts/"@ + account@ + "/deposits"@,
                body: Seq::<char>::empty(),
            }),
    {
        let mut path = String::new();
        path.append("accounts/");
        path.append(account);
        path.append("/deposits");
        assert(path@ =~= "accounts/"@ + account@ + "/deposits"@);
        Call { method: Method::GET, path, body: String::new() }
    }

    /// One deposit of an account.
    pub fn get_deposit(&self, account: &str, deposit: &str) -> (call: Call)
        ensures
            call@ == (CallView {
                method: Method::GET,
                path: "accounts/"@ + account@ + "/deposits/"@ + deposit@,
                body: Seq::<char>::empty(),
            }),
    {
        let mut path = String::new();
        path.append("accounts/");
        path.append(account);
        path.append("/deposits/");
        path.append(deposit);
        assert(path@ =~= "accounts/"@ + account@ + "/deposits/"@ + deposit@);
        Call { method: Method::GET, path, body: String::new() }
    }

    /// Deposits: `data` is the text of the order.
    pub fn create_deposit(&self, account: &str, data: String) -> (call: Call)
        ensures
            call@ == (CallView {
                method: Method::POST,
                path: "accounts/"@ + account@ + "/deposits"@,
                body: data@,
            }),
    {
        let mut path = String::new();
        path.append("accounts/");
        path.append(account);
        path.append("/deposits");
        assert(path@ =~= "accounts/"@ + account@ + "/deposits"@);
        Call { method: Method::POST, path, body: data }
    }

    /// Completes a deposit that was created uncommitted.
    pub fn commit_deposit(&self, account: &str, deposit: &str) -> (call: Call)
        ensures
            call@ == (CallView {
                method: Method::POST,
                path: "accounts/"@ + account@ + "/deposits/"@ + deposit@ + "/commit"@,
                body: Seq::<char>::empty(),
            }),
    {
        let mut path = String::new();
        path.append("accounts/");
        path.append(account);
        path.append("/deposits/");
        path.append(deposit);
        path.append("/commit");
        assert(path@ =~= "accounts/"@ + account@ + "/deposits/"@ + deposit@ + "/commit"@);
        Call { method: Method::POST, path, body: String::new() }
    }

    /// The withdrawals of an account.
    pub fn list_withdrawals(&self, account: &str) -> (call: Call)
        ensures
            call@ == (CallView {
                method: Method::GET,
                path: "accounts/"@ + account@ + "/withdrawals"@,
                body: Seq::<char>::empty(),
            }),
    {
        let mut path = String::new();
        path.append("accounts/");
        path.append(account);
        path.append("/withdrawals");
        assert(path@ =~= "accounts/"@ + account@ + "/withdrawals"@);
        Call { method: Method::GET, path, body: String::new() }
    }

    /// One withdrawal of an account.
    pub fn get_withdrawal(&self, account: &str, withdrawal: &str) -> (call: Call)
        ensures
            call@ == (CallView {
                method: Method::GET,
                path: "accounts/"@ + account@ + "/withdrawals/"@ + withdrawal@,
                body: Seq::<char>::empty(),
            }),
    {
        let mut path = String::new();
        path.append("accounts/");
        path.append(account);
        path.append("/withdrawals/");
        path.append(withdrawal);
        assert(path@ =~= "accounts/"@ + account@ + "/withdrawals/"@ + withdrawal@);
        Call { method: Method::GET, path, body: String::new() }
    }

    /// Withdraws: `data` is the text of the order.
    pub fn create_withdrawal(&self, account: &str, data: String) -> (call: Call)
        ensures
            call@ == (CallView {
                method: Method::POST,
                path: "accounts/"@ + account@ + "/withdrawals"@,
                body: data@,
            }),
    {
        let mut path = String::new();
        path.append("accounts/");
        path.append(account);
        path.append("/withdrawals");
        assert(path@ =~= "accounts/"@ + account@ + "/withdrawals"@);
        Call { method: Method::POST, path, body: data }
    }

    /// Completes a withdrawal that was created uncommitted.
    pub fn commit_withdrawal(&self, account: &str, withdrawal: &str) -> (call: Call)
        ensures
            call@ == (CallView {
                method: Method::POST,
                path: "accounts/"@ + account@ + "/withdrawals/"@ + withdrawal@ + "/commit"@,
                body: Seq::<char>::empty(),
            }),
    {
        let mut path = String::new();
        path.append("accounts/");
        path.append(account);
        path.append("/withdrawals/");
        path.append(withdrawal);
        path.append("/commit");
        assert(path@ =~= "accounts/"@ + account@ + "/withdrawals/"@ + withdrawal@ + "/commit"@);
        Call { method: Method::POST, path, body: String::new() }
    }

    /// The payment methods of the current user.
    pub fn list_payment_methods(&self) -> (call: Call)
        ensures
            call@ == (CallView {
                method: Method::GET,
                path: "payment-methods"@,
                body: Seq::<char>::empty(),
            }),
    {
        let path = "payment-methods".to_owned();
        Call { method: Method::GET, path, body: String::new() }
    }

    /// One payment method of the current user.
    pub fn get_payment_method(&self, payment_method: &str) -> (call: Call)
        ensures
            call@ == (CallView {
                method: Method::GET,
                path: "payment-methods/"@ + payment_method@,
                body: Seq::<char>::empty(),
            }),
    {
        let mut path = String::new();
        path.append("payment-methods/");
        path.append(payment_method);
        assert(path@ =~= "payment-methods/"@ + payment_method@);
        Call { method: Method::GET, path, body: String::new() }
    }

    /// The exchange rates of `currency`, or of the dollar where none is asked
    /// for.
    pub fn rates(&self, currency: Option<&str>) -> (call: Call)
        ensures
            call@ == (CallView {
                method: Method::GET,
                path: "exchange-rates?currency="@ + rates_currency(option_view(currency)),
                body: Seq::<char>::empty(),
            }),
    {
        let mut path = "exchange-rates?currency=".to_owned();
        match currency {
            Some(c) => {
                path.append(c);
            },
            None => {
                path.append("USD");
            },
        }
        Call { method: Method::GET, path, body: String::new() }
    }

    /// Gives an account the name `name`.
    pub fn update_account(&self, account: &str, name: &str) -> (r: Result<Call, Error>)
        ensures
            named_outcome(Method::PUT, "accounts/"@ + account@, name@, r),
    {
        let mut path = String::new();
        path.append("accounts/");
        path.append(account);
        assert(path@ =~= "accounts/"@ + account@);
        named_call(Method::PUT, path, object_text("name", name))
    }

    /// Makes a new address for an account, with the name `name` if there is
    /// one.
    pub fn create_address(&self, account: &str, name: Option<&str>) -> (r: Result<Call, Error>)
        ensures
            name matches Some(n) ==> named_outcome(
                Method::POST,
                "accounts/"@ + account@ + "/addresses"@,
                n@,
                r,
            ),
            name is None ==> (r matches Ok(call) && call@ == (CallView {
                method: Method::POST,
                path: "accounts/"@ + account@ + "/addresses"@,
                body: Seq::<char>::empty(),
            })),
    {
        let mut path = String::new();
        path.append("accounts/");
        path.append(account);
        path.append("/addresses");
        assert(path@ =~= "accounts/"@ + account@ + "/addresses"@);
        match name {
            Some(n) => named_call(Method::POST, path, object_text("name", n)),
            None => Ok(Call { method: Method::POST, path, body: String::new() }),
        }
    }
}

} // verus!
