//! The kinds and states of the wallet's records, and the small records
//! that others are made of.

use vstd::prelude::*;
use crate::decode::decode_list;
use crate::decode::decoded_list;
use crate::decode::models;
use crate::decode::Decode;
use crate::json::count_member;
use crate::json::find;
use crate::json::has_only;
use crate::json::member;
use crate::json::names;
use crate::json::only_members;
use crate::json::read_count;
use crate::json::optional_flag_member;
use crate::json::read_optional_flag;
use crate::json::read_text;
use crate::json::same_text;
use crate::json::text_member;
use crate::json::Json;
use crate::types::public::decode_pairs;
use crate::types::public::decoded_pairs;
use crate::types::public::pair_models;
use crate::types::public::SimpleMap;

verus! {

/// The kind of an account. The service adds values over time: one that this
/// library does not know is `Unknown`.
#[derive(Clone, Copy, Debug, PartialEq, Eq, Structural)]
pub enum AccountType {
    Wallet,
    Fiat,
    Vault,
    Unknown,
}

impl Default for AccountType {
    fn default() -> (value: Self)
        ensures
            value == AccountType::Unknown,
    {
        AccountType::Unknown
    }
}

impl AccountType {
    /// The value that a tag names; `Unknown` for a tag that names none.
    pub open spec fn of_tag(tag: Seq<char>) -> AccountType {
        if tag == "wallet"@ {
            AccountType::Wallet
        } else if tag == "fiat"@ {
            AccountType::Fiat
        } else if tag == "vault"@ {
            AccountType::Vault
        } else {
            AccountType::Unknown
        }
    }

    /// The value that a tag names; `Unknown` for a tag that names none.
    pub fn from_tag(tag: &str) -> (value: AccountType)
        ensures
            value == AccountType::of_tag(tag@),
    {
        if same_text(tag, "wallet") {
            AccountType::Wallet
        } else if same_text(tag, "fiat") {
            AccountType::Fiat
        } else if same_text(tag, "vault") {
            AccountType::Vault
        } else {
            AccountType::Unknown
        }
    }
}

impl Decode for AccountType {
    type Model = AccountType;

    open spec fn model(&self) -> AccountType {
        *self
    }

    open spec fn decoded(json: Json) -> Option<AccountType> {
        match json {
            Json::Text(t) => Some(AccountType::of_tag(t@)),
            _ => None,
        }
    }

    open spec fn absent() -> AccountType {
        AccountType::Unknown
    }

    fn decode(json: &Json) -> (r: Option<Self>) {
        match json {
            Json::Text(t) => Some(AccountType::from_tag(t.as_str())),
            _ => None,
        }
    }

    fn fallback() -> (value: Self) {
        AccountType::Unknown
    }
}

/// The kind of a payment method. The service adds values over time: one that this
/// library does not know is `Unknown`.
#[derive(Clone, Copy, Debug, PartialEq, Eq, Structural)]
pub enum PaymentMethodType {
    ACHBankAccount,
    SEPABankAccount,
    IDEALBankAccount,
    FiatAccount,
    BankWire,
    CreditCard,
    Secure3dCard,
    EFTBankAccount,
    Interac,
    Unknown,
}

impl Default for PaymentMethodType {
    fn default() -> (value: Self)
        ensures
            value == PaymentMethodType::Unknown,
    {
        PaymentMethodType::Unknown
    }
}

impl PaymentMethodType {
    /// The value that a tag names; `Unknown` for a tag that names none.
    pub open spec fn of_tag(tag: Seq<char>) -> PaymentMethodType {
        if tag == "ach_bank_account"@ {
            PaymentMethodType::ACHBankAccount
        } else if tag == "sepa_bank_account"@ {
            PaymentMethodType::SEPABankAccount
        } else if tag == "ideal_bank_account"@ {
            PaymentMethodType::IDEALBankAccount
        } else if tag == "fiat_account"@ {
            PaymentMethodType::FiatAccount
        } else if tag == "bank_wire"@ {
            PaymentMethodType::BankWire
        } else if tag == "credit_card"@ {
            PaymentMethodType::CreditCard
        } else if tag == "secure3d_card"@ {
            PaymentMethodType::Secure3dCard
        } else if tag == "eft_bank_account"@ {
            PaymentMethodType::EFTBankAccount
        } else if tag == "interac"@ {
            PaymentMethodType::Interac
        } else {
            PaymentMethodType::Unknown
        }
    }

    /// The value that a tag names; `Unknown` for a tag that names none.
    pub fn from_tag(tag: &str) -> (value: PaymentMethodType)
        ensures
            value == PaymentMethodType::of_tag(tag@),
    {
        if same_text(tag, "ach_bank_account") {
            PaymentMethodType::ACHBankAccount
        } else if same_text(tag, "sepa_bank_account") {
            PaymentMethodType::SEPABankAccount
        } else if same_text(tag, "ideal_bank_account") {
            PaymentMethodType::IDEALBankAccount
        } else if same_text(tag, "fiat_account") {
            PaymentMethodType::FiatAccount
        } else if same_text(tag, "bank_wire") {
            PaymentMethodType::BankWire
        } else if same_text(tag, "credit_card") {
            PaymentMethodType::CreditCard
        } else if same_text(tag, "secure3d_card") {
            PaymentMethodType::Secure3dCard
        } else if same_text(tag, "eft_bank_account") {
            PaymentMethodType::EFTBankAccount
        } else if same_text(tag, "interac") {
            PaymentMethodType::Interac
        } else {
            PaymentMethodType::Unknown
        }
    }
}

impl Decode for PaymentMethodType {
    type Model = PaymentMethodType;

    open spec fn model(&self) -> PaymentMethodType {
        *self
    }

    open spec fn decoded(json: Json) -> Option<PaymentMethodType> {
        match json {
            Json::Text(t) => Some(PaymentMethodType::of_tag(t@)),
            _ => None,
        }
    }

    open spec fn absent() -> PaymentMethodType {
        PaymentMethodType::Unknown
    }

    fn decode(json: &Json) -> (r: Option<Self>) {
        match json {
            Json::Text(t) => Some(PaymentMethodType::from_tag(t.as_str())),
            _ => None,
        }
    }

    fn fallback() -> (value: Self) {
        PaymentMethodType::Unknown
    }
}

/// How far a buy, a sell, a deposit or a withdrawal has come. The service adds values over time: one that this
/// library does not know is `Unknown`.
#[derive(Clone, Copy, Debug, PartialEq, Eq, Structural)]
pub enum TransferStatus {
    Created,
    Completed,
    Canceled,
    Unknown,
}

impl Default for TransferStatus {
    fn default() -> (value: Self)
        ensures
            value == TransferStatus::Unknown,
    {
        TransferStatus::Unknown
    }
}

impl TransferStatus {
    /// The value that a tag names; `Unknown` for a tag that names none.
    pub open spec fn of_tag(tag: Seq<char>) -> TransferStatus {
        if tag == "created"@ {
            TransferStatus::Created
        } else if tag == "completed"@ {
            TransferStatus::Completed
        } else if tag == "canceled"@ {
            TransferStatus::Canceled
        } else {
            TransferStatus::Unknown
        }
    }

    /// The value that a tag names; `Unknown` for a tag that names none.
    pub fn from_tag(tag: &str) -> (value: TransferStatus)
        ensures
            value == TransferStatus::of_tag(tag@),
    {
        if same_text(tag, "created") {
            TransferStatus::Created
        } else if same_text(tag, "completed") {
            TransferStatus::Completed
        } else if same_text(tag, "canceled") {
            TransferStatus::Canceled
        } else {
            TransferStatus::Unknown
        }
    }
}

impl Decode for TransferStatus {
    type Model = TransferStatus;

    open spec fn model(&self) -> TransferStatus {
        *self
    }

    open spec fn decoded(json: Json) -> Option<TransferStatus> {
        match json {
            Json::Text(t) => Some(TransferStatus::of_tag(t@)),
            _ => None,
        }
    }

    open spec fn absent() -> TransferStatus {
        TransferStatus::Unknown
    }

    fn decode(json: &Json) -> (r: Option<Self>) {
        match json {
            Json::Text(t) => Some(TransferStatus::from_tag(t.as_str())),
            _ => None,
        }
    }

    fn fallback() -> (value: Self) {
        TransferStatus::Unknown
    }
}

/// How far a transaction has come. The service adds values over time: one that this
/// library does not know is `Unknown`.
#[derive(Clone, Copy, Debug, PartialEq, Eq, Structural)]
pub enum TransactionStatus {
    Pending,
    Completed,
    Failed,
    Expired,
    Canceled,
    WaitingForSignature,
    WaitingForClearing,
    Unknown,
}

impl Default for TransactionStatus {
    fn default() -> (value: Self)
        ensures
            value == TransactionStatus::Unknown,
    {
        TransactionStatus::Unknown
    }
}

impl TransactionStatus {
    /// The value that a tag names; `Unknown` for a tag that names none.
    pub open spec fn of_tag(tag: Seq<char>) -> TransactionStatus {
        if tag == "pending"@ {
            TransactionStatus::Pending
        } else if tag == "completed"@ {
            TransactionStatus::Completed
        } else if tag == "failed"@ {
            TransactionStatus::Failed
        } else if tag == "expired"@ {
            TransactionStatus::Expired
        } else if tag == "canceled"@ {
            TransactionStatus::Canceled
        } else if tag == "waitingforsignature"@ {
            TransactionStatus::WaitingForSignature
        } else if tag == "waitingforclearing"@ {
            TransactionStatus::WaitingForClearing
        } else {
            TransactionStatus::Unknown
        }
    }

    /// The value that a tag names; `Unknown` for a tag that names none.
    pub fn from_tag(tag: &str) -> (value: TransactionStatus)
        ensures
            value == TransactionStatus::of_tag(tag@),
    {
        if same_text(tag, "pending") {
            TransactionStatus::Pending
        } else if same_text(tag, "completed") {
            TransactionStatus::Completed
        } else if same_text(tag, "failed") {
            TransactionStatus::Failed
        } else if same_text(tag, "expired") {
            TransactionStatus::Expired
        } else if same_text(tag, "canceled") {
            TransactionStatus::Canceled
        } else if same_text(tag, "waitingforsignature") {
            TransactionStatus::WaitingForSignature
        } else if same_text(tag, "waitingforclearing") {
            TransactionStatus::WaitingForClearing
        } else {
            TransactionStatus::Unknown
        }
    }
}

impl Decode for TransactionStatus {
    type Model = TransactionStatus;

    open spec fn model(&self) -> TransactionStatus {
        *self
    }

    open spec fn decoded(json: Json) -> Option<TransactionStatus> {
        match json {
            Json::Text(t) => Some(TransactionStatus::of_tag(t@)),
            _ => None,
        }
    }

    open spec fn absent() -> TransactionStatus {
        TransactionStatus::Unknown
    }

    fn decode(json: &Json) -> (r: Option<Self>) {
        match json {
            Json::Text(t) => Some(TransactionStatus::from_tag(t.as_str())),
            _ => None,
        }
    }

    fn fallback() -> (value: Self) {
        TransactionStatus::Unknown
    }
}

/// The kind of a transaction. The service adds values over time: one that this
/// library does not know is `Unknown`.
#[derive(Clone, Copy, Debug, PartialEq, Eq, Structural)]
pub enum TransactionType {
    Send,
    Request,
    Transfer,
    Buy,
    Sell,
    FiatDeposit,
    FiatWithdrawal,
    ExchangeDeposit,
    ExchangeWithdrawal,
    VaultWithdrawal,
    Unknown,
}

impl Default for TransactionType {
    fn default() -> (value: Self)
        ensures
            value == TransactionType::Unknown,
    {
        TransactionType::Unknown
    }
}

impl TransactionType {
    /// The value that a tag names; `Unknown` for a tag that names none.
    pub open spec fn of_tag(tag: Seq<char>) -> TransactionType {
        if tag == "send"@ {
            TransactionType::Send
        } else if tag == "request"@ {
            TransactionType::Request
        } else if tag == "transfer"@ {
            TransactionType::Transfer
        } else if tag == "buy"@ {
            TransactionType::Buy
        } else if tag == "sell"@ {
            TransactionType::Sell
        } else if tag == "fiatdeposit"@ {
            TransactionType::FiatDeposit
        } else if tag == "fiatwithdrawal"@ {
            TransactionType::FiatWithdrawal
        } else if tag == "exchangedeposit"@ {
            TransactionType::ExchangeDeposit
        } else if tag == "exchangewithdrawal"@ {
            TransactionType::ExchangeWithdrawal
        } else if tag == "vaultwithdrawal"@ {
            TransactionType::VaultWithdrawal
        } else {
            TransactionType::Unknown
        }
    }

    /// The value that a tag names; `Unknown` for a tag that names none.
    pub fn from_tag(tag: &str) -> (value: TransactionType)
        ensures
            value == TransactionType::of_tag(tag@),
    {
        if same_text(tag, "send") {
            TransactionType::Send
        } else if same_text(tag, "request") {
            TransactionType::Request
        } else if same_text(tag, "transfer") {
            TransactionType::Transfer
        } else if same_text(tag, "buy") {
            TransactionType::Buy
        } else if same_text(tag, "sell") {
            TransactionType::Sell
        } else if same_text(tag, "fiatdeposit") {
            TransactionType::FiatDeposit
        } else if same_text(tag, "fiatwithdrawal") {
            TransactionType::FiatWithdrawal
        } else if same_text(tag, "exchangedeposit") {
            TransactionType::ExchangeDeposit
        } else if same_text(tag, "exchangewithdrawal") {
            TransactionType::ExchangeWithdrawal
        } else if same_text(tag, "vaultwithdrawal") {
            TransactionType::VaultWithdrawal
        } else {
            TransactionType::Unknown
        }
    }
}

impl Decode for TransactionType {
    type Model = TransactionType;

    open spec fn model(&self) -> TransactionType {
        *self
    }

    open spec fn decoded(json: Json) -> Option<TransactionType> {
        match json {
            Json::Text(t) => Some(TransactionType::of_tag(t@)),
            _ => None,
        }
    }

    open spec fn absent() -> TransactionType {
        TransactionType::Unknown
    }

    fn decode(json: &Json) -> (r: Option<Self>) {
        match json {
            Json::Text(t) => Some(TransactionType::from_tag(t.as_str())),
            _ => None,
        }
    }

    fn fallback() -> (value: Self) {
        TransactionType::Unknown
    }
}

/// What an account says of its currency.
#[derive(Clone, Debug)]
pub struct AccountCurrency {
    pub kind: String,
    pub name: String,
    pub address_regex: String,
    pub asset_id: String,
    pub code: String,
    pub color: String,
    pub exponent: usize,
    pub sort_index: usize,
}

/// The currency of an account as contracts speak of it.
pub ghost struct AccountCurrencyView {
    pub kind: Seq<char>,
    pub name: Seq<char>,
    pub address_regex: Seq<char>,
    pub asset_id: Seq<char>,
    pub code: Seq<char>,
    pub color: Seq<char>,
    pub exponent: nat,
    pub sort_index: nat,
}

/// The names of the members of an account's currency.
pub open spec fn currency_members() -> Seq<Seq<char>> {
    seq![
        "type"@,
        "name"@,
        "address_regex"@,
        "asset_id"@,
        "code"@,
        "color"@,
        "exponent"@,
        "sort_index"@,
    ]
}

/// What an account's currency decodes to: an object with the six texts and
/// the two counts, and no other member. The member `type` is the kind.
pub open spec fn decoded_currency(json: Json) -> Option<AccountCurrencyView> {
    match json {
        Json::Object(entries) => {
            let kind = text_member(entries@, "type"@);
            let name = text_member(entries@, "name"@);
            let address_regex = text_member(entries@, "address_regex"@);
            let asset_id = text_member(entries@, "asset_id"@);
            let code = text_member(entries@, "code"@);
            let color = text_member(entries@, "color"@);
            let exponent = count_member(entries@, "exponent"@);
            let sort_index = count_member(entries@, "sort_index"@);
            if only_members(entries@, currency_members()) && kind is Some && name is Some
                && address_regex is Some && asset_id is Some && code is Some && color is Some
                && exponent is Some && sort_index is Some {
                Some(
                    AccountCurrencyView {
                        kind: kind->0,
                        name: name->0,
                        address_regex: address_regex->0,
                        asset_id: asset_id->0,
                        code: code->0,
                        color: color->0,
                        exponent: exponent->0,
                        sort_index: sort_index->0,
                    },
                )
            } else {
                None
            }
        },
        _ => None,
    }
}

fn currency_names() -> (allowed: Vec<&'static str>)
    ensures
        names(allowed@) == currency_members(),
{
    let allowed = vec![
        "type",
        "name",
        "address_regex",
        "asset_id",
        "code",
        "color",
        "exponent",
        "sort_index",
    ];
    assert(names(allowed@) =~= currency_members());
    allowed
}

impl Default for AccountCurrency {
    fn default() -> (value: Self)
        ensures
            value.model() == AccountCurrency::absent(),
    {
        AccountCurrency::fallback()
    }
}

impl Decode for AccountCurrency {
    type Model = AccountCurrencyView;

    open spec fn model(&self) -> AccountCurrencyView {
        AccountCurrencyView {
            kind: self.kind@,
            name: self.name@,
            address_regex: self.address_regex@,
            asset_id: self.asset_id@,
            code: self.code@,
            color: self.color@,
            exponent: self.exponent as nat,
            sort_index: self.sort_index as nat,
        }
    }

    open spec fn decoded(json: Json) -> Option<AccountCurrencyView> {
        decoded_currency(json)
    }

    open spec fn absent() -> AccountCurrencyView {
        AccountCurrencyView {
            kind: Seq::empty(),
            name: Seq::empty(),
            address_regex: Seq::empty(),
            asset_id: Seq::empty(),
            code: Seq::empty(),
            color: Seq::empty(),
            exponent: 0,
            sort_index: 0,
        }
    }

    fn decode(json: &Json) -> (r: Option<Self>) {
        match json {
            Json::Object(entries) => {
                let allowed = currency_names();
                if !has_only(entries, &allowed) {
                    return None;
                }
                let kind = read_text(entries, "type")?;
                let name = read_text(entries, "name")?;
                let address_regex = read_text(entries, "address_regex")?;
                let asset_id = read_text(entries, "asset_id")?;
                let code = read_text(entries, "code")?;
                let color = read_text(entries, "color")?;
                let exponent = read_count(entries, "exponent")?;
                let sort_index = read_count(entries, "sort_index")?;
                Some(
                    AccountCurrency {
                        kind,
                        name,
                        address_regex,
                        asset_id,
                        code,
                        color,
                        exponent,
                        sort_index,
                    },
                )
            },
            _ => None,
        }
    }

    fn fallback() -> (value: Self) {
        AccountCurrency {
            kind: String::new(),
            name: String::new(),
            address_regex: String::new(),
            asset_id: String::new(),
            code: String::new(),
            color: String::new(),
            exponent: 0,
            sort_index: 0,
        }
    }
}

/// The country of a user.
#[derive(Clone, Debug)]
pub struct UserCountry {
    pub code: String,
    pub name: String,
    pub is_in_europe: Option<bool>,
}

/// The country of a user as contracts speak of it.
pub ghost struct UserCountryView {
    pub code: Seq<char>,
    pub name: Seq<char>,
    pub is_in_europe: Option<bool>,
}

/// The names of the members of a user's country.
pub open spec fn country_members() -> Seq<Seq<char>> {
    seq!["code"@, "name"@, "is_in_europe"@]
}

/// What a user's country decodes to: an object with the texts `code` and
/// `name`, perhaps the truth value `is_in_europe`, and no other member.
pub open spec fn decoded_country(json: Json) -> Option<UserCountryView> {
    match json {
        Json::Object(entries) => {
            let code = text_member(entries@, "code"@);
            let name = text_member(entries@, "name"@);
            let is_in_europe = optional_flag_member(entries@, "is_in_europe"@);
            if only_members(entries@, country_members()) && code is Some && name is Some
                && is_in_europe is Some {
                Some(UserCountryView { code: code->0, name: name->0, is_in_europe: is_in_europe->0 })
            } else {
                None
            }
        },
        _ => None,
    }
}

fn country_names() -> (allowed: Vec<&'static str>)
    ensures
        names(allowed@) == country_members(),
{
    let allowed = vec!["code", "name", "is_in_europe"];
    assert(names(allowed@) =~= country_members());
    allowed
}

impl Default for UserCountry {
    fn default() -> (value: Self)
        ensures
            value.model() == UserCountry::absent(),
    {
        UserCountry::fallback()
    }
}

impl Decode for UserCountry {
    type Model = UserCountryView;

    open spec fn model(&self) -> UserCountryView {
        UserCountryView { code: self.code@, name: self.name@, is_in_europe: self.is_in_europe }
    }

    open spec fn decoded(json: Json) -> Option<UserCountryView> {
        decoded_country(json)
    }

    open spec fn absent() -> UserCountryView {
        UserCountryView { code: Seq::empty(), name: Seq::empty(), is_in_europe: None }
    }

    fn decode(json: &Json) -> (r: Option<Self>) {
        match json {
            Json::Object(entries) => {
                let allowed = country_names();
                if !has_only(entries, &allowed) {
                    return None;
                }
                let code = read_text(entries, "code")?;
                let name = read_text(entries, "name")?;
                let is_in_europe = read_optional_flag(entries, "is_in_europe")?;
                Some(UserCountry { code, name, is_in_europe })
            },
            _ => None,
        }
    }

    fn fallback() -> (value: Self) {
        UserCountry { code: String::new(), name: String::new(), is_in_europe: None }
    }
}

/// How the current user is authorised.
#[derive(Clone, Debug)]
pub struct UserAuth {
    pub method: String,
    pub scopes: Vec<String>,
    pub oauth_meta: Option<SimpleMap>,
}

/// An authorisation as contracts speak of it.
pub ghost struct UserAuthView {
    pub method: Seq<char>,
    pub scopes: Seq<Seq<char>>,
    pub oauth_meta: Option<Seq<(Seq<char>, Seq<char>)>>,
}

/// The names of the members of an authorisation.
pub open spec fn auth_members() -> Seq<Seq<char>> {
    seq!["method"@, "scopes"@, "oauth_meta"@]
}

/// The list of texts in the member `scopes`, where that member is one.
pub open spec fn scopes_member(entries: Seq<(String, Json)>) -> Option<Seq<Seq<char>>> {
    match member(entries, "scopes"@) {
        Some(json) => decoded_list::<String>(json),
        None => None,
    }
}

/// The map of texts in the member `oauth_meta`, which may be missing or
/// `null`: `Some(None)` for these two, `None` where the member is anything
/// but a map of texts.
pub open spec fn oauth_member(entries: Seq<(String, Json)>) -> Option<
    Option<Seq<(Seq<char>, Seq<char>)>>,
> {
    match member(entries, "oauth_meta"@) {
        None => Some(None),
        Some(Json::Null) => Some(None),
        Some(json) => match decoded_pairs(json) {
            Some(pairs) => Some(Some(pairs)),
            None => None,
        },
    }
}

/// What an authorisation decodes to: an object with the text `method`, the
/// list of texts `scopes`, perhaps the map of texts `oauth_meta`, and no
/// other member.
pub open spec fn decoded_auth(json: Json) -> Option<UserAuthView> {
    match json {
        Json::Object(entries) => {
            let method = text_member(entries@, "method"@);
            let scopes = scopes_member(entries@);
            let oauth_meta = oauth_member(entries@);
            if only_members(entries@, auth_members()) && method is Some && scopes is Some
                && oauth_meta is Some {
                Some(UserAuthView { method: method->0, scopes: scopes->0, oauth_meta: oauth_meta->0 })
            } else {
                None
            }
        },
        _ => None,
    }
}

/// The view of an optional map of texts.
pub open spec fn map_view(pairs: Option<SimpleMap>) -> Option<Seq<(Seq<char>, Seq<char>)>> {
    match pairs {
        Some(p) => Some(pair_models(p@)),
        None => None,
    }
}

fn auth_names() -> (allowed: Vec<&'static str>)
    ensures
        names(allowed@) == auth_members(),
{
    let allowed = vec!["method", "scopes", "oauth_meta"];
    assert(names(allowed@) =~= auth_members());
    allowed
}

fn read_scopes(entries: &Vec<(String, Json)>) -> (r: Option<Vec<String>>)
    ensures
        r matches Some(scopes) ==> scopes_member(entries@) == Some(models(scopes@)),
        r is None ==> scopes_member(entries@) is None,
{
    match find(entries, "scopes") {
        Some(json) => decode_list::<String>(json),
        None => None,
    }
}

fn read_oauth(entries: &Vec<(String, Json)>) -> (r: Option<Option<SimpleMap>>)
    ensures
        r matches Some(found) ==> oauth_member(entries@) == Some(map_view(found)),
        r is None ==> oauth_member(entries@) is None,
{
    match find(entries, "oauth_meta") {
        None => Some(None),
        Some(Json::Null) => Some(None),
        Some(json) => match decode_pairs(json) {
            Some(pairs) => Some(Some(pairs)),
            None => None,
        },
    }
}

impl Default for UserAuth {
    fn default() -> (value: Self)
        ensures
            value.model() == UserAuth::absent(),
    {
        UserAuth::fallback()
    }
}

impl Decode for UserAuth {
    type Model = UserAuthView;

    open spec fn model(&self) -> UserAuthView {
        UserAuthView {
            method: self.method@,
            scopes: models(self.scopes@),
            oauth_meta: map_view(self.oauth_meta),
        }
    }

    open spec fn decoded(json: Json) -> Option<UserAuthView> {
        decoded_auth(json)
    }

    open spec fn absent() -> UserAuthView {
        UserAuthView { method: Seq::empty(), scopes: Seq::empty(), oauth_meta: None }
    }

    fn decode(json: &Json) -> (r: Option<Self>) {
        match json {
            Json::Object(entries) => {
                let allowed = auth_names();
                if !has_only(entries, &allowed) {
                    return None;
                }
                let method = read_text(entries, "method")?;
                let scopes = read_scopes(entries)?;
                let oauth_meta = read_oauth(entries)?;
                Some(UserAuth { method, scopes, oauth_meta })
            },
            _ => None,
        }
    }

    fn fallback() -> (value: Self) {
        let scopes: Vec<String> = Vec::new();
        assert(models(scopes@) =~= Seq::<Seq<char>>::empty());
        UserAuth { method: String::new(), scopes, oauth_meta: None }
    }
}

} // verus!
