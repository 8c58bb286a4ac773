//! Amounts of money. The service writes an amount now as a number, now as
//! a text; both are taken, and the amount is kept as a numeric text.

use vstd::prelude::*;
use crate::decode::Decode;
use crate::json::count_view;
use crate::json::find;
use crate::json::has_only;
use crate::json::member;
use crate::json::names;
use crate::json::only_members;
use crate::json::optional_count_member;
use crate::json::optional_text_member;
use crate::json::read_optional_count;
use crate::json::read_optional_text;
use crate::json::read_text;
use crate::json::text_member;
use crate::json::Json;
use crate::numeric::is_numeric;
use crate::numeric::is_numeric_text;
use crate::json::text_view;

verus! {

/// The amount that a document holds: the text of a number, or a text that
/// is numeric. A text that is not numeric holds no amount, nor does any
/// other document.
pub open spec fn amount_of(json: Json) -> Option<Seq<char>> {
    match json {
        Json::Number(n) => Some(n.text@),
        Json::Text(t) => if is_numeric(t@) {
            Some(t@)
        } else {
            None
        },
        _ => None,
    }
}

/// The amount in the member named `key`, where there is such a member and
/// it holds one.
pub open spec fn amount_member(entries: Seq<(String, Json)>, key: Seq<char>) -> Option<Seq<char>> {
    match member(entries, key) {
        Some(json) => amount_of(json),
        None => None,
    }
}

/// Reads the amount that a document holds.
pub fn read_amount_of(json: &Json) -> (r: Option<String>)
    ensures
        text_view(r) == amount_of(*json),
{
    match json {
        Json::Number(n) => Some(n.text.clone()),
        Json::Text(t) => if is_numeric_text(t.as_str()) {
            Some(t.clone())
        } else {
            None
        },
        _ => None,
    }
}

/// Reads the member named `key` as an amount.
pub fn read_amount(entries: &Vec<(String, Json)>, key: &str) -> (r: Option<String>)
    ensures
        text_view(r) == amount_member(entries@, key@),
{
    match find(entries, key) {
        Some(json) => read_amount_of(json),
        None => None,
    }
}

/// A number and a text with the same characters hold the same amount, if
/// the characters are a numeric text; a text that is not numeric holds
/// none.
pub proof fn lemma_amount_in_either_form(number: Json, text: Json)
    requires
        number is Number,
        text is Text,
        number->Number_0.text@ == text->Text_0@,
    ensures
        is_numeric(text->Text_0@) ==> amount_of(number) == amount_of(text) && amount_of(text) == Some(
            text->Text_0@,
        ),
        !is_numeric(text->Text_0@) ==> amount_of(text) is None,
{
}

/// An amount of money in a currency.
#[derive(Clone, Debug)]
pub struct Money {
    pub amount: String,
    pub currency: String,
    pub base: Option<String>,
    pub scale: Option<usize>,
}

/// An amount of money as contracts speak of it.
pub ghost struct MoneyView {
    pub amount: Seq<char>,
    pub currency: Seq<char>,
    pub base: Option<Seq<char>>,
    pub scale: Option<nat>,
}

/// The names of the members of an amount of money.
pub open spec fn money_members() -> Seq<Seq<char>> {
    seq!["amount"@, "currency"@, "base"@, "scale"@]
}

/// What an amount of money decodes to: an object with the amount `amount`
/// and the text `currency`, perhaps the text `base` and the count `scale`,
/// and no other member.
pub open spec fn decoded_money(json: Json) -> Option<MoneyView> {
    match json {
        Json::Object(entries) => {
            let amount = amount_member(entries@, "amount"@);
            let currency = text_member(entries@, "currency"@);
            let base = optional_text_member(entries@, "base"@);
            let scale = optional_count_member(entries@, "scale"@);
            if only_members(entries@, money_members()) && amount is Some && currency is Some
                && base is Some && scale is Some {
                Some(
                    MoneyView {
                        amount: amount->0,
                        currency: currency->0,
                        base: base->0,
                        scale: scale->0,
                    },
                )
            } else {
                None
            }
        },
        _ => None,
    }
}

fn money_names() -> (allowed: Vec<&'static str>)
    ensures
        names(allowed@) == money_members(),
{
    let allowed = vec!["amount", "currency", "base", "scale"];
    assert(names(allowed@) =~= money_members());
    allowed
}

impl Default for Money {
    fn default() -> (value: Self)
        ensures
            value.model() == Money::absent(),
    {
        Money::fallback()
    }
}

impl Decode for Money {
    type Model = MoneyView;

    open spec fn model(&self) -> MoneyView {
        MoneyView {
            amount: self.amount@,
            currency: self.currency@,
            base: text_view(self.base),
            scale: count_view(self.scale),
        }
    }

    open spec fn decoded(json: Json) -> Option<MoneyView> {
        decoded_money(json)
    }

    open spec fn absent() -> MoneyView {
        MoneyView { amount: "0"@, currency: Seq::empty(), base: None, scale: None }
    }

    fn decode(json: &Json) -> (r: Option<Self>) {
        match json {
            Json::Object(entries) => {
                let allowed = money_names();
                if !has_only(entries, &allowed) {
                    return None;
                }
                let amount = read_amount(entries, "amount")?;
                let currency = read_text(entries, "currency")?;
                let base = read_optional_text(entries, "base")?;
                let scale = read_optional_count(entries, "scale")?;
                Some(Money { amount, currency, base, scale })
            },
            _ => None,
        }
    }

    fn fallback() -> (value: Self) {
        Money { amount: "0".to_owned(), currency: String::new(), base: None, scale: None }
    }
}

} // verus!
