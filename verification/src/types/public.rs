//! What the service tells anyone who asks.

use vstd::prelude::*;
use crate::decode::Decode;
use crate::json::find;
use crate::json::has_only;
use crate::json::member;
use crate::json::names;
use crate::json::only_members;
use crate::json::read_text;
use crate::json::text_member;
use crate::json::Json;
use crate::types::datetime::DateTime;
use crate::types::money::amount_member;
use crate::types::money::read_amount;

verus! {

/// Texts under names, in the order of the document they came in.
pub type SimpleMap = Vec<(String, String)>;

/// The pairs of a map as contracts speak of them.
pub open spec fn pair_models(pairs: Seq<(String, String)>) -> Seq<(Seq<char>, Seq<char>)> {
    Seq::new(pairs.len(), |i: int| (pairs[i].0@, pairs[i].1@))
}

/// What the members of an object give as a map of texts: each member's
/// name with its text, if every member is a text.
pub open spec fn decoded_members(entries: Seq<(String, Json)>) -> Option<Seq<(Seq<char>, Seq<char>)>> {
    if forall|i: int| 0 <= i < entries.len() ==> (#[trigger] entries[i].1.text()) is Some {
        Some(Seq::new(entries.len(), |i: int| (entries[i].0@, entries[i].1.text()->0)))
    } else {
        None
    }
}

/// What a map of texts decodes to: an object whose members are all texts.
pub open spec fn decoded_pairs(json: Json) -> Option<Seq<(Seq<char>, Seq<char>)>> {
    match json {
        Json::Object(entries) => decoded_members(entries@),
        _ => None,
    }
}

fn decode_members(entries: &Vec<(String, Json)>) -> (r: Option<SimpleMap>)
    ensures
        r matches Some(pairs) ==> decoded_members(entries@) == Some(pair_models(pairs@)),
        r is None ==> decoded_members(entries@) is None,
{
    let mut pairs: SimpleMap = Vec::new();
    let mut i: usize = 0;
    while i < entries.len()
        invariant
            0 <= i <= entries.len(),
            pairs@.len() == i,
            forall|k: int|
                0 <= k < i ==> (#[trigger] entries@[k].1.text()) == Some(pairs@[k].1@) && entries@[k].0@
                    == pairs@[k].0@,
        decreases entries.len() - i,
    {
        match &entries[i].1 {
            Json::Text(t) => {
                pairs.push((entries[i].0.clone(), t.clone()));
            },
            _ => {
                assert(entries@[i as int].1.text() is None);
                return None;
            },
        }
        i += 1;
    }
    assert(decoded_members(entries@)->0 =~= pair_models(pairs@));
    Some(pairs)
}

/// Decodes a map of texts; `None` where the document is no object or a
/// member is no text.
pub fn decode_pairs(json: &Json) -> (r: Option<SimpleMap>)
    ensures
        r matches Some(pairs) ==> decoded_pairs(*json) == Some(pair_models(pairs@)),
        r is None ==> decoded_pairs(*json) is None,
{
    match json {
        Json::Object(entries) => decode_members(entries),
        _ => None,
    }
}

/// The text under `name` in a map, if the map has the name.
pub open spec fn rate_of(pairs: Seq<(Seq<char>, Seq<char>)>, name: Seq<char>) -> Option<Seq<char>>
    decreases pairs.len(),
{
    if pairs.len() == 0 {
        None
    } else if pairs[0].0 == name {
        Some(pairs[0].1)
    } else {
        rate_of(pairs.drop_first(), name)
    }
}

/// What a unit of one currency is worth in others.
#[derive(Clone, Debug)]
pub struct Rates {
    pub currency: String,
    pub rates: SimpleMap,
}

/// Exchange rates as contracts speak of them.
pub ghost struct RatesView {
    pub currency: Seq<char>,
    pub rates: Seq<(Seq<char>, Seq<char>)>,
}

/// The names of the members of exchange rates.
pub open spec fn rates_members() -> Seq<Seq<char>> {
    seq!["currency"@, "rates"@]
}

/// The map of texts in the member `rates`, where that member is one.
pub open spec fn rates_member(entries: Seq<(String, Json)>) -> Option<Seq<(Seq<char>, Seq<char>)>> {
    match member(entries, "rates"@) {
        Some(json) => decoded_pairs(json),
        None => None,
    }
}

/// What exchange rates decode to: an object with the text `currency`, the
/// map of texts `rates`, and no other member.
pub open spec fn decoded_rates(json: Json) -> Option<RatesView> {
    match json {
        Json::Object(entries) => {
            let currency = text_member(entries@, "currency"@);
            let rates = rates_member(entries@);
            if only_members(entries@, rates_members()) && currency is Some && rates is Some {
                Some(RatesView { currency: currency->0, rates: rates->0 })
            } else {
                None
            }
        },
        _ => None,
    }
}

fn rates_names() -> (allowed: Vec<&'static str>)
    ensures
        names(allowed@) == rates_members(),
{
    let allowed = vec!["currency", "rates"];
    assert(names(allowed@) =~= rates_members());
    allowed
}

fn read_rates(entries: &Vec<(String, Json)>) -> (r: Option<SimpleMap>)
    ensures
        r matches Some(pairs) ==> rates_member(entries@) == Some(pair_models(pairs@)),
        r is None ==> rates_member(entries@) is None,
{
    match find(entries, "rates") {
        Some(json) => decode_pairs(json),
        None => None,
    }
}

impl Default for Rates {
    fn default() -> (value: Self)
        ensures
            value.model() == Rates::absent(),
    {
        Rates::fallback()
    }
}

impl Rates {
    /// The rate of the currency `name`, if the rates hold one.
    pub fn rate(&self, name: &str) -> (r: Option<String>)
        ensures
            crate::json::text_view(r) == rate_of(pair_models(self.rates@), name@),
    {
        let wanted = name.to_owned();
        let mut i: usize = 0;
        let ghost all = pair_models(self.rates@);
        assert(all.subrange(0, all.len() as int) =~= all);
        while i < self.rates.len()
            invariant
                0 <= i <= self.rates.len(),
                wanted@ == name@,
                all == pair_models(self.rates@),
                rate_of(all, name@) == rate_of(all.subrange(i as int, all.len() as int), name@),
            decreases self.rates.len() - i,
        {
            let ghost rest = all.subrange(i as int, all.len() as int);
            assert(rest[0] == all[i as int]);
            assert(rest.drop_first() =~= all.subrange(i + 1, all.len() as int));
            if self.rates[i].0 == wanted {
                return Some(self.rates[i].1.clone());
            }
            i += 1;
        }
        None
    }

    /// Whether the rates hold a rate of the currency `name`.
    pub fn contains_key(&self, name: &str) -> (found: bool)
        ensures
            found == rate_of(pair_models(self.rates@), name@) is Some,
    {
        self.rate(name).is_some()
    }
}

impl Decode for Rates {
    type Model = RatesView;

    open spec fn model(&self) -> RatesView {
        RatesView { currency: self.currency@, rates: pair_models(self.rates@) }
    }

    open spec fn decoded(json: Json) -> Option<RatesView> {
        decoded_rates(json)
    }

    open spec fn absent() -> RatesView {
        RatesView { currency: Seq::empty(), rates: Seq::empty() }
    }

    fn decode(json: &Json) -> (r: Option<Self>) {
        match json {
            Json::Object(entries) => {
                let allowed = rates_names();
                if !has_only(entries, &allowed) {
                    return None;
                }
                let currency = read_text(entries, "currency")?;
                let rates = read_rates(entries)?;
                Some(Rates { currency, rates })
            },
            _ => None,
        }
    }

    fn fallback() -> (value: Self) {
        let rates: SimpleMap = Vec::new();
        assert(pair_models(rates@) =~= Seq::<(Seq<char>, Seq<char>)>::empty());
        Rates { currency: String::new(), rates }
    }
}

/// A currency that the service knows.
#[derive(Clone, Debug)]
pub struct Currency {
    pub id: String,
    pub name: String,
    pub min_size: String,
}

/// A currency as contracts speak of it.
pub ghost struct CurrencyView {
    pub id: Seq<char>,
    pub name: Seq<char>,
    pub min_size: Seq<char>,
}

/// The names of the members of a currency.
pub open spec fn currency_members() -> Seq<Seq<char>> {
    seq!["id"@, "name"@, "min_size"@]
}

/// What a currency decodes to: an object with the texts `id` and `name`,
/// the amount `min_size`, and no other member.
pub open spec fn decoded_currency(json: Json) -> Option<CurrencyView> {
    match json {
        Json::Object(entries) => {
            let id = text_member(entries@, "id"@);
            let name = text_member(entries@, "name"@);
            let min_size = amount_member(entries@, "min_size"@);
            if only_members(entries@, currency_members()) && id is Some && name is Some
                && min_size is Some {
                Some(CurrencyView { id: id->0, name: name->0, min_size: min_size->0 })
            } else {
                None
            }
        },
        _ => None,
    }
}

fn currency_names() -> (allowed: Vec<&'static str>)
    ensures
        names(allowed@) == currency_members(),
{
    let allowed = vec!["id", "name", "min_size"];
    assert(names(allowed@) =~= currency_members());
    allowed
}

impl Default for Currency {
    fn default() -> (value: Self)
        ensures
            value.model() == Currency::absent(),
    {
        Currency::fallback()
    }
}

impl Decode for Currency {
    type Model = CurrencyView;

    open spec fn model(&self) -> CurrencyView {
        CurrencyView { id: self.id@, name: self.name@, min_size: self.min_size@ }
    }

    open spec fn decoded(json: Json) -> Option<CurrencyView> {
        decoded_currency(json)
    }

    open spec fn absent() -> CurrencyView {
        CurrencyView { id: Seq::empty(), name: Seq::empty(), min_size: "0"@ }
    }

    fn decode(json: &Json) -> (r: Option<Self>) {
        match json {
            Json::Object(entries) => {
                let allowed = currency_names();
                if !has_only(entries, &allowed) {
                    return None;
                }
                let id = read_text(entries, "id")?;
                let name = read_text(entries, "name")?;
                let min_size = read_amount(entries, "min_size")?;
                Some(Currency { id, name, min_size })
            },
            _ => None,
        }
    }

    fn fallback() -> (value: Self) {
        Currency { id: String::new(), name: String::new(), min_size: "0".to_owned() }
    }
}

/// The time of the service: as an instant, and as the text of the number
/// of seconds since the first of January 1970.
#[derive(Clone, Debug)]
pub struct Time {
    pub iso: DateTime,
    pub epoch: String,
}

/// The time of the service as contracts speak of it.
pub ghost struct TimeView {
    pub iso: DateTime,
    pub epoch: Seq<char>,
}

/// The names of the members of the time of the service.
pub open spec fn time_members() -> Seq<Seq<char>> {
    seq!["iso"@, "epoch"@]
}

/// The instant in the member `iso`, where there is such a member and it is
/// a text that denotes one.
pub open spec fn iso_member(entries: Seq<(String, Json)>) -> Option<DateTime> {
    match member(entries, "iso"@) {
        Some(json) => DateTime::decoded(json),
        None => None,
    }
}

/// The text of the number in the member `epoch`, where there is such a
/// member and it is a number.
pub open spec fn epoch_member(entries: Seq<(String, Json)>) -> Option<Seq<char>> {
    match member(entries, "epoch"@) {
        Some(Json::Number(n)) => Some(n.text@),
        _ => None,
    }
}

/// What the time of the service decodes to: an object with the instant
/// `iso` and the number `epoch`, and no other member.
pub open spec fn decoded_time(json: Json) -> Option<TimeView> {
    match json {
        Json::Object(entries) => {
            let iso = iso_member(entries@);
            let epoch = epoch_member(entries@);
            if only_members(entries@, time_members()) && iso is Some && epoch is Some {
                Some(TimeView { iso: iso->0, epoch: epoch->0 })
            } else {
                None
            }
        },
        _ => None,
    }
}

fn time_names() -> (allowed: Vec<&'static str>)
    ensures
        names(allowed@) == time_members(),
{
    let allowed = vec!["iso", "epoch"];
    assert(names(allowed@) =~= time_members());
    allowed
}

fn read_iso(entries: &Vec<(String, Json)>) -> (r: Option<DateTime>)
    ensures
        r == iso_member(entries@),
{
    match find(entries, "iso") {
        Some(json) => DateTime::decode(json),
        None => None,
    }
}

fn read_epoch(entries: &Vec<(String, Json)>) -> (r: Option<String>)
    ensures
        crate::json::text_view(r) == epoch_member(entries@),
{
    match find(entries, "epoch") {
        Some(Json::Number(n)) => Some(n.text.clone()),
        _ => None,
    }
}

impl Default for Time {
    fn default() -> (value: Self)
        ensures
            value.model() == Time::absent(),
    {
        Time::fallback()
    }
}

impl Decode for Time {
    type Model = TimeView;

    open spec fn model(&self) -> TimeView {
        TimeView { iso: self.iso, epoch: self.epoch@ }
    }

    open spec fn decoded(json: Json) -> Option<TimeView> {
        decoded_time(json)
    }

    open spec fn absent() -> TimeView {
        TimeView { iso: DateTime { seconds: 0, nanos: 0 }, epoch: "0"@ }
    }

    fn decode(json: &Json) -> (r: Option<Self>) {
        match json {
            Json::Object(entries) => {
                let allowed = time_names();
                if !has_only(entries, &allowed) {
                    return None;
                }
                let iso = read_iso(entries)?;
                let epoch = read_epoch(entries)?;
                Some(Time { iso, epoch })
            },
            _ => None,
        }
    }

    fn fallback() -> (value: Self) {
        Time { iso: DateTime { seconds: 0, nanos: 0 }, epoch: "0".to_owned() }
    }
}

} // verus!
