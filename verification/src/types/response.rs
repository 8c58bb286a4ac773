//! The envelope that every response comes in: the payload, the cursor, and
//! the lists of errors and warnings.

use vstd::prelude::*;
use crate::decode::decode_list;
use crate::decode::decoded_list;
use crate::decode::models;
use crate::decode::Decode;
use crate::error::Error;
use crate::error::JsonFailure;
use crate::json::find;
use crate::json::take;
use crate::json::has_only;
use crate::json::json_document;
use crate::json::member;
use crate::json::names;
use crate::json::only_members;
use crate::json::optional_text_member;
use crate::json::read_optional_text;
use crate::json::read_text;
use crate::json::text_member;
use crate::json::Json;
use crate::json::text_view;
use crate::types::pagination::Pagination;
use crate::types::pagination::PaginationView;

verus! {

/// An error that the service reports in a response.
#[derive(Clone, Debug)]
pub struct ErrorMessage {
    pub id: String,
    pub message: String,
    pub url: Option<String>,
}

/// A warning that the service adds to a response.
#[derive(Clone, Debug)]
pub struct WarningMessage {
    pub id: String,
    pub message: String,
    pub url: Option<String>,
}

/// An error or a warning as contracts speak of it.
pub ghost struct MessageView {
    pub id: Seq<char>,
    pub message: Seq<char>,
    pub url: Option<Seq<char>>,
}

/// The names of the members of an error or a warning.
pub open spec fn message_members() -> Seq<Seq<char>> {
    seq!["id"@, "message"@, "url"@]
}

/// What an error or a warning decodes to: an object with the texts `id`
/// and `message`, perhaps the text `url`, and no other member.
pub open spec fn decoded_message(json: Json) -> Option<MessageView> {
    match json {
        Json::Object(entries) => {
            let id = text_member(entries@, "id"@);
            let message = text_member(entries@, "message"@);
            let url = optional_text_member(entries@, "url"@);
            if only_members(entries@, message_members()) && id is Some && message is Some
                && url is Some {
                Some(MessageView { id: id->0, message: message->0, url: url->0 })
            } else {
                None
            }
        },
        _ => None,
    }
}

/// An error or a warning without content.
pub open spec fn empty_message() -> MessageView {
    MessageView { id: Seq::empty(), message: Seq::empty(), url: None }
}

fn message_names() -> (allowed: Vec<&'static str>)
    ensures
        names(allowed@) == message_members(),
{
    let allowed = vec!["id", "message", "url"];
    assert(names(allowed@) =~= message_members());
    allowed
}

fn decode_message(json: &Json) -> (r: Option<(String, String, Option<String>)>)
    ensures
        r matches Some(parts) ==> decoded_message(*json) == Some(
            MessageView { id: parts.0@, message: parts.1@, url: text_view(parts.2) },
        ),
        r is None ==> decoded_message(*json) is None,
{
    match json {
        Json::Object(entries) => {
            let allowed = message_names();
            if !has_only(entries, &allowed) {
                return None;
            }
            let id = match read_text(entries, "id") {
                Some(id) => id,
                None => {
                    return None;
                },
            };
            let message = match read_text(entries, "message") {
                Some(message) => message,
                None => {
                    return None;
                },
            };
            let url = match read_optional_text(entries, "url") {
                Some(url) => url,
                None => {
                    return None;
                },
            };
            Some((id, message, url))
        },
        _ => None,
    }
}

impl Default for ErrorMessage {
    fn default() -> (value: Self)
        ensures
            value.model() == empty_message(),
    {
        ErrorMessage { id: String::new(), message: String::new(), url: None }
    }
}

impl Default for WarningMessage {
    fn default() -> (value: Self)
        ensures
            value.model() == empty_message(),
    {
        WarningMessage { id: String::new(), message: String::new(), url: None }
    }
}

impl Decode for ErrorMessage {
    type Model = MessageView;

    open spec fn model(&self) -> MessageView {
        MessageView { id: self.id@, message: self.message@, url: text_view(self.url) }
    }

    open spec fn decoded(json: Json) -> Option<MessageView> {
        decoded_message(json)
    }

    open spec fn absent() -> MessageView {
        empty_message()
    }

    fn decode(json: &Json) -> (r: Option<Self>) {
        match decode_message(json) {
            Some((id, message, url)) => Some(ErrorMessage { id, message, url }),
            None => None,
        }
    }

    fn fallback() -> (value: Self) {
        ErrorMessage { id: String::new(), message: String::new(), url: None }
    }
}

impl Decode for WarningMessage {
    type Model = MessageView;

    open spec fn model(&self) -> MessageView {
        MessageView { id: self.id@, message: self.message@, url: text_view(self.url) }
    }

    open spec fn decoded(json: Json) -> Option<MessageView> {
        decoded_message(json)
    }

    open spec fn absent() -> MessageView {
        empty_message()
    }

    fn decode(json: &Json) -> (r: Option<Self>) {
        match decode_message(json) {
            Some((id, message, url)) => Some(WarningMessage { id, message, url }),
            None => None,
        }
    }

    fn fallback() -> (value: Self) {
        WarningMessage { id: String::new(), message: String::new(), url: None }
    }
}

/// The envelope of a response: the payload, the cursor of a list, and what
/// the service reports beside them.
#[derive(Debug)]
pub struct Response<T> {
    pub data: T,
    pub pagination: Option<Pagination>,
    pub errors: Vec<ErrorMessage>,
    pub warnings: Vec<WarningMessage>,
}

/// An envelope as contracts speak of it.
pub ghost struct ResponseView<M> {
    pub data: M,
    pub pagination: Option<PaginationView>,
    pub errors: Seq<MessageView>,
    pub warnings: Seq<MessageView>,
}

/// The names of the members of an envelope.
pub open spec fn envelope_members() -> Seq<Seq<char>> {
    seq!["data"@, "pagination"@, "errors"@, "warnings"@]
}

/// What the member `data` gives: what stands for a missing payload where
/// the member is missing, else what the member decodes to.
pub open spec fn data_member<T: Decode>(entries: Seq<(String, Json)>) -> Option<T::Model> {
    match member(entries, "data"@) {
        Some(json) => T::decoded(json),
        None => Some(T::absent()),
    }
}

/// What the member `pagination` gives: no cursor where the member is
/// missing or `null`, else the cursor that the member decodes to.
pub open spec fn pagination_member(entries: Seq<(String, Json)>) -> Option<Option<PaginationView>> {
    match member(entries, "pagination"@) {
        None => Some(None),
        Some(Json::Null) => Some(None),
        Some(json) => match Pagination::decoded(json) {
            Some(page) => Some(Some(page)),
            None => None,
        },
    }
}

/// What a member that lists errors or warnings gives: the empty list where
/// the member is missing, else the list that the member decodes to.
pub open spec fn messages_member<T: Decode>(entries: Seq<(String, Json)>, key: Seq<char>) -> Option<
    Seq<T::Model>,
> {
    match member(entries, key) {
        Some(json) => decoded_list::<T>(json),
        None => Some(Seq::empty()),
    }
}

/// What an envelope decodes to: an object with no member beyond `data`,
/// `pagination`, `errors` and `warnings`, each of which may be missing and
/// then takes its default, and each of which must have its shape where it
/// is there.
pub open spec fn decoded_envelope<T: Decode>(json: Json) -> Option<ResponseView<T::Model>> {
    match json {
        Json::Object(entries) => {
            let data = data_member::<T>(entries@);
            let pagination = pagination_member(entries@);
            let errors = messages_member::<ErrorMessage>(entries@, "errors"@);
            let warnings = messages_member::<WarningMessage>(entries@, "warnings"@);
            if only_members(entries@, envelope_members()) && data is Some && pagination is Some
                && errors is Some && warnings is Some {
                Some(
                    ResponseView {
                        data: data->0,
                        pagination: pagination->0,
                        errors: errors->0,
                        warnings: warnings->0,
                    },
                )
            } else {
                None
            }
        },
        _ => None,
    }
}

/// The view of an optional cursor.
pub open spec fn page_view(page: Option<Pagination>) -> Option<PaginationView> {
    match page {
        Some(p) => Some(p@),
        None => None,
    }
}

fn envelope_names() -> (allowed: Vec<&'static str>)
    ensures
        names(allowed@) == envelope_members(),
{
    let allowed = vec!["data", "pagination", "errors", "warnings"];
    assert(names(allowed@) =~= envelope_members());
    allowed
}

fn read_data<T: Decode>(entries: &Vec<(String, Json)>) -> (r: Option<T>)
    ensures
        r matches Some(data) ==> data_member::<T>(entries@) == Some(data.model()),
        r is None ==> data_member::<T>(entries@) is None,
{
    match find(entries, "data") {
        Some(json) => T::decode(json),
        None => Some(T::fallback()),
    }
}

fn read_pagination(entries: &Vec<(String, Json)>) -> (r: Option<Option<Pagination>>)
    ensures
        r matches Some(page) ==> pagination_member(entries@) == Some(page_view(page)),
        r is None ==> pagination_member(entries@) is None,
{
    match find(entries, "pagination") {
        None => Some(None),
        Some(Json::Null) => Some(None),
        Some(json) => match Pagination::decode(json) {
            Some(page) => Some(Some(page)),
            None => None,
        },
    }
}

fn read_messages<T: Decode>(entries: &Vec<(String, Json)>, key: &str) -> (r: Option<Vec<T>>)
    ensures
        r matches Some(list) ==> messages_member::<T>(entries@, key@) == Some(models(list@)),
        r is None ==> messages_member::<T>(entries@, key@) is None,
{
    match find(entries, key) {
        Some(json) => decode_list::<T>(json),
        None => {
            let list: Vec<T> = Vec::new();
            assert(models(list@) =~= Seq::<T::Model>::empty());
            Some(list)
        },
    }
}

impl<T: Decode> Response<T> {
    /// This envelope as contracts speak of it.
    pub open spec fn model(&self) -> ResponseView<T::Model> {
        ResponseView {
            data: self.data.model(),
            pagination: page_view(self.pagination),
            errors: models(self.errors@),
            warnings: models(self.warnings@),
        }
    }

    /// The envelope of a response that held nothing.
    pub open spec fn empty() -> ResponseView<T::Model> {
        ResponseView {
            data: T::absent(),
            pagination: None,
            errors: Seq::empty(),
            warnings: Seq::empty(),
        }
    }

    /// Decodes an envelope from a document; `None` where the document has
    /// another shape.
    pub fn from_json(json: &Json) -> (r: Option<Self>)
        ensures
            r matches Some(envelope) ==> decoded_envelope::<T>(*json) == Some(envelope.model()),
            r is None ==> decoded_envelope::<T>(*json) is None,
    {
        match json {
            Json::Object(entries) => {
                let allowed = envelope_names();
                if !has_only(entries, &allowed) {
                    return None;
                }
                let data = read_data::<T>(entries)?;
                let pagination = read_pagination(entries)?;
                let errors = read_messages::<ErrorMessage>(entries, "errors")?;
                let warnings = read_messages::<WarningMessage>(entries, "warnings")?;
                Some(Response { data, pagination, errors, warnings })
            },
            _ => None,
        }
    }
}

impl<T: Decode> Default for Response<T> {
    fn default() -> (envelope: Self)
        ensures
            envelope.model() == Response::<T>::empty(),
    {
        let errors: Vec<ErrorMessage> = Vec::new();
        let warnings: Vec<WarningMessage> = Vec::new();
        assert(models(errors@) =~= Seq::<MessageView>::empty());
        assert(models(warnings@) =~= Seq::<MessageView>::empty());
        Response { data: T::fallback(), pagination: None, errors, warnings }
    }
}

/// What decoding a response text must give: a failure of syntax that holds
/// the text where the text is no JSON document, a failure of shape that
/// holds the text where the document is no envelope, else the envelope.
pub open spec fn decode_outcome<T: Decode>(text: Seq<char>, r: Result<Response<T>, Error>) -> bool {
    match json_document(text) {
        None => r matches Err(Error::JSON { error: JsonFailure::Syntax(_), data: Some(raw) })
            && raw@ == text,
        Some(json) => match decoded_envelope::<T>(json) {
            None => r matches Err(Error::JSON { error: JsonFailure::Shape, data: Some(raw) })
                && raw@ == text,
            Some(envelope) => r matches Ok(found) && found.model() == envelope,
        },
    }
}

/// Decodes the text of a response into an envelope around a payload of
/// type `T`. A failure carries the text, so that the caller can see what
/// the service sent.
pub fn decode<T: Decode>(text: &str) -> (r: Result<Response<T>, Error>)
    ensures
        decode_outcome::<T>(text@, r),
{
    match Json::parse(text) {
        Ok(json) => match Response::<T>::from_json(&json) {
            Some(envelope) => Ok(envelope),
            None => Err(Error::JSON { error: JsonFailure::Shape, data: Some(text.to_owned()) }),
        },
        Err(failure) => Err(Error::JSON { error: failure, data: Some(text.to_owned()) }),
    }
}

/// What an envelope decodes to where the payload is left as it came: the
/// member `data` itself, or `null` where it is missing; the rest as in
/// any envelope.
pub open spec fn decoded_parcel(json: Json) -> Option<ResponseView<Json>> {
    match json {
        Json::Object(entries) => {
            let data = match member(entries@, "data"@) {
                Some(found) => found,
                None => Json::Null,
            };
            let pagination = pagination_member(entries@);
            let errors = messages_member::<ErrorMessage>(entries@, "errors"@);
            let warnings = messages_member::<WarningMessage>(entries@, "warnings"@);
            if only_members(entries@, envelope_members()) && pagination is Some && errors is Some
                && warnings is Some {
                Some(
                    ResponseView {
                        data,
                        pagination: pagination->0,
                        errors: errors->0,
                        warnings: warnings->0,
                    },
                )
            } else {
                None
            }
        },
        _ => None,
    }
}

/// An envelope around a document, as contracts speak of it.
pub open spec fn parcel_view(envelope: Response<Json>) -> ResponseView<Json> {
    ResponseView {
        data: envelope.data,
        pagination: page_view(envelope.pagination),
        errors: models(envelope.errors@),
        warnings: models(envelope.warnings@),
    }
}

/// What decoding a response text around a payload left as it came must
/// give: as for any payload, but that the payload is not read.
pub open spec fn parcel_outcome(text: Seq<char>, r: Result<Response<Json>, Error>) -> bool {
    match json_document(text) {
        None => r matches Err(Error::JSON { error: JsonFailure::Syntax(_), data: Some(raw) })
            && raw@ == text,
        Some(json) => match decoded_parcel(json) {
            None => r matches Err(Error::JSON { error: JsonFailure::Shape, data: Some(raw) })
                && raw@ == text,
            Some(envelope) => r matches Ok(found) && parcel_view(found) == envelope,
        },
    }
}

/// Opens an envelope and hands out the payload as it came, for a caller
/// that reads the payload by other means; `None` where the document is no
/// envelope.
pub fn open_envelope(json: Json) -> (r: Option<Response<Json>>)
    ensures
        r matches Some(envelope) ==> decoded_parcel(json) == Some(parcel_view(envelope)),
        r is None ==> decoded_parcel(json) is None,
{
    match json {
        Json::Object(entries) => {
            let allowed = envelope_names();
            if !has_only(&entries, &allowed) {
                return None;
            }
            let pagination = read_pagination(&entries)?;
            let errors = read_messages::<ErrorMessage>(&entries, "errors")?;
            let warnings = read_messages::<WarningMessage>(&entries, "warnings")?;
            let data = match take(entries, "data") {
                Some(found) => found,
                None => Json::Null,
            };
            Some(Response { data, pagination, errors, warnings })
        },
        _ => None,
    }
}

/// Decodes the text of a response into an envelope around the payload as
/// it came. A failure carries the text.
pub fn decode_parcel(text: &str) -> (r: Result<Response<Json>, Error>)
    ensures
        parcel_outcome(text@, r),
{
    match Json::parse(text) {
        Ok(json) => match open_envelope(json) {
            Some(envelope) => Ok(envelope),
            None => Err(Error::JSON { error: JsonFailure::Shape, data: Some(text.to_owned()) }),
        },
        Err(failure) => Err(Error::JSON { error: failure, data: Some(text.to_owned()) }),
    }
}

/// An envelope never fails to decode for want of a member: where an
/// object has no member beyond the four and each member that is there has
/// its shape, the envelope decodes, and each of the cursor, the errors and
/// the warnings that is missing takes its default by itself.
pub proof fn lemma_envelope_defaults<T: Decode>(json: Json)
    requires
        json is Object,
        only_members(json->Object_0@, envelope_members()),
        member(json->Object_0@, "data"@) matches Some(data) ==> T::decoded(data) is Some,
        member(json->Object_0@, "pagination"@) matches Some(page) ==> page is Null
            || Pagination::decoded(page) is Some,
        member(json->Object_0@, "errors"@) matches Some(errors) ==> decoded_list::<ErrorMessage>(
            errors,
        ) is Some,
        member(json->Object_0@, "warnings"@) matches Some(warnings) ==> decoded_list::<
            WarningMessage,
        >(warnings) is Some,
    ensures
        decoded_envelope::<T>(json) is Some,
        member(json->Object_0@, "data"@) is None ==> decoded_envelope::<T>(json)->0.data
            == T::absent(),
        member(json->Object_0@, "pagination"@) is None ==> decoded_envelope::<T>(
            json,
        )->0.pagination is None,
        member(json->Object_0@, "errors"@) is None ==> decoded_envelope::<T>(json)->0.errors
            == Seq::<MessageView>::empty(),
        member(json->Object_0@, "warnings"@) is None ==> decoded_envelope::<T>(json)->0.warnings
            == Seq::<MessageView>::empty(),
{
    let entries = json->Object_0@;
    assert(data_member::<T>(entries) is Some);
    assert(pagination_member(entries) is Some);
    assert(messages_member::<ErrorMessage>(entries, "errors"@) is Some);
    assert(messages_member::<WarningMessage>(entries, "warnings"@) is Some);
}

/// An object with a member beyond the four is no envelope.
pub proof fn lemma_envelope_is_closed<T: Decode>(json: Json, i: int)
    requires
        json is Object,
        0 <= i < json->Object_0@.len(),
        !envelope_members().contains(json->Object_0@[i].0@),
    ensures
        decoded_envelope::<T>(json) is None,
{
}

} // verus!
