//! What every resource of the service says of itself: its identifier, its
//! kind, and where it lives.

use vstd::prelude::*;
use crate::decode::Decode;
use crate::json::has_only;
use crate::json::member;
use crate::json::names;
use crate::json::only_members;
use crate::json::read_text;
use crate::json::same_text;
use crate::json::text_member;
use crate::json::Json;
use crate::types::datetime::optional_moment_member;
use crate::types::datetime::read_optional_moment;
use crate::types::datetime::DateTime;

verus! {

/// The kind of a resource. The service adds kinds over time: a kind that
/// this library does not know is `Unknown`.
#[derive(Clone, Copy, Debug, PartialEq, Eq, Structural)]
pub enum ResourceType {
    Account,
    Address,
    Buy,
    Deposit,
    Notification,
    PaymentMethod,
    Sell,
    Transaction,
    User,
    Withdrawal,
    Unknown,
}

impl Default for ResourceType {
    fn default() -> (kind: Self)
        ensures
            kind == ResourceType::Unknown,
    {
        ResourceType::Unknown
    }
}

impl ResourceType {
    /// The kind that a tag names; `Unknown` for a tag that names none.
    pub open spec fn of_tag(tag: Seq<char>) -> ResourceType {
        if tag == "account"@ {
            ResourceType::Account
        } else if tag == "address"@ {
            ResourceType::Address
        } else if tag == "buy"@ {
            ResourceType::Buy
        } else if tag == "deposit"@ {
            ResourceType::Deposit
        } else if tag == "notification"@ {
            ResourceType::Notification
        } else if tag == "payment_method"@ {
            ResourceType::PaymentMethod
        } else if tag == "sell"@ {
            ResourceType::Sell
        } else if tag == "transaction"@ {
            ResourceType::Transaction
        } else if tag == "user"@ {
            ResourceType::User
        } else if tag == "withdrawal"@ {
            ResourceType::Withdrawal
        } else {
            ResourceType::Unknown
        }
    }

    /// The kind that a tag names; `Unknown` for a tag that names none.
    pub fn from_tag(tag: &str) -> (kind: ResourceType)
        ensures
            kind == ResourceType::of_tag(tag@),
    {
        if same_text(tag, "account") {
            ResourceType::Account
        } else if same_text(tag, "address") {
            ResourceType::Address
        } else if same_text(tag, "buy") {
            ResourceType::Buy
        } else if same_text(tag, "deposit") {
            ResourceType::Deposit
        } else if same_text(tag, "notification") {
            ResourceType::Notification
        } else if same_text(tag, "payment_method") {
            ResourceType::PaymentMethod
        } else if same_text(tag, "sell") {
            ResourceType::Sell
        } else if same_text(tag, "transaction") {
            ResourceType::Transaction
        } else if same_text(tag, "user") {
            ResourceType::User
        } else if same_text(tag, "withdrawal") {
            ResourceType::Withdrawal
        } else {
            ResourceType::Unknown
        }
    }
}

impl Decode for ResourceType {
    type Model = ResourceType;

    open spec fn model(&self) -> ResourceType {
        *self
    }

    open spec fn decoded(json: Json) -> Option<ResourceType> {
        match json {
            Json::Text(t) => Some(ResourceType::of_tag(t@)),
            _ => None,
        }
    }

    open spec fn absent() -> ResourceType {
        ResourceType::Unknown
    }

    fn decode(json: &Json) -> (r: Option<Self>) {
        match json {
            Json::Text(t) => Some(ResourceType::from_tag(t.as_str())),
            _ => None,
        }
    }

    fn fallback() -> (value: Self) {
        ResourceType::Unknown
    }
}

/// The kind in the member `resource`, where that member is a text.
pub open spec fn kind_member(entries: Seq<(String, Json)>) -> Option<ResourceType> {
    match member(entries, "resource"@) {
        Some(json) => ResourceType::decoded(json),
        None => None,
    }
}

fn read_kind(entries: &Vec<(String, Json)>) -> (r: Option<ResourceType>)
    ensures
        r == kind_member(entries@),
{
    match crate::json::find(entries, "resource") {
        Some(json) => ResourceType::decode(json),
        None => None,
    }
}

/// A pointer to a resource.
#[derive(Clone, Debug)]
pub struct ResourceRef {
    pub id: String,
    pub resource: ResourceType,
    pub resource_path: String,
}

/// A pointer to a resource as contracts speak of it.
pub ghost struct ResourceRefView {
    pub id: Seq<char>,
    pub resource: ResourceType,
    pub resource_path: Seq<char>,
}

/// What a resource says of itself.
#[derive(Clone, Debug)]
pub struct ResourceMeta {
    pub id: String,
    pub resource: ResourceType,
    pub resource_path: String,
    pub created_at: Option<DateTime>,
    pub updated_at: Option<DateTime>,
}

/// What a resource says of itself, as contracts speak of it.
pub ghost struct ResourceMetaView {
    pub id: Seq<char>,
    pub resource: ResourceType,
    pub resource_path: Seq<char>,
    pub created_at: Option<DateTime>,
    pub updated_at: Option<DateTime>,
}

/// The names of the members of a pointer to a resource.
pub open spec fn reference_members() -> Seq<Seq<char>> {
    seq!["id"@, "resource"@, "resource_path"@]
}

/// The names of the members of what a resource says of itself.
pub open spec fn meta_members() -> Seq<Seq<char>> {
    seq!["id"@, "resource"@, "resource_path"@, "created_at"@, "updated_at"@]
}

/// What a pointer to a resource decodes to: an object with the texts `id`,
/// `resource` and `resource_path` and no other member. Any text will do
/// for `resource`.
pub open spec fn decoded_reference(json: Json) -> Option<ResourceRefView> {
    match json {
        Json::Object(entries) => {
            let id = text_member(entries@, "id"@);
            let resource = kind_member(entries@);
            let resource_path = text_member(entries@, "resource_path"@);
            if only_members(entries@, reference_members()) && id is Some && resource is Some
                && resource_path is Some {
                Some(
                    ResourceRefView {
                        id: id->0,
                        resource: resource->0,
                        resource_path: resource_path->0,
                    },
                )
            } else {
                None
            }
        },
        _ => None,
    }
}

/// What the description of a resource decodes to: an object with the texts
/// `id`, `resource` and `resource_path`, perhaps the instants `created_at`
/// and `updated_at`, and no other member. Any text will do for `resource`.
pub open spec fn decoded_meta(json: Json) -> Option<ResourceMetaView> {
    match json {
        Json::Object(entries) => {
            let id = text_member(entries@, "id"@);
            let resource = kind_member(entries@);
            let resource_path = text_member(entries@, "resource_path"@);
            let created_at = optional_moment_member(entries@, "created_at"@);
            let updated_at = optional_moment_member(entries@, "updated_at"@);
            if only_members(entries@, meta_members()) && id is Some && resource is Some
                && resource_path is Some && created_at is Some && updated_at is Some {
                Some(
                    ResourceMetaView {
                        id: id->0,
                        resource: resource->0,
                        resource_path: resource_path->0,
                        created_at: created_at->0,
                        updated_at: updated_at->0,
                    },
                )
            } else {
                None
            }
        },
        _ => None,
    }
}

fn reference_names() -> (allowed: Vec<&'static str>)
    ensures
        names(allowed@) == reference_members(),
{
    let allowed = vec!["id", "resource", "resource_path"];
    assert(names(allowed@) =~= reference_members());
    allowed
}

fn meta_names() -> (allowed: Vec<&'static str>)
    ensures
        names(allowed@) == meta_members(),
{
    let allowed = vec!["id", "resource", "resource_path", "created_at", "updated_at"];
    assert(names(allowed@) =~= meta_members());
    allowed
}

impl Default for ResourceRef {
    fn default() -> (value: Self)
        ensures
            value.model() == ResourceRef::absent(),
    {
        ResourceRef { id: String::new(), resource: ResourceType::Unknown, resource_path: String::new() }
    }
}

impl Decode for ResourceRef {
    type Model = ResourceRefView;

    open spec fn model(&self) -> ResourceRefView {
        ResourceRefView { id: self.id@, resource: self.resource, resource_path: self.resource_path@ }
    }

    open spec fn decoded(json: Json) -> Option<ResourceRefView> {
        decoded_reference(json)
    }

    open spec fn absent() -> ResourceRefView {
        ResourceRefView {
            id: Seq::empty(),
            resource: ResourceType::Unknown,
            resource_path: Seq::empty(),
        }
    }

    fn decode(json: &Json) -> (r: Option<Self>) {
        match json {
            Json::Object(entries) => {
                let allowed = reference_names();
                if !has_only(entries, &allowed) {
                    return None;
                }
                let id = read_text(entries, "id")?;
                let resource = read_kind(entries)?;
                let resource_path = read_text(entries, "resource_path")?;
                Some(ResourceRef { id, resource, resource_path })
            },
            _ => None,
        }
    }

    fn fallback() -> (value: Self) {
        ResourceRef { id: String::new(), resource: ResourceType::Unknown, resource_path: String::new() }
    }
}

impl Default for ResourceMeta {
    fn default() -> (value: Self)
        ensures
            value.model() == ResourceMeta::absent(),
    {
        ResourceMeta {
            id: String::new(),
            resource: ResourceType::Unknown,
            resource_path: String::new(),
            created_at: None,
            updated_at: None,
        }
    }
}

impl Decode for ResourceMeta {
    type Model = ResourceMetaView;

    open spec fn model(&self) -> ResourceMetaView {
        ResourceMetaView {
            id: self.id@,
            resource: self.resource,
            resource_path: self.resource_path@,
            created_at: self.created_at,
            updated_at: self.updated_at,
        }
    }

    open spec fn decoded(json: Json) -> Option<ResourceMetaView> {
        decoded_meta(json)
    }

    open spec fn absent() -> ResourceMetaView {
        ResourceMetaView {
            id: Seq::empty(),
            resource: ResourceType::Unknown,
            resource_path: Seq::empty(),
            created_at: None,
            updated_at: None,
        }
    }

    fn decode(json: &Json) -> (r: Option<Self>) {
        match json {
            Json::Object(entries) => {
                let allowed = meta_names();
                if !has_only(entries, &allowed) {
                    return None;
                }
                let id = read_text(entries, "id")?;
                let resource = read_kind(entries)?;
                let resource_path = read_text(entries, "resource_path")?;
                let created_at = read_optional_moment(entries, "created_at")?;
                let updated_at = read_optional_moment(entries, "updated_at")?;
                Some(ResourceMeta { id, resource, resource_path, created_at, updated_at })
            },
            _ => None,
        }
    }

    fn fallback() -> (value: Self) {
        ResourceMeta {
            id: String::new(),
            resource: ResourceType::Unknown,
            resource_path: String::new(),
            created_at: None,
            updated_at: None,
        }
    }
}

/// Every text decodes to a kind, and a text that names no known kind
/// decodes to `Unknown`: a tag that the service adds later fails nothing.
pub proof fn lemma_any_tag_decodes(json: Json)
    requires
        json is Text,
    ensures
        ResourceType::decoded(json) is Some,
        ResourceType::decoded(json) == Some(ResourceType::of_tag(json->Text_0@)),
        !known_tags().contains(json->Text_0@) ==> ResourceType::decoded(json) == Some(
            ResourceType::Unknown,
        ),
{
    let tag = json->Text_0@;
    let known = known_tags();
    if !known.contains(tag) {
        assert(known[0] == "account"@);
        assert(known[1] == "address"@);
        assert(known[2] == "buy"@);
        assert(known[3] == "deposit"@);
        assert(known[4] == "notification"@);
        assert(known[5] == "payment_method"@);
        assert(known[6] == "sell"@);
        assert(known[7] == "transaction"@);
        assert(known[8] == "user"@);
        assert(known[9] == "withdrawal"@);
    }
}

/// The description of a resource decodes whatever text its member
/// `resource` holds: whether it decodes depends on the other members and on
/// that member being a text, not on the tag.
pub proof fn lemma_meta_tolerates_any_tag(json: Json)
    requires
        json is Object,
        only_members(json->Object_0@, meta_members()),
        text_member(json->Object_0@, "id"@) is Some,
        text_member(json->Object_0@, "resource"@) is Some,
        text_member(json->Object_0@, "resource_path"@) is Some,
        optional_moment_member(json->Object_0@, "created_at"@) is Some,
        optional_moment_member(json->Object_0@, "updated_at"@) is Some,
    ensures
        decoded_meta(json) is Some,
        decoded_meta(json)->0.resource == ResourceType::of_tag(
            text_member(json->Object_0@, "resource"@)->0,
        ),
{
    let entries = json->Object_0@;
    assert(kind_member(entries) is Some);
}

/// The tags of the kinds that this library knows.
pub open spec fn known_tags() -> Seq<Seq<char>> {
    seq![
        "account"@,
        "address"@,
        "buy"@,
        "deposit"@,
        "notification"@,
        "payment_method"@,
        "sell"@,
        "transaction"@,
        "user"@,
        "withdrawal"@,
    ]
}

} // verus!
