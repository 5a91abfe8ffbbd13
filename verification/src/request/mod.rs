//! Requests to the XRPL API: how each is written as JSON, and the shape of
//! the responses.
use vstd::prelude::*;
use crate::error::XrplError;
use crate::json::{
    lemma_get_after_insert, lemma_get_past_inserts, members_get, members_insert, JsonValue, JsonView,
};

pub mod account_info;
pub mod account_lines;
pub mod account_nfts;
pub mod account_objects;
pub mod account_offers;
pub mod account_tx;
pub mod tx;

verus! {

pub open spec fn is_hex_lower(c: char) -> bool {
    ('0' <= c <= '9') || ('a' <= c <= 'f')
}

/// The text of a random (version 4) UUID, hyphenated and lower-case:
/// `xxxxxxxx-xxxx-4xxx-Vxxx-xxxxxxxxxxxx` with `V` one of `8`, `9`, `a`, `b`.
pub open spec fn is_uuid_v4_text(s: Seq<char>) -> bool {
    &&& s.len() == 36
    &&& forall|i: int|
        0 <= i < 36 ==> if i == 8 || i == 13 || i == 18 || i == 23 {
            #[trigger] s[i] == '-'
        } else {
            is_hex_lower(s[i])
        }
    &&& s[14] == '4'
    &&& (s[19] == '8' || s[19] == '9' || s[19] == 'a' || s[19] == 'b')
}

/// A fresh request id: `uuid::Uuid::new_v4().to_string()`. The uuid crate
/// draws 122 random bits, sets the version and variant bits, and writes the
/// id hyphenated in lower-case hex; which random id comes out is left
/// unsaid.
#[verifier::external_body]
pub fn new_request_id() -> (r: String)
    ensures
        is_uuid_v4_text(r@),
{
    uuid::Uuid::new_v4().to_string()
}

/// A request to the API.
pub trait XrplRequest: Sized {
    type Response;

    /// The request as sent, `fresh_id` being the id drawn for it when it
    /// carries none of its own.
    spec fn request_view(&self, fresh_id: Seq<char>) -> JsonView;

    /// The id the request is sent with, `fresh_id` being the one drawn for it.
    spec fn id_sent(&self, fresh_id: Seq<char>) -> Seq<char>;

    /// Every request is an object that carries, under `id`, the id it is sent
    /// with: so the socket can match the answer to it.
    proof fn lemma_request_carries_id(&self, fresh_id: Seq<char>)
        ensures
            self.request_view(fresh_id) is Object,
            self.request_view(fresh_id).get("id"@) == Some(JsonView::Str(self.id_sent(fresh_id))),
    ;

    /// The request as sent, with `fresh_id` as the id drawn for it.
    fn to_json_with_id(self, fresh_id: String) -> (r: JsonValue)
        ensures
            r@ == self.request_view(fresh_id@),
    ;

    /// The request as sent, with a fresh random id drawn for it.
    fn into_json(self) -> (r: JsonValue)
        ensures
            exists|id: Seq<char>| is_uuid_v4_text(id) && r@ == self.request_view(id),
    {
        let id = new_request_id();
        let ghost idv = id@;
        let r = self.to_json_with_id(id);
        assert(is_uuid_v4_text(idv) && r@ == self.request_view(idv));
        r
    }
}

/// Members to which the id and then the command were added carry both.
pub proof fn lemma_command_members(base: Seq<(Seq<char>, JsonView)>, id: Seq<char>, command: Seq<char>)
    ensures
        members_get(members_insert(members_insert(base, "id"@, JsonView::Str(id)), "command"@, JsonView::Str(command)), "id"@)
            == Some(JsonView::Str(id)),
        members_get(members_insert(members_insert(base, "id"@, JsonView::Str(id)), "command"@, JsonView::Str(command)), "command"@)
            == Some(JsonView::Str(command)),
{
    reveal_strlit("id");
    reveal_strlit("command");
    assert("id"@.len() == 2 && "command"@.len() == 7);
    assert("id"@ != "command"@);
    let m1 = members_insert(base, "id"@, JsonView::Str(id));
    lemma_get_after_insert(base, "id"@, JsonView::Str(id), "command"@);
    lemma_get_after_insert(m1, "command"@, JsonView::Str(command), "id"@);
}

/// Members to which the id, the command and then the API version were added
/// carry all three.
pub proof fn lemma_versioned_command_members(
    base: Seq<(Seq<char>, JsonView)>,
    id: Seq<char>,
    command: Seq<char>,
    version: JsonView,
)
    ensures
        ({
            let m = members_insert(
                members_insert(members_insert(base, "id"@, JsonView::Str(id)), "command"@, JsonView::Str(command)),
                "api_version"@,
                version,
            );
            &&& members_get(m, "id"@) == Some(JsonView::Str(id))
            &&& members_get(m, "command"@) == Some(JsonView::Str(command))
            &&& members_get(m, "api_version"@) == Some(version)
        }),
{
    reveal_strlit("id");
    reveal_strlit("command");
    reveal_strlit("api_version");
    assert("id"@.len() == 2 && "command"@.len() == 7 && "api_version"@.len() == 11);
    assert("id"@ != "api_version"@);
    assert("command"@ != "api_version"@);
    lemma_command_members(base, id, command);
    let m2 = members_insert(members_insert(base, "id"@, JsonView::Str(id)), "command"@, JsonView::Str(command));
    lemma_get_after_insert(m2, "api_version"@, version, "id"@);
    lemma_get_after_insert(m2, "api_version"@, version, "command"@);
}

/// A key other than `id` and `command` finds in the members with the id
/// and the command added what it finds among the request's own fields.
pub proof fn lemma_field_past_command(
    base: Seq<(Seq<char>, JsonView)>,
    id: Seq<char>,
    command: Seq<char>,
    key: Seq<char>,
)
    requires
        key != "id"@,
        key != "command"@,
    ensures
        members_get(members_insert(members_insert(base, "id"@, JsonView::Str(id)), "command"@, JsonView::Str(command)), key)
            == members_get(base, key),
{
    lemma_get_past_inserts(base, "id"@, JsonView::Str(id), "command"@, JsonView::Str(command), key);
}

/// A key other than `id`, `command` and `api_version` finds in the members
/// with the id, the command and the API version added what it finds among
/// the request's own fields.
pub proof fn lemma_field_past_version(
    base: Seq<(Seq<char>, JsonView)>,
    id: Seq<char>,
    command: Seq<char>,
    version: JsonView,
    key: Seq<char>,
)
    requires
        key != "id"@,
        key != "command"@,
        key != "api_version"@,
    ensures
        members_get(
            members_insert(
                members_insert(members_insert(base, "id"@, JsonView::Str(id)), "command"@, JsonView::Str(command)),
                "api_version"@,
                version,
            ),
            key,
        ) == members_get(base, key),
{
    lemma_field_past_command(base, id, command, key);
    lemma_get_after_insert(
        members_insert(members_insert(base, "id"@, JsonView::Str(id)), "command"@, JsonView::Str(command)),
        "api_version"@,
        version,
        key,
    );
}

/// A request whose acknowledgement is followed by a stream of messages.
pub trait XrplSubscription: XrplRequest {
    type Message;
}

/// A response of the API: the result, or the error the server reported.
#[derive(Clone, Debug)]
pub enum XrplResponse<T> {
    Success { id: String, result: T, kind: String, status: String },
    Error {
        id: Option<String>,
        error: String,
        error_code: Option<i32>,
        error_message: Option<String>,
        request: Option<JsonValue>,
        kind: String,
        status: String,
    },
}

impl<T> XrplResponse<T> {
    /// The result, or the server's error as [`XrplError::ApiError`].
    pub fn result(self) -> (r: Result<T, XrplError>)
        ensures
            match self {
                XrplResponse::Success { result, .. } => r == Ok::<T, XrplError>(result),
                XrplResponse::Error { error, error_message, .. } => r == Err::<T, XrplError>(
                    XrplError::ApiError { error, error_message },
                ),
            },
    {
        match self {
            XrplResponse::Success { result, .. } => Ok(result),
            XrplResponse::Error { error, error_message, .. } => Err(XrplError::ApiError { error, error_message }),
        }
    }

    /// The id the response answers, when it has one.
    pub fn id(&self) -> (r: Option<&str>)
        ensures
            match self {
                XrplResponse::Success { id, .. } => r is Some && r->0@ == id@,
                XrplResponse::Error { id, .. } => match id {
                    Some(i) => r is Some && r->0@ == i@,
                    None => r is None,
                },
            },
    {
        match self {
            XrplResponse::Success { id, .. } => Some(id.as_str()),
            XrplResponse::Error { id, .. } => match id {
                Some(i) => Some(i.as_str()),
                None => None,
            },
        }
    }
}

} // verus!
