//! Listing items and adding one.
//!
//! Reading a request and keeping an item are not done here. What is done
//! here is what lies between: making a new item out of what a request holds,
//! and forming the response.

use crate::gateway::{ApiGatewayResponse, ContentType, STATUS_BAD_REQUEST, STATUS_OK};
use crate::model::api::ItemList;
use crate::model::app::UserId;
use crate::model::domain::basic_item::BasicItem;
use crate::model::domain::{ItemId, ProjectId, State};
use crate::uuids::{canonical_uuid, is_hyphenated_uuid, is_random_uuid, uuid_canonical};
use vstd::prelude::*;
use vstd::string::*;

verus! {

/// The request had no body.
#[derive(Debug)]
pub struct MissingBody();

/// The request lacked the named field.
#[derive(Debug)]
pub struct MissingField(pub &'static str);

/// The body of the request could not be read; `serde_error` says why.
#[derive(Debug)]
pub struct ParsingError {
    pub serde_error: String,
}

/// The field `field` held `uuid`, which is no identifier; `uuid_error` says
/// why.
#[derive(Debug)]
pub struct InvalidUUIDError {
    pub uuid: String,
    pub field: &'static str,
    pub uuid_error: uuid::Error,
}

/// A failure that is reported to the caller by its message.
#[derive(Debug)]
pub enum SerializableError {
    MissingBody(MissingBody),
    MissingField(MissingField),
    ParsingError(ParsingError),
    InvalidUUID(InvalidUUIDError),
}

impl SerializableError {
    /// The message of the failure.
    pub open spec fn message(self) -> Seq<char> {
        match self {
            SerializableError::MissingBody(_) => "Missing Body"@,
            SerializableError::MissingField(e) => "Missing Field: '"@ + e.0@ + "'"@,
            SerializableError::ParsingError(e) => "Parsing Error: "@ + e.serde_error@,
            SerializableError::InvalidUUID(e) => "Invalid UUID for "@ + e.field@ + ": '"@ + e.uuid@
                + "'"@,
        }
    }

    /// The message of the failure.
    pub fn to_string(&self) -> (r: String)
        ensures
            r@ == self.message(),
    {
        match self {
            SerializableError::MissingBody(_) => String::from_str("Missing Body"),
            SerializableError::MissingField(e) => {
                let mut r = String::from_str("Missing Field: '");
                r.append(e.0);
                r.append("'");
                r
            },
            SerializableError::ParsingError(e) => {
                let mut r = String::from_str("Parsing Error: ");
                r.append(e.serde_error.as_str());
                r
            },
            SerializableError::InvalidUUID(e) => {
                let mut r = String::from_str("Invalid UUID for ");
                r.append(e.field);
                r.append(": '");
                r.append(e.uuid.as_str());
                r.append("'");
                r
            },
        }
    }
}

/// What a request to add an item holds.
#[derive(Debug)]
pub struct ItemInput {
    pub title: Option<String>,
    pub description: Option<String>,
    pub project_id: Option<String>,
}

/// The text in `text`, or the empty text where there is none.
pub open spec fn text_or_empty(text: Option<String>) -> Seq<char> {
    match text {
        Some(t) => t@,
        None => Seq::<char>::empty(),
    }
}

/// Whether `r` is what making an item of `input` for `user_id` under the
/// identifier `id` comes to.
///
/// The project must be given as an identifier, in any of the usual forms,
/// and is kept in its hyphenated form. A project that is missing or is no
/// identifier is reported before a missing title is. The new item has the
/// title and the description of the input, an empty description where none
/// was given, a state without a name, and no flag.
pub open spec fn is_new_item(
    r: Result<BasicItem, SerializableError>,
    input: ItemInput,
    user_id: UserId,
    id: Seq<char>,
) -> bool {
    match uuid_canonical(text_or_empty(input.project_id)) {
        None => {
            &&& r matches Err(SerializableError::InvalidUUID(e))
            &&& e.uuid@ == text_or_empty(input.project_id)
            &&& e.field@ == "project_id"@
        },
        Some(project) => match input.title {
            None => r matches Err(SerializableError::MissingField(e)) && e.0@ == "title"@,
            Some(title) => {
                &&& r matches Ok(item)
                &&& item.uid == user_id
                &&& item.id@ == id
                &&& item.title@ == title@
                &&& item.description@ == text_or_empty(input.description)
                &&& item.status.name@ == Seq::<char>::empty()
                &&& !item.flagged
                &&& item.project_id@ == project
                &&& is_hyphenated_uuid(item.project_id@)
            },
        },
    }
}

/// The text in `text`, or the empty text where there is none.
fn owned_or_empty(text: &Option<String>) -> (r: String)
    ensures
        r@ == text_or_empty(*text),
{
    match text {
        Some(t) => t.clone(),
        None => String::new(),
    }
}

impl ItemInput {
    /// Makes the item that this input describes, for `user_id`, under the
    /// identifier `id`.
    pub fn new_item(&self, user_id: UserId, id: ItemId) -> (r: Result<
        BasicItem,
        SerializableError,
    >)
        ensures
            is_new_item(r, *self, user_id, id@),
    {
        let given_project = owned_or_empty(&self.project_id);
        let project = match canonical_uuid(given_project.as_str()) {
            Ok(project) => project,
            Err(err) => {
                return Err(
                    SerializableError::InvalidUUID(
                        InvalidUUIDError {
                            uuid: given_project,
                            field: "project_id",
                            uuid_error: err,
                        },
                    ),
                );
            },
        };
        match &self.title {
            None => Err(SerializableError::MissingField(MissingField("title"))),
            Some(title) => Ok(
                BasicItem {
                    uid: user_id,
                    description: owned_or_empty(&self.description),
                    flagged: false,
                    id,
                    project_id: ProjectId(project),
                    status: State { name: String::new() },
                    title: title.clone(),
                },
            ),
        }
    }

    /// Makes the item that this input describes, for `user_id`, under a
    /// fresh random identifier.
    pub fn to_new_item(&self, user_id: UserId) -> (r: Result<BasicItem, SerializableError>)
        ensures
            exists|id: Seq<char>| is_random_uuid(id) && #[trigger] is_new_item(r, *self, user_id, id),
    {
        let id = ItemId::new();
        let ghost fresh = id@;
        let r = self.new_item(user_id, id);
        assert(is_new_item(r, *self, user_id, fresh));
        r
    }
}

/// The response to a request for the items of a user: the items, with
/// status 200.
pub fn list(query_output: Vec<BasicItem>) -> (r: ApiGatewayResponse<
    ItemList<BasicItem>,
    SerializableError,
>)
    ensures
        r.status_code == STATUS_OK,
        r.body matches Some((Ok(todos), ContentType::ApplicationJson)) && todos.items
            == query_output,
{
    let todos = ItemList { items: query_output };
    ApiGatewayResponse { status_code: STATUS_OK, body: Some((Ok(todos), ContentType::ApplicationJson)) }
}

/// What the response `r` carries: the item made, or the failure.
pub open spec fn made(r: ApiGatewayResponse<BasicItem, SerializableError>) -> Result<
    BasicItem,
    SerializableError,
> {
    match r.body {
        Some((outcome, _)) => outcome,
        None => Err(SerializableError::MissingBody(MissingBody())),
    }
}

/// Whether `r` is the response that carries `outcome`: as JSON, with status
/// 200 for an item and 400 for a failure.
pub open spec fn is_item_response(
    r: ApiGatewayResponse<BasicItem, SerializableError>,
    outcome: Result<BasicItem, SerializableError>,
) -> bool {
    &&& r.body == Some((outcome, ContentType::ApplicationJson))
    &&& r.status_code == if outcome is Ok {
        STATUS_OK
    } else {
        STATUS_BAD_REQUEST
    }
}

/// The response that carries `outcome`.
pub fn item_response(outcome: Result<BasicItem, SerializableError>) -> (r: ApiGatewayResponse<
    BasicItem,
    SerializableError,
>)
    ensures
        is_item_response(r, outcome),
{
    let status_code = if outcome.is_ok() {
        STATUS_OK
    } else {
        STATUS_BAD_REQUEST
    };
    ApiGatewayResponse { status_code, body: Some((outcome, ContentType::ApplicationJson)) }
}

/// The response to a request to add an item: the new item with status 200,
/// or the failure with status 400.
///
/// `data_result` is what the body of the request held, or why it could not
/// be read; `user_id` is the user for whom the item is made, under a fresh
/// random identifier.
pub fn add(data_result: Result<ItemInput, SerializableError>, user_id: UserId) -> (r:
    ApiGatewayResponse<BasicItem, SerializableError>)
    ensures
        is_item_response(r, made(r)),
        match data_result {
            Ok(input) => exists|id: Seq<char>|
                is_random_uuid(id) && #[trigger] is_new_item(made(r), input, user_id, id),
            Err(error) => made(r) == Err::<BasicItem, SerializableError>(error),
        },
{
    match data_result {
        Ok(item) => item_response(item.to_new_item(user_id)),
        Err(error) => item_response(Err(error)),
    }
}

} // verus!
