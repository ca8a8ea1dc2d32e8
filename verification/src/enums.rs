//! The closed sets of the service: image classes, accepted upload formats,
//! and the verbs of a success message.
use vstd::prelude::*;
use vstd::string::*;

verus! {

/// The class of a stored image, which is part of its object key.
#[derive(Debug, Clone, Copy, PartialEq, Eq, Structural)]
pub enum ImageType {
    Images,
    MapImages,
}

impl ImageType {
    /// The name of the class as it stands in object keys and in the store.
    pub open spec fn text(self) -> Seq<char> {
        match self {
            ImageType::Images => "images"@,
            ImageType::MapImages => "map_images"@,
        }
    }

    pub fn as_str(&self) -> (name: &'static str)
        ensures
            name@ == self.text(),
    {
        match self {
            ImageType::Images => "images",
            ImageType::MapImages => "map_images",
        }
    }

    pub fn to_string(&self) -> (name: String)
        ensures
            name@ == self.text(),
    {
        String::from_str(self.as_str())
    }
}

/// The image formats that an upload may arrive in.
#[derive(Debug, Clone, Copy, PartialEq, Eq, Structural)]
pub enum SupportedImageType {
    Jpeg,
    Jpg,
    Png,
    Webp,
    Avif,
    Gif,
}

/// What a successful request did.
#[derive(Debug, Clone, Copy, PartialEq, Eq, Structural)]
pub enum SuccessActions {
    Download,
    Update,
    Delete,
    Upload,
}

impl SuccessActions {
    /// The past participle that a success message ends in.
    pub open spec fn text(self) -> Seq<char> {
        match self {
            SuccessActions::Download => "downloaded"@,
            SuccessActions::Update => "updated"@,
            SuccessActions::Delete => "deleted"@,
            SuccessActions::Upload => "uploaded"@,
        }
    }

    pub fn as_str(&self) -> (verb: &'static str)
        ensures
            verb@ == self.text(),
    {
        match self {
            SuccessActions::Download => "downloaded",
            SuccessActions::Update => "updated",
            SuccessActions::Delete => "deleted",
            SuccessActions::Upload => "uploaded",
        }
    }

    pub fn to_string(&self) -> (verb: String)
        ensures
            verb@ == self.text(),
    {
        String::from_str(self.as_str())
    }
}

/// A JSON value, carried through to the response body as it was given.
#[verifier::external_type_specification]
#[verifier::external_body]
pub struct ExJsonValue(serde_json::Value);

/// The outcome of a request, before it is written out.
#[derive(Debug, PartialEq)]
pub enum AppResponse {
    /// The entity and what was done to it.
    Success(String, SuccessActions),
    /// The same, with data for the body.
    SuccessData(String, SuccessActions, serde_json::Value),
    /// A failure; the detail is for the log and is not shown.
    Error(String),
    /// Authenticated, but not allowed.
    Auth,
    /// Not authenticated.
    Unauthorized,
}

/// The body of a response.
#[derive(Debug, PartialEq)]
pub struct ResponsePayload {
    pub ok: bool,
    pub message: String,
    pub role_access: bool,
    pub data: Option<serde_json::Value>,
}

pub const STATUS_OK: u16 = 200;

pub const STATUS_UNAUTHORIZED: u16 = 401;

pub const STATUS_FORBIDDEN: u16 = 403;

pub const STATUS_INTERNAL_SERVER_ERROR: u16 = 500;

/// The message of a success: `{entity} successfully {verb}.`
pub open spec fn success_text(entity: Seq<char>, action: SuccessActions) -> Seq<char> {
    entity + " successfully "@ + action.text() + "."@
}

/// What every failure shows.
pub open spec fn failure_text() -> Seq<char> {
    "There was an error with your request."@
}

/// What every denial shows.
pub open spec fn denial_text() -> Seq<char> {
    "You do not have permission to perform this action."@
}

fn success_message(entity: &str, action: SuccessActions) -> (message: String)
    ensures
        message@ == success_text(entity@, action),
{
    let mut message = String::from_str(entity);
    message.append(" successfully ");
    message.append(action.as_str());
    message.append(".");
    message
}

impl AppResponse {
    /// The status that the response goes out with.
    pub open spec fn status(self) -> u16 {
        match self {
            AppResponse::Success(..) | AppResponse::SuccessData(..) => STATUS_OK,
            AppResponse::Error(_) => STATUS_INTERNAL_SERVER_ERROR,
            AppResponse::Auth => STATUS_FORBIDDEN,
            AppResponse::Unauthorized => STATUS_UNAUTHORIZED,
        }
    }

    /// The message that the response shows. The detail of an error is not
    /// part of it.
    pub open spec fn message(self) -> Seq<char> {
        match self {
            AppResponse::Success(entity, action) => success_text(entity@, action),
            AppResponse::SuccessData(entity, action, _) => success_text(entity@, action),
            AppResponse::Error(_) => failure_text(),
            AppResponse::Auth => denial_text(),
            AppResponse::Unauthorized => "UNAUTHORIZED"@,
        }
    }

    /// The data that the response carries.
    pub open spec fn data(self) -> Option<serde_json::Value> {
        match self {
            AppResponse::SuccessData(_, _, data) => Some(data),
            _ => None,
        }
    }

    /// Status and body of the response.
    pub fn into_response(self) -> (r: (u16, ResponsePayload))
        ensures
            r.0 == self.status(),
            r.1.ok == (self is Success || self is SuccessData),
            r.1.message@ == self.message(),
            r.1.role_access == !(self is Auth || self is Unauthorized),
            r.1.data == self.data(),
    {
        match self {
            AppResponse::Success(entity, action) => (
                STATUS_OK,
                ResponsePayload {
                    ok: true,
                    message: success_message(entity.as_str(), action),
                    role_access: true,
                    data: None,
                },
            ),
            AppResponse::SuccessData(entity, action, data) => (
                STATUS_OK,
                ResponsePayload {
                    ok: true,
                    message: success_message(entity.as_str(), action),
                    role_access: true,
                    data: Some(data),
                },
            ),
            AppResponse::Error(_) => (
                STATUS_INTERNAL_SERVER_ERROR,
                ResponsePayload {
                    ok: false,
                    message: String::from_str("There was an error with your request."),
                    role_access: true,
                    data: None,
                },
            ),
            AppResponse::Auth => (
                STATUS_FORBIDDEN,
                ResponsePayload {
                    ok: false,
                    message: String::from_str(
                        "You do not have permission to perform this action.",
                    ),
                    role_access: false,
                    data: None,
                },
            ),
            AppResponse::Unauthorized => (
                STATUS_UNAUTHORIZED,
                ResponsePayload {
                    ok: false,
                    message: String::from_str("UNAUTHORIZED"),
                    role_access: false,
                    data: None,
                },
            ),
        }
    }
}

} // verus!
