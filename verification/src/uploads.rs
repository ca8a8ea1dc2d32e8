//! What an upload does with each of its fields.
//!
//! A field is read, decoded, stored as an object and recorded as a row. The
//! four upload routes differ in whom they let in, in what they do when a
//! stage fails, and in how they name their success.
use vstd::prelude::*;
use vstd::string::*;
use crate::enums::{AppResponse, SuccessActions};
use crate::gateway::verified;
use crate::models::{Claims, VerifyJWTResponse};

verus! {

/// The upload routes.
#[derive(Debug, Clone, Copy, PartialEq, Eq, Structural)]
pub enum UploadRoute {
    /// By API key, into the project that owns the key.
    Extension,
    /// By session, into a project and an image class.
    Image,
    /// By session, the avatar of the user.
    Avatar,
    /// The image of an entity of a project.
    Entity,
}

/// The stages that a field goes through.
#[derive(Debug, Clone, Copy, PartialEq, Eq, Structural)]
pub enum UploadStage {
    /// Reading the field's bytes.
    Read,
    /// Decoding them as an image.
    Decode,
    /// Storing the encoded object.
    Store,
    /// Recording the image in the store.
    Record,
}

/// The name of a field: its own, or `unnamed` where it has none.
pub open spec fn field_name_text(name: Option<String>) -> Seq<char> {
    match name {
        Some(name) => name@,
        None => "unnamed"@,
    }
}

/// The name of a field, and whether the field is taken up: a field without
/// a name, or named `unnamed`, is passed over.
pub fn field_name(name: Option<String>) -> (r: (String, bool))
    ensures
        r.0@ == field_name_text(name),
        r.1 == (field_name_text(name) != "unnamed"@),
{
    match name {
        Some(name) => {
            let unnamed = String::from_str("unnamed");
            let taken = !(name == unnamed);
            (name, taken)
        },
        None => (String::from_str("unnamed"), false),
    }
}

/// What follows a stage that failed.
#[derive(Debug, PartialEq)]
pub struct AfterStage {
    /// The object was stored and is to be deleted again.
    pub delete_object: bool,
    /// The field counts among the failed ones.
    pub count_as_failed: bool,
    /// The response that ends the upload; `None` where the next field is
    /// taken up.
    pub answer: Option<AppResponse>,
}

/// The stored object is deleted again exactly where recording it failed.
pub open spec fn undoes_store(stage: UploadStage) -> bool {
    stage == UploadStage::Record
}

/// A failed field is counted on the image route, at every stage but
/// decoding.
pub open spec fn counts_as_failed(route: UploadRoute, stage: UploadStage) -> bool {
    route == UploadRoute::Image && stage != UploadStage::Decode
}

/// Decides what follows a stage of a field that failed with `message`. The
/// extension route gives the whole upload up; the others go on with the next
/// field.
pub fn after_stage_failure(route: UploadRoute, stage: UploadStage, message: String) -> (r:
    AfterStage)
    ensures
        r.delete_object == undoes_store(stage),
        r.count_as_failed == counts_as_failed(route, stage),
        route == UploadRoute::Extension ==> r.answer == Some(AppResponse::Error(message)),
        route != UploadRoute::Extension ==> r.answer is None,
{
    let delete_object = match stage {
        UploadStage::Record => true,
        _ => false,
    };
    match route {
        UploadRoute::Extension => AfterStage {
            delete_object,
            count_as_failed: false,
            answer: Some(AppResponse::Error(message)),
        },
        UploadRoute::Image => {
            let count_as_failed = match stage {
                UploadStage::Decode => false,
                _ => true,
            };
            AfterStage { delete_object, count_as_failed, answer: None }
        },
        _ => AfterStage { delete_object, count_as_failed: false, answer: None },
    }
}

/// The entity that a route reports as uploaded.
pub open spec fn uploaded_entity(route: UploadRoute) -> Seq<char> {
    match route {
        UploadRoute::Extension => ""@,
        UploadRoute::Image => "Image"@,
        UploadRoute::Avatar => "Avatar"@,
        UploadRoute::Entity => "images"@,
    }
}

/// The response of an upload that went through its fields.
pub fn upload_finished(route: UploadRoute) -> (response: AppResponse)
    ensures
        response matches AppResponse::Success(entity, action) && entity@ == uploaded_entity(route)
            && action == SuccessActions::Upload,
{
    let entity = match route {
        UploadRoute::Extension => "",
        UploadRoute::Image => "Image",
        UploadRoute::Avatar => "Avatar",
        UploadRoute::Entity => "images",
    };
    AppResponse::Success(String::from_str(entity), SuccessActions::Upload)
}

/// Lets a session in: the claims where the authentication service named
/// them, else the response that turns the upload away.
pub fn admit_session(status: u16, body: Option<VerifyJWTResponse>) -> (r: Result<
    Claims,
    AppResponse,
>)
    ensures
        verified(status, body) matches Ok(claims) ==> r == Ok::<Claims, AppResponse>(claims),
        verified(status, body) is Err ==> r == Err::<Claims, AppResponse>(
            AppResponse::Unauthorized,
        ),
{
    match crate::gateway::verify(status, body) {
        Ok(claims) => Ok(claims),
        Err(_) => Err(AppResponse::Unauthorized),
    }
}

/// Lets an API key in: the project that owns it and the project's owner,
/// where the store knows the key. A request without a key, and a key that the
/// store does not know, are turned away.
pub fn admit_api_key(api_key: Option<String>, project: Option<(u128, u128)>) -> (r: Result<
    (u128, u128),
    AppResponse,
>)
    ensures
        api_key is Some && project is Some ==> r == Ok::<(u128, u128), AppResponse>(
            project->Some_0,
        ),
        !(api_key is Some && project is Some) ==> r == Err::<(u128, u128), AppResponse>(
            AppResponse::Unauthorized,
        ),
{
    match (api_key, project) {
        (Some(_), Some(found)) => Ok(found),
        _ => Err(AppResponse::Unauthorized),
    }
}

} // verus!
