//! Object keys and the walks over stored objects.
use vstd::prelude::*;
use vstd::string::*;
use crate::enums::{AppResponse, ImageType, SuccessActions};
use crate::ids::{hyphenated, id_text};
use crate::signing::{
    base64_standard, encode_base64, fits_base64, object_key, object_key_text,
};
use crate::text::{remove_all, without};

verus! {

/// The prefix under which a project's objects are stored.
pub open spec fn folder_prefix_text(project_id: u128) -> Seq<char> {
    "assets/"@ + hyphenated(project_id)
}

/// The prefix under which a project's objects are stored:
/// `assets/{project_id}`.
pub fn folder_prefix(project_id: u128) -> (prefix: String)
    ensures
        prefix@ == folder_prefix_text(project_id),
{
    let mut prefix = String::from_str("assets/");
    prefix.append(id_text(project_id).as_str());
    prefix
}

/// The key of a user's avatar.
pub open spec fn avatar_key_text(user_id: u128, image_id: u128) -> Seq<char> {
    "assets/avatars/"@ + hyphenated(user_id) + "-"@ + hyphenated(image_id) + ".webp"@
}

/// The key of a user's avatar: `assets/avatars/{user_id}-{image_id}.webp`.
pub fn avatar_key(user_id: u128, image_id: u128) -> (key: String)
    ensures
        key@ == avatar_key_text(user_id, image_id),
{
    let mut key = String::from_str("assets/avatars/");
    key.append(id_text(user_id).as_str());
    key.append("-");
    key.append(id_text(image_id).as_str());
    key.append(".webp");
    key
}

/// The public address of an avatar.
pub open spec fn avatar_url_text(space: Seq<char>, endpoint: Seq<char>, key: Seq<char>) -> Seq<
    char,
> {
    "https://"@ + space + "."@ + without(endpoint, "https://"@) + "/"@ + key
}

/// The public address of an avatar: `https://{space}.{host}/{key}`, the
/// host being the endpoint without its scheme.
pub fn avatar_url(space: &str, endpoint: &str, key: &str) -> (url: String)
    ensures
        url@ == avatar_url_text(space@, endpoint@, key@),
{
    let mut url = String::from_str("https://");
    url.append(space);
    url.append(".");
    url.append(remove_all(endpoint, "https://").as_str());
    url.append("/");
    url.append(key);
    url
}

/// What was deleted.
#[derive(Debug, Clone, Copy, PartialEq, Eq, Structural)]
pub enum Deleted {
    /// One image.
    Image,
    /// Several images, or those of a whole project.
    Images,
}

/// The response of a deletion, after the rows were deleted or could not
/// be. Whether the stored objects could be deleted does not change it.
pub fn deletion_response(deleted: Deleted, rows: Result<(), String>) -> (response: AppResponse)
    ensures
        rows matches Err(message) ==> response == AppResponse::Error(message),
        rows is Ok ==> (response matches AppResponse::Success(entity, action) && action
            == SuccessActions::Delete && entity@ == (match deleted {
            Deleted::Image => "Image"@,
            Deleted::Images => "Images"@,
        })),
{
    match rows {
        Err(message) => AppResponse::Error(message),
        Ok(_) => {
            let entity = match deleted {
                Deleted::Image => "Image",
                Deleted::Images => "Images",
            };
            AppResponse::Success(String::from_str(entity), SuccessActions::Delete)
        },
    }
}

/// The keys of the images `ids` of one project and class, in order.
pub open spec fn object_keys_text(project_id: u128, image_type: ImageType, ids: Seq<u128>) -> Seq<
    Seq<char>,
> {
    Seq::new(ids.len(), |i: int| object_key_text(project_id, image_type, ids[i]))
}

/// The views of a list of texts.
pub open spec fn texts(list: Seq<String>) -> Seq<Seq<char>> {
    Seq::new(list.len(), |i: int| list[i]@)
}

/// The keys to delete after the rows of `ids` were deleted: one for each
/// identifier, in order.
pub fn object_keys(project_id: u128, image_type: ImageType, ids: &Vec<u128>) -> (keys: Vec<String>)
    ensures
        texts(keys@) == object_keys_text(project_id, image_type, ids@),
{
    let mut keys: Vec<String> = Vec::new();
    let mut i: usize = 0;
    while i < ids.len()
        invariant
            i <= ids.len(),
            texts(keys@) == object_keys_text(project_id, image_type, ids@.subrange(0, i as int)),
        decreases ids.len() - i,
    {
        let ghost before = texts(keys@);
        keys.push(object_key(project_id, image_type, ids[i]));
        i += 1;
        assert(texts(keys@) =~= before.push(object_key_text(project_id, image_type, ids@[i - 1])));
        assert(object_keys_text(project_id, image_type, ids@.subrange(0, i as int)) =~= before.push(
            object_key_text(project_id, image_type, ids@[i - 1]),
        ));
    }
    assert(ids@.subrange(0, i as int) =~= ids@);
    keys
}

/// The base64 texts of the objects that were fetched, in order; an object
/// that could not be fetched is left out.
pub open spec fn download_texts(objects: Seq<Option<Vec<u8>>>) -> Seq<Seq<char>>
    decreases objects.len(),
{
    if objects.len() == 0 {
        Seq::empty()
    } else {
        let before = download_texts(objects.drop_last());
        match objects.last() {
            Some(bytes) => before.push(base64_standard(bytes@)),
            None => before,
        }
    }
}

/// Encodes what a download fetched. `None` stands for an object that could
/// not be fetched.
pub fn download_payload(objects: &Vec<Option<Vec<u8>>>) -> (payload: Vec<String>)
    requires
        forall|k: int|
            0 <= k < objects@.len() ==> (#[trigger] objects@[k] matches Some(bytes)
                ==> fits_base64(bytes@.len())),
    ensures
        texts(payload@) == download_texts(objects@),
{
    let mut payload: Vec<String> = Vec::new();
    let mut i: usize = 0;
    while i < objects.len()
        invariant
            i <= objects.len(),
            forall|k: int|
                0 <= k < objects@.len() ==> (#[trigger] objects@[k] matches Some(bytes)
                    ==> fits_base64(bytes@.len())),
            texts(payload@) == download_texts(objects@.subrange(0, i as int)),
        decreases objects.len() - i,
    {
        proof {
            let upto = objects@.subrange(0, i + 1);
            assert(upto.drop_last() =~= objects@.subrange(0, i as int));
            assert(upto.last() == objects@[i as int]);
        }
        let ghost before = texts(payload@);
        match &objects[i] {
            Some(bytes) => {
                payload.push(encode_base64(bytes.as_slice()));
                assert(texts(payload@) =~= before.push(base64_standard(bytes@)));
            },
            None => {},
        }
        i += 1;
    }
    assert(objects@.subrange(0, i as int) =~= objects@);
    payload
}

/// One page of a listing under a prefix.
#[derive(Debug, PartialEq)]
pub struct ListingPage {
    /// The keys of the objects on the page, where the page names any.
    pub keys: Option<Vec<String>>,
    /// Whether more pages follow, where the listing says.
    pub is_truncated: Option<bool>,
    /// The token that the next page is asked with.
    pub next_token: Option<String>,
}

/// What a recursive delete does with a page.
#[derive(Debug, PartialEq)]
pub struct PageStep {
    /// The keys to delete now; empty where the page names none.
    pub delete: Vec<String>,
    /// Whether another page is to be listed.
    pub more: bool,
    /// The token to list it with.
    pub token: Option<String>,
}

/// Another page follows exactly where the listing says it is truncated.
pub open spec fn has_more(page: ListingPage) -> bool {
    page.is_truncated == Some(true)
}

/// Decides what to do with a page of the listing: its keys are deleted, and
/// the walk goes on with the page's token exactly where the listing says it
/// is truncated.
pub fn page_step(page: ListingPage) -> (step: PageStep)
    ensures
        page.keys matches Some(keys) ==> step.delete == keys,
        page.keys is None ==> step.delete@.len() == 0,
        step.more == has_more(page),
        has_more(page) ==> step.token == page.next_token,
        !has_more(page) ==> step.token is None,
{
    let delete = match page.keys {
        Some(keys) => keys,
        None => Vec::new(),
    };
    match page.is_truncated {
        Some(true) => PageStep { delete, more: true, token: page.next_token },
        _ => PageStep { delete, more: false, token: None },
    }
}

} // verus!
