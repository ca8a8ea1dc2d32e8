//! Delivery URLs.
//!
//! An image is delivered either through a URL that the storage provider
//! presigns for its object key, or, where a size was asked for, through a
//! ticket URL: the canonical signing string of the request, preceded by its
//! keyed digest in a URL-safe alphabet. The resizing service holds the same
//! secret, recomputes the digest and compares.
use vstd::prelude::*;
use vstd::string::*;
use base64::Engine;
use hmac::Mac;
use crate::enums::ImageType;
use crate::ids::{hyphenated, id_text, lemma_hyphenated_injective, lemma_hyphenated_places};
use crate::text::{
    chars_of, decimal, lemma_decimal_digits, lemma_decimal_injective, lemma_split_at_mark,
    push_decimal,
};

verus! {

/// The seconds for which a presigned URL stays valid.
pub const PRESIGN_SECONDS: u64 = 3600;

/// HMAC-SHA-512 of `message` under `key`, as the `hmac` and `sha2` crates
/// compute it.
pub uninterp spec fn hmac_sha512(key: Seq<u8>, message: Seq<u8>) -> Seq<u8>;

/// The standard base64 text of `bytes`, padded, as the `base64` crate's
/// `STANDARD` engine writes it.
pub uninterp spec fn base64_standard(bytes: Seq<u8>) -> Seq<char>;

/// The error with which a keyed digest refuses a key.
#[verifier::external_type_specification]
#[verifier::external_body]
pub struct ExInvalidLength(hmac::digest::InvalidLength);

/// `Hmac::<Sha512>::new_from_slice`, `update` and `finalize`. Trusted: the
/// digest is a function of key and message alone, named `hmac_sha512`, it
/// has the sixty-four bytes of a SHA-512 output, and no key is refused (HMAC
/// pads a short key and hashes a long one).
#[verifier::external_body]
pub(crate) fn hmac_sha512_digest(key: &[u8], message: &[u8]) -> (r: Result<
    Vec<u8>,
    hmac::digest::InvalidLength,
>)
    ensures
        r is Ok,
        r matches Ok(digest) ==> digest@ == hmac_sha512(key@, message@) && digest@.len() == 64,
{
    let mut mac = hmac::Hmac::<sha2::Sha512>::new_from_slice(key)?;
    mac.update(message);
    Ok(mac.finalize().into_bytes().to_vec())
}

/// The padded base64 text of `len` bytes has a length that fits in `usize`:
/// four characters for every three bytes begun.
pub open spec fn fits_base64(len: nat) -> bool {
    len / 3 * 4 + 4 <= usize::MAX
}

/// `Engine::encode` of `base64::engine::general_purpose::STANDARD`, which
/// panics where the length of the text overflows. Trusted: the text is a
/// function of the bytes alone, named `base64_standard`.
#[verifier::external_body]
pub(crate) fn base64_encode(bytes: &[u8]) -> (text: String)
    requires
        fits_base64(bytes@.len()),
    ensures
        text@ == base64_standard(bytes@),
{
    base64::engine::general_purpose::STANDARD.encode(bytes)
}

/// Whether `len` bytes can be encoded.
pub fn can_encode(len: usize) -> (fits: bool)
    ensures
        fits == fits_base64(len as nat),
{
    len / 3 <= (usize::MAX - 4) / 4
}

/// The standard base64 text of `bytes`.
pub fn encode_base64(bytes: &[u8]) -> (text: String)
    requires
        fits_base64(bytes@.len()),
    ensures
        text@ == base64_standard(bytes@),
{
    base64_encode(bytes)
}

/// The URL-safe stand-in of a base64 character.
pub open spec fn url_safe_char(c: char) -> char {
    if c == '+' {
        '-'
    } else if c == '/' {
        '_'
    } else {
        c
    }
}

/// `text` with every `+` turned into `-` and every `/` into `_`.
pub open spec fn url_safe(text: Seq<char>) -> Seq<char> {
    Seq::new(text.len(), |i: int| url_safe_char(text[i]))
}

/// No `+` and no `/` stands in `text`.
pub open spec fn is_url_safe(text: Seq<char>) -> bool {
    forall|i: int| 0 <= i < text.len() ==> text[i] != '+' && text[i] != '/'
}

/// Turns every `+` of `text` into `-` and every `/` into `_`.
pub fn make_url_safe(text: &str) -> (safe: String)
    ensures
        safe@ == url_safe(text@),
        is_url_safe(safe@),
{
    let chars = chars_of(text);
    let mut safe = String::new();
    let mut i: usize = 0;
    while i < chars.len()
        invariant
            chars@ == text@,
            i <= chars.len(),
            safe@ == url_safe(text@.subrange(0, i as int)),
        decreases chars.len() - i,
    {
        let c: char = chars[i];
        let mapped: char = if c == '+' {
            '-'
        } else if c == '/' {
            '_'
        } else {
            c
        };
        safe.push(mapped);
        i += 1;
        assert(safe@ =~= url_safe(text@.subrange(0, i as int)));
    }
    assert(text@.subrange(0, i as int) =~= text@);
    safe
}

/// The key under which an image is stored.
pub open spec fn object_key_text(project_id: u128, image_type: ImageType, image_id: u128) -> Seq<
    char,
> {
    "assets/"@ + hyphenated(project_id) + "/"@ + image_type.text() + "/"@ + hyphenated(image_id)
        + ".webp"@
}

/// The key under which an image is stored:
/// `assets/{project_id}/{image_type}/{image_id}.webp`.
pub fn object_key(project_id: u128, image_type: ImageType, image_id: u128) -> (key: String)
    ensures
        key@ == object_key_text(project_id, image_type, image_id),
{
    let mut key = String::from_str("assets/");
    key.append(id_text(project_id).as_str());
    key.append("/");
    key.append(image_type.as_str());
    key.append("/");
    key.append(id_text(image_id).as_str());
    key.append(".webp");
    key
}

/// The canonical string that a ticket signs.
pub open spec fn signing_text(
    width: nat,
    height: nat,
    project_id: u128,
    image_type: ImageType,
    image_id: u128,
) -> Seq<char> {
    decimal(width) + "x"@ + decimal(height) + "/"@ + object_key_text(
        project_id,
        image_type,
        image_id,
    )
}

/// The canonical string that a ticket signs:
/// `{width}x{height}/assets/{project_id}/{image_type}/{image_id}.webp`.
pub fn signing_string(
    width: usize,
    height: usize,
    project_id: u128,
    image_type: ImageType,
    image_id: u128,
) -> (text: String)
    ensures
        text@ == signing_text(width as nat, height as nat, project_id, image_type, image_id),
{
    let mut text = String::new();
    push_decimal(&mut text, width);
    text.append("x");
    push_decimal(&mut text, height);
    text.append("/");
    text.append(object_key(project_id, image_type, image_id).as_str());
    assert(text@ =~= signing_text(
        width as nat,
        height as nat,
        project_id,
        image_type,
        image_id,
    ));
    text
}

/// The signature of `message` under `secret`: the keyed digest, in base64,
/// made URL-safe.
pub open spec fn signature_text(secret: Seq<u8>, message: Seq<u8>) -> Seq<char> {
    url_safe(base64_standard(hmac_sha512(secret, message)))
}

/// The signing secret was refused as key material.
#[derive(Debug, Clone, Copy, PartialEq, Eq, Structural)]
pub struct ConfigurationError;

/// Signs `message` under `secret`.
///
/// Every secret is accepted as a key, so a signature is always returned; the
/// error stands for key material that the digest would refuse.
pub fn sign(secret: &str, message: &str) -> (r: Result<String, ConfigurationError>)
    ensures
        r is Ok,
        r matches Ok(signature) ==> {
            &&& signature@ == signature_text(secret.spec_bytes(), message.spec_bytes())
            &&& is_url_safe(signature@)
        },
{
    match hmac_sha512_digest(secret.as_bytes(), message.as_bytes()) {
        Ok(digest) => {
            let encoded = base64_encode(digest.as_slice());
            Ok(make_url_safe(encoded.as_str()))
        },
        Err(_) => Err(ConfigurationError),
    }
}

/// A ticket URL from its three parts.
pub open spec fn ticket_url_text(base: Seq<char>, signature: Seq<char>, signing: Seq<char>) -> Seq<
    char,
> {
    base + "/"@ + signature + "/"@ + signing
}

/// Puts a ticket URL together: `{base}/{signature}/{signing}`.
pub fn assemble_ticket_url(base: &str, signature: &str, signing: &str) -> (url: String)
    ensures
        url@ == ticket_url_text(base@, signature@, signing@),
{
    let mut url = String::from_str(base);
    url.append("/");
    url.append(signature);
    url.append("/");
    url.append(signing);
    url
}

/// The sizes that a thumbnail request may carry.
#[derive(Debug, Clone, Copy, PartialEq, Eq)]
pub struct ThumbnailDimensions {
    pub width: Option<usize>,
    pub height: Option<usize>,
}

impl ThumbnailDimensions {
    /// A resize was asked for: both sizes are given.
    pub open spec fn requested(self) -> bool {
        self.width is Some && self.height is Some
    }
}

/// What a thumbnail request is answered with: the URL as plain text, and a
/// hint for caches.
#[derive(Debug, Clone, PartialEq, Eq)]
pub struct ThumbnailReply {
    pub status: u16,
    pub content_type: String,
    pub cache_control: String,
    pub url: String,
}

/// Wraps a delivery URL for the answer: success, `text/plain`, and an hour
/// in caches.
pub fn thumbnail_reply(url: String) -> (reply: ThumbnailReply)
    ensures
        reply.status == 200,
        reply.content_type@ == "text/plain"@,
        reply.cache_control@ == "max-age=3600"@,
        reply.url == url,
{
    ThumbnailReply {
        status: 200,
        content_type: String::from_str("text/plain"),
        cache_control: String::from_str("max-age=3600"),
        url,
    }
}

/// How an image is delivered.
#[derive(Debug, Clone, PartialEq, Eq)]
pub enum Delivery {
    /// A ticket URL, complete.
    Ticket { url: String },
    /// An object key for the storage provider to presign, and the seconds
    /// for which the URL is to stay valid.
    Presign { key: String, expires_in: u64 },
}

/// The ticket URL of a sized request.
pub open spec fn ticket_text(
    base: Seq<char>,
    secret: Seq<u8>,
    width: nat,
    height: nat,
    project_id: u128,
    image_type: ImageType,
    image_id: u128,
) -> Seq<char> {
    ticket_url_text(
        base,
        ticket_signature(secret, width, height, project_id, image_type, image_id),
        signing_text(width, height, project_id, image_type, image_id),
    )
}

/// Issues the ticket URL of a sized request.
pub fn ticket_url(
    base: &str,
    secret: &str,
    width: usize,
    height: usize,
    project_id: u128,
    image_type: ImageType,
    image_id: u128,
) -> (r: Result<String, ConfigurationError>)
    ensures
        r is Ok,
        r matches Ok(url) ==> url@ == ticket_text(
            base@,
            secret.spec_bytes(),
            width as nat,
            height as nat,
            project_id,
            image_type,
            image_id,
        ),
{
    let signing = signing_string(width, height, project_id, image_type, image_id);
    match sign(secret, signing.as_str()) {
        Ok(signature) => Ok(assemble_ticket_url(base, signature.as_str(), signing.as_str())),
        Err(error) => Err(error),
    }
}

/// Chooses the delivery of an image: a ticket where both sizes are given,
/// else the object key to presign.
pub fn get_thumbnail(
    base: &str,
    secret: &str,
    dimensions: &ThumbnailDimensions,
    project_id: u128,
    image_type: ImageType,
    image_id: u128,
) -> (r: Result<Delivery, ConfigurationError>)
    ensures
        r is Ok,
        dimensions.requested() ==> (r matches Ok(Delivery::Ticket { url }) && url@ == ticket_text(
            base@,
            secret.spec_bytes(),
            dimensions.width->Some_0 as nat,
            dimensions.height->Some_0 as nat,
            project_id,
            image_type,
            image_id,
        )),
        !dimensions.requested() ==> (r matches Ok(Delivery::Presign { key, expires_in }) && key@
            == object_key_text(project_id, image_type, image_id) && expires_in
            == PRESIGN_SECONDS),
{
    match (dimensions.width, dimensions.height) {
        (Some(width), Some(height)) => {
            match ticket_url(base, secret, width, height, project_id, image_type, image_id) {
                Ok(url) => Ok(Delivery::Ticket { url }),
                Err(error) => Err(error),
            }
        },
        _ => Ok(
            Delivery::Presign {
                key: object_key(project_id, image_type, image_id),
                expires_in: PRESIGN_SECONDS,
            },
        ),
    }
}

/// The bytes that a ticket signs: the canonical string in UTF-8.
pub open spec fn signing_bytes(
    width: nat,
    height: nat,
    project_id: u128,
    image_type: ImageType,
    image_id: u128,
) -> Seq<u8> {
    vstd::utf8::encode_utf8(signing_text(width, height, project_id, image_type, image_id))
}

/// The signature of a sized request under a secret.
pub open spec fn ticket_signature(
    secret: Seq<u8>,
    width: nat,
    height: nat,
    project_id: u128,
    image_type: ImageType,
    image_id: u128,
) -> Seq<char> {
    signature_text(secret, signing_bytes(width, height, project_id, image_type, image_id))
}

/// Signing is deterministic: the same secret and the same request give the
/// same signature.
pub proof fn lemma_signature_deterministic(
    secret_a: Seq<u8>,
    width_a: nat,
    height_a: nat,
    project_a: u128,
    type_a: ImageType,
    image_a: u128,
    secret_b: Seq<u8>,
    width_b: nat,
    height_b: nat,
    project_b: u128,
    type_b: ImageType,
    image_b: u128,
)
    requires
        secret_a == secret_b,
        width_a == width_b,
        height_a == height_b,
        project_a == project_b,
        type_a == type_b,
        image_a == image_b,
    ensures
        ticket_signature(secret_a, width_a, height_a, project_a, type_a, image_a)
            == ticket_signature(secret_b, width_b, height_b, project_b, type_b, image_b),
{
}

/// Two images with the same object key are the same image: project, class
/// and identifier agree.
pub proof fn lemma_object_key_injective(
    project_a: u128,
    type_a: ImageType,
    image_a: u128,
    project_b: u128,
    type_b: ImageType,
    image_b: u128,
)
    requires
        object_key_text(project_a, type_a, image_a) == object_key_text(
            project_b,
            type_b,
            image_b,
        ),
    ensures
        project_a == project_b,
        type_a == type_b,
        image_a == image_b,
{
    reveal_strlit("assets/");
    reveal_strlit("/");
    reveal_strlit("images");
    reveal_strlit("map_images");
    reveal_strlit(".webp");
    lemma_hyphenated_places(project_a);
    lemma_hyphenated_places(project_b);
    lemma_hyphenated_places(image_a);
    lemma_hyphenated_places(image_b);
    let key_a = object_key_text(project_a, type_a, image_a);
    let key_b = object_key_text(project_b, type_b, image_b);
    assert(key_a.subrange(7, 43) =~= hyphenated(project_a));
    assert(key_b.subrange(7, 43) =~= hyphenated(project_b));
    lemma_hyphenated_injective(project_a, project_b);
    assert(key_a.len() == 86 + type_a.text().len());
    assert(key_b.len() == 86 + type_b.text().len());
    assert(type_a == type_b);
    let from = 45 + type_a.text().len() as int;
    assert(key_a.subrange(from, from + 36) =~= hyphenated(image_a));
    assert(key_b.subrange(from, from + 36) =~= hyphenated(image_b));
    lemma_hyphenated_injective(image_a, image_b);
}

/// Two requests that sign the same string are the same request: a change in
/// width, height, project, class or image changes what is signed.
pub proof fn lemma_signing_text_injective(
    width_a: nat,
    height_a: nat,
    project_a: u128,
    type_a: ImageType,
    image_a: u128,
    width_b: nat,
    height_b: nat,
    project_b: u128,
    type_b: ImageType,
    image_b: u128,
)
    requires
        signing_text(width_a, height_a, project_a, type_a, image_a) == signing_text(
            width_b,
            height_b,
            project_b,
            type_b,
            image_b,
        ),
    ensures
        width_a == width_b,
        height_a == height_b,
        project_a == project_b,
        type_a == type_b,
        image_a == image_b,
{
    reveal_strlit("x");
    reveal_strlit("/");
    let key_a = object_key_text(project_a, type_a, image_a);
    let key_b = object_key_text(project_b, type_b, image_b);
    let rest_a = decimal(height_a).push('/') + key_a;
    let rest_b = decimal(height_b).push('/') + key_b;
    assert(signing_text(width_a, height_a, project_a, type_a, image_a) =~= decimal(width_a).push(
        'x',
    ) + rest_a);
    assert(signing_text(width_b, height_b, project_b, type_b, image_b) =~= decimal(width_b).push(
        'x',
    ) + rest_b);
    lemma_decimal_digits(width_a);
    lemma_decimal_digits(width_b);
    lemma_decimal_digits(height_a);
    lemma_decimal_digits(height_b);
    lemma_split_at_mark(decimal(width_a), rest_a, decimal(width_b), rest_b, 'x');
    lemma_decimal_injective(width_a, width_b);
    lemma_split_at_mark(decimal(height_a), key_a, decimal(height_b), key_b, '/');
    lemma_decimal_injective(height_a, height_b);
    lemma_object_key_injective(project_a, type_a, image_a, project_b, type_b, image_b);
}

/// Two requests whose signed bytes agree are the same request: a change in
/// width, height, project, class or image changes the message under the
/// keyed digest. (Whether the digests then differ is a matter of the digest,
/// not of this library.)
pub proof fn lemma_signed_message_injective(
    width_a: nat,
    height_a: nat,
    project_a: u128,
    type_a: ImageType,
    image_a: u128,
    width_b: nat,
    height_b: nat,
    project_b: u128,
    type_b: ImageType,
    image_b: u128,
)
    requires
        signing_bytes(width_a, height_a, project_a, type_a, image_a) == signing_bytes(
            width_b,
            height_b,
            project_b,
            type_b,
            image_b,
        ),
    ensures
        width_a == width_b,
        height_a == height_b,
        project_a == project_b,
        type_a == type_b,
        image_a == image_b,
{
    vstd::utf8::encode_utf8_decode_utf8(
        signing_text(width_a, height_a, project_a, type_a, image_a),
    );
    vstd::utf8::encode_utf8_decode_utf8(
        signing_text(width_b, height_b, project_b, type_b, image_b),
    );
    lemma_signing_text_injective(
        width_a,
        height_a,
        project_a,
        type_a,
        image_a,
        width_b,
        height_b,
        project_b,
        type_b,
        image_b,
    );
}

/// A signature holds neither `+` nor `/`, whatever was encoded.
pub proof fn lemma_signature_url_safe(secret: Seq<u8>, message: Seq<u8>)
    ensures
        is_url_safe(signature_text(secret, message)),
{
}

} // verus!
