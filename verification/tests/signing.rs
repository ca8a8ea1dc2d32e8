use asset_access::enums::ImageType;
use asset_access::signing::{
    assemble_ticket_url, can_encode, encode_base64, get_thumbnail, make_url_safe, object_key, sign,
    signing_string, thumbnail_reply, ticket_url, Delivery, ThumbnailDimensions, ThumbnailReply,
    PRESIGN_SECONDS,
};
use base64::Engine;
use hmac::Mac;

const PROJECT: u128 = 0xa1a2a3a4b1b2c1c2d1d2d3d4d5d6d7d8;
const IMAGE: u128 = 0x550e8400e29b41d4a716446655440000;
const SIGNING: &str =
    "200x100/assets/a1a2a3a4-b1b2-c1c2-d1d2-d3d4d5d6d7d8/images/550e8400-e29b-41d4-a716-446655440000.webp";
const SIGNATURE_S: &str =
    "IKqPQHye_W7U973zdAOMMLNTl0Joi-eLQnr8S_OfRhdD1-JXj2wT24RpsZrNkbEe75TclibWU_UDn1IHQV8I8A==";

fn reference_signature(secret: &str, message: &str) -> String {
    let mut mac = hmac::Hmac::<sha2::Sha512>::new_from_slice(secret.as_bytes()).unwrap();
    mac.update(message.as_bytes());
    base64::engine::general_purpose::STANDARD
        .encode(mac.finalize().into_bytes())
        .replace('+', "-")
        .replace('/', "_")
}

#[test]
fn object_key_follows_the_convention() {
    assert_eq!(
        object_key(PROJECT, ImageType::Images, IMAGE),
        "assets/a1a2a3a4-b1b2-c1c2-d1d2-d3d4d5d6d7d8/images/550e8400-e29b-41d4-a716-446655440000.webp"
    );
    assert_eq!(
        object_key(0, ImageType::MapImages, u128::MAX),
        "assets/00000000-0000-0000-0000-000000000000/map_images/ffffffff-ffff-ffff-ffff-ffffffffffff.webp"
    );
}

#[test]
fn signing_string_is_canonical() {
    assert_eq!(signing_string(200, 100, PROJECT, ImageType::Images, IMAGE), SIGNING);
    assert_eq!(
        signing_string(0, 1234567890, PROJECT, ImageType::MapImages, IMAGE),
        "0x1234567890/assets/a1a2a3a4-b1b2-c1c2-d1d2-d3d4d5d6d7d8/map_images/550e8400-e29b-41d4-a716-446655440000.webp"
    );
}

#[test]
fn signature_is_the_url_safe_keyed_digest() {
    assert_eq!(sign("S", SIGNING), Ok(SIGNATURE_S.to_string()));
    assert_eq!(sign("S", SIGNING).unwrap(), reference_signature("S", SIGNING));
    assert_eq!(
        sign("thumbnail-secret", SIGNING).unwrap(),
        "MNmyY-u3BG8cJWWJExLnw6TXsWWndsGCXG4g39_2QVnVnJ4TcXXpSVRkvnwHZ-rKhvic2I6MPXkKlceWshw1mg=="
    );
}

#[test]
fn empty_secret_is_accepted_as_key() {
    assert_eq!(
        sign("", SIGNING).unwrap(),
        "2eN4EUZ0WXvPkTIlZTLz-m91m5Adc7jQOhlm-LQfmpvJeoF40Vd5oNAdxFFiFmQd0EG2VNxm6JFFszf9DVZHuQ=="
    );
}

#[test]
fn signing_is_deterministic() {
    let first = ticket_url("https://resize", "S", 200, 100, PROJECT, ImageType::Images, IMAGE);
    let second = ticket_url("https://resize", "S", 200, 100, PROJECT, ImageType::Images, IMAGE);
    assert_eq!(first, second);
}

#[test]
fn each_input_changes_the_signature() {
    let base = sign("S", &signing_string(200, 100, PROJECT, ImageType::Images, IMAGE)).unwrap();
    let others = [
        sign("T", &signing_string(200, 100, PROJECT, ImageType::Images, IMAGE)).unwrap(),
        sign("S", &signing_string(201, 100, PROJECT, ImageType::Images, IMAGE)).unwrap(),
        sign("S", &signing_string(200, 101, PROJECT, ImageType::Images, IMAGE)).unwrap(),
        sign("S", &signing_string(200, 100, IMAGE, ImageType::Images, IMAGE)).unwrap(),
        sign("S", &signing_string(200, 100, PROJECT, ImageType::MapImages, IMAGE)).unwrap(),
        sign("S", &signing_string(200, 100, PROJECT, ImageType::Images, PROJECT)).unwrap(),
    ];
    for other in others.iter() {
        assert_ne!(&base, other);
        assert_eq!(base.len(), other.len());
    }
}

#[test]
fn signature_never_holds_plus_or_slash() {
    for width in 0..200usize {
        let message = signing_string(width, 7, PROJECT, ImageType::Images, IMAGE);
        let signature = sign("S", &message).unwrap();
        assert!(!signature.contains('+'));
        assert!(!signature.contains('/'));
        assert_eq!(signature.len(), 88);
    }
}

#[test]
fn url_safe_maps_only_plus_and_slash() {
    assert_eq!(make_url_safe("+//+"), "-__-");
    assert_eq!(make_url_safe("aGVsbG8="), "aGVsbG8=");
    assert_eq!(make_url_safe(""), "");
    assert_eq!(make_url_safe("a+b/c-d_e="), "a-b_c-d_e=");
}

#[test]
fn base64_is_standard_and_padded() {
    assert_eq!(encode_base64(&[0xfb, 0xff, 0xfe]), "+//+");
    assert_eq!(encode_base64(b"hello"), "aGVsbG8=");
    assert_eq!(encode_base64(&[0xff, 0xef]), "/+8=");
    assert_eq!(encode_base64(&[]), "");
}

#[test]
fn ticket_url_has_three_parts() {
    assert_eq!(assemble_ticket_url("https://resize", "sig", "1x2/assets"), "https://resize/sig/1x2/assets");
    assert_eq!(assemble_ticket_url("", "", ""), "//");
}

#[test]
fn ticket_scenario() {
    let url = ticket_url("https://resize.example", "S", 200, 100, PROJECT, ImageType::Images, IMAGE)
        .unwrap();
    assert_eq!(url, format!("https://resize.example/{}/{}", SIGNATURE_S, SIGNING));
    let rest = url.strip_prefix("https://resize.example/").unwrap();
    let (signature, path) = rest.split_once('/').unwrap();
    assert_eq!(path, SIGNING);
    assert_eq!(signature, reference_signature("S", SIGNING));
}

#[test]
fn sized_request_gets_a_ticket() {
    let dimensions = ThumbnailDimensions { width: Some(200), height: Some(100) };
    let delivery =
        get_thumbnail("https://resize.example", "S", &dimensions, PROJECT, ImageType::Images, IMAGE);
    assert_eq!(
        delivery,
        Ok(Delivery::Ticket {
            url: format!("https://resize.example/{}/{}", SIGNATURE_S, SIGNING)
        })
    );
}

#[test]
fn unsized_request_gets_a_key_to_presign() {
    let key = "assets/a1a2a3a4-b1b2-c1c2-d1d2-d3d4d5d6d7d8/images/550e8400-e29b-41d4-a716-446655440000.webp";
    for dimensions in [
        ThumbnailDimensions { width: None, height: None },
        ThumbnailDimensions { width: Some(200), height: None },
        ThumbnailDimensions { width: None, height: Some(100) },
    ] {
        let delivery =
            get_thumbnail("https://resize.example", "S", &dimensions, PROJECT, ImageType::Images, IMAGE);
        assert_eq!(
            delivery,
            Ok(Delivery::Presign { key: key.to_string(), expires_in: 3600 })
        );
    }
    assert_eq!(PRESIGN_SECONDS, 3600);
}

#[test]
fn encodable_lengths() {
    assert!(can_encode(0));
    assert!(can_encode(64));
    assert!(can_encode(usize::MAX / 2));
    assert!(can_encode((usize::MAX - 4) / 4 * 3 + 2));
    assert!(!can_encode((usize::MAX - 4) / 4 * 3 + 3));
    assert!(!can_encode(usize::MAX));
}

#[test]
fn thumbnail_reply_is_plain_text_cached_for_an_hour() {
    assert_eq!(
        thumbnail_reply("https://resize/sig/1x1/assets".to_string()),
        ThumbnailReply {
            status: 200,
            content_type: "text/plain".to_string(),
            cache_control: "max-age=3600".to_string(),
            url: "https://resize/sig/1x1/assets".to_string(),
        }
    );
}
