use attendance::auth::AuthError;
use attendance::date::Date;
use attendance::engine::MutationRoot;
use hmac::{Hmac, KeyInit, Mac};
use sha2::Sha256;

fn tag_for(secret: &[u8], member_id: i32, date_iso: &str, is_present: bool) -> String {
    let message = format!("{}{}{}", member_id, date_iso, is_present);
    let mut mac =
        <Hmac<Sha256> as KeyInit>::new_from_slice(secret).expect("HMAC accepts keys of any length");
    Mac::update(&mut mac, message.as_bytes());
    hex::encode(Mac::finalize(mac).into_bytes())
}

#[test]
fn correct_tag_verifies() {
    let root = MutationRoot::new(b"shared-secret".to_vec());
    let date = Date { year: 2024, month: 3, day: 5 };
    let tag = tag_for(b"shared-secret", 12, "2024-03-05", true);
    assert_eq!(root.verify(12, &date, true, &tag), Ok(()));
}

#[test]
fn correct_uppercase_tag_verifies() {
    let root = MutationRoot::new(b"shared-secret".to_vec());
    let date = Date { year: 2024, month: 3, day: 5 };
    let tag = tag_for(b"shared-secret", 12, "2024-03-05", true).to_uppercase();
    assert_eq!(root.verify(12, &date, true, &tag), Ok(()));
}

#[test]
fn message_matches_display_formatting() {
    // The canonical payload must agree with the plain `{}{}{}` formatting of
    // the id, the ISO date and the boolean that clients use.
    let date = Date { year: 987, month: 12, day: 31 };
    let chrono_date = chrono::NaiveDate::from_ymd_opt(987, 12, 31).unwrap();
    let expected = format!("{}{}{}", -40, chrono_date, false);
    let got = attendance::codec::canonical_message(-40, &date, false);
    assert_eq!(got, expected.into_bytes());
    assert_eq!(
        attendance::codec::canonical_message(12, &Date { year: 2024, month: 3, day: 5 }, true),
        b"122024-03-05true".to_vec()
    );
}

#[test]
fn extreme_ids_encode_exactly() {
    let date = Date { year: 2024, month: 1, day: 1 };
    assert_eq!(
        attendance::codec::canonical_message(i32::MIN, &date, true),
        b"-21474836482024-01-01true".to_vec()
    );
    assert_eq!(
        attendance::codec::canonical_message(i32::MAX, &date, false),
        b"21474836472024-01-01false".to_vec()
    );
    assert_eq!(
        attendance::codec::canonical_message(0, &date, false),
        b"02024-01-01false".to_vec()
    );
}

#[test]
fn altered_tag_is_mismatch() {
    let root = MutationRoot::new(b"shared-secret".to_vec());
    let date = Date { year: 2024, month: 3, day: 5 };
    let tag = tag_for(b"shared-secret", 12, "2024-03-05", true);
    // Flip one bit of the first denoted byte; the tag stays well-formed hex.
    let mut chars: Vec<char> = tag.chars().collect();
    chars[1] = if chars[1] == '0' { '1' } else { '0' };
    let altered: String = chars.into_iter().collect();
    assert_eq!(
        root.verify(12, &date, true, &altered),
        Err(AuthError::SignatureMismatch)
    );
}

#[test]
fn tag_over_other_payload_is_mismatch() {
    let root = MutationRoot::new(b"shared-secret".to_vec());
    let date = Date { year: 2024, month: 3, day: 5 };
    let tag = tag_for(b"shared-secret", 12, "2024-03-05", true);
    assert_eq!(
        root.verify(12, &date, false, &tag),
        Err(AuthError::SignatureMismatch)
    );
    assert_eq!(
        root.verify(13, &date, true, &tag),
        Err(AuthError::SignatureMismatch)
    );
}

#[test]
fn wrong_secret_is_mismatch() {
    let root = MutationRoot::new(b"other-secret".to_vec());
    let date = Date { year: 2024, month: 3, day: 5 };
    let tag = tag_for(b"shared-secret", 12, "2024-03-05", true);
    assert_eq!(
        root.verify(12, &date, true, &tag),
        Err(AuthError::SignatureMismatch)
    );
}

#[test]
fn non_hex_tag_is_malformed() {
    let root = MutationRoot::new(b"shared-secret".to_vec());
    let date = Date { year: 2024, month: 3, day: 5 };
    let mut tag = tag_for(b"shared-secret", 12, "2024-03-05", true);
    tag.replace_range(0..2, "zz");
    assert_eq!(
        root.verify(12, &date, true, &tag),
        Err(AuthError::MalformedSignature)
    );
}

#[test]
fn odd_length_tag_is_malformed() {
    let root = MutationRoot::new(b"shared-secret".to_vec());
    let date = Date { year: 2024, month: 3, day: 5 };
    let mut tag = tag_for(b"shared-secret", 12, "2024-03-05", true);
    tag.pop();
    assert_eq!(
        root.verify(12, &date, true, &tag),
        Err(AuthError::MalformedSignature)
    );
}

#[test]
fn empty_tag_is_mismatch_not_malformed() {
    // Zero characters are valid hex denoting zero bytes; the computed tag is
    // 32 bytes, so this must be a mismatch, not a malformed tag.
    let root = MutationRoot::new(b"shared-secret".to_vec());
    let date = Date { year: 2024, month: 3, day: 5 };
    assert_eq!(
        root.verify(12, &date, true, ""),
        Err(AuthError::SignatureMismatch)
    );
}
