//! The manifest decoder: happy path and the `ManifestExpected` contract.

use tdl::tidal::{decode_manifest, AccessError};

#[test]
fn decodes_a_base64_manifest() {
    let bytes = decode_manifest("{\"manifest\": \"aGVsbG8=\"}")
        .unwrap_or_else(|_| panic!("decode failed"));
    assert_eq!(bytes, b"hello".to_vec());
}

#[test]
fn missing_manifest_field_is_manifest_expected() {
    match decode_manifest("{\"somethingElse\": true}") {
        Err(AccessError::ManifestExpected(v)) => {
            assert!(v.get("somethingElse").is_some());
        }
        _ => panic!("expected ManifestExpected"),
    }
}

#[test]
fn non_string_manifest_is_manifest_expected_not_a_panic() {
    // A playback-info response of {"manifest": 123} must surface as
    // ManifestExpected, with the full response retrievable from the error.
    match decode_manifest("{\"manifest\": 123}") {
        Err(AccessError::ManifestExpected(v)) => {
            let field = v.get("manifest").expect("field kept");
            assert_eq!(field.as_num_text().expect("number kept"), "123");
            assert!(field.as_string().is_none());
        }
        _ => panic!("expected ManifestExpected"),
    }
}

#[test]
fn non_json_body_is_deserialization_failure() {
    assert!(matches!(
        decode_manifest("<html>no</html>"),
        Err(AccessError::DeserializationFailure(_))
    ));
}

#[test]
fn bad_base64_is_decode_error() {
    assert!(matches!(
        decode_manifest("{\"manifest\": \"!!not base64!!\"}"),
        Err(AccessError::Base64Decode(_))
    ));
}
