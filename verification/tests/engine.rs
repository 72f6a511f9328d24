//! End-to-end tests of the migration transform and the conversion adapter.

use conversion_webhook::adapter::{
    convert, invalid_request_response, ConversionRequest, Outcome, ReasonCode,
};
use conversion_webhook::object::{Field, RawObject, SpecField, SpecObject, SubField, SubObject};
use conversion_webhook::transform::{migrate, TransformError};
use conversion_webhook::version::{parse_version, version_str, Version};

fn field(name: &str, value: &str) -> Field {
    Field { name: name.to_owned(), value: value.to_owned() }
}

fn sub_object(secret_name: Option<&str>, extra: Vec<Field>) -> SubField {
    SubField::Object(SubObject { secret_name: secret_name.map(str::to_owned), extra })
}

fn spec_object(
    secret_name: Option<&str>,
    kafka: SubField,
    open_search: SubField,
    extra: Vec<Field>,
) -> SpecField {
    SpecField::Object(SpecObject {
        secret_name: secret_name.map(str::to_owned),
        kafka,
        open_search,
        extra,
    })
}

fn object(api_version: Option<&str>, spec_field: SpecField, extra: Vec<Field>) -> RawObject {
    RawObject { api_version: api_version.map(str::to_owned), spec_field, extra }
}

#[test]
fn forward_moves_secret_into_kafka() {
    let input = object(
        Some("v1"),
        spec_object(Some("supersecret"), sub_object(None, vec![]), SubField::Absent, vec![]),
        vec![],
    );
    let expected = object(
        Some("v2"),
        spec_object(None, sub_object(Some("supersecret"), vec![]), SubField::Absent, vec![]),
        vec![],
    );
    assert_eq!(migrate(&input, Version::V2), Ok(expected));
}

#[test]
fn forward_drops_secret_when_no_sub_resource_exists() {
    let input = object(
        Some("v1"),
        spec_object(Some("topsecret"), SubField::Absent, SubField::Absent, vec![]),
        vec![],
    );
    let expected = object(
        Some("v2"),
        spec_object(None, SubField::Absent, SubField::Absent, vec![]),
        vec![],
    );
    assert_eq!(migrate(&input, Version::V2), Ok(expected));
}

#[test]
fn forward_fills_both_sub_resources() {
    let input = object(
        Some("v1"),
        spec_object(Some("s"), sub_object(None, vec![]), sub_object(None, vec![]), vec![]),
        vec![],
    );
    let expected = object(
        Some("v2"),
        spec_object(None, sub_object(Some("s"), vec![]), sub_object(Some("s"), vec![]), vec![]),
        vec![],
    );
    assert_eq!(migrate(&input, Version::V2), Ok(expected));
}

#[test]
fn forward_never_overwrites_sub_resource_secret() {
    let input = object(
        Some("v1"),
        spec_object(Some("Y"), sub_object(Some("X"), vec![]), SubField::Absent, vec![]),
        vec![],
    );
    let converted = migrate(&input, Version::V2).unwrap();
    match &converted.spec_field {
        SpecField::Object(so) => {
            assert_eq!(so.secret_name, None);
            match &so.kafka {
                SubField::Object(sub) => assert_eq!(sub.secret_name.as_deref(), Some("X")),
                other => panic!("kafka is no longer an object: {other:?}"),
            }
        }
        other => panic!("spec is no longer an object: {other:?}"),
    }
}

#[test]
fn forward_fabricates_no_sub_resource() {
    let input = object(
        Some("v1"),
        spec_object(None, SubField::Absent, SubField::Absent, vec![]),
        vec![],
    );
    let converted = migrate(&input, Version::V2).unwrap();
    match &converted.spec_field {
        SpecField::Object(so) => {
            assert!(matches!(so.kafka, SubField::Absent));
            assert!(matches!(so.open_search, SubField::Absent));
        }
        other => panic!("spec is no longer an object: {other:?}"),
    }
}

#[test]
fn forward_migration_is_idempotent() {
    let input = object(
        Some("v1"),
        spec_object(
            Some("supersecret"),
            sub_object(None, vec![field("replicas", "3")]),
            sub_object(Some("own"), vec![]),
            vec![field("size", "10")],
        ),
        vec![field("metadata", "{\"name\":\"a\"}")],
    );
    let once = migrate(&input, Version::V2).unwrap();
    let twice = migrate(&once, Version::V2).unwrap();
    assert_eq!(twice, once);
}

#[test]
fn forward_keeps_untracked_fields_in_order() {
    let input = object(
        Some("v1"),
        spec_object(
            None,
            SubField::Absent,
            SubField::Absent,
            vec![field("b", "1"), field("a", "2")],
        ),
        vec![field("kind", "\"Thing\""), field("metadata", "{}")],
    );
    let converted = migrate(&input, Version::V2).unwrap();
    assert_eq!(converted.extra, vec![field("kind", "\"Thing\""), field("metadata", "{}")]);
    match &converted.spec_field {
        SpecField::Object(so) => {
            assert_eq!(so.extra, vec![field("b", "1"), field("a", "2")]);
        }
        other => panic!("spec is no longer an object: {other:?}"),
    }
}

#[test]
fn backward_only_rewrites_api_version() {
    let input = object(
        Some("v2"),
        spec_object(Some("kept"), sub_object(Some("X"), vec![]), SubField::Absent, vec![]),
        vec![field("metadata", "{}")],
    );
    let expected = object(
        Some("v1"),
        spec_object(Some("kept"), sub_object(Some("X"), vec![]), SubField::Absent, vec![]),
        vec![field("metadata", "{}")],
    );
    assert_eq!(migrate(&input, Version::V1), Ok(expected));
}

#[test]
fn missing_api_version_is_malformed() {
    let input = object(None, SpecField::Absent, vec![]);
    assert_eq!(migrate(&input, Version::V2), Err(TransformError::MalformedVersion));
}

#[test]
fn unknown_source_version_is_rejected() {
    let input = object(Some("v9"), SpecField::Absent, vec![]);
    assert_eq!(migrate(&input, Version::V2), Err(TransformError::UnsupportedSourceVersion));
    assert_eq!(migrate(&input, Version::V1), Err(TransformError::UnsupportedSourceVersion));
}

#[test]
fn non_object_spec_is_invalid_shape() {
    let input = object(Some("v1"), SpecField::NotObject("\"not-an-object\"".to_owned()), vec![]);
    assert_eq!(migrate(&input, Version::V2), Err(TransformError::InvalidSpecShape));
}

#[test]
fn non_object_sub_resource_is_invalid_shape() {
    let input = object(
        Some("v1"),
        spec_object(None, SubField::NotObject("7".to_owned()), SubField::Absent, vec![]),
        vec![],
    );
    assert_eq!(migrate(&input, Version::V2), Err(TransformError::InvalidSpecShape));
}

#[test]
fn absent_spec_passes_through() {
    let input = object(Some("v1"), SpecField::Absent, vec![field("metadata", "{}")]);
    let expected = object(Some("v2"), SpecField::Absent, vec![field("metadata", "{}")]);
    assert_eq!(migrate(&input, Version::V2), Ok(expected));
}

fn valid_object(tag: &str) -> RawObject {
    object(
        Some("v1"),
        spec_object(Some("s"), sub_object(None, vec![]), SubField::Absent, vec![]),
        vec![field("name", tag)],
    )
}

#[test]
fn convert_preserves_batch_order() {
    let request = ConversionRequest {
        uid: "uid-7".to_owned(),
        desired_api_version: "v2".to_owned(),
        objects: vec![valid_object("first"), valid_object("second"), valid_object("third")],
    };
    let response = convert(request);
    assert_eq!(response.uid, "uid-7");
    match response.outcome {
        Outcome::Success(out) => {
            assert_eq!(out.len(), 3);
            assert_eq!(out[0].extra, vec![field("name", "first")]);
            assert_eq!(out[1].extra, vec![field("name", "second")]);
            assert_eq!(out[2].extra, vec![field("name", "third")]);
        }
        Outcome::Failure(f) => panic!("unexpected failure: {f:?}"),
    }
}

#[test]
fn convert_is_all_or_nothing() {
    let bad = object(Some("v1"), SpecField::NotObject("\"not-an-object\"".to_owned()), vec![]);
    let request = ConversionRequest {
        uid: "uid-9".to_owned(),
        desired_api_version: "v2".to_owned(),
        objects: vec![valid_object("first"), bad, valid_object("third")],
    };
    let response = convert(request);
    assert_eq!(response.uid, "uid-9");
    match response.outcome {
        Outcome::Failure(f) => {
            assert_eq!(f.reason_code, ReasonCode::ConversionFailed);
            assert_eq!(
                f.message,
                "conversion failed: spec or a tracked sub-key of spec is not a JSON object"
            );
        }
        Outcome::Success(out) => panic!("partial success must not happen: {} objects", out.len()),
    }
}

#[test]
fn convert_reports_first_error_of_the_batch() {
    let no_version = object(None, SpecField::Absent, vec![]);
    let bad_spec = object(Some("v1"), SpecField::NotObject("3".to_owned()), vec![]);
    let request = ConversionRequest {
        uid: "uid-3".to_owned(),
        desired_api_version: "v2".to_owned(),
        objects: vec![valid_object("ok"), no_version, bad_spec],
    };
    let response = convert(request);
    match response.outcome {
        Outcome::Failure(f) => {
            assert_eq!(f.reason_code, ReasonCode::ConversionFailed);
            assert_eq!(
                f.message,
                "conversion failed: object apiVersion is missing or not a string"
            );
        }
        Outcome::Success(_) => panic!("the batch must fail as a whole"),
    }
}

#[test]
fn convert_rejects_unsupported_target_up_front() {
    let request = ConversionRequest {
        uid: "uid-1".to_owned(),
        desired_api_version: "v3".to_owned(),
        objects: vec![valid_object("first")],
    };
    let response = convert(request);
    assert_eq!(response.uid, "uid-1");
    match response.outcome {
        Outcome::Failure(f) => {
            assert_eq!(f.reason_code, ReasonCode::UnsupportedTarget);
            assert_eq!(f.message, "unsupported desiredAPIVersion: v3");
        }
        Outcome::Success(_) => panic!("an unsupported target must be rejected"),
    }
}

#[test]
fn convert_accepts_an_empty_batch() {
    let request = ConversionRequest {
        uid: "uid-0".to_owned(),
        desired_api_version: "v1".to_owned(),
        objects: vec![],
    };
    let response = convert(request);
    assert_eq!(response.uid, "uid-0");
    assert_eq!(response.outcome, Outcome::Success(vec![]));
}

#[test]
fn invalid_request_response_names_no_uid() {
    let response = invalid_request_response();
    assert_eq!(response.uid, "");
    match response.outcome {
        Outcome::Failure(f) => {
            assert_eq!(f.reason_code, ReasonCode::InvalidRequest);
            assert_eq!(f.message, "the conversion review request could not be decoded");
        }
        Outcome::Success(_) => panic!("decoding failure must be reported as a failure"),
    }
}

#[test]
fn version_strings_round_trip() {
    assert_eq!(parse_version(&"v1".to_owned()), Some(Version::V1));
    assert_eq!(parse_version(&"v2".to_owned()), Some(Version::V2));
    assert_eq!(parse_version(&"v3".to_owned()), None);
    assert_eq!(parse_version(&"".to_owned()), None);
    assert_eq!(version_str(Version::V1), "v1");
    assert_eq!(version_str(Version::V2), "v2");
    assert_eq!(parse_version(&version_str(Version::V1)), Some(Version::V1));
    assert_eq!(parse_version(&version_str(Version::V2)), Some(Version::V2));
}
