use libcnab::{
    Action, Bundle, Credential, Destination, EncodeError, Image, Json, Maintainer, Metadata,
    Parameter, Platform, Schema, SortedMap,
};
use std::str::FromStr;

fn minimal() -> Bundle {
    Bundle {
        actions: None,
        credentials: None,
        custom: None,
        description: None,
        images: None,
        invocation_images: vec![Image {
            digest: None,
            image: "example/helloworld:latest".to_string(),
            image_type: None,
            media_type: None,
            platform: None,
            size: None,
        }],
        keywords: None,
        license: None,
        maintainers: None,
        name: "helloworld".to_string(),
        parameters: None,
        schema_version: "1.0".to_string(),
        version: "0.1.0".to_string(),
    }
}

fn full() -> Bundle {
    let mut actions = SortedMap::new();
    actions.insert(
        "status".to_string(),
        Action { description: Some("shows the status".to_string()), modifies: false, stateless: true },
    );
    actions.insert("migrate".to_string(), Action { description: None, modifies: true, stateless: false });
    let mut credentials = SortedMap::new();
    credentials.insert(
        "token".to_string(),
        Credential { description: None, env: Some("TOKEN".to_string()), path: None },
    );
    let mut custom = SortedMap::new();
    custom.insert(
        "com.example".to_string(),
        Json::Object(vec![("n".to_string(), Json::Array(vec![Json::Integer(1), Json::Bool(false)]))]),
    );
    let mut images = SortedMap::new();
    images.insert(
        "web".to_string(),
        Image {
            digest: Some("sha256:00".to_string()),
            image: "example/web:1".to_string(),
            image_type: Some("docker".to_string()),
            media_type: None,
            platform: Some(Platform { arch: Some("amd64".to_string()), os: None }),
            size: Some(1024),
        },
    );
    let mut parameters = SortedMap::new();
    parameters.insert(
        "port".to_string(),
        Parameter {
            apply_to: Some(vec!["install".to_string()]),
            default_value: Some(Json::Integer(80)),
            destination: Destination { env: Some("PORT".to_string()), path: None },
            allowed_values: Some(vec![Json::Integer(80), Json::Integer(443)]),
            exclusive_maximum: None,
            exclusive_minimum: None,
            max_length: None,
            maximum: Some(65535),
            metadata: Some(Metadata { description: Some("the port".to_string()) }),
            min_length: None,
            minimum: Some(1),
            pattern: None,
            required: true,
            parameter_type: "int".to_string(),
        },
    );
    Bundle {
        actions: Some(actions),
        credentials: Some(credentials),
        custom: Some(custom),
        description: Some("an example".to_string()),
        images: Some(images),
        invocation_images: vec![Image {
            digest: None,
            image: "example/inv:1".to_string(),
            image_type: None,
            media_type: None,
            platform: None,
            size: None,
        }],
        keywords: Some(vec!["a".to_string(), "b".to_string()]),
        license: Some("MIT".to_string()),
        maintainers: Some(vec![Maintainer { email: None, name: "A".to_string(), url: None }]),
        name: "example".to_string(),
        parameters: Some(parameters),
        schema_version: "v1".to_string(),
        version: "1.2.3".to_string(),
    }
}

#[test]
fn document_of_a_platform() {
    let platform = Platform { arch: Some("amd64".to_string()), os: None };
    assert_eq!(
        platform.to_json(),
        Json::Object(vec![
            ("arch".to_string(), Json::String("amd64".to_string())),
            ("os".to_string(), Json::Null),
        ])
    );
}

#[test]
fn document_of_an_action_holds_both_flags() {
    let action = Action { description: None, modifies: true, stateless: false };
    assert_eq!(
        action.to_json(),
        Json::Object(vec![
            ("description".to_string(), Json::Null),
            ("modifies".to_string(), Json::Bool(true)),
            ("stateless".to_string(), Json::Bool(false)),
        ])
    );
}

#[test]
fn bundle_without_optional_fields_is_read_back_without_them() {
    let bundle = minimal();
    let back = Bundle::from_json(&bundle.to_json()).unwrap();
    assert_eq!(back, bundle);
    assert_eq!(back.actions, None);
    assert_eq!(back.credentials, None);
    assert_eq!(back.custom, None);
    assert_eq!(back.description, None);
    assert_eq!(back.images, None);
    assert_eq!(back.keywords, None);
    assert_eq!(back.license, None);
    assert_eq!(back.maintainers, None);
    assert_eq!(back.parameters, None);
}

#[test]
fn bundle_with_every_field_is_read_back_from_its_document() {
    let bundle = full();
    let back = Bundle::from_json(&bundle.to_json()).unwrap();
    assert_eq!(back, bundle);
}

#[test]
fn canonical_text_of_a_bundle_without_optional_fields() {
    let text = minimal().to_canonical_string().unwrap();
    assert_eq!(
        text,
        "{\"actions\":null,\"credentials\":null,\"custom\":null,\"description\":null,\"images\":null,\"invocationImages\":[{\"digest\":null,\"image\":\"example/helloworld:latest\",\"imageType\":null,\"mediaType\":null,\"platform\":null,\"size\":null}],\"keywords\":null,\"license\":null,\"maintainers\":null,\"name\":\"helloworld\",\"parameters\":null,\"schemaVersion\":\"1.0\",\"version\":\"0.1.0\"}"
    );
}

#[test]
fn canonical_text_is_decoded_by_the_strict_step() {
    let bundle = full();
    let text = bundle.to_canonical_string().unwrap();
    let back = Bundle::canonical_decode(text.as_bytes()).unwrap();
    assert_eq!(back, bundle);
    assert_eq!(Bundle::from_str(&text).unwrap(), bundle);
    let minimal_text = minimal().to_canonical_string().unwrap();
    let back = Bundle::from_str(&minimal_text).unwrap();
    assert_eq!(back, minimal());
    assert_eq!(back.keywords, None);
}

#[test]
fn canonical_text_of_a_document_has_sorted_keys_and_no_whitespace() {
    let doc = Json::Object(vec![
        ("b".to_string(), Json::Array(vec![Json::Integer(1), Json::Bool(true), Json::Null])),
        ("a".to_string(), Json::String("x y".to_string())),
        ("c".to_string(), Json::Number("1.5".to_string())),
    ]);
    assert_eq!(doc.to_canonical_string().unwrap(), "{\"a\":\"x y\",\"b\":[1,true,null],\"c\":1.5E0}");
    assert_eq!(Json::Integer(-12).to_canonical_string().unwrap(), "-12");
    assert_eq!(Json::Null.to_canonical_string().unwrap(), "null");
    assert_eq!(Json::String("a".to_string()).to_canonical_string().unwrap(), "\"a\"");
}

#[test]
fn number_that_is_no_number_cannot_be_written() {
    let doc = Json::Array(vec![Json::Integer(1), Json::Number("one".to_string())]);
    assert!(matches!(doc.to_canonical_string(), Err(EncodeError::InvalidNumber)));
    let doc = Json::Object(vec![("a".to_string(), Json::Number("".to_string()))]);
    assert!(matches!(doc.to_canonical_string(), Err(EncodeError::InvalidNumber)));
}

#[test]
fn canonical_text_escapes_what_is_not_ascii() {
    let doc = Json::String("I \u{2764} testing".to_string());
    assert_eq!(doc.to_canonical_string().unwrap(), "\"I \\u2764 testing\"");
    let doc = Json::String("a\tb\n".to_string());
    assert_eq!(doc.to_canonical_string().unwrap(), "\"a\\tb\\n\"");
}

#[test]
fn canonical_text_of_numbers() {
    assert_eq!(Json::Number("23.1".to_string()).to_canonical_string().unwrap(), "2.31E1");
    assert_eq!(Json::Number("1e21".to_string()).to_canonical_string().unwrap(), "1E21");
    assert_eq!(
        Json::Number("18446744073709551615".to_string()).to_canonical_string().unwrap(),
        "18446744073709551615"
    );
    assert_eq!(Json::Number("7".to_string()).to_canonical_string().unwrap(), "7");
}
