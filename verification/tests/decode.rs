use libcnab::{
    Bundle, BundleParseError, CanonicalError, Image, Json, JsonError, Schema, SchemaError,
};
use std::str::FromStr;

const HELLO: &str = "{\"name\":\"helloworld\",\"schemaVersion\":\"1.0\",\"version\":\"0.1.0\",\"invocationImages\":[{\"image\":\"example/helloworld:latest\"}]}";

const HELLO_PRETTY: &str = "{\n  \"name\": \"helloworld\",\n  \"schemaVersion\": \"1.0\",\n  \"version\": \"0.1.0\",\n  \"invocationImages\": [\n    {\n      \"image\": \"example/helloworld:latest\"\n    }\n  ]\n}\n";

fn hello() -> Bundle {
    Bundle {
        actions: None,
        credentials: None,
        custom: None,
        description: None,
        images: None,
        invocation_images: vec![Image {
            digest: None,
            image: "example/helloworld:latest".to_string(),
            image_type: None,
            media_type: None,
            platform: None,
            size: None,
        }],
        keywords: None,
        license: None,
        maintainers: None,
        name: "helloworld".to_string(),
        parameters: None,
        schema_version: "1.0".to_string(),
        version: "0.1.0".to_string(),
    }
}

#[test]
fn text_without_whitespace_decodes_strictly() {
    let bundle = Bundle::from_str(HELLO).unwrap();
    assert_eq!(bundle.name, "helloworld");
    assert_eq!(bundle, hello());
    let strict = Bundle::canonical_decode(HELLO.as_bytes()).unwrap();
    assert_eq!(strict, hello());
}

#[test]
fn pretty_printed_text_decodes_permissively() {
    let strict = Bundle::canonical_decode(HELLO_PRETTY.as_bytes());
    assert!(matches!(strict, Err(CanonicalError::UnexpectedWhitespace { offset: 1 })));
    let lenient = Bundle::lenient_decode(HELLO_PRETTY.as_bytes()).unwrap();
    assert_eq!(lenient, hello());
    let bundle = Bundle::from_str(HELLO_PRETTY).unwrap();
    assert_eq!(bundle, Bundle::from_str(HELLO).unwrap());
}

#[test]
fn parse_goes_through_from_str() {
    let bundle: Bundle = HELLO_PRETTY.parse().unwrap();
    assert_eq!(bundle.name, "helloworld");
    assert_eq!(bundle.schema_version, "1.0");
    assert_eq!(bundle.version, "0.1.0");
    assert_eq!(bundle.invocation_images.len(), 1);
    assert_eq!(bundle.invocation_images[0].image, "example/helloworld:latest");
}

#[test]
fn missing_name_fails_in_the_strict_step() {
    let text = "{\"schemaVersion\":\"1.0\",\"version\":\"0.1.0\",\"invocationImages\":[]}";
    let r = Bundle::from_str(text);
    assert!(matches!(
        r,
        Err(BundleParseError::CanonicalJSONError(CanonicalError::Schema(
            SchemaError::MissingField("name")
        )))
    ));
}

#[test]
fn missing_name_fails_in_the_permissive_step() {
    let text = "{ \"schemaVersion\": \"1.0\", \"version\": \"0.1.0\", \"invocationImages\": [] }";
    let r = Bundle::from_str(text);
    assert!(matches!(
        r,
        Err(BundleParseError::SerdeJSONError(JsonError::Schema(SchemaError::MissingField(
            "name"
        ))))
    ));
}

#[test]
fn each_required_member_is_demanded() {
    let cases = [
        ("{\"name\":\"a\",\"version\":\"1\",\"invocationImages\":[]}", "schemaVersion"),
        ("{\"name\":\"a\",\"schemaVersion\":\"1\",\"invocationImages\":[]}", "version"),
        ("{\"name\":\"a\",\"schemaVersion\":\"1\",\"version\":\"1\"}", "invocationImages"),
    ];
    for (text, key) in cases {
        match Bundle::from_str(text) {
            Err(BundleParseError::CanonicalJSONError(CanonicalError::Schema(
                SchemaError::MissingField(missing),
            ))) => assert_eq!(missing, key),
            other => panic!("unexpected outcome: {:?}", other),
        }
    }
}

#[test]
fn empty_list_of_invocation_images_is_accepted() {
    let text = "{\"name\":\"a\",\"schemaVersion\":\"1\",\"version\":\"2\",\"invocationImages\":[]}";
    let bundle = Bundle::from_str(text).unwrap();
    assert!(bundle.invocation_images.is_empty());
    assert_eq!(bundle.version, "2");
}

#[test]
fn read_error_is_an_io_failure() {
    let failure = std::io::Error::new(std::io::ErrorKind::NotFound, "/does/not/exist.json");
    let r = Bundle::from_file_contents(Err(failure));
    match r {
        Err(BundleParseError::IoError(e)) => {
            assert_eq!(e.kind(), std::io::ErrorKind::NotFound);
            assert_eq!(e.to_string(), "/does/not/exist.json");
        },
        other => panic!("unexpected outcome: {:?}", other),
    }
}

#[test]
fn bytes_of_a_file_are_decoded() {
    let r = Bundle::from_file_contents(Ok(HELLO_PRETTY.as_bytes().to_vec()));
    assert_eq!(r.unwrap(), hello());
}

#[test]
fn malformed_text_without_whitespace_is_a_canonical_failure() {
    let r = Bundle::from_str("{\"name\":");
    match r {
        Err(BundleParseError::CanonicalJSONError(CanonicalError::Syntax(e))) => {
            assert!(e.is_eof());
        },
        other => panic!("unexpected outcome: {:?}", other),
    }
}

#[test]
fn malformed_text_with_whitespace_is_a_json_failure() {
    let r = Bundle::from_str("{ \"name\": ");
    match r {
        Err(BundleParseError::SerdeJSONError(JsonError::Syntax(e))) => {
            assert!(e.is_eof());
            assert_eq!(e.line(), 1);
        },
        other => panic!("unexpected outcome: {:?}", other),
    }
}

#[test]
fn text_that_is_not_utf8_is_a_syntax_failure() {
    let bytes: [u8; 4] = [0x22, 0xff, 0xfe, 0x22];
    let r = Bundle::from_slice(&bytes);
    assert!(matches!(r, Err(BundleParseError::CanonicalJSONError(CanonicalError::Syntax(_)))));
}

#[test]
fn document_that_is_not_an_object_fails() {
    let r = Bundle::from_str("[1,2]");
    assert!(matches!(
        r,
        Err(BundleParseError::CanonicalJSONError(CanonicalError::Schema(
            SchemaError::NotAnObject
        )))
    ));
    let r = Bundle::from_str("[1, 2]");
    assert!(matches!(
        r,
        Err(BundleParseError::SerdeJSONError(JsonError::Schema(SchemaError::NotAnObject)))
    ));
}

#[test]
fn whitespace_inside_a_string_is_no_whitespace_between_tokens() {
    let text = "{\"name\":\"hello \\\" world\\\\\",\"schemaVersion\":\"1 0\",\"version\":\"\\t\",\"invocationImages\":[]}";
    let strict = Bundle::canonical_decode(text.as_bytes()).unwrap();
    assert_eq!(strict.name, "hello \" world\\");
    assert_eq!(strict.schema_version, "1 0");
    assert_eq!(strict.version, "\t");
}

#[test]
fn whitespace_after_the_document_sends_it_to_the_permissive_step() {
    let mut text = HELLO.to_string();
    text.push('\n');
    let strict = Bundle::canonical_decode(text.as_bytes());
    let at = HELLO.len();
    match strict {
        Err(CanonicalError::UnexpectedWhitespace { offset }) => assert_eq!(offset, at),
        other => panic!("unexpected outcome: {:?}", other),
    }
    assert_eq!(Bundle::from_str(&text).unwrap(), hello());
}

#[test]
fn keys_in_any_order_are_accepted_without_whitespace() {
    let text = "{\"version\":\"0.1.0\",\"invocationImages\":[{\"image\":\"example/helloworld:latest\"}],\"schemaVersion\":\"1.0\",\"name\":\"helloworld\"}";
    assert_eq!(Bundle::canonical_decode(text.as_bytes()).unwrap(), hello());
}

#[test]
fn resolve_keeps_a_strict_success() {
    let r = Bundle::resolve(b"not json at all", Ok(hello()));
    assert_eq!(r.unwrap(), hello());
}

#[test]
fn resolve_keeps_a_strict_failure_that_is_not_whitespace() {
    let strict = Err(CanonicalError::Schema(SchemaError::MissingField("version")));
    let r = Bundle::resolve(HELLO_PRETTY.as_bytes(), strict);
    assert!(matches!(
        r,
        Err(BundleParseError::CanonicalJSONError(CanonicalError::Schema(
            SchemaError::MissingField("version")
        )))
    ));
}

#[test]
fn resolve_retries_after_whitespace() {
    let strict = Err(CanonicalError::UnexpectedWhitespace { offset: 1 });
    let r = Bundle::resolve(HELLO_PRETTY.as_bytes(), strict);
    assert_eq!(r.unwrap(), hello());
    let strict = Err(CanonicalError::UnexpectedWhitespace { offset: 0 });
    let r = Bundle::resolve(b" [", strict);
    assert!(matches!(r, Err(BundleParseError::SerdeJSONError(JsonError::Syntax(_)))));
}

#[test]
fn errors_convert_into_the_one_error_type() {
    let e = BundleParseError::from(JsonError::Schema(SchemaError::NotAnObject));
    assert!(matches!(
        e,
        BundleParseError::SerdeJSONError(JsonError::Schema(SchemaError::NotAnObject))
    ));
    let e = BundleParseError::from(CanonicalError::UnexpectedWhitespace { offset: 3 });
    assert!(matches!(
        e,
        BundleParseError::CanonicalJSONError(CanonicalError::UnexpectedWhitespace { offset: 3 })
    ));
    let e = BundleParseError::from(std::io::Error::from(std::io::ErrorKind::PermissionDenied));
    match e {
        BundleParseError::IoError(inner) => {
            assert_eq!(inner.kind(), std::io::ErrorKind::PermissionDenied)
        },
        other => panic!("unexpected error: {:?}", other),
    }
}

#[test]
fn reader_gives_the_tree_of_the_text() {
    let doc = Json::from_slice(b"[1, -2, 1.5, 18446744073709551615, \"a\", null, true, {\"b\": 2, \"a\": [] }]")
        .unwrap();
    let expected = Json::Array(vec![
        Json::Integer(1),
        Json::Integer(-2),
        Json::Number("1.5".to_string()),
        Json::Number("18446744073709551615".to_string()),
        Json::String("a".to_string()),
        Json::Null,
        Json::Bool(true),
        Json::Object(vec![
            ("a".to_string(), Json::Array(vec![])),
            ("b".to_string(), Json::Integer(2)),
        ]),
    ]);
    assert_eq!(doc, expected);
}

#[test]
fn reader_rejects_what_is_not_json() {
    assert!(Json::from_slice(b"{\"a\":}").is_err());
    assert!(Json::from_slice(b"").is_err());
    assert!(Json::from_slice(b"1 2").is_err());
}

#[test]
fn decoded_bundle_does_not_depend_on_layout() {
    let compact = "{\"description\":\"d\",\"invocationImages\":[{\"image\":\"i\",\"size\":7}],\"keywords\":[\"k1\",\"k2\"],\"name\":\"n\",\"schemaVersion\":\"s\",\"version\":\"v\"}";
    let spaced = "{ \"description\" : \"d\",\r\n\t\"invocationImages\" : [ { \"image\" : \"i\", \"size\" : 7 } ],\n \"keywords\" : [ \"k1\" , \"k2\" ], \"name\" : \"n\", \"schemaVersion\" : \"s\", \"version\" : \"v\" }";
    let a = Bundle::from_str(compact).unwrap();
    let b = Bundle::from_str(spaced).unwrap();
    assert_eq!(a, b);
    assert_eq!(a.description.as_deref(), Some("d"));
    assert_eq!(a.keywords, Some(vec!["k1".to_string(), "k2".to_string()]));
    assert_eq!(a.invocation_images[0].size, Some(7));
    let doc = Json::from_slice(spaced.as_bytes()).unwrap();
    assert_eq!(Bundle::from_json(&doc).unwrap(), a);
}

#[test]
fn allowed_values_of_a_parameter_are_decoded_from_text() {
    let text = "{\"invocationImages\":[],\"name\":\"a\",\"parameters\":{\"port\":{\"allowedValues\":[\"80\",\"443\"],\"destination\":{\"env\":\"PORT\"},\"type\":\"string\"}},\"schemaVersion\":\"1.0\",\"version\":\"0.1.0\"}";
    let bundle = Bundle::from_str(text).unwrap();
    let port = bundle.parameters.as_ref().unwrap().get("port").unwrap();
    assert_eq!(
        port.allowed_values,
        Some(vec![Json::String("80".to_string()), Json::String("443".to_string())])
    );
    assert_eq!(port.destination.env.as_deref(), Some("PORT"));
    assert_eq!(port.parameter_type, "string");
}

#[test]
fn later_of_two_members_with_one_key_in_a_text_is_decoded() {
    let doc = Json::from_slice(b"{\"a\":1,\"a\":2}").unwrap();
    assert_eq!(doc, Json::Object(vec![("a".to_string(), Json::Integer(2))]));
    let text = "{\"name\":\"first\",\"name\":\"second\",\"schemaVersion\":\"1\",\"version\":\"1\",\"invocationImages\":[]}";
    let bundle = Bundle::from_str(text).unwrap();
    assert_eq!(bundle.name, "second");
}
