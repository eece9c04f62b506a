use libcnab::{
    Action, Bundle, Credential, Destination, Image, Json, Maintainer, Metadata, Parameter,
    Platform, Schema, SchemaError, SortedMap,
};

fn parse(text: &str) -> Json {
    Json::from_slice(text.as_bytes()).unwrap()
}

#[test]
fn parameter_with_type_and_destination_only() {
    let doc = parse("{\"type\":\"string\",\"destination\":{\"env\":\"PORT\"}}");
    let parameter = Parameter::from_json(&doc).unwrap();
    assert_eq!(parameter.required, false);
    assert_eq!(parameter.allowed_values, None);
    assert_eq!(parameter.destination.env.as_deref(), Some("PORT"));
    assert_eq!(parameter.destination.path, None);
    assert_eq!(parameter.parameter_type, "string");
    assert_eq!(parameter.apply_to, None);
    assert_eq!(parameter.default_value, None);
    assert_eq!(parameter.exclusive_maximum, None);
    assert_eq!(parameter.exclusive_minimum, None);
    assert_eq!(parameter.maximum, None);
    assert_eq!(parameter.minimum, None);
    assert_eq!(parameter.max_length, None);
    assert_eq!(parameter.min_length, None);
    assert_eq!(parameter.metadata, None);
    assert_eq!(parameter.pattern, None);
}

#[test]
fn parameter_with_every_member() {
    let doc = parse(
        "{\"allowedValues\":[80,\"http\",null],\"applyTo\":[\"install\",\"upgrade\"],\"defaultValue\":8080,\"destination\":{\"env\":\"PORT\",\"path\":\"/etc/port\"},\"exclusiveMaximum\":65536,\"exclusiveMinimum\":0,\"maxLength\":5,\"maximum\":65535,\"metadata\":{\"description\":\"the port\"},\"minLength\":1,\"minimum\":1,\"pattern\":\"^[0-9]+$\",\"required\":true,\"type\":\"int\"}",
    );
    let parameter = Parameter::from_json(&doc).unwrap();
    let expected = Parameter {
        apply_to: Some(vec!["install".to_string(), "upgrade".to_string()]),
        default_value: Some(Json::Integer(8080)),
        destination: Destination {
            env: Some("PORT".to_string()),
            path: Some("/etc/port".to_string()),
        },
        allowed_values: Some(vec![Json::Integer(80), Json::String("http".to_string()), Json::Null]),
        exclusive_maximum: Some(65536),
        exclusive_minimum: Some(0),
        max_length: Some(5),
        maximum: Some(65535),
        metadata: Some(Metadata { description: Some("the port".to_string()) }),
        min_length: Some(1),
        minimum: Some(1),
        pattern: Some("^[0-9]+$".to_string()),
        required: true,
        parameter_type: "int".to_string(),
    };
    assert_eq!(parameter, expected);
}

#[test]
fn parameter_without_destination_or_type_fails() {
    let doc = parse("{\"type\":\"string\"}");
    assert_eq!(Parameter::from_json(&doc), Err(SchemaError::MissingField("destination")));
    let doc = parse("{\"destination\":{}}");
    assert_eq!(Parameter::from_json(&doc), Err(SchemaError::MissingField("type")));
}

#[test]
fn action_flags_default_to_false() {
    let action = Action::from_json(&parse("{}")).unwrap();
    assert_eq!(action, Action { description: None, modifies: false, stateless: false });
    let action = Action::from_json(&parse("{\"modifies\":true}")).unwrap();
    assert_eq!(action, Action { description: None, modifies: true, stateless: false });
    let action =
        Action::from_json(&parse("{\"description\":\"help\",\"stateless\":true}")).unwrap();
    assert_eq!(
        action,
        Action { description: Some("help".to_string()), modifies: false, stateless: true }
    );
}

#[test]
fn flag_that_is_null_or_not_a_boolean_fails() {
    assert_eq!(
        Action::from_json(&parse("{\"modifies\":null}")),
        Err(SchemaError::InvalidType("modifies"))
    );
    assert_eq!(
        Action::from_json(&parse("{\"stateless\":\"yes\"}")),
        Err(SchemaError::InvalidType("stateless"))
    );
}

#[test]
fn empty_text_is_not_absent() {
    let credential = Credential::from_json(&parse("{\"env\":\"\",\"path\":null}")).unwrap();
    assert_eq!(credential.env, Some(String::new()));
    assert_eq!(credential.path, None);
    assert_eq!(credential.description, None);
}

#[test]
fn null_is_absent_for_an_optional_member() {
    let image = Image::from_json(&parse(
        "{\"digest\":null,\"image\":\"i\",\"imageType\":null,\"mediaType\":null,\"platform\":null,\"size\":null}",
    ))
    .unwrap();
    assert_eq!(
        image,
        Image {
            digest: None,
            image: "i".to_string(),
            image_type: None,
            media_type: None,
            platform: None,
            size: None,
        }
    );
}

#[test]
fn null_is_not_accepted_for_a_required_member() {
    assert_eq!(
        Image::from_json(&parse("{\"image\":null}")),
        Err(SchemaError::InvalidType("image"))
    );
    assert_eq!(Maintainer::from_json(&parse("{}")), Err(SchemaError::MissingField("name")));
}

#[test]
fn image_with_every_member() {
    let image = Image::from_json(&parse(
        "{\"digest\":\"sha256:ab\",\"image\":\"repo/name:tag\",\"imageType\":\"docker\",\"mediaType\":\"application/x\",\"platform\":{\"arch\":\"amd64\",\"os\":\"linux\"},\"size\":-3}",
    ))
    .unwrap();
    assert_eq!(
        image,
        Image {
            digest: Some("sha256:ab".to_string()),
            image: "repo/name:tag".to_string(),
            image_type: Some("docker".to_string()),
            media_type: Some("application/x".to_string()),
            platform: Some(Platform {
                arch: Some("amd64".to_string()),
                os: Some("linux".to_string()),
            }),
            size: Some(-3),
        }
    );
}

#[test]
fn size_must_be_a_64_bit_integer() {
    assert_eq!(
        Image::from_json(&parse("{\"image\":\"i\",\"size\":1.5}")),
        Err(SchemaError::InvalidType("size"))
    );
    assert_eq!(
        Image::from_json(&parse("{\"image\":\"i\",\"size\":9223372036854775808}")),
        Err(SchemaError::InvalidType("size"))
    );
    assert_eq!(
        Image::from_json(&parse("{\"image\":\"i\",\"size\":\"7\"}")),
        Err(SchemaError::InvalidType("size"))
    );
    let image = Image::from_json(&parse("{\"image\":\"i\",\"size\":9223372036854775807}")).unwrap();
    assert_eq!(image.size, Some(i64::MAX));
    let image =
        Image::from_json(&parse("{\"image\":\"i\",\"size\":-9223372036854775808}")).unwrap();
    assert_eq!(image.size, Some(i64::MIN));
}

#[test]
fn first_member_at_fault_decides() {
    let doc = parse("{\"url\":5,\"email\":7}");
    assert_eq!(Maintainer::from_json(&doc), Err(SchemaError::InvalidType("email")));
    let doc = parse("{\"url\":5,\"email\":\"e\"}");
    assert_eq!(Maintainer::from_json(&doc), Err(SchemaError::MissingField("name")));
    let doc = parse("{\"url\":5,\"name\":\"n\"}");
    assert_eq!(Maintainer::from_json(&doc), Err(SchemaError::InvalidType("url")));
}

#[test]
fn entity_must_be_an_object() {
    assert_eq!(Platform::from_json(&Json::Null), Err(SchemaError::NotAnObject));
    assert_eq!(Platform::from_json(&parse("[]")), Err(SchemaError::NotAnObject));
    assert_eq!(
        Image::from_json(&parse("{\"image\":\"i\",\"platform\":\"linux\"}")),
        Err(SchemaError::NotAnObject)
    );
}

#[test]
fn unknown_members_are_passed_over() {
    let platform = Platform::from_json(&parse("{\"arch\":\"arm64\",\"vendor\":\"x\"}")).unwrap();
    assert_eq!(platform, Platform { arch: Some("arm64".to_string()), os: None });
}

#[test]
fn first_of_two_members_with_one_key_is_read() {
    let doc = Json::Object(vec![
        ("os".to_string(), Json::String("linux".to_string())),
        ("os".to_string(), Json::Integer(1)),
    ]);
    assert_eq!(doc.get("os"), Some(&Json::String("linux".to_string())));
    assert_eq!(doc.get("arch"), None);
    assert_eq!(Json::Integer(3).get("os"), None);
    let platform = Platform::from_json(&doc).unwrap();
    assert_eq!(platform.os.as_deref(), Some("linux"));
}

#[test]
fn list_of_texts_must_hold_texts_only() {
    let text = "{\"name\":\"a\",\"schemaVersion\":\"1\",\"version\":\"1\",\"invocationImages\":[],\"keywords\":[\"a\",1]}";
    assert_eq!(Bundle::from_json(&parse(text)), Err(SchemaError::InvalidType("keywords")));
    let text = "{\"name\":\"a\",\"schemaVersion\":\"1\",\"version\":\"1\",\"invocationImages\":[],\"keywords\":\"a\"}";
    assert_eq!(Bundle::from_json(&parse(text)), Err(SchemaError::InvalidType("keywords")));
    let text = "{\"name\":\"a\",\"schemaVersion\":\"1\",\"version\":\"1\",\"invocationImages\":[],\"keywords\":[]}";
    assert_eq!(Bundle::from_json(&parse(text)).unwrap().keywords, Some(vec![]));
}

#[test]
fn fault_inside_a_list_or_a_map_fails_the_bundle() {
    let text = "{\"name\":\"a\",\"schemaVersion\":\"1\",\"version\":\"1\",\"invocationImages\":[{\"image\":\"i\"},{\"digest\":\"d\"}]}";
    assert_eq!(Bundle::from_json(&parse(text)), Err(SchemaError::MissingField("image")));
    let text = "{\"name\":\"a\",\"schemaVersion\":\"1\",\"version\":\"1\",\"invocationImages\":{}}";
    assert_eq!(Bundle::from_json(&parse(text)), Err(SchemaError::InvalidType("invocationImages")));
    let text = "{\"name\":\"a\",\"schemaVersion\":\"1\",\"version\":\"1\",\"invocationImages\":[],\"parameters\":{\"port\":{\"type\":\"int\"}}}";
    assert_eq!(Bundle::from_json(&parse(text)), Err(SchemaError::MissingField("destination")));
    let text = "{\"name\":\"a\",\"schemaVersion\":\"1\",\"version\":\"1\",\"invocationImages\":[],\"actions\":[]}";
    assert_eq!(Bundle::from_json(&parse(text)), Err(SchemaError::InvalidType("actions")));
}

#[test]
fn bundle_with_every_member() {
    let text = "{\"actions\":{\"status\":{\"modifies\":false},\"help\":{\"stateless\":true}},\"credentials\":{\"kubeconfig\":{\"path\":\"/root/.kube/config\"}},\"custom\":{\"com.example\":{\"a\":[1,2]},\"b\":null},\"description\":\"an example\",\"images\":{\"web\":{\"image\":\"example/web:1\"}},\"invocationImages\":[{\"image\":\"example/inv:1\"}],\"keywords\":[\"demo\"],\"license\":\"MIT\",\"maintainers\":[{\"email\":\"a@example.com\",\"name\":\"A\",\"url\":\"https://example.com\"}],\"name\":\"example\",\"parameters\":{\"port\":{\"destination\":{\"env\":\"PORT\"},\"type\":\"int\"}},\"schemaVersion\":\"v1\",\"version\":\"1.2.3\"}";
    let bundle = Bundle::from_json(&parse(text)).unwrap();
    assert_eq!(bundle.name, "example");
    assert_eq!(bundle.description.as_deref(), Some("an example"));
    assert_eq!(bundle.license.as_deref(), Some("MIT"));
    assert_eq!(bundle.keywords, Some(vec!["demo".to_string()]));
    assert_eq!(
        bundle.maintainers,
        Some(vec![Maintainer {
            email: Some("a@example.com".to_string()),
            name: "A".to_string(),
            url: Some("https://example.com".to_string()),
        }])
    );
    let actions = bundle.actions.as_ref().unwrap();
    assert_eq!(actions.len(), 2);
    assert_eq!(actions.entries()[0].0, "help");
    assert_eq!(actions.entries()[1].0, "status");
    assert_eq!(
        actions.get("help"),
        Some(&Action { description: None, modifies: false, stateless: true })
    );
    assert_eq!(actions.get("install"), None);
    let credentials = bundle.credentials.as_ref().unwrap();
    assert_eq!(
        credentials.get("kubeconfig"),
        Some(&Credential {
            description: None,
            env: None,
            path: Some("/root/.kube/config".to_string()),
        })
    );
    let custom = bundle.custom.as_ref().unwrap();
    assert_eq!(custom.get("b"), Some(&Json::Null));
    assert_eq!(
        custom.get("com.example"),
        Some(&Json::Object(vec![(
            "a".to_string(),
            Json::Array(vec![Json::Integer(1), Json::Integer(2)])
        )]))
    );
    let images = bundle.images.as_ref().unwrap();
    assert_eq!(images.get("web").unwrap().image, "example/web:1");
    let parameters = bundle.parameters.as_ref().unwrap();
    assert_eq!(parameters.get("port").unwrap().parameter_type, "int");
    assert_eq!(parameters.get("port").unwrap().required, false);
}

#[test]
fn members_of_a_map_are_put_in_order_and_a_later_one_replaces_an_earlier() {
    let doc = Json::Object(vec![
        ("name".to_string(), Json::String("n".to_string())),
        ("schemaVersion".to_string(), Json::String("s".to_string())),
        ("version".to_string(), Json::String("v".to_string())),
        ("invocationImages".to_string(), Json::Array(vec![])),
        (
            "custom".to_string(),
            Json::Object(vec![
                ("z".to_string(), Json::Integer(1)),
                ("a".to_string(), Json::Integer(2)),
                ("z".to_string(), Json::Integer(3)),
            ]),
        ),
    ]);
    let bundle = Bundle::from_json(&doc).unwrap();
    let mut expected: SortedMap<Json> = SortedMap::new();
    expected.insert("a".to_string(), Json::Integer(2));
    expected.insert("z".to_string(), Json::Integer(3));
    assert_eq!(bundle.custom, Some(expected));
    let custom = bundle.custom.unwrap();
    assert_eq!(custom.entries()[0], ("a".to_string(), Json::Integer(2)));
    assert_eq!(custom.entries()[1], ("z".to_string(), Json::Integer(3)));
}

#[test]
fn default_value_that_is_null_reads_as_absent() {
    let doc = parse("{\"type\":\"string\",\"destination\":{},\"defaultValue\":null}");
    assert_eq!(Parameter::from_json(&doc).unwrap().default_value, None);
    let doc = parse("{\"type\":\"string\",\"destination\":{},\"defaultValue\":false}");
    assert_eq!(Parameter::from_json(&doc).unwrap().default_value, Some(Json::Bool(false)));
    let doc = parse("{\"type\":\"string\",\"destination\":{},\"defaultValue\":\"\"}");
    assert_eq!(
        Parameter::from_json(&doc).unwrap().default_value,
        Some(Json::String(String::new()))
    );
}

#[test]
fn copy_of_a_document_is_equal_to_it() {
    let doc = parse("{\"a\":[1,2.5,{\"b\":null}],\"c\":\"d\",\"e\":true}");
    let copy = doc.clone();
    assert_eq!(copy, doc);
    assert!(doc.is_object());
    assert!(!Json::Array(vec![]).is_object());
}

#[test]
fn allowed_values_are_read_from_their_own_key() {
    let text = "{\"invocationImages\":[],\"name\":\"a\",\"parameters\":{\"port\":{\"allowedValues\":[\"80\",\"443\"],\"destination\":{\"env\":\"PORT\"},\"type\":\"string\"}},\"schemaVersion\":\"1.0\",\"version\":\"0.1.0\"}";
    let bundle = Bundle::from_json(&parse(text)).unwrap();
    let parameters = bundle.parameters.as_ref().unwrap();
    assert_eq!(
        parameters.get("port").unwrap().allowed_values,
        Some(vec![Json::String("80".to_string()), Json::String("443".to_string())])
    );
    let doc = parse("{\"type\":\"string\",\"destination\":{},\"allowedValues\":[]}");
    assert_eq!(Parameter::from_json(&doc).unwrap().allowed_values, Some(vec![]));
    let doc = parse("{\"type\":\"string\",\"destination\":{},\"allowedValues\":7}");
    assert_eq!(Parameter::from_json(&doc), Err(SchemaError::InvalidType("allowedValues")));
}

#[test]
fn document_of_a_parameter_names_its_members() {
    let parameter = Parameter {
        allowed_values: Some(vec![Json::Integer(1)]),
        apply_to: None,
        default_value: None,
        destination: Destination { env: None, path: None },
        exclusive_maximum: None,
        exclusive_minimum: None,
        max_length: None,
        maximum: None,
        metadata: None,
        min_length: None,
        minimum: None,
        pattern: None,
        required: false,
        parameter_type: "int".to_string(),
    };
    let keys: Vec<String> = match parameter.to_json() {
        Json::Object(members) => members.into_iter().map(|m| m.0).collect(),
        other => panic!("unexpected document: {:?}", other),
    };
    assert_eq!(
        keys,
        vec![
            "allowedValues",
            "applyTo",
            "defaultValue",
            "destination",
            "exclusiveMaximum",
            "exclusiveMinimum",
            "maxLength",
            "maximum",
            "metadata",
            "minLength",
            "minimum",
            "pattern",
            "required",
            "type"
        ]
    );
}
