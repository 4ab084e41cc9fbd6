use mdbook_docker_run::descriptor::{
    descriptor_from_fields, parse_instance, DescriptorError, FieldName, Instance,
};

#[test]
fn parses_a_full_declaration() {
    let payload = "image: alpine\nsetup:\n  - apk add curl\nscript:\n  - echo hello\nweight: 2\n";
    let d = parse_instance(payload).unwrap();
    assert_eq!(
        d,
        Instance {
            image: Some("alpine".to_string()),
            setup: vec!["apk add curl".to_string()],
            script: vec!["echo hello".to_string()],
            weight: Some(2),
        }
    );
}

#[test]
fn script_is_required() {
    let err = parse_instance("image: alpine\n").unwrap_err();
    assert_eq!(err, DescriptorError::MissingScript);
}

#[test]
fn empty_script_list_is_valid() {
    let d = parse_instance("image: alpine\nscript: []\n").unwrap();
    assert!(d.script.is_empty());
    assert!(d.setup.is_empty());
    assert_eq!(d.weight, None);
}

#[test]
fn image_may_be_absent_at_parse_time() {
    let d = parse_instance("script:\n  - echo hi\n").unwrap();
    assert_eq!(d.image, None);
}

#[test]
fn weight_zero_is_kept_as_declared() {
    let d = parse_instance("image: alpine\nscript: []\nweight: 0\n").unwrap();
    assert_eq!(d.weight, Some(0));
}

#[test]
fn unknown_keys_are_ignored() {
    let d = parse_instance("script: []\nplatform: linux\nnetwork: none\n").unwrap();
    assert_eq!(d.script, Vec::<String>::new());
}

#[test]
fn wrong_image_type_is_an_error() {
    let err = parse_instance("image: [a, b]\nscript: []\n").unwrap_err();
    assert_eq!(err, DescriptorError::WrongType { field: FieldName::Image });
}

#[test]
fn wrong_script_type_is_an_error() {
    let err = parse_instance("script: yes\n").unwrap_err();
    assert_eq!(err, DescriptorError::WrongType { field: FieldName::Script });
}

#[test]
fn non_string_list_element_is_an_error() {
    let err = parse_instance("script: []\nsetup: [1, 2]\n").unwrap_err();
    assert_eq!(err, DescriptorError::WrongType { field: FieldName::Setup });
}

#[test]
fn wrong_weight_type_is_an_error() {
    let err = parse_instance("script: []\nweight: heavy\n").unwrap_err();
    assert_eq!(err, DescriptorError::WrongType { field: FieldName::Weight });
}

#[test]
fn malformed_payload_is_reported() {
    let err = parse_instance(": : :").unwrap_err();
    assert!(matches!(err, DescriptorError::Malformed { .. }));
}

#[test]
fn oversized_weight_is_rejected() {
    let err = descriptor_from_fields(
        None,
        None,
        Some(vec![]),
        Some(u64::from(u32::MAX) + 1),
    )
    .unwrap_err();
    assert_eq!(err, DescriptorError::WeightTooLarge);
}

#[test]
fn fields_are_assembled_with_defaults() {
    let d = descriptor_from_fields(
        Some("alpine".to_string()),
        None,
        Some(vec!["echo hello".to_string()]),
        None,
    )
    .unwrap();
    assert_eq!(d.image, Some("alpine".to_string()));
    assert!(d.setup.is_empty());
    assert_eq!(d.script, vec!["echo hello".to_string()]);
    assert_eq!(d.weight, None);
}
