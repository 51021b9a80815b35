use river::json::{type_tag_of_json, TypeTagError};

#[test]
fn type_tag_is_never_found_with_the_dotted_pointer() {
    let json = r#"{"type":"GetMe"}"#;
    assert_eq!(type_tag_of_json(json), Err(TypeTagError::TypeNotFound));
    assert_eq!(TypeTagError::TypeNotFound.message(), "type river not found");
}

#[test]
fn type_tag_of_text_that_is_not_json_is_refused() {
    assert_eq!(type_tag_of_json("{type: GetMe"), Err(TypeTagError::InvalidJson));
    assert_eq!(type_tag_of_json(""), Err(TypeTagError::InvalidJson));
}

#[test]
fn type_tag_messages() {
    assert_eq!(TypeTagError::TypeNotText.message(), "type river is not a string");
    assert_eq!(TypeTagError::InvalidJson.message(), "invalid JSON");
}
