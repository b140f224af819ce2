use placeholder_image::{respond, ContentType, RequestError};

#[test]
fn an_image_is_sent_as_it_is() {
    let response = respond(Ok(vec![137, 80, 78, 71, 1, 2, 3]));
    assert_eq!(response.status, 200);
    assert_eq!(response.content_type, ContentType::Png);
    assert_eq!(response.body, vec![137, 80, 78, 71, 1, 2, 3]);
}

#[test]
fn an_empty_file_is_still_an_image() {
    let response = respond(Ok(Vec::new()));
    assert_eq!(response.status, 200);
    assert_eq!(response.content_type, ContentType::Png);
    assert_eq!(response.body, Vec::<u8>::new());
}

#[test]
fn every_failure_is_answered_alike() {
    for error in [
        RequestError::InvalidSize,
        RequestError::InvalidColor,
        RequestError::Encoding,
    ] {
        let response = respond(Err(error));
        assert_eq!(response.status, 400);
        assert_eq!(response.content_type, ContentType::PlainText);
        assert_eq!(response.body, b"Invalid parameters".to_vec());
    }
}

#[test]
fn content_types_are_spelled_for_the_header() {
    assert_eq!(ContentType::Png.as_str(), "image/png");
    assert_eq!(ContentType::PlainText.as_str(), "text/plain");
}

#[test]
fn a_malformed_size_is_a_bad_request() {
    let outcome = placeholder_image::plan_image("abc", None, None, None).map(|_| Vec::new());
    let response = respond(outcome);
    assert_eq!(response.status, 400);
    assert_eq!(response.content_type.as_str(), "text/plain");
    assert_eq!(response.body, b"Invalid parameters".to_vec());
}

#[test]
fn a_malformed_colour_is_a_bad_request() {
    let outcome = placeholder_image::plan_image("100", Some("zzzzzz"), Some("000000"), None)
        .map(|_| Vec::new());
    let response = respond(outcome);
    assert_eq!(response.status, 400);
    assert_eq!(response.content_type.as_str(), "text/plain");
    assert_eq!(response.body, b"Invalid parameters".to_vec());
}
