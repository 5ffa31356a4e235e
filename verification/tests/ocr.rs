use image_upload::image::encode_image;
use image_upload::ocr::{endpoint, read_reply, OcrError, OcrRequest, ProviderReply};

#[test]
fn endpoint_is_the_parse_image_address() {
    assert_eq!(endpoint(), "https://api.ocr.space/parse/image");
}

#[test]
fn request_carries_the_fixed_parameters() {
    let request = OcrRequest::new("/9j/".to_string());
    assert_eq!(request.api_key, "helloworld");
    assert_eq!(request.language, "eng");
    assert!(request.overlay_required);
    assert_eq!(request.image, "/9j/");
}

#[test]
fn form_fields_come_in_order() {
    let request = OcrRequest::new("/9j/".to_string());
    let fields = request.form_fields();
    assert_eq!(
        fields,
        vec![
            ("apikey".to_string(), "helloworld".to_string()),
            ("language".to_string(), "eng".to_string()),
            ("isOverlayRequired".to_string(), "true".to_string()),
            ("base64Image".to_string(), "/9j/".to_string()),
        ]
    );
}

#[test]
fn form_fields_follow_the_request() {
    let request = OcrRequest {
        api_key: "k".to_string(),
        language: "ger".to_string(),
        overlay_required: false,
        image: "".to_string(),
    };
    let fields = request.form_fields();
    assert_eq!(fields.len(), 4);
    assert_eq!(fields[0], ("apikey".to_string(), "k".to_string()));
    assert_eq!(fields[1], ("language".to_string(), "ger".to_string()));
    assert_eq!(fields[2], ("isOverlayRequired".to_string(), "false".to_string()));
    assert_eq!(fields[3], ("base64Image".to_string(), "".to_string()));
}

#[test]
fn request_takes_the_text_of_an_encoded_image() {
    let image = encode_image(&[0xFF, 0xD8, 0xFF]);
    let request = OcrRequest::new(image.src().to_string());
    assert_eq!(request.form_fields()[3].1, "/9j/");
}

#[test]
fn successful_answer_gives_the_body_unchanged() {
    let body = "{\"ParsedResults\":[{\"ParsedText\":\"hello\"}]}".to_string();
    let outcome = read_reply(ProviderReply::Answered { status: 200, body: Some(body.clone()) });
    assert_eq!(outcome, Ok(body));
}

#[test]
fn unreachable_provider_gives_a_network_error() {
    let outcome = read_reply(ProviderReply::Unreachable);
    assert_eq!(outcome, Err(OcrError::NetworkError));
    assert!(outcome.is_err());
}

#[test]
fn reachable_and_unreachable_are_told_apart() {
    let reached = read_reply(ProviderReply::Answered {
        status: 200,
        body: Some("{\"ParsedResults\":[]}".to_string()),
    });
    let unreached = read_reply(ProviderReply::Unreachable);
    assert!(matches!(reached, Ok(ref text) if !text.is_empty()));
    assert!(matches!(unreached, Err(OcrError::NetworkError)));
    assert_ne!(reached, unreached);
}

#[test]
fn failing_status_gives_a_provider_error() {
    for status in [100u16, 199, 300, 301, 403, 404, 500, 503, 0, u16::MAX] {
        let outcome = read_reply(ProviderReply::Answered {
            status,
            body: Some("denied".to_string()),
        });
        assert_eq!(outcome, Err(OcrError::ProviderError { status }));
    }
}

#[test]
fn every_success_status_is_accepted() {
    for status in [200u16, 201, 204, 250, 299] {
        let outcome = read_reply(ProviderReply::Answered {
            status,
            body: Some("text".to_string()),
        });
        assert_eq!(outcome, Ok("text".to_string()));
    }
}

#[test]
fn unreadable_body_gives_a_malformed_response() {
    let outcome = read_reply(ProviderReply::Answered { status: 200, body: None });
    assert_eq!(outcome, Err(OcrError::MalformedResponse));
}

#[test]
fn failing_status_comes_before_an_unreadable_body() {
    let outcome = read_reply(ProviderReply::Answered { status: 502, body: None });
    assert_eq!(outcome, Err(OcrError::ProviderError { status: 502 }));
}

#[test]
fn empty_body_of_a_successful_answer_is_kept() {
    let outcome = read_reply(ProviderReply::Answered { status: 200, body: Some(String::new()) });
    assert_eq!(outcome, Ok(String::new()));
}
