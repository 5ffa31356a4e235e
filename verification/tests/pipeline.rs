use image_upload::image::build_view;
use image_upload::page::{
    begin_upload, error_response, finish_page, Intake, IntakeStep, PageError, ReadEvent,
    UploadStep, STATUS_BAD_REQUEST, STATUS_INTERNAL_ERROR, STATUS_OK,
};

fn run(events: Vec<ReadEvent>) -> Option<UploadStep> {
    let mut intake = Intake::new();
    for event in events {
        match intake.on_event(event) {
            IntakeStep::Read(next) => intake = next,
            IntakeStep::Done(step) => return Some(step),
        }
    }
    None
}

#[test]
fn two_parts_give_two_images_in_upload_order() {
    let view = build_view(vec![vec![0x89, 0x50, 0x4E, 0x47], vec![0xFF, 0xD8, 0xFF]]);
    assert_eq!(view.len(), 2);
    assert_eq!(view.get(0).src(), "iVBORw");
    assert_eq!(view.get(1).src(), "/9j/");
    assert_eq!(view.get(0).name(), "test");
    assert_eq!(view.get(1).name(), "test");
}

#[test]
fn swapped_parts_give_swapped_images() {
    let view = build_view(vec![vec![0xFF, 0xD8, 0xFF], vec![0x89, 0x50, 0x4E, 0x47]]);
    assert_eq!(view.len(), 2);
    assert_eq!(view.get(0).src(), "/9j/");
    assert_eq!(view.get(1).src(), "iVBORw");
}

#[test]
fn zero_parts_give_an_empty_view() {
    let view = build_view(vec![]);
    assert_eq!(view.len(), 0);
}

#[test]
fn one_empty_part_gives_one_image_with_empty_text() {
    let view = build_view(vec![vec![]]);
    assert_eq!(view.len(), 1);
    assert_eq!(view.get(0).src(), "");
    assert_eq!(view.get(0).name(), "test");
}

#[test]
fn view_holds_one_image_per_part() {
    for n in 0usize..20 {
        let parts: Vec<Vec<u8>> = (0..n).map(|i| vec![i as u8]).collect();
        let view = build_view(parts);
        assert_eq!(view.len(), n);
        for i in 0..n {
            let expected = image_upload::image::encode_image(&[i as u8]);
            assert_eq!(view.get(i).src(), expected.src());
        }
    }
}

#[test]
fn repeated_parts_are_kept() {
    let view = build_view(vec![vec![7], vec![7], vec![7]]);
    assert_eq!(view.len(), 3);
    assert_eq!(view.get(0).src(), "Bw");
    assert_eq!(view.get(1).src(), "Bw");
    assert_eq!(view.get(2).src(), "Bw");
}

#[test]
fn decoded_upload_is_rendered() {
    match begin_upload(Some(vec![vec![0x89, 0x50, 0x4E, 0x47], vec![0xFF, 0xD8, 0xFF]])) {
        UploadStep::Render(view) => {
            assert_eq!(view.len(), 2);
            assert_eq!(view.get(0).src(), "iVBORw");
            assert_eq!(view.get(1).src(), "/9j/");
        }
        UploadStep::Reject(_) => panic!("a decoded upload was rejected"),
    }
}

#[test]
fn upload_without_parts_is_rendered_without_images() {
    match begin_upload(Some(vec![])) {
        UploadStep::Render(view) => assert_eq!(view.len(), 0),
        UploadStep::Reject(_) => panic!("an upload without parts was rejected"),
    }
    let response = finish_page(Some("<html><body></body></html>".to_string()));
    assert_eq!(response.status, 200);
    assert_eq!(response.body, "<html><body></body></html>");
}

#[test]
fn malformed_upload_is_rejected_with_400() {
    match begin_upload(None) {
        UploadStep::Render(_) => panic!("a malformed upload was rendered"),
        UploadStep::Reject(response) => {
            assert_eq!(response.status, 400);
            assert_eq!(
                response.body,
                "<!DOCTYPE html><html><body><h1>400 Bad Request</h1><p>The upload could not be read.</p></body></html>"
            );
        }
    }
}

#[test]
fn rendered_page_is_sent_unchanged_with_200() {
    let response = finish_page(Some("<html><body><h1>Upload</h1></body></html>".to_string()));
    assert_eq!(response.status, STATUS_OK);
    assert_eq!(response.status, 200);
    assert_eq!(response.body, "<html><body><h1>Upload</h1></body></html>");
    assert!(!response.body.is_empty());
}

#[test]
fn failed_rendering_is_answered_with_500() {
    let response = finish_page(None);
    assert_eq!(response.status, 500);
    assert_eq!(
        response.body,
        "<!DOCTYPE html><html><body><h1>500 Internal Server Error</h1><p>The page could not be rendered.</p></body></html>"
    );
}

#[test]
fn error_pages_are_stable_and_nonempty() {
    let first = error_response(PageError::Decode);
    let second = error_response(PageError::Decode);
    assert_eq!(first.status, STATUS_BAD_REQUEST);
    assert_eq!(first.body, second.body);
    assert!(!first.body.is_empty());
    let first = error_response(PageError::Render);
    let second = error_response(PageError::Render);
    assert_eq!(first.status, STATUS_INTERNAL_ERROR);
    assert_eq!(first.body, second.body);
    assert!(!first.body.is_empty());
    assert_ne!(error_response(PageError::Decode).body, error_response(PageError::Render).body);
}

#[test]
fn parts_read_one_by_one_are_rendered_in_order() {
    let step = run(vec![
        ReadEvent::Part(vec![0x89, 0x50, 0x4E, 0x47]),
        ReadEvent::Part(vec![0xFF, 0xD8, 0xFF]),
        ReadEvent::End,
    ]);
    match step {
        Some(UploadStep::Render(view)) => {
            assert_eq!(view.len(), 2);
            assert_eq!(view.get(0).src(), "iVBORw");
            assert_eq!(view.get(1).src(), "/9j/");
        }
        _ => panic!("the upload was not rendered"),
    }
}

#[test]
fn body_that_ends_at_once_is_rendered_without_images() {
    match run(vec![ReadEvent::End]) {
        Some(UploadStep::Render(view)) => assert_eq!(view.len(), 0),
        _ => panic!("the upload was not rendered"),
    }
}

#[test]
fn reading_goes_on_until_the_body_ends() {
    assert!(run(vec![]).is_none());
    assert!(run(vec![ReadEvent::Part(vec![1]), ReadEvent::Part(vec![2])]).is_none());
}

#[test]
fn malformed_body_discards_the_parts_read_before() {
    let step = run(vec![
        ReadEvent::Part(vec![0x89, 0x50, 0x4E, 0x47]),
        ReadEvent::Part(vec![0xFF, 0xD8, 0xFF]),
        ReadEvent::Malformed,
    ]);
    match step {
        Some(UploadStep::Reject(response)) => {
            assert_eq!(response.status, 400);
            assert_eq!(response.body, error_response(PageError::Decode).body);
        }
        _ => panic!("the upload was not rejected"),
    }
}

#[test]
fn malformed_body_at_the_start_is_rejected() {
    match run(vec![ReadEvent::Malformed]) {
        Some(UploadStep::Reject(response)) => assert_eq!(response.status, 400),
        _ => panic!("the upload was not rejected"),
    }
}

#[test]
fn events_after_the_end_are_not_read() {
    let step = run(vec![
        ReadEvent::Part(vec![7]),
        ReadEvent::End,
        ReadEvent::Part(vec![8]),
        ReadEvent::Malformed,
    ]);
    match step {
        Some(UploadStep::Render(view)) => {
            assert_eq!(view.len(), 1);
            assert_eq!(view.get(0).src(), "Bw");
        }
        _ => panic!("the upload was not rendered"),
    }
}
