use image_rs::{FallbackResponse, ImageLoader, LoaderAction};

fn received(status: u16, body: Option<&str>) -> FallbackResponse {
    FallbackResponse::Received { status, body: body.map(|b| b.to_string()) }
}

fn error(message: &str) -> Vec<LoaderAction> {
    vec![LoaderAction::NotifyError { message: message.to_string() }]
}

#[test]
fn visible_image_gets_its_source() {
    let l = ImageLoader::new("a.png", "b.png");
    assert_eq!(
        l.on_visibility(true),
        vec![LoaderAction::AssignSource { url: "a.png".to_string() }, LoaderAction::NotifyLoad]
    );
    assert_eq!(l.on_visibility(false), vec![]);
}

#[test]
fn load_event_notifies() {
    let l = ImageLoader::new("a.png", "");
    assert_eq!(l.on_load(), vec![LoaderAction::NotifyLoad]);
}

#[test]
fn error_without_fallback_reports_fixed_message() {
    let l = ImageLoader::new("a.png", "");
    let actions = l.on_error();
    assert_eq!(actions, error("Image failed to load and no fallback provided."));
    assert!(!actions.iter().any(|a| matches!(a, LoaderAction::FetchFallback { .. })));
}

#[test]
fn error_with_fallback_requests_it() {
    let l = ImageLoader::new("a.png", "b.png");
    assert_eq!(l.on_error(), vec![LoaderAction::FetchFallback { url: "b.png".to_string() }]);
}

#[test]
fn fallback_success_updates_source_and_notifies_load() {
    let mut l = ImageLoader::new("a.png", "b.png");
    let actions = l.on_fallback_response(received(200, Some("{\"ok\": true}")));
    assert_eq!(
        actions,
        vec![LoaderAction::AssignSource { url: "b.png".to_string() }, LoaderAction::NotifyLoad]
    );
    assert_eq!(l.src, "b.png");
    assert_eq!(l.fallback_src, "b.png");
}

#[test]
fn fallback_body_that_is_not_json() {
    let mut l = ImageLoader::new("a.png", "b.png");
    assert_eq!(l.on_fallback_response(received(200, Some("\u{89}PNG"))), error("Image Not Found!"));
    assert_eq!(l.on_fallback_response(received(200, Some(""))), error("Image Not Found!"));
    assert_eq!(l.on_fallback_response(received(200, Some("{} x"))), error("Image Not Found!"));
    assert_eq!(l.on_fallback_response(received(200, None)), error("Image Not Found!"));
    assert_eq!(l.src, "a.png");
}

#[test]
fn fallback_json_values_of_every_kind() {
    for body in ["null", "1", "\"s\"", "[1, 2]", "  {}  "] {
        let mut l = ImageLoader::new("a.png", "b.png");
        l.on_fallback_response(received(200, Some(body)));
        assert_eq!(l.src, "b.png");
    }
}

#[test]
fn fallback_bad_status_reports_status_and_body() {
    let mut l = ImageLoader::new("a.png", "b.png");
    assert_eq!(
        l.on_fallback_response(received(404, Some("missing"))),
        error("Failed to load image. Status: 404, Body: missing")
    );
    assert_eq!(
        l.on_fallback_response(received(500, None)),
        error("Failed to load image. Status: 500, Body: Failed to retrieve response body")
    );
    assert_eq!(
        l.on_fallback_response(received(201, Some("{}"))),
        error("Failed to load image. Status: 201, Body: {}")
    );
    assert_eq!(l.src, "a.png");
}

#[test]
fn fallback_network_error() {
    let mut l = ImageLoader::new("a.png", "b.png");
    let r = FallbackResponse::NetworkError { message: "connection refused".to_string() };
    assert_eq!(l.on_fallback_response(r), error("Network error: connection refused"));
    assert_eq!(l.src, "a.png");
}

#[test]
fn settle_takes_the_json_verdict_as_given() {
    let mut l = ImageLoader::new("a.png", "b.png");
    assert_eq!(l.settle_fallback(received(200, Some("anything")), false), error("Image Not Found!"));
    assert_eq!(l.src, "a.png");
    assert_eq!(
        l.settle_fallback(received(200, Some("anything")), true),
        vec![LoaderAction::AssignSource { url: "b.png".to_string() }, LoaderAction::NotifyLoad]
    );
    assert_eq!(l.src, "b.png");
    let mut m = ImageLoader::new("a.png", "b.png");
    assert_eq!(m.settle_fallback(received(200, None), true), error("Image Not Found!"));
}
