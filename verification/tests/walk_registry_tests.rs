use html_tailwind_ui::registry::HtmlTailwindRegistry;
use html_tailwind_ui::walk::UiEvent;
use html_tailwind_ui::xml::load_document;

#[test]
fn walk_emits_preorder_enter_exit_events() {
    let text = "<div class=\"flex\"><p>Hello</p><img src=\"a.png\"/></div>";
    let doc = load_document(text).expect("must load");
    let events = doc.dom.apply();
    assert_eq!(events.len(), 6);
    assert!(matches!(events[0], UiEvent::EnterContainer { .. }));
    match &events[1] {
        UiEvent::EnterText { content, .. } => assert_eq!(content.as_deref(), Some("Hello")),
        other => panic!("expected text enter, got {other:?}"),
    }
    assert!(matches!(events[2], UiEvent::Exit));
    match &events[3] {
        UiEvent::EnterImage { src, image_handle, .. } => {
            assert_eq!(src, "a.png");
            assert_eq!(
                image_handle.as_ref().map(|h| h.path.as_str()),
                Some("a.png")
            );
        }
        other => panic!("expected image enter, got {other:?}"),
    }
    assert!(matches!(events[4], UiEvent::Exit));
    assert!(matches!(events[5], UiEvent::Exit));
}

#[test]
fn walk_carries_resolved_styles() {
    let doc = load_document("<div class=\"flex z-7\"/>").expect("must load");
    let events = doc.dom.apply();
    match &events[0] {
        UiEvent::EnterContainer { style, .. } => assert_eq!(style.z_index, 7),
        other => panic!("expected container enter, got {other:?}"),
    }
}

#[test]
fn registry_keeps_order_per_id() {
    let mut registry = HtmlTailwindRegistry::new();
    registry.add_marker("menu".to_string(), "focusable".to_string());
    registry.add_marker("menu".to_string(), "animated".to_string());
    registry.add_marker("footer".to_string(), "static".to_string());

    assert_eq!(registry.apply_markers("menu"), vec!["focusable", "animated"]);
    assert_eq!(registry.apply_markers("footer"), vec!["static"]);
    assert!(registry.apply_markers("unknown").is_empty());
}
