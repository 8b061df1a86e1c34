use html_tailwind_ui::document::build_document;
use html_tailwind_ui::dom::ConvertError;
use html_tailwind_ui::dom::XNode;
use html_tailwind_ui::raw::RawAttr;
use html_tailwind_ui::raw::RawChild;
use html_tailwind_ui::raw::RawDocument;
use html_tailwind_ui::raw::RawElement;
use html_tailwind_ui::tailwind::DisplayMode;
use html_tailwind_ui::tailwind::Val;
use html_tailwind_ui::xml::HtmlUiLoadError;
use html_tailwind_ui::xml::load_document;
use html_tailwind_ui::xml::parse_raw;

fn elem(tag: &str) -> RawElement {
    RawElement {
        tag: tag.to_string(),
        attrs: Vec::new(),
        text: None,
        children: Vec::new(),
    }
}

fn attr(name: &str, value: &str) -> RawAttr {
    RawAttr {
        name: name.to_string(),
        value: value.to_string(),
    }
}

#[test]
fn full_pipeline_with_html_wrapper() {
    let text = r#"<html>
        <head>
            <font name="default" src="fonts/main.ttf"/>
            <font name="mono" src="fonts/mono.ttf"/>
        </head>
        <body>
            <div class="flex w-[120px]" id="root">
                <p class="text-[#336699]">Hello</p>
                <img src="a.png"/>
            </div>
        </body>
    </html>"#;
    let doc = load_document(text).expect("the document must load");
    assert_eq!(
        doc.default_font.as_ref().map(|h| h.path.as_str()),
        Some("fonts/main.ttf")
    );
    assert_eq!(
        doc.fonts
            .lookup("mono")
            .as_ref()
            .map(|h| h.path.as_str()),
        Some("fonts/mono.ttf")
    );
    assert!(doc.fonts.lookup("missing").is_none());
    match &doc.dom {
        XNode::Div(d) => {
            assert_eq!(d.id.as_deref(), Some("root"));
            assert_eq!(d.style.display, DisplayMode::Flex);
            assert_eq!(d.style.width, Val::Px(120));
            assert_eq!(d.children.len(), 2);
            match &d.children[0] {
                XNode::Text(t) => {
                    assert_eq!(t.content.as_deref(), Some("Hello"));
                    assert_eq!(
                        t.font.as_ref().map(|h| h.path.as_str()),
                        Some("fonts/main.ttf")
                    );
                }
                other => panic!("expected text, got {other:?}"),
            }
            match &d.children[1] {
                XNode::Img(i) => {
                    assert_eq!(
                        i.image_handle.as_ref().map(|h| h.path.as_str()),
                        Some("a.png")
                    );
                }
                other => panic!("expected image, got {other:?}"),
            }
        }
        other => panic!("expected a container root, got {other:?}"),
    }
}

#[test]
fn bare_span_root_succeeds() {
    let doc = load_document("<span class=\"text-black\">Hi</span>").expect("bare root form");
    match &doc.dom {
        XNode::Text(t) => assert_eq!(t.content.as_deref(), Some("Hi")),
        other => panic!("expected a text root, got {other:?}"),
    }
}

#[test]
fn script_as_body_child_is_fatal() {
    let text = "<html><body><script>alert(1)</script><div/></body></html>";
    let err = load_document(text).unwrap_err();
    assert_eq!(err, HtmlUiLoadError::UnsupportedTag("script".to_string()));
}

#[test]
fn script_after_root_is_still_fatal() {
    let text = "<html><body><div/><script>x</script></body></html>";
    let err = load_document(text).unwrap_err();
    assert_eq!(err, HtmlUiLoadError::UnsupportedTag("script".to_string()));
}

#[test]
fn malformed_markup_is_fatal() {
    let err = load_document("<div><p>unclosed</div>").unwrap_err();
    assert!(matches!(err, HtmlUiLoadError::MarkupSyntax(_)));
}

#[test]
fn document_without_root_is_fatal() {
    let err = load_document("<html><head/><body/></html>").unwrap_err();
    assert_eq!(err, HtmlUiLoadError::MissingRoot);
}

#[test]
fn font_without_src_is_skipped() {
    let text = r#"<html>
        <head><font name="broken"/></head>
        <body><div/></body>
    </html>"#;
    let doc = load_document(text).expect("must load");
    assert!(doc.fonts.lookup("broken").is_none());
    assert!(doc.default_font.is_none());
}

#[test]
fn nameless_font_fills_default_slot() {
    let text = r#"<html>
        <head><font src="fonts/x.ttf"/></head>
        <body><div/></body>
    </html>"#;
    let doc = load_document(text).expect("must load");
    assert_eq!(
        doc.default_font.as_ref().map(|h| h.path.as_str()),
        Some("fonts/x.ttf")
    );
}

#[test]
fn later_font_declaration_overwrites_earlier() {
    let text = r#"<html>
        <head>
            <font name="mono" src="fonts/a.ttf"/>
            <font name="mono" src="fonts/b.ttf"/>
        </head>
        <body><div/></body>
    </html>"#;
    let doc = load_document(text).expect("must load");
    assert_eq!(
        doc.fonts.lookup("mono").as_ref().map(|h| h.path.as_str()),
        Some("fonts/b.ttf")
    );
}

#[test]
fn parse_raw_extracts_tags_attributes_and_text() {
    let raw = parse_raw("<div id=\"a\"><!-- note --><p>Hi</p></div>").expect("well-formed");
    assert_eq!(raw.top.len(), 1);
    match &raw.top[0] {
        RawChild::Element(e) => {
            assert_eq!(e.tag, "div");
            assert_eq!(e.attrs.len(), 1);
            assert_eq!(e.attrs[0].name, "id");
            assert_eq!(e.attrs[0].value, "a");
            // the comment is kept as a non-element child
            assert_eq!(e.children.len(), 2);
            assert!(matches!(e.children[0], RawChild::Other));
            match &e.children[1] {
                RawChild::Element(p) => {
                    assert_eq!(p.tag, "p");
                    assert_eq!(p.text.as_deref(), Some("Hi"));
                }
                other => panic!("expected an element, got {other:?}"),
            }
        }
        other => panic!("expected an element at top level, got {other:?}"),
    }
}

#[test]
fn build_document_accepts_hand_built_raw_trees() {
    let mut div = elem("div");
    div.attrs.push(attr("class", "grid grid-cols-2"));
    let doc = RawDocument {
        top: vec![RawChild::Element(div)],
    };
    let built = build_document(&doc).expect("must build");
    match &built.dom {
        XNode::Div(d) => {
            assert_eq!(d.style.display, DisplayMode::Grid);
            assert_eq!(d.style.grid_template_columns.len(), 2);
        }
        other => panic!("expected a container, got {other:?}"),
    }
}

#[test]
fn build_document_reports_missing_root() {
    let doc = RawDocument {
        top: vec![RawChild::Other],
    };
    let err = build_document(&doc).unwrap_err();
    assert_eq!(err, ConvertError::MissingRoot);
}

#[test]
fn top_level_comments_and_instructions_are_skipped() {
    let text = "<!-- heading --><?marker x?><div id=\"x\"/>";
    let doc = load_document(text).expect("bare root after non-elements");
    match &doc.dom {
        XNode::Div(d) => assert_eq!(d.id.as_deref(), Some("x")),
        other => panic!("expected a container, got {other:?}"),
    }
}
