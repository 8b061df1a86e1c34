use html_tailwind_ui::dom::ConvertError;
use html_tailwind_ui::dom::XNode;
use html_tailwind_ui::raw::RawAttr;
use html_tailwind_ui::raw::RawChild;
use html_tailwind_ui::raw::RawElement;
use html_tailwind_ui::resource::FontTable;
use html_tailwind_ui::resource::ResourceHandle;
use html_tailwind_ui::tailwind::DisplayMode;
use html_tailwind_ui::tailwind::Style;

fn elem(tag: &str) -> RawElement {
    RawElement::new(tag.to_string())
}

fn attr(name: &str, value: &str) -> RawAttr {
    RawAttr {
        name: name.to_string(),
        value: value.to_string(),
    }
}

#[test]
fn tree_shape_container_text_image() {
    // <div class="flex"><p>Hello</p><img src="a.png"/></div>
    let mut p = elem("p");
    p.text = Some("Hello".to_string());
    let mut img = elem("img");
    img.attrs.push(attr("src", "a.png"));
    let mut div = elem("div");
    div.attrs.push(attr("class", "flex"));
    div.children.push(RawChild::Element(p));
    div.children.push(RawChild::Element(img));

    let node = XNode::convert(&div).expect("conversion must succeed");
    match node {
        XNode::Div(d) => {
            assert_eq!(d.classes, "flex");
            assert_eq!(d.children.len(), 2);
            match &d.children[0] {
                XNode::Text(t) => assert_eq!(t.content.as_deref(), Some("Hello")),
                other => panic!("expected a text node first, got {other:?}"),
            }
            match &d.children[1] {
                XNode::Img(i) => {
                    assert_eq!(i.src, "a.png");
                    assert!(i.image_handle.is_none());
                }
                other => panic!("expected an image node second, got {other:?}"),
            }
        }
        other => panic!("expected a container, got {other:?}"),
    }
}

#[test]
fn unsupported_tag_is_fatal() {
    let mut div = elem("div");
    div.children.push(RawChild::Element(elem("script")));
    let err = XNode::convert(&div).unwrap_err();
    assert_eq!(err, ConvertError::UnsupportedTag("script".to_string()));
}

#[test]
fn first_offending_tag_is_reported() {
    let mut div = elem("div");
    div.children.push(RawChild::Element(elem("marquee")));
    div.children.push(RawChild::Element(elem("script")));
    let err = XNode::convert(&div).unwrap_err();
    assert_eq!(err, ConvertError::UnsupportedTag("marquee".to_string()));
}

#[test]
fn tag_dispatch_is_case_insensitive() {
    assert!(matches!(XNode::convert(&elem("DIV")), Ok(XNode::Div(_))));
    assert!(matches!(XNode::convert(&elem("Span")), Ok(XNode::Text(_))));
    assert!(matches!(XNode::convert(&elem("IMG")), Ok(XNode::Img(_))));
    assert!(matches!(XNode::convert(&elem("Button")), Ok(XNode::Button(_))));
}

#[test]
fn non_element_children_are_skipped() {
    let mut div = elem("div");
    div.children.push(RawChild::Other);
    div.children.push(RawChild::Element(elem("p")));
    div.children.push(RawChild::Other);
    let node = XNode::convert(&div).unwrap();
    match node {
        XNode::Div(d) => assert_eq!(d.children.len(), 1),
        other => panic!("expected a container, got {other:?}"),
    }
}

#[test]
fn whitespace_only_text_yields_no_content() {
    let mut p = elem("p");
    p.text = Some("   \n\t ".to_string());
    match XNode::convert(&p).unwrap() {
        XNode::Text(t) => assert!(t.content.is_none()),
        other => panic!("expected a text node, got {other:?}"),
    }
}

#[test]
fn text_content_is_trimmed() {
    let mut p = elem("p");
    p.text = Some("  Hello world \n".to_string());
    match XNode::convert(&p).unwrap() {
        XNode::Text(t) => assert_eq!(t.content.as_deref(), Some("Hello world")),
        other => panic!("expected a text node, got {other:?}"),
    }
}

#[test]
fn id_attribute_is_stored_verbatim() {
    let mut b = elem("button");
    b.attrs.push(attr("id", "ok-button"));
    b.attrs.push(attr("unused", "x"));
    match XNode::convert(&b).unwrap() {
        XNode::Button(btn) => assert_eq!(btn.id.as_deref(), Some("ok-button")),
        other => panic!("expected a button, got {other:?}"),
    }
}

#[test]
fn convert_leaves_style_default_until_resolve() {
    let mut div = elem("div");
    div.attrs.push(attr("class", "flex"));
    match XNode::convert(&div).unwrap() {
        XNode::Div(d) => assert_eq!(d.style, Style::default()),
        other => panic!("expected a container, got {other:?}"),
    }
}

#[test]
fn resolve_fills_style_font_and_handles() {
    let mut img = elem("img");
    img.attrs.push(attr("src", "a.png"));
    img.attrs.push(attr("class", "w-[32px]"));
    let mut div = elem("div");
    div.attrs.push(attr("class", "flex"));
    div.children.push(RawChild::Element(img));

    let node = XNode::convert(&div).unwrap();
    let fonts = FontTable::new();
    let default_font = Some(ResourceHandle {
        path: "fonts/default.ttf".to_string(),
    });
    let resolved = node.resolve(&fonts, &default_font);
    match resolved {
        XNode::Div(d) => {
            assert_eq!(d.style.display, DisplayMode::Flex);
            assert_eq!(
                d.font.as_ref().map(|h| h.path.as_str()),
                Some("fonts/default.ttf")
            );
            match &d.children[0] {
                XNode::Img(i) => {
                    assert_eq!(
                        i.image_handle.as_ref().map(|h| h.path.as_str()),
                        Some("a.png")
                    );
                }
                other => panic!("expected an image, got {other:?}"),
            }
        }
        other => panic!("expected a container, got {other:?}"),
    }
}

#[test]
fn empty_image_source_resolves_to_no_handle() {
    let img = elem("img");
    let node = XNode::convert(&img).unwrap();
    let resolved = node.resolve(&FontTable::new(), &None);
    match resolved {
        XNode::Img(i) => {
            assert_eq!(i.src, "");
            assert!(i.image_handle.is_none());
        }
        other => panic!("expected an image, got {other:?}"),
    }
}

#[test]
fn resolution_is_idempotent_on_a_tree() {
    let mut p = elem("p");
    p.text = Some("Hi".to_string());
    p.attrs.push(attr("class", "text-[#ff0000]"));
    let mut img = elem("img");
    img.attrs.push(attr("src", "b.png"));
    let mut div = elem("div");
    div.attrs.push(attr("class", "flex w-[100px]"));
    div.children.push(RawChild::Element(p));
    div.children.push(RawChild::Element(img));

    let node = XNode::convert(&div).unwrap();
    let fonts = FontTable::new();
    let default_font = Some(ResourceHandle {
        path: "fonts/default.ttf".to_string(),
    });
    let once = node.resolve(&fonts, &default_font);
    let once_printed = format!("{once:?}");
    let twice = once.resolve(&fonts, &default_font);
    assert_eq!(format!("{twice:?}"), once_printed);
}

#[test]
fn duplicate_attributes_last_wins() {
    let mut div = elem("div");
    div.attrs.push(attr("class", "flex"));
    div.attrs.push(attr("class", "grid"));
    match XNode::convert(&div).unwrap() {
        XNode::Div(d) => assert_eq!(d.classes, "grid"),
        other => panic!("expected a container, got {other:?}"),
    }
}
