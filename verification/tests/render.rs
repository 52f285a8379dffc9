use dolmen::attributes;
use dolmen::tags::{self, Base, Tag};

fn component(content: &str) -> Box<tags::div::Element> {
    Box::new(tags::div::Element {
        children: vec![Box::new(tags::Text(content.into()))],
        attributes: vec![Box::new(attributes::class::Attribute("component".into()))],
    })
}

#[test]
fn test_simple_tag() {
    let node = Box::new(tags::div::Element { children: Vec::default(), attributes: Vec::default() });
    assert_eq!(node.to_string(), "<div />");
}

#[test]
fn test_tag_with_text() {
    let node = Box::new(tags::div::Element {
        children: vec![Box::new(tags::Text("Hello, world!".into()))],
        attributes: Vec::default(),
    });
    assert_eq!(node.to_string(), "<div>Hello, world!</div>");
}

#[test]
fn test_tag_with_id() {
    let node = Box::new(tags::div::Element {
        children: Vec::default(),
        attributes: vec![Box::new(attributes::id::Attribute("foo".into()))],
    });
    assert_eq!(node.to_string(), r#"<div id="foo" />"#);
}

#[test]
fn test_tag_with_children() {
    let node = Box::new(tags::div::Element {
        children: vec![
            Box::new(tags::span::Element { children: Vec::default(), attributes: Vec::default() }),
            Box::new(tags::span::Element { children: Vec::default(), attributes: Vec::default() }),
        ],
        attributes: Vec::default(),
    });
    assert_eq!(node.to_string(), "<div><span /><span /></div>");
}

#[test]
fn test_data() {
    let mut data = attributes::data::Attribute::new();
    data.insert("foo".into(), "bar".into());
    let node = Box::new(tags::div::Element {
        children: Vec::default(),
        attributes: vec![Box::new(data)],
    });
    assert_eq!(node.to_string(), r#"<div data-foo="bar" />"#);
}

#[test]
fn test_component() {
    let node = Box::new(tags::span::Element {
        children: vec![component("Hello!")],
        attributes: Vec::default(),
    });
    assert_eq!(node.to_string(), r#"<span><div class="component">Hello!</div></span>"#);
}

#[test]
fn childless_elements_close_themselves_whatever_their_kind() {
    let div = tags::div::Element { children: vec![], attributes: vec![] };
    let span = tags::span::Element { children: vec![], attributes: vec![] };
    let html = tags::html::Element { children: vec![], attributes: vec![] };
    assert_eq!(div.to_string(), "<div />");
    assert_eq!(span.to_string(), "<span />");
    assert_eq!(html.to_string(), "<html />");
}

#[test]
fn childless_element_with_attributes_has_no_closing_tag() {
    let span = tags::span::Element {
        children: vec![],
        attributes: vec![
            Box::new(attributes::id::Attribute("a".into())),
            Box::new(attributes::class::Attribute("b".into())),
        ],
    };
    assert_eq!(span.to_string(), r#"<span id="a" class="b" />"#);
}

#[test]
fn children_are_joined_in_order_without_separator() {
    let html = tags::html::Element {
        children: vec![
            Box::new(tags::Text("one".into())),
            Box::new(tags::span::Element { children: vec![], attributes: vec![] }),
            Box::new(tags::Text("two".into())),
            Box::new(tags::div::Element {
                children: vec![Box::new(tags::Text("three".into()))],
                attributes: vec![],
            }),
        ],
        attributes: vec![Box::new(attributes::class::Attribute("page".into()))],
    };
    assert_eq!(
        html.to_string(),
        r#"<html class="page">one<span />two<div>three</div></html>"#
    );
}

#[test]
fn three_attributes_render_in_insertion_order() {
    let div = tags::div::Element {
        children: vec![],
        attributes: vec![
            Box::new(attributes::class::Attribute("first".into())),
            Box::new(attributes::id::Attribute("second".into())),
            Box::new(attributes::class::Attribute("third".into())),
        ],
    };
    assert_eq!(div.to_string(), r#"<div class="first" id="second" class="third" />"#);
    let swapped = tags::div::Element {
        children: vec![Box::new(tags::Text("x".into()))],
        attributes: vec![
            Box::new(attributes::id::Attribute("second".into())),
            Box::new(attributes::class::Attribute("third".into())),
            Box::new(attributes::class::Attribute("first".into())),
        ],
    };
    assert_eq!(
        swapped.to_string(),
        r#"<div id="second" class="third" class="first">x</div>"#
    );
}

#[test]
fn rendering_twice_gives_the_same_text() {
    let node = tags::span::Element {
        children: vec![component("Hello!"), Box::new(tags::Text("tail".into()))],
        attributes: vec![Box::new(attributes::id::Attribute("root".into()))],
    };
    let first = node.to_string();
    let second = node.to_string();
    assert_eq!(first, second);
    assert_eq!(first, r#"<span id="root"><div class="component">Hello!</div>tail</span>"#);
}

#[test]
fn text_is_rendered_verbatim() {
    let text = tags::Text("a < b & \"c\"".into());
    assert_eq!(text.to_string(), "a < b & \"c\"");
    let div = tags::div::Element { children: vec![Box::new(text)], attributes: vec![] };
    assert_eq!(div.to_string(), "<div>a < b & \"c\"</div>");
}

#[test]
fn empty_text_child_still_opens_and_closes_the_tag() {
    let div = tags::div::Element {
        children: vec![Box::new(tags::Text(String::new()))],
        attributes: vec![],
    };
    assert_eq!(div.to_string(), "<div></div>");
}

#[test]
fn tag_names_are_the_kind_names() {
    assert_eq!(tags::div::Element::TAG_NAME, "div");
    assert_eq!(tags::span::Element::TAG_NAME, "span");
    assert_eq!(tags::html::Element::TAG_NAME, "html");
}

#[test]
fn accessors_return_the_stored_sequences() {
    let div = tags::div::Element {
        children: vec![Box::new(tags::Text("x".into())), Box::new(tags::Text("y".into()))],
        attributes: vec![Box::new(attributes::id::Attribute("z".into()))],
    };
    assert_eq!(div.children().len(), 2);
    assert_eq!(div.attributes().len(), 1);
    assert_eq!(tags::FlowElement::render_flow(&*div.children()[0]), "x");
    assert_eq!(tags::FlowElement::render_flow(&*div.children()[1]), "y");
    assert_eq!(
        attributes::DefaultAttribute::render_default(&*div.attributes()[0]),
        r#"id="z""#
    );
}

#[test]
fn render_helpers_give_the_parts_of_an_element() {
    let attrs: Vec<Box<dyn attributes::DefaultAttribute>> = vec![
        Box::new(attributes::id::Attribute("a".into())),
        Box::new(attributes::class::Attribute("b".into())),
    ];
    assert_eq!(tags::render_attributes(&attrs), r#" id="a" class="b""#);
    let none: Vec<Box<dyn attributes::DefaultAttribute>> = vec![];
    assert_eq!(tags::render_attributes(&none), "");
    let children: Vec<Box<dyn tags::FlowElement>> = vec![
        Box::new(tags::Text("a".into())),
        Box::new(tags::Text("b".into())),
    ];
    assert_eq!(tags::render_children(&children), "ab");
}
