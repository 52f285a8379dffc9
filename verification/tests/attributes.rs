use dolmen::attributes::{self, Attribute, Base, DefaultAttribute};

#[test]
fn class_renders_name_and_value() {
    let class = attributes::class::Attribute("demo".into());
    assert_eq!(attributes::class::Attribute::ATTRIBUTE_NAME, "class");
    assert_eq!(class.value(), "demo");
    assert_eq!(class.to_string(), r#"class="demo""#);
    assert_eq!(class.render_default(), r#"class="demo""#);
}

#[test]
fn id_renders_name_and_value() {
    let id = attributes::id::Attribute("bar".into());
    assert_eq!(attributes::id::Attribute::ATTRIBUTE_NAME, "id");
    assert_eq!(id.value(), "bar");
    assert_eq!(id.to_string(), r#"id="bar""#);
    assert_eq!(id.render_default(), r#"id="bar""#);
}

#[test]
fn attribute_value_is_not_escaped() {
    let id = attributes::id::Attribute("a\"b<c>".into());
    assert_eq!(id.to_string(), "id=\"a\"b<c>\"");
}

#[test]
fn empty_attribute_value_renders_empty_quotes() {
    let class = attributes::class::Attribute(String::new());
    assert_eq!(class.to_string(), r#"class="""#);
}

#[test]
fn data_without_entries_renders_nothing() {
    let data = attributes::data::Attribute::new();
    assert_eq!(data.0.len(), 0);
    assert_eq!(data.to_string(), "");
}

#[test]
fn data_with_one_entry() {
    let data = attributes::data::Attribute(vec![("foo".into(), "bar".into())]);
    assert_eq!(data.to_string(), r#"data-foo="bar""#);
    assert_eq!(data.render_default(), r#"data-foo="bar""#);
}

#[test]
fn data_entries_are_joined_by_one_space_in_order() {
    let mut data = attributes::data::Attribute::new();
    data.insert("b".into(), "1".into());
    data.insert("a".into(), "2".into());
    data.insert("c".into(), "3".into());
    assert_eq!(data.to_string(), r#"data-b="1" data-a="2" data-c="3""#);
}

#[test]
fn data_insert_of_a_present_key_replaces_its_value_in_place() {
    let mut data = attributes::data::Attribute::new();
    data.insert("x".into(), "1".into());
    data.insert("y".into(), "2".into());
    data.insert("x".into(), "3".into());
    assert_eq!(data.0.len(), 2);
    assert_eq!(data.0[0], ("x".to_string(), "3".to_string()));
    assert_eq!(data.0[1], ("y".to_string(), "2".to_string()));
    assert_eq!(data.to_string(), r#"data-x="3" data-y="2""#);
}

#[test]
fn data_rendering_twice_gives_the_same_text() {
    let mut data = attributes::data::Attribute::new();
    data.insert("k".into(), "v".into());
    data.insert("l".into(), "w".into());
    assert_eq!(data.to_string(), data.to_string());
}
