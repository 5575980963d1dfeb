use bluos_api::{Attribute, Element};

fn sample() -> Element {
    let mut root = Element::new("status");
    root.push_attribute("etag", "abc".to_string());
    root.push_attribute("volume", "11".to_string());
    root.push_attribute("etag", "later".to_string());
    root.push_child(Element::with_text("volume", "22"));
    root.push_child(Element::with_text("state", "play"));
    root.push_child(Element::with_text("state", "pause"));
    root
}

#[test]
fn new_element_is_empty() {
    let e = Element::new("browse");
    assert_eq!(e.name, "browse");
    assert!(e.attributes.is_empty());
    assert_eq!(e.text, "");
    assert!(e.children.is_empty());
}

#[test]
fn with_text_is_a_leaf() {
    let e = Element::with_text("title", "So What");
    assert_eq!(e.name, "title");
    assert_eq!(e.text, "So What");
    assert!(e.attributes.is_empty());
    assert!(e.children.is_empty());
}

#[test]
fn push_keeps_document_order() {
    let root = sample();
    assert_eq!(root.attributes.len(), 3);
    assert_eq!(root.attributes[0].name, "etag");
    assert_eq!(root.attributes[0].value, "abc");
    assert_eq!(root.attributes[2].value, "later");
    assert_eq!(root.children.len(), 3);
    assert_eq!(root.children[0].name, "volume");
    assert_eq!(root.children[2].text, "pause");
}

#[test]
fn attribute_finds_the_first_of_a_name() {
    let root = sample();
    assert_eq!(root.attribute("etag").map(|s| s.as_str()), Some("abc"));
    assert_eq!(root.attribute("volume").map(|s| s.as_str()), Some("11"));
    assert_eq!(root.attribute("state"), None);
    assert_eq!(root.attribute("Etag"), None);
}

#[test]
fn child_finds_the_first_of_a_name() {
    let root = sample();
    assert_eq!(root.child("state").map(|c| c.text.as_str()), Some("play"));
    assert_eq!(root.child("volume").map(|c| c.text.as_str()), Some("22"));
    assert!(root.child("etag").is_none());
}

#[test]
fn field_prefers_the_attribute() {
    let root = sample();
    assert_eq!(root.field("volume").map(|s| s.as_str()), Some("11"));
    assert_eq!(root.field("state").map(|s| s.as_str()), Some("play"));
    assert_eq!(root.field("etag").map(|s| s.as_str()), Some("abc"));
    assert_eq!(root.field("mute"), None);
}

#[test]
fn elements_can_be_written_out_by_hand() {
    let e = Element {
        name: "item".to_string(),
        attributes: vec![Attribute { name: "text".to_string(), value: "Jazz".to_string() }],
        text: String::new(),
        children: vec![],
    };
    assert_eq!(e.field("text").map(|s| s.as_str()), Some("Jazz"));
}
