use bluos_api::{Browse, BrowseItem, BrowseType, Element, Fault, ItemType};

fn item(kind: Option<&str>, text: &str) -> Element {
    let mut e = Element::new("item");
    e.push_attribute("image", "/img/a.png".to_string());
    e.push_attribute("text", text.to_string());
    e.push_attribute("browseKey", "LocalMusic:bySection/1".to_string());
    if let Some(kind) = kind {
        e.push_attribute("type", kind.to_string());
    }
    e.push_attribute("playURL", "/Add?playnow=1".to_string());
    e
}

fn node(kind: Option<&str>) -> Element {
    let mut root = Element::new("browse");
    root.push_attribute("sid", "16".to_string());
    if let Some(kind) = kind {
        root.push_attribute("type", kind.to_string());
    }
    root.push_attribute("serviceName", "Library".to_string());
    root.push_attribute("nextKey", "page2".to_string());
    root.push_child(item(Some("link"), "Artists"));
    root.push_child(item(Some("audio"), "Radio"));
    root
}

fn plain_item() -> BrowseItem {
    BrowseItem {
        image: None,
        browse_key: None,
        text: None,
        text2: None,
        item_type: ItemType::Unspecified,
        play_url: None,
        autoplay_url: None,
        context_menu_key: None,
        action_url: None,
    }
}

#[test]
fn browse_decodes() {
    let browse = Browse::decode(&node(Some("menu"))).unwrap();
    assert_eq!(browse.sid, "16");
    assert_eq!(browse.browse_type, BrowseType::Menu);
    assert_eq!(browse.service_name.as_deref(), Some("Library"));
    assert_eq!(browse.service_icon, None);
    assert_eq!(browse.search_key, None);
    assert_eq!(browse.next_key.as_deref(), Some("page2"));
    assert_eq!(browse.parent_key, None);
    assert_eq!(browse.items.len(), 2);
    assert_eq!(browse.items[0].item_type, ItemType::Link);
    assert_eq!(browse.items[0].text.as_deref(), Some("Artists"));
    assert_eq!(browse.items[0].image.as_deref(), Some("/img/a.png"));
    assert_eq!(browse.items[0].browse_key.as_deref(), Some("LocalMusic:bySection/1"));
    assert_eq!(browse.items[0].play_url.as_deref(), Some("/Add?playnow=1"));
    assert_eq!(browse.items[0].autoplay_url, None);
    assert_eq!(browse.items[1].item_type, ItemType::Audio);
    assert_eq!(browse.items[1].text.as_deref(), Some("Radio"));
}

#[test]
fn unknown_browse_kind_leaves_siblings_intact() {
    let known = Browse::decode(&node(Some("menu"))).unwrap();
    let unknown = Browse::decode(&node(Some("holograms"))).unwrap();
    assert_eq!(unknown.browse_type, BrowseType::Unspecified);
    assert_eq!(unknown, Browse { browse_type: BrowseType::Unspecified, ..known });
}

#[test]
fn absent_browse_kind_is_unspecified() {
    let browse = Browse::decode(&node(None)).unwrap();
    assert_eq!(browse.browse_type, BrowseType::Unspecified);
    assert_eq!(browse.items.len(), 2);
}

#[test]
fn unknown_item_kind_leaves_siblings_intact() {
    let known = BrowseItem::decode(&item(Some("album"), "Kind of Blue")).unwrap();
    let unknown = BrowseItem::decode(&item(Some("hologram"), "Kind of Blue")).unwrap();
    let absent = BrowseItem::decode(&item(None, "Kind of Blue")).unwrap();
    assert_eq!(known.item_type, ItemType::Album);
    assert_eq!(unknown.item_type, ItemType::Unspecified);
    assert_eq!(unknown, BrowseItem { item_type: ItemType::Unspecified, ..known });
    assert_eq!(absent, unknown);
    assert_eq!(unknown.text.as_deref(), Some("Kind of Blue"));
}

#[test]
fn unknown_item_kind_inside_a_browse_result() {
    let mut root = node(Some("items"));
    root.push_child(item(Some("hologram"), "Future"));
    let browse = Browse::decode(&root).unwrap();
    assert_eq!(browse.browse_type, BrowseType::Items);
    assert_eq!(browse.items.len(), 3);
    assert_eq!(browse.items[2].item_type, ItemType::Unspecified);
    assert_eq!(browse.items[2].text.as_deref(), Some("Future"));
    assert_eq!(browse.items[0].item_type, ItemType::Link);
}

#[test]
fn any_element_decodes_as_an_item() {
    assert_eq!(BrowseItem::decode(&Element::new("item")), Ok(plain_item()));
    assert_eq!(BrowseItem::decode(&Element::with_text("whatever", "x")), Ok(plain_item()));
}

#[test]
fn browse_without_sid_fails() {
    let mut root = node(Some("menu"));
    root.attributes.remove(0);
    assert_eq!(Browse::decode(&root), Err(Fault::MissingField("sid".to_string())));
}

#[test]
fn browse_without_items_decodes() {
    let mut root = Element::new("browse");
    root.push_attribute("sid", "1".to_string());
    let browse = Browse::decode(&root).unwrap();
    assert!(browse.items.is_empty());
    assert_eq!(browse.browse_type, BrowseType::Unspecified);
}

#[test]
fn browse_of_required_fields_round_trips() {
    let browse = Browse {
        sid: "16".to_string(),
        browse_type: BrowseType::Unspecified,
        service_icon: None,
        service_name: None,
        search_key: None,
        next_key: None,
        parent_key: None,
        items: vec![],
    };
    assert_eq!(Browse::decode(&browse.encode()), Ok(browse));
}

#[test]
fn browse_with_every_field_round_trips() {
    let browse = Browse {
        sid: "16".to_string(),
        browse_type: BrowseType::ContextMenu,
        service_icon: Some("/icon.png".to_string()),
        service_name: Some("Library".to_string()),
        search_key: Some("search".to_string()),
        next_key: Some("next".to_string()),
        parent_key: Some("up".to_string()),
        items: vec![
            BrowseItem {
                image: Some("/a.png".to_string()),
                browse_key: Some("k1".to_string()),
                text: Some("Kind of Blue".to_string()),
                text2: Some("Miles Davis".to_string()),
                item_type: ItemType::Album,
                play_url: Some("/play".to_string()),
                autoplay_url: Some("/auto".to_string()),
                context_menu_key: Some("ctx".to_string()),
                action_url: Some("/act".to_string()),
            },
            plain_item(),
            BrowseItem { item_type: ItemType::Genre, text: Some("".to_string()), ..plain_item() },
        ],
    };
    assert_eq!(Browse::decode(&browse.encode()), Ok(browse.clone()));
    let element = browse.encode();
    assert_eq!(element.name, "browse");
    assert_eq!(element.field("type").map(|s| s.as_str()), Some("contextMenu"));
    assert_eq!(element.field("serviceIcon").map(|s| s.as_str()), Some("/icon.png"));
    assert_eq!(element.children[0].name, "item");
    assert_eq!(element.children[0].field("playURL").map(|s| s.as_str()), Some("/play"));
    assert_eq!(element.children[0].field("autoplayURL").map(|s| s.as_str()), Some("/auto"));
    assert_eq!(element.children[0].field("actionURL").map(|s| s.as_str()), Some("/act"));
    assert_eq!(element.children[0].field("contextMenuKey").map(|s| s.as_str()), Some("ctx"));
    assert_eq!(element.children[1].field("type").map(|s| s.as_str()), Some("none"));
}
