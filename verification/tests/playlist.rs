use bluos_api::{Element, Fault, IdResponse, Playlist, PlaylistEntry, Quality, State, StateResponse};

fn song(id: &str, title: &str) -> Element {
    let mut e = Element::new("song");
    e.push_attribute("id", id.to_string());
    e.push_attribute("service", "LocalMusic".to_string());
    e.push_child(Element::with_text("title", title));
    e.push_child(Element::with_text("art", "Miles Davis"));
    e.push_child(Element::with_text("alb", "Kind of Blue"));
    e.push_child(Element::with_text("fn", "/music/a.flac"));
    e.push_child(Element::with_text("quality", "cd"));
    e
}

fn queue() -> Element {
    let mut root = Element::new("playlist");
    root.push_attribute("name", "Evening".to_string());
    root.push_attribute("modified", "0".to_string());
    root.push_attribute("length", "2".to_string());
    root.push_attribute("id", "1054".to_string());
    root.push_child(song("0", "So What"));
    root.push_child(song("1", "Freddie Freeloader"));
    root
}

fn entry(id: i64) -> PlaylistEntry {
    PlaylistEntry {
        id,
        song_id: None,
        album_id: None,
        artist_id: None,
        service: None,
        title: None,
        art: None,
        alb: None,
        filename: None,
        quality: None,
    }
}

#[test]
fn queue_decodes_in_order() {
    let playlist = Playlist::decode(&queue()).unwrap();
    assert_eq!(playlist.id, 1054);
    assert_eq!(playlist.name.as_deref(), Some("Evening"));
    assert_eq!(playlist.modified, 0);
    assert_eq!(playlist.length, 2);
    assert_eq!(playlist.entries.len(), 2);
    assert_eq!(playlist.entries[0].id, 0);
    assert_eq!(playlist.entries[0].title.as_deref(), Some("So What"));
    assert_eq!(playlist.entries[0].service.as_deref(), Some("LocalMusic"));
    assert_eq!(playlist.entries[0].art.as_deref(), Some("Miles Davis"));
    assert_eq!(playlist.entries[0].alb.as_deref(), Some("Kind of Blue"));
    assert_eq!(playlist.entries[0].filename.as_deref(), Some("/music/a.flac"));
    assert_eq!(playlist.entries[0].quality, Some(Quality::Cd));
    assert_eq!(playlist.entries[0].song_id, None);
    assert_eq!(playlist.entries[1].id, 1);
    assert_eq!(playlist.entries[1].title.as_deref(), Some("Freddie Freeloader"));
}

#[test]
fn empty_queue_decodes() {
    let mut root = Element::new("playlist");
    root.push_attribute("modified", "1".to_string());
    root.push_attribute("length", "0".to_string());
    root.push_attribute("id", "9".to_string());
    let playlist = Playlist::decode(&root).unwrap();
    assert_eq!(
        playlist,
        Playlist { id: 9, name: None, modified: 1, length: 0, entries: vec![] }
    );
}

#[test]
fn children_of_other_names_are_passed_over() {
    let mut root = queue();
    root.children.insert(1, Element::with_text("advert", "buy more"));
    let playlist = Playlist::decode(&root).unwrap();
    assert_eq!(playlist.entries.len(), 2);
    assert_eq!(playlist.entries[1].id, 1);
}

#[test]
fn queue_faults() {
    let mut root = queue();
    root.attributes.remove(3);
    assert_eq!(Playlist::decode(&root), Err(Fault::MissingField("id".to_string())));
    let mut root = queue();
    root.attributes[2].value = "two".to_string();
    assert_eq!(Playlist::decode(&root), Err(Fault::InvalidValue("length".to_string())));
    let mut root = queue();
    root.children[1].attributes.remove(0);
    assert_eq!(Playlist::decode(&root), Err(Fault::MissingField("id".to_string())));
    let mut root = queue();
    root.children[0].attributes[0].value = "first".to_string();
    assert_eq!(Playlist::decode(&root), Err(Fault::InvalidValue("id".to_string())));
}

#[test]
fn entry_decodes_alone() {
    let e = PlaylistEntry::decode(&song("5", "Blue in Green")).unwrap();
    assert_eq!(e.id, 5);
    assert_eq!(e.title.as_deref(), Some("Blue in Green"));
    assert_eq!(
        PlaylistEntry::decode(&Element::new("song")),
        Err(Fault::MissingField("id".to_string()))
    );
}

#[test]
fn queue_of_required_fields_round_trips() {
    let playlist = Playlist {
        id: 3,
        name: None,
        modified: 0,
        length: 2,
        entries: vec![entry(0), entry(1)],
    };
    assert_eq!(Playlist::decode(&playlist.encode()), Ok(playlist.clone()));
    let element = playlist.encode();
    assert_eq!(element.name, "playlist");
    assert_eq!(element.children.len(), 2);
    assert_eq!(element.children[1].name, "song");
    assert_eq!(element.children[1].field("id").map(|s| s.as_str()), Some("1"));
}

#[test]
fn queue_with_every_field_round_trips() {
    let playlist = Playlist {
        id: -3,
        name: Some("Evening <&> \"night\"".to_string()),
        modified: 1,
        length: 1,
        entries: vec![PlaylistEntry {
            id: 0,
            song_id: Some("171".to_string()),
            album_id: Some("15".to_string()),
            artist_id: Some("4".to_string()),
            service: Some("Tidal".to_string()),
            title: Some("All Blues".to_string()),
            art: Some("Miles Davis".to_string()),
            alb: Some("Kind of Blue".to_string()),
            filename: Some("Tidal:171".to_string()),
            quality: Some(Quality::Compressed(320)),
        }],
    };
    assert_eq!(Playlist::decode(&playlist.encode()), Ok(playlist.clone()));
    let song = &playlist.encode().children[0];
    assert_eq!(song.field("songid").map(|s| s.as_str()), Some("171"));
    assert_eq!(song.field("albumid").map(|s| s.as_str()), Some("15"));
    assert_eq!(song.field("artistid").map(|s| s.as_str()), Some("4"));
    assert_eq!(song.field("quality").map(|s| s.as_str()), Some("320"));
}

#[test]
fn state_response() {
    assert_eq!(
        StateResponse::decode(&Element::with_text("state", "play")),
        StateResponse { state: State::Play }
    );
    assert_eq!(
        StateResponse::decode(&Element::with_text("state", "stream")),
        StateResponse { state: State::Stream }
    );
    assert_eq!(
        StateResponse::decode(&Element::with_text("state", "warp")),
        StateResponse { state: State::Unspecified }
    );
    for state in [State::Stop, State::Play, State::Pause, State::Stream, State::Connecting, State::Unspecified] {
        let value = StateResponse { state };
        assert_eq!(StateResponse::decode(&value.encode()), value);
    }
    assert_eq!(StateResponse { state: State::Pause }.encode().text, "pause");
}

#[test]
fn id_response() {
    assert_eq!(
        IdResponse::decode(&Element::with_text("id", "12")),
        Ok(IdResponse { id: Some(12) })
    );
    assert_eq!(IdResponse::decode(&Element::new("id")), Ok(IdResponse { id: None }));
    assert_eq!(
        IdResponse::decode(&Element::with_text("id", "twelve")),
        Err(Fault::InvalidValue("id".to_string()))
    );
    for id in [None, Some(0), Some(-4), Some(i64::MAX)] {
        let value = IdResponse { id };
        assert_eq!(IdResponse::decode(&value.encode()), Ok(value));
    }
    assert_eq!(IdResponse { id: Some(31) }.encode().text, "31");
    assert_eq!(IdResponse { id: None }.encode().text, "");
}
