use bluos_api::{
    element_from_tokens, read_markup, Attribute, Browse, BrowseType, Element, Error, Fault,
    IdResponse, ItemType, Playlist, Quality, State, StateResponse, Status, SyncStatus, Token,
};

const STATUS: &str = r#"<?xml version="1.0" encoding="UTF-8" standalone="yes"?>
<status etag="4e266c9fbfba6d13d1a4d6ff4bd2e1e6">
  <actions>
    <action name="back" hide="1"/>
    <action name="skip" hide="0"/>
  </actions>
  <album>Kind of Blue</album>
  <artist>Miles Davis</artist>
  <canMovePlayback>true</canMovePlayback>
  <canSeek>1</canSeek>
  <cursor>5</cursor>
  <db>-36.9</db>
  <fn>/var/mnt/music/Miles Davis/Kind of Blue/01 So What.flac</fn>
  <image>/Artwork?service=LocalMusic&amp;fn=01%20So%20What.flac</image>
  <indexing>0</indexing>
  <mid>11</mid>
  <mode>1</mode>
  <mute>0</mute>
  <name>So What</name>
  <pid>380</pid>
  <prid>0</prid>
  <quality>cd</quality>
  <repeat>2</repeat>
  <secs>19</secs>
  <shuffle>0</shuffle>
  <sid>18</sid>
  <song>0</song>
  <state>play</state>
  <syncStat>25</syncStat>
  <title1>So What</title1>
  <title2>Miles Davis</title2>
  <title3>Kind of Blue</title3>
  <totlen>562</totlen>
  <volume>34</volume>
  <!-- firmware 3.20 -->
  <battery level="87"/>
</status>"#;

fn minimal_status(volume: &str, mute: &str, quality: &str) -> String {
    format!(
        "<status etag=\"e\"><volume>{}</volume><db>-100</db><mute>{}</mute><repeat>2</repeat>\
         <shuffle>0</shuffle><song>0</song><quality>{}</quality><mode>1</mode><pid>1</pid>\
         <prid>0</prid><sid>1</sid><state>stop</state><syncStat>1</syncStat>\
         <indexing>0</indexing><mid>0</mid></status>",
        volume, mute, quality
    )
}

fn open(name: &str, attributes: &[(&str, &str)]) -> Token {
    Token::Open {
        name: name.to_string(),
        attributes: attributes
            .iter()
            .map(|(n, v)| Attribute { name: n.to_string(), value: v.to_string() })
            .collect(),
    }
}

fn text(t: &str) -> Token {
    Token::Text(t.to_string())
}

#[test]
fn markup_is_read_into_a_tree() {
    let root = read_markup("<a x=\"1\" y=\"two\"><b>hello</b><c/><b k=\"v\">again</b></a>").unwrap();
    assert_eq!(root.name, "a");
    assert_eq!(
        root.attributes,
        vec![
            Attribute { name: "x".to_string(), value: "1".to_string() },
            Attribute { name: "y".to_string(), value: "two".to_string() },
        ]
    );
    assert_eq!(root.text, "");
    assert_eq!(root.children.len(), 3);
    assert_eq!(root.children[0], Element::with_text("b", "hello"));
    assert_eq!(root.children[1], Element::new("c"));
    assert_eq!(root.children[2].name, "b");
    assert_eq!(root.children[2].text, "again");
    assert_eq!(root.children[2].attributes[0].value, "v");
}

#[test]
fn white_space_comments_and_cdata() {
    let root = read_markup(
        "<?xml version=\"1.0\"?>\n<!-- before -->\n<a>\n  <b>  padded  </b>\n  <!-- inside -->\n  <c><![CDATA[1 < 2]]></c>\n  <d>R&amp;B &lt;live&gt;</d>\n</a>\n",
    )
    .unwrap();
    assert_eq!(root.text, "");
    assert_eq!(root.children.len(), 3);
    assert_eq!(root.children[0].text, "padded");
    assert_eq!(root.children[1].text, "1 < 2");
    assert_eq!(root.children[2].text, "R&B <live>");
}

#[test]
fn ill_formed_markup_is_unreadable() {
    for xml in ["", "   ", "plain text", "<a>", "<a><b></a>", "<a></b>", "<a x=1/>", "<a/><b/>", "<a", "</a>"] {
        match read_markup(xml) {
            Err(Fault::Unreadable(reason)) => assert!(!reason.is_empty(), "{:?}", xml),
            other => panic!("{:?} was read as {:?}", xml, other),
        }
    }
}

#[test]
fn tokens_are_put_together() {
    let tokens = vec![
        Token::Other,
        open("a", &[("x", "1")]),
        text("one "),
        open("b", &[]),
        text("inner"),
        Token::Close,
        Token::Other,
        text("two"),
        open("c", &[]),
        Token::Close,
        Token::Close,
        Token::Other,
    ];
    let mut expected = Element::new("a");
    expected.push_attribute("x", "1".to_string());
    expected.text = "one two".to_string();
    expected.push_child(Element::with_text("b", "inner"));
    expected.push_child(Element::new("c"));
    assert_eq!(element_from_tokens(&tokens), Some(expected));
}

#[test]
fn tokens_that_are_not_one_element() {
    assert_eq!(element_from_tokens(&vec![]), None);
    assert_eq!(element_from_tokens(&vec![Token::Other, Token::Other]), None);
    assert_eq!(element_from_tokens(&vec![open("a", &[])]), None);
    assert_eq!(element_from_tokens(&vec![open("a", &[]), open("b", &[]), Token::Close]), None);
    assert_eq!(element_from_tokens(&vec![Token::Close]), None);
    assert_eq!(element_from_tokens(&vec![text("x"), open("a", &[]), Token::Close]), None);
    assert_eq!(
        element_from_tokens(&vec![open("a", &[]), Token::Close, open("b", &[]), Token::Close]),
        None
    );
    assert_eq!(element_from_tokens(&vec![open("a", &[]), Token::Close, Token::Close]), None);
    assert_eq!(element_from_tokens(&vec![open("a", &[]), Token::Close, text("x")]), None);
    assert_eq!(
        element_from_tokens(&vec![Token::Other, open("a", &[]), Token::Close, Token::Other]),
        Some(Element::new("a"))
    );
}

#[test]
fn deeply_nested_tokens() {
    let depth = 200;
    let mut tokens = Vec::new();
    for _ in 0..depth {
        tokens.push(open("n", &[]));
    }
    for _ in 0..depth {
        tokens.push(Token::Close);
    }
    let mut element = element_from_tokens(&tokens).unwrap();
    let mut seen = 1;
    while let Some(child) = element.children.pop() {
        assert!(element.children.is_empty());
        element = child;
        seen += 1;
    }
    assert_eq!(seen, depth);
}

#[test]
fn status_payload_decodes() {
    let status = Status::from_payload(STATUS, "http://10.0.0.2:11000/Status").unwrap();
    assert_eq!(status.etag, "4e266c9fbfba6d13d1a4d6ff4bd2e1e6");
    assert_eq!(status.volume, 34);
    assert_eq!(status.volume_decibel, "-36.9");
    assert_eq!(status.mute, 0);
    assert_eq!(status.album.as_deref(), Some("Kind of Blue"));
    assert_eq!(status.artist.as_deref(), Some("Miles Davis"));
    assert_eq!(status.name.as_deref(), Some("So What"));
    assert_eq!(status.can_move_playback, Some(true));
    assert_eq!(status.can_seek, Some(1));
    assert_eq!(status.cursor, Some(5));
    assert_eq!(
        status.image.as_deref(),
        Some("/Artwork?service=LocalMusic&fn=01%20So%20What.flac")
    );
    assert_eq!(status.quality, Some(Quality::Cd));
    assert_eq!(status.total_length, Some(562));
    assert_eq!(status.seconds_played, Some(19));
    assert_eq!(status.state, "play");
    assert_eq!(status.player_state(), State::Play);
    assert_eq!(status.sync_stat, 25);
    assert_eq!(status.pid, 380);
    assert_eq!(status.title3.as_deref(), Some("Kind of Blue"));
    assert_eq!(status.muted_volume, None);
    assert_eq!(status.group_name, None);
    let actions = status.actions.unwrap().action;
    assert_eq!(actions.len(), 2);
    assert_eq!(actions[0].name, "back");
    assert_eq!(actions[0].hide, 1);
    assert_eq!(actions[1].name, "skip");
    assert_eq!(actions[1].hide, 0);
}

#[test]
fn status_payload_with_fixed_volume_and_bitrate() {
    let status = Status::from_payload(&minimal_status("-1", "0", "320"), "u").unwrap();
    assert_eq!(status.volume, -1);
    assert!(status.volume_is_fixed());
    assert!(!status.muted());
    assert_eq!(status.quality, Some(Quality::Compressed(320)));
}

#[test]
fn payload_faults_carry_payload_and_source() {
    let url = "http://10.0.0.2:11000/Status";
    let xml = minimal_status("loud", "0", "cd");
    assert_eq!(
        Status::from_payload(&xml, url),
        Err(Error::XMLError {
            source: Fault::InvalidValue("volume".to_string()),
            xml: xml.clone(),
            url: url.to_string(),
        })
    );
    assert_eq!(
        Status::from_payload("<status/>", url),
        Err(Error::XMLError {
            source: Fault::MissingField("etag".to_string()),
            xml: "<status/>".to_string(),
            url: url.to_string(),
        })
    );
    match Status::from_payload("<status etag=\"e\"><volume>3</volu", url) {
        Err(Error::XMLError { source: Fault::Unreadable(reason), xml, url: from }) => {
            assert!(!reason.is_empty());
            assert_eq!(xml, "<status etag=\"e\"><volume>3</volu");
            assert_eq!(from, url);
        }
        other => panic!("{:?}", other),
    }
}

#[test]
fn playlist_payload_decodes() {
    let xml = r#"<playlist name="Evening" modified="0" length="2" id="1054">
      <song id="0" service="LocalMusic" songid="12">
        <title>So What</title><art>Miles Davis</art><alb>Kind of Blue</alb>
        <fn>/music/01.flac</fn><quality>cd</quality>
      </song>
      <song id="1" service="Tidal">
        <title>Naima</title><art>John Coltrane</art><alb>Giant Steps</alb>
        <fn>Tidal:77</fn><quality>mqa</quality>
      </song>
    </playlist>"#;
    let playlist = Playlist::from_payload(xml, "u").unwrap();
    assert_eq!(playlist.id, 1054);
    assert_eq!(playlist.name.as_deref(), Some("Evening"));
    assert_eq!(playlist.modified, 0);
    assert_eq!(playlist.length, 2);
    assert_eq!(playlist.entries.len(), 2);
    assert_eq!(playlist.entries[0].song_id.as_deref(), Some("12"));
    assert_eq!(playlist.entries[0].title.as_deref(), Some("So What"));
    assert_eq!(playlist.entries[1].id, 1);
    assert_eq!(playlist.entries[1].service.as_deref(), Some("Tidal"));
    assert_eq!(playlist.entries[1].quality, Some(Quality::Mqa));
    assert_eq!(playlist.entries[1].alb.as_deref(), Some("Giant Steps"));
}

#[test]
fn browse_payload_with_unknown_kinds_decodes() {
    let xml = r#"<browse sid="16" type="holograms" serviceName="Library">
      <item image="/a.png" text="Artists" browseKey="k1" type="link"/>
      <item text="Tomorrow" type="hologram" playURL="/Play?x=1&amp;y=2"/>
      <item text="Plain"/>
    </browse>"#;
    let browse = Browse::from_payload(xml, "u").unwrap();
    assert_eq!(browse.sid, "16");
    assert_eq!(browse.browse_type, BrowseType::Unspecified);
    assert_eq!(browse.service_name.as_deref(), Some("Library"));
    assert_eq!(browse.items.len(), 3);
    assert_eq!(browse.items[0].item_type, ItemType::Link);
    assert_eq!(browse.items[0].browse_key.as_deref(), Some("k1"));
    assert_eq!(browse.items[1].item_type, ItemType::Unspecified);
    assert_eq!(browse.items[1].text.as_deref(), Some("Tomorrow"));
    assert_eq!(browse.items[1].play_url.as_deref(), Some("/Play?x=1&y=2"));
    assert_eq!(browse.items[2].item_type, ItemType::Unspecified);
    assert_eq!(browse.items[2].text.as_deref(), Some("Plain"));
}

#[test]
fn sync_status_payload_decodes() {
    let xml = r#"<SyncStatus icon="/images/players/N125_nt.png" db="-17.1" volume="29"
        brand="Bluesound" etag="23" schemaVersion="25" initialized="true" group="Downstairs"
        syncStat="23" id="192.168.1.20:11000" mac="90:56:82:3F:00:11" name="Kitchen"
        modelName="NODE 2i" model="N125"></SyncStatus>"#;
    let player = SyncStatus::from_payload(xml, "u").unwrap();
    assert_eq!(player.mac, "90:56:82:3F:00:11");
    assert_eq!(player.id, "192.168.1.20:11000");
    assert_eq!(player.brand, "Bluesound");
    assert_eq!(player.db, "-17.1");
    assert_eq!(player.volume, 29);
    assert_eq!(player.group.as_deref(), Some("Downstairs"));
    assert_eq!(player.icon, "/images/players/N125_nt.png");
    assert_eq!(player.model, "N125");
    assert_eq!(player.model_name, "NODE 2i");
    assert_eq!(player.name, "Kitchen");
    assert_eq!(player.schema_version, "25");
}

#[test]
fn leaf_payloads_decode() {
    assert_eq!(
        StateResponse::from_payload("<state>pause</state>", "u"),
        Ok(StateResponse { state: State::Pause })
    );
    assert_eq!(
        StateResponse::from_payload("<state>hovering</state>", "u"),
        Ok(StateResponse { state: State::Unspecified })
    );
    assert_eq!(IdResponse::from_payload("<id>7</id>", "u"), Ok(IdResponse { id: Some(7) }));
    assert_eq!(IdResponse::from_payload("<id/>", "u"), Ok(IdResponse { id: None }));
    assert_eq!(
        IdResponse::from_payload("<id>seven</id>", "u"),
        Err(Error::XMLError {
            source: Fault::InvalidValue("id".to_string()),
            xml: "<id>seven</id>".to_string(),
            url: "u".to_string(),
        })
    );
    assert!(StateResponse::from_payload("<state>play", "u").is_err());
}
