use bluos_api::{BrowseType, ItemType, Quality, State};

#[test]
fn named_categories_resolve_to_their_variants() {
    assert_eq!(Quality::from("cd".to_string()), Quality::Cd);
    assert_eq!(Quality::from("hd".to_string()), Quality::Hd);
    assert_eq!(Quality::from("dolbyAudio".to_string()), Quality::DolbyAudio);
    assert_eq!(Quality::from("mqa".to_string()), Quality::Mqa);
    assert_eq!(Quality::from("mqaAuthored".to_string()), Quality::MqaAuthored);
}

#[test]
fn numerals_resolve_to_bitrates() {
    assert_eq!(Quality::from("320".to_string()), Quality::Compressed(320));
    assert_eq!(Quality::from("0".to_string()), Quality::Compressed(0));
    assert_eq!(Quality::from("128000".to_string()), Quality::Compressed(128000));
    assert_eq!(Quality::from("+96".to_string()), Quality::Compressed(96));
    assert_eq!(Quality::from("-1".to_string()), Quality::Compressed(-1));
    assert_eq!(
        Quality::from("9223372036854775807".to_string()),
        Quality::Compressed(i64::MAX)
    );
    assert_eq!(
        Quality::from("-9223372036854775808".to_string()),
        Quality::Compressed(i64::MIN)
    );
}

#[test]
fn category_match_is_case_sensitive() {
    assert_eq!(Quality::from("CD".to_string()), Quality::Compressed(0));
    assert_eq!(Quality::from("dolbyaudio".to_string()), Quality::Compressed(0));
    assert_eq!(Quality::from("MQA".to_string()), Quality::Compressed(0));
}

#[test]
fn unreadable_quality_falls_back_to_bitrate_zero() {
    assert_eq!(Quality::from("".to_string()), Quality::Compressed(0));
    assert_eq!(Quality::from("lossless".to_string()), Quality::Compressed(0));
    assert_eq!(Quality::from("320k".to_string()), Quality::Compressed(0));
    assert_eq!(Quality::from(" 320".to_string()), Quality::Compressed(0));
    assert_eq!(Quality::from("3.5".to_string()), Quality::Compressed(0));
    assert_eq!(
        Quality::from("9223372036854775808".to_string()),
        Quality::Compressed(0)
    );
    assert_eq!(
        Quality::from("99999999999999999999999999".to_string()),
        Quality::Compressed(0)
    );
}

#[test]
fn from_token_tells_fallback_from_zero() {
    assert_eq!(Quality::from_token("0"), Some(Quality::Compressed(0)));
    assert_eq!(Quality::from_token("zero"), None);
    assert_eq!(Quality::from_token(""), None);
    assert_eq!(Quality::from_token("cd"), Some(Quality::Cd));
    assert_eq!(Quality::from_token("320"), Some(Quality::Compressed(320)));
}

#[test]
fn quality_tokens_read_back() {
    let all = [
        Quality::Cd,
        Quality::Hd,
        Quality::DolbyAudio,
        Quality::Mqa,
        Quality::MqaAuthored,
        Quality::Compressed(0),
        Quality::Compressed(320),
        Quality::Compressed(-7),
        Quality::Compressed(i64::MAX),
        Quality::Compressed(i64::MIN),
    ];
    for q in all {
        assert_eq!(Quality::from(q.token()), q);
    }
    assert_eq!(Quality::DolbyAudio.token(), "dolbyAudio");
    assert_eq!(Quality::Compressed(320).token(), "320");
}

#[test]
fn state_tokens() {
    assert_eq!(State::from_token("stop"), State::Stop);
    assert_eq!(State::from_token("play"), State::Play);
    assert_eq!(State::from_token("pause"), State::Pause);
    assert_eq!(State::from_token("stream"), State::Stream);
    assert_eq!(State::from_token("connecting"), State::Connecting);
    assert_eq!(State::from_token("rewinding"), State::Unspecified);
    assert_eq!(State::from_token("Play"), State::Unspecified);
    assert_eq!(State::from_token(""), State::Unspecified);
    assert_eq!(State::Pause.token(), "pause");
}

#[test]
fn browse_type_tokens() {
    let all = [
        (BrowseType::Menu, "menu"),
        (BrowseType::ContextMenu, "contextMenu"),
        (BrowseType::Artists, "artists"),
        (BrowseType::Composers, "composers"),
        (BrowseType::Albums, "albums"),
        (BrowseType::Playlists, "playlists"),
        (BrowseType::Tracks, "tracks"),
        (BrowseType::Genres, "genres"),
        (BrowseType::Sections, "sections"),
        (BrowseType::Items, "items"),
        (BrowseType::Folders, "folders"),
        (BrowseType::Unspecified, "none"),
    ];
    for (kind, token) in all {
        assert_eq!(kind.token(), token);
        assert_eq!(BrowseType::from_token(token), kind);
    }
    assert_eq!(BrowseType::from_token("podcasts"), BrowseType::Unspecified);
    assert_eq!(BrowseType::from_token("contextmenu"), BrowseType::Unspecified);
}

#[test]
fn item_type_tokens() {
    let all = [
        (ItemType::Link, "link"),
        (ItemType::Audio, "audio"),
        (ItemType::Artist, "artist"),
        (ItemType::Composer, "composer"),
        (ItemType::Album, "album"),
        (ItemType::Playlist, "playlist"),
        (ItemType::Track, "track"),
        (ItemType::Text, "text"),
        (ItemType::Section, "section"),
        (ItemType::Folder, "folder"),
        (ItemType::Genre, "genre"),
        (ItemType::Unspecified, "none"),
    ];
    for (kind, token) in all {
        assert_eq!(kind.token(), token);
        assert_eq!(ItemType::from_token(token), kind);
    }
    assert_eq!(ItemType::from_token("video"), ItemType::Unspecified);
}

#[test]
fn defaults_are_unspecified() {
    assert_eq!(BrowseType::default(), BrowseType::Unspecified);
    assert_eq!(ItemType::default(), ItemType::Unspecified);
}
