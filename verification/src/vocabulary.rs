//! The vocabularies of the protocol and how their wire tokens are resolved.
//! Resolving never fails: a text that is no token of a vocabulary resolves
//! to the vocabulary's unspecified variant, and a quality that is neither a
//! category nor a numeral resolves to bitrate zero.
use crate::text::{
    all_digits, digits_value, is_digit, lemma_digits_of, lemma_numeral_round_trip, numeral_of,
    numeral_value, parse_i64, render_i64, same_text, signature, spec_parse_i64,
};
use vstd::prelude::*;
use vstd::std_specs::convert::FromSpecImpl;
use vstd::string::*;

verus! {

/// What the player is doing.
#[derive(Debug, Clone, Copy, PartialEq, Eq, Structural)]
pub enum State {
    Stop,
    Play,
    Pause,
    Stream,
    Connecting,
    /// A state this library does not know.
    Unspecified,
}

/// Fidelity of the playing source: a named category, or the approximate
/// bitrate of a compressed source.
#[derive(Debug, Clone, Copy, PartialEq, Eq, Structural)]
pub enum Quality {
    /// Lossless audio at CD quality.
    Cd,
    /// Lossless audio at a higher resolution than CD quality.
    Hd,
    /// DolbyDigital or AC3.
    DolbyAudio,
    /// Valid MQA audio decoded.
    Mqa,
    /// Valid MQA-Authored audio decoded.
    MqaAuthored,
    /// The approximate bitrate of a compressed source.
    Compressed(i64),
}

/// What kind of list a browse result is.
#[derive(Debug, Clone, Copy, PartialEq, Eq, Structural)]
pub enum BrowseType {
    /// A navigation node that may hold items of any kind.
    Menu,
    ContextMenu,
    Artists,
    Composers,
    Albums,
    Playlists,
    Tracks,
    Genres,
    /// Alphabetic sections.
    Sections,
    /// A generic result list.
    Items,
    /// May hold subfolders, tracks and playlists.
    Folders,
    /// No kind was given, or one this library does not know.
    Unspecified,
}

/// What kind of thing a browse item is.
#[derive(Debug, Clone, Copy, PartialEq, Eq, Structural)]
pub enum ItemType {
    /// A node that leads to further nodes.
    Link,
    /// A node that can be played directly.
    Audio,
    Artist,
    Composer,
    Album,
    Playlist,
    Track,
    /// A plain text node.
    Text,
    /// An alphabetic section.
    Section,
    Folder,
    Genre,
    /// No kind was given, or one this library does not know.
    Unspecified,
}

/// The state that a token names.
pub open spec fn state_of(token: Seq<char>) -> State {
    if token == "stop"@ {
        State::Stop
    } else if token == "play"@ {
        State::Play
    } else if token == "pause"@ {
        State::Pause
    } else if token == "stream"@ {
        State::Stream
    } else if token == "connecting"@ {
        State::Connecting
    } else {
        State::Unspecified
    }
}

/// The token that names a state.
pub open spec fn state_token(state: State) -> Seq<char> {
    match state {
        State::Stop => "stop"@,
        State::Play => "play"@,
        State::Pause => "pause"@,
        State::Stream => "stream"@,
        State::Connecting => "connecting"@,
        State::Unspecified => "none"@,
    }
}

/// The named category that a token names, if it names one. The match is
/// exact and case-sensitive.
pub open spec fn named_quality(token: Seq<char>) -> Option<Quality> {
    if token == "cd"@ {
        Some(Quality::Cd)
    } else if token == "hd"@ {
        Some(Quality::Hd)
    } else if token == "dolbyAudio"@ {
        Some(Quality::DolbyAudio)
    } else if token == "mqa"@ {
        Some(Quality::Mqa)
    } else if token == "mqaAuthored"@ {
        Some(Quality::MqaAuthored)
    } else {
        None
    }
}

/// The quality that a token states: its named category, or else the bitrate
/// that it is the numeral of. `None` for a token that is neither.
pub open spec fn stated_quality(token: Seq<char>) -> Option<Quality> {
    match named_quality(token) {
        Some(q) => Some(q),
        None => match spec_parse_i64(token) {
            Some(rate) => Some(Quality::Compressed(rate)),
            None => None,
        },
    }
}

/// The quality that a token resolves to: what it states, and bitrate zero
/// where it states nothing.
pub open spec fn quality_of(token: Seq<char>) -> Quality {
    match stated_quality(token) {
        Some(q) => q,
        None => Quality::Compressed(0),
    }
}

/// The token that is written for a quality.
pub open spec fn quality_token(quality: Quality) -> Seq<char> {
    match quality {
        Quality::Cd => "cd"@,
        Quality::Hd => "hd"@,
        Quality::DolbyAudio => "dolbyAudio"@,
        Quality::Mqa => "mqa"@,
        Quality::MqaAuthored => "mqaAuthored"@,
        Quality::Compressed(rate) => numeral_of(rate as int),
    }
}

/// The kind of list that a token names.
pub open spec fn browse_type_of(token: Seq<char>) -> BrowseType {
    if token == "menu"@ {
        BrowseType::Menu
    } else if token == "contextMenu"@ {
        BrowseType::ContextMenu
    } else if token == "artists"@ {
        BrowseType::Artists
    } else if token == "composers"@ {
        BrowseType::Composers
    } else if token == "albums"@ {
        BrowseType::Albums
    } else if token == "playlists"@ {
        BrowseType::Playlists
    } else if token == "tracks"@ {
        BrowseType::Tracks
    } else if token == "genres"@ {
        BrowseType::Genres
    } else if token == "sections"@ {
        BrowseType::Sections
    } else if token == "items"@ {
        BrowseType::Items
    } else if token == "folders"@ {
        BrowseType::Folders
    } else {
        BrowseType::Unspecified
    }
}

/// The token that names a kind of list.
pub open spec fn browse_type_token(kind: BrowseType) -> Seq<char> {
    match kind {
        BrowseType::Menu => "menu"@,
        BrowseType::ContextMenu => "contextMenu"@,
        BrowseType::Artists => "artists"@,
        BrowseType::Composers => "composers"@,
        BrowseType::Albums => "albums"@,
        BrowseType::Playlists => "playlists"@,
        BrowseType::Tracks => "tracks"@,
        BrowseType::Genres => "genres"@,
        BrowseType::Sections => "sections"@,
        BrowseType::Items => "items"@,
        BrowseType::Folders => "folders"@,
        BrowseType::Unspecified => "none"@,
    }
}

/// The kind of item that a token names.
pub open spec fn item_type_of(token: Seq<char>) -> ItemType {
    if token == "link"@ {
        ItemType::Link
    } else if token == "audio"@ {
        ItemType::Audio
    } else if token == "artist"@ {
        ItemType::Artist
    } else if token == "composer"@ {
        ItemType::Composer
    } else if token == "album"@ {
        ItemType::Album
    } else if token == "playlist"@ {
        ItemType::Playlist
    } else if token == "track"@ {
        ItemType::Track
    } else if token == "text"@ {
        ItemType::Text
    } else if token == "section"@ {
        ItemType::Section
    } else if token == "folder"@ {
        ItemType::Folder
    } else if token == "genre"@ {
        ItemType::Genre
    } else {
        ItemType::Unspecified
    }
}

/// The token that names a kind of item.
pub open spec fn item_type_token(kind: ItemType) -> Seq<char> {
    match kind {
        ItemType::Link => "link"@,
        ItemType::Audio => "audio"@,
        ItemType::Artist => "artist"@,
        ItemType::Composer => "composer"@,
        ItemType::Album => "album"@,
        ItemType::Playlist => "playlist"@,
        ItemType::Track => "track"@,
        ItemType::Text => "text"@,
        ItemType::Section => "section"@,
        ItemType::Folder => "folder"@,
        ItemType::Genre => "genre"@,
        ItemType::Unspecified => "none"@,
    }
}

impl State {
    /// Resolves a wire token.
    pub fn from_token(token: &str) -> (r: State)
        ensures
            r == state_of(token@),
    {
        if same_text(token, "stop") {
            State::Stop
        } else if same_text(token, "play") {
            State::Play
        } else if same_text(token, "pause") {
            State::Pause
        } else if same_text(token, "stream") {
            State::Stream
        } else if same_text(token, "connecting") {
            State::Connecting
        } else {
            State::Unspecified
        }
    }

    /// The wire token of this state.
    pub fn token(&self) -> (r: &'static str)
        ensures
            r@ == state_token(*self),
    {
        match self {
            State::Stop => "stop",
            State::Play => "play",
            State::Pause => "pause",
            State::Stream => "stream",
            State::Connecting => "connecting",
            State::Unspecified => "none",
        }
    }
}

impl Quality {
    /// What a wire token states, or `None` where it is neither a named
    /// category nor a numeral: the case that [`Quality::from`] turns into
    /// bitrate zero.
    pub fn from_token(token: &str) -> (r: Option<Quality>)
        ensures
            r == stated_quality(token@),
    {
        if same_text(token, "cd") {
            Some(Quality::Cd)
        } else if same_text(token, "hd") {
            Some(Quality::Hd)
        } else if same_text(token, "dolbyAudio") {
            Some(Quality::DolbyAudio)
        } else if same_text(token, "mqa") {
            Some(Quality::Mqa)
        } else if same_text(token, "mqaAuthored") {
            Some(Quality::MqaAuthored)
        } else {
            match parse_i64(token) {
                Some(rate) => Some(Quality::Compressed(rate)),
                None => None,
            }
        }
    }

    /// The wire token of this quality.
    pub fn token(&self) -> (r: String)
        ensures
            r@ == quality_token(*self),
    {
        match self {
            Quality::Cd => String::from_str("cd"),
            Quality::Hd => String::from_str("hd"),
            Quality::DolbyAudio => String::from_str("dolbyAudio"),
            Quality::Mqa => String::from_str("mqa"),
            Quality::MqaAuthored => String::from_str("mqaAuthored"),
            Quality::Compressed(rate) => render_i64(*rate),
        }
    }
}

impl From<String> for Quality {
    /// Resolves a wire token; a token that states nothing resolves to
    /// bitrate zero.
    fn from(s: String) -> (r: Quality) {
        match Quality::from_token(s.as_str()) {
            Some(q) => q,
            None => Quality::Compressed(0),
        }
    }
}

impl FromSpecImpl<String> for Quality {
    open spec fn obeys_from_spec() -> bool {
        true
    }

    open spec fn from_spec(v: String) -> Quality {
        quality_of(v@)
    }
}

impl BrowseType {
    /// Resolves a wire token.
    pub fn from_token(token: &str) -> (r: BrowseType)
        ensures
            r == browse_type_of(token@),
    {
        if same_text(token, "menu") {
            BrowseType::Menu
        } else if same_text(token, "contextMenu") {
            BrowseType::ContextMenu
        } else if same_text(token, "artists") {
            BrowseType::Artists
        } else if same_text(token, "composers") {
            BrowseType::Composers
        } else if same_text(token, "albums") {
            BrowseType::Albums
        } else if same_text(token, "playlists") {
            BrowseType::Playlists
        } else if same_text(token, "tracks") {
            BrowseType::Tracks
        } else if same_text(token, "genres") {
            BrowseType::Genres
        } else if same_text(token, "sections") {
            BrowseType::Sections
        } else if same_text(token, "items") {
            BrowseType::Items
        } else if same_text(token, "folders") {
            BrowseType::Folders
        } else {
            BrowseType::Unspecified
        }
    }

    /// The wire token of this kind.
    pub fn token(&self) -> (r: &'static str)
        ensures
            r@ == browse_type_token(*self),
    {
        match self {
            BrowseType::Menu => "menu",
            BrowseType::ContextMenu => "contextMenu",
            BrowseType::Artists => "artists",
            BrowseType::Composers => "composers",
            BrowseType::Albums => "albums",
            BrowseType::Playlists => "playlists",
            BrowseType::Tracks => "tracks",
            BrowseType::Genres => "genres",
            BrowseType::Sections => "sections",
            BrowseType::Items => "items",
            BrowseType::Folders => "folders",
            BrowseType::Unspecified => "none",
        }
    }
}

impl Default for BrowseType {
    fn default() -> (r: Self)
        ensures
            r == BrowseType::Unspecified,
    {
        Self::Unspecified
    }
}

impl ItemType {
    /// Resolves a wire token.
    pub fn from_token(token: &str) -> (r: ItemType)
        ensures
            r == item_type_of(token@),
    {
        if same_text(token, "link") {
            ItemType::Link
        } else if same_text(token, "audio") {
            ItemType::Audio
        } else if same_text(token, "artist") {
            ItemType::Artist
        } else if same_text(token, "composer") {
            ItemType::Composer
        } else if same_text(token, "album") {
            ItemType::Album
        } else if same_text(token, "playlist") {
            ItemType::Playlist
        } else if same_text(token, "track") {
            ItemType::Track
        } else if same_text(token, "text") {
            ItemType::Text
        } else if same_text(token, "section") {
            ItemType::Section
        } else if same_text(token, "folder") {
            ItemType::Folder
        } else if same_text(token, "genre") {
            ItemType::Genre
        } else {
            ItemType::Unspecified
        }
    }

    /// The wire token of this kind.
    pub fn token(&self) -> (r: &'static str)
        ensures
            r@ == item_type_token(*self),
    {
        match self {
            ItemType::Link => "link",
            ItemType::Audio => "audio",
            ItemType::Artist => "artist",
            ItemType::Composer => "composer",
            ItemType::Album => "album",
            ItemType::Playlist => "playlist",
            ItemType::Track => "track",
            ItemType::Text => "text",
            ItemType::Section => "section",
            ItemType::Folder => "folder",
            ItemType::Genre => "genre",
            ItemType::Unspecified => "none",
        }
    }
}

impl Default for ItemType {
    fn default() -> (r: Self)
        ensures
            r == ItemType::Unspecified,
    {
        Self::Unspecified
    }
}

/// What the five category tokens hold, character by character.
proof fn lemma_quality_literals()
    ensures
        "cd"@ == seq!['c', 'd'],
        "hd"@ == seq!['h', 'd'],
        "dolbyAudio"@.len() == 10,
        "dolbyAudio"@[0] == 'd',
        "mqa"@ == seq!['m', 'q', 'a'],
        "mqaAuthored"@.len() == 11,
        "mqaAuthored"@[0] == 'm',
{
    reveal_strlit("cd");
    reveal_strlit("hd");
    reveal_strlit("dolbyAudio");
    reveal_strlit("mqa");
    reveal_strlit("mqaAuthored");
    assert("cd"@ =~= seq!['c', 'd']);
    assert("hd"@ =~= seq!['h', 'd']);
    assert("mqa"@ =~= seq!['m', 'q', 'a']);
}

/// Each of the five category tokens resolves to its own category.
pub proof fn law_category_tokens()
    ensures
        quality_of("cd"@) == Quality::Cd,
        quality_of("hd"@) == Quality::Hd,
        quality_of("dolbyAudio"@) == Quality::DolbyAudio,
        quality_of("mqa"@) == Quality::Mqa,
        quality_of("mqaAuthored"@) == Quality::MqaAuthored,
{
    lemma_quality_literals();
}

/// A token made of decimal digits, whose number fits in 64 bits, resolves to
/// the bitrate of that number.
pub proof fn law_bitrate_token(token: Seq<char>)
    requires
        token.len() > 0,
        all_digits(token),
        digits_value(token) <= i64::MAX,
    ensures
        quality_of(token) == Quality::Compressed(digits_value(token) as i64),
{
    lemma_quality_literals();
    assert(is_digit(token[0]));
    assert(named_quality(token) is None);
    crate::text::lemma_prefix_value(token, 0);
    assert(numeral_value(token) == Some(digits_value(token)));
}

/// Writing a quality and resolving the token gives the quality back.
pub proof fn law_quality_round_trip(quality: Quality)
    ensures
        stated_quality(quality_token(quality)) == Some(quality),
        quality_of(quality_token(quality)) == quality,
{
    lemma_quality_literals();
    match quality {
        Quality::Compressed(rate) => {
            let token = numeral_of(rate as int);
            lemma_numeral_round_trip(rate as int);
            if rate < 0 {
                assert(token[0] == '-');
            } else {
                lemma_digits_of(rate as nat);
                assert(is_digit(token[0]));
            }
            assert(named_quality(token) is None);
        },
        _ => {},
    }
}

/// The tokens of the states differ in their signatures.
proof fn lemma_state_tokens()
    ensures
        signature("stop"@) == (4nat, 's', 't', 'p'),
        signature("play"@) == (4nat, 'p', 'l', 'y'),
        signature("pause"@) == (5nat, 'p', 'a', 'e'),
        signature("stream"@) == (6nat, 's', 't', 'm'),
        signature("connecting"@) == (10nat, 'c', 'o', 'g'),
        signature("none"@) == (4nat, 'n', 'o', 'e'),
{
    reveal_strlit("stop");
    reveal_strlit("play");
    reveal_strlit("pause");
    reveal_strlit("stream");
    reveal_strlit("connecting");
    reveal_strlit("none");
}

/// The tokens of the kinds of list differ in their signatures.
proof fn lemma_browse_type_tokens()
    ensures
        signature("menu"@) == (4nat, 'm', 'e', 'u'),
        signature("contextMenu"@) == (11nat, 'c', 'o', 'u'),
        signature("artists"@) == (7nat, 'a', 'r', 's'),
        signature("composers"@) == (9nat, 'c', 'o', 's'),
        signature("albums"@) == (6nat, 'a', 'l', 's'),
        signature("playlists"@) == (9nat, 'p', 'l', 's'),
        signature("tracks"@) == (6nat, 't', 'r', 's'),
        signature("genres"@) == (6nat, 'g', 'e', 's'),
        signature("sections"@) == (8nat, 's', 'e', 's'),
        signature("items"@) == (5nat, 'i', 't', 's'),
        signature("folders"@) == (7nat, 'f', 'o', 's'),
        signature("none"@) == (4nat, 'n', 'o', 'e'),
{
    reveal_strlit("menu");
    reveal_strlit("contextMenu");
    reveal_strlit("artists");
    reveal_strlit("composers");
    reveal_strlit("albums");
    reveal_strlit("playlists");
    reveal_strlit("tracks");
    reveal_strlit("genres");
    reveal_strlit("sections");
    reveal_strlit("items");
    reveal_strlit("folders");
    reveal_strlit("none");
}

/// The tokens of the kinds of item differ in their signatures.
proof fn lemma_item_type_tokens()
    ensures
        signature("link"@) == (4nat, 'l', 'i', 'k'),
        signature("audio"@) == (5nat, 'a', 'u', 'o'),
        signature("artist"@) == (6nat, 'a', 'r', 't'),
        signature("composer"@) == (8nat, 'c', 'o', 'r'),
        signature("album"@) == (5nat, 'a', 'l', 'm'),
        signature("playlist"@) == (8nat, 'p', 'l', 't'),
        signature("track"@) == (5nat, 't', 'r', 'k'),
        signature("text"@) == (4nat, 't', 'e', 't'),
        signature("section"@) == (7nat, 's', 'e', 'n'),
        signature("folder"@) == (6nat, 'f', 'o', 'r'),
        signature("genre"@) == (5nat, 'g', 'e', 'e'),
        signature("none"@) == (4nat, 'n', 'o', 'e'),
{
    reveal_strlit("link");
    reveal_strlit("audio");
    reveal_strlit("artist");
    reveal_strlit("composer");
    reveal_strlit("album");
    reveal_strlit("playlist");
    reveal_strlit("track");
    reveal_strlit("text");
    reveal_strlit("section");
    reveal_strlit("folder");
    reveal_strlit("genre");
    reveal_strlit("none");
}

/// Writing a state and resolving the token gives the state back.
pub proof fn law_state_round_trip(state: State)
    ensures
        state_of(state_token(state)) == state,
{
    lemma_state_tokens();
}

/// Writing a kind of list and resolving the token gives the kind back.
pub proof fn law_browse_type_round_trip(kind: BrowseType)
    ensures
        browse_type_of(browse_type_token(kind)) == kind,
{
    lemma_browse_type_tokens();
}

/// Writing a kind of item and resolving the token gives the kind back.
pub proof fn law_item_type_round_trip(kind: ItemType)
    ensures
        item_type_of(item_type_token(kind)) == kind,
{
    lemma_item_type_tokens();
}

/// A token that names no kind of list resolves to the unspecified kind.
pub proof fn law_unknown_browse_type(token: Seq<char>)
    requires
        forall|kind: BrowseType|
            kind != BrowseType::Unspecified ==> token != #[trigger] browse_type_token(kind),
    ensures
        browse_type_of(token) == BrowseType::Unspecified,
{
    assert(token != browse_type_token(BrowseType::Menu));
    assert(token != browse_type_token(BrowseType::ContextMenu));
    assert(token != browse_type_token(BrowseType::Artists));
    assert(token != browse_type_token(BrowseType::Composers));
    assert(token != browse_type_token(BrowseType::Albums));
    assert(token != browse_type_token(BrowseType::Playlists));
    assert(token != browse_type_token(BrowseType::Tracks));
    assert(token != browse_type_token(BrowseType::Genres));
    assert(token != browse_type_token(BrowseType::Sections));
    assert(token != browse_type_token(BrowseType::Items));
    assert(token != browse_type_token(BrowseType::Folders));
}

/// A token that names no kind of item resolves to the unspecified kind.
pub proof fn law_unknown_item_type(token: Seq<char>)
    requires
        forall|kind: ItemType|
            kind != ItemType::Unspecified ==> token != #[trigger] item_type_token(kind),
    ensures
        item_type_of(token) == ItemType::Unspecified,
{
    assert(token != item_type_token(ItemType::Link));
    assert(token != item_type_token(ItemType::Audio));
    assert(token != item_type_token(ItemType::Artist));
    assert(token != item_type_token(ItemType::Composer));
    assert(token != item_type_token(ItemType::Album));
    assert(token != item_type_token(ItemType::Playlist));
    assert(token != item_type_token(ItemType::Track));
    assert(token != item_type_token(ItemType::Text));
    assert(token != item_type_token(ItemType::Section));
    assert(token != item_type_token(ItemType::Folder));
    assert(token != item_type_token(ItemType::Genre));
}

/// A token that names no state resolves to the unspecified state.
pub proof fn law_unknown_state(token: Seq<char>)
    requires
        forall|state: State| state != State::Unspecified ==> token != #[trigger] state_token(state),
    ensures
        state_of(token) == State::Unspecified,
{
    assert(token != state_token(State::Stop));
    assert(token != state_token(State::Play));
    assert(token != state_token(State::Pause));
    assert(token != state_token(State::Stream));
    assert(token != state_token(State::Connecting));
}

} // verus!
