//! Encoding: from a typed value to the generic shape of its payload, and
//! the law that decoding what was encoded gives the value back.
//!
//! A value is written with its fields as attributes, in the order of the
//! shape's fields, an absent optional field being left out, and with its
//! lists as child elements.
use crate::decode::{
    action_of, actions_of, browse_item_of, browse_of, entries_of, flag_of, followed_by,
    id_response_of, items_of, lemma_action_names, lemma_browse_item_names, lemma_browse_names,
    lemma_playlist_entry_names, lemma_playlist_names, lemma_status_names,
    lemma_sync_status_names, playlist_entry_of, playlist_of,
    state_response_of, status_of, sync_status_of,
};
use crate::error::FaultView;
use crate::markup::{
    attribute_value, field_text, first_child, leaf, lemma_attribute_value_concat, Element, Node,
};
use crate::responses::{
    action_views, entry_views, item_views, text_view, Action, ActionView, Actions, Browse,
    BrowseItem, BrowseItemView, BrowseView, IdResponse, Playlist, PlaylistEntry,
    PlaylistEntryView, PlaylistView, StateResponse, Status, StatusView, SyncStatus,
    SyncStatusView,
};
use crate::text::{
    is_digit, lemma_digits_of, lemma_numeral_round_trip, numeral_of, render_i64, spec_parse_i16,
    spec_parse_i64, spec_parse_u8,
};
use crate::vocabulary::{
    browse_type_of, browse_type_token, item_type_of, item_type_token, law_browse_type_round_trip,
    law_item_type_round_trip, law_quality_round_trip, law_state_round_trip, quality_of,
    quality_token, state_token, BrowseType, ItemType, Quality,
};
use vstd::prelude::*;
use vstd::string::*;

verus! {

/// The attributes so far and one more.
#[verifier::opaque]
pub open spec fn with_entry(
    attributes: Seq<(Seq<char>, Seq<char>)>,
    name: Seq<char>,
    value: Seq<char>,
) -> Seq<(Seq<char>, Seq<char>)> {
    attributes.push((name, value))
}

/// The attributes so far and one more, where it has a value.
#[verifier::opaque]
pub open spec fn with_optional(
    attributes: Seq<(Seq<char>, Seq<char>)>,
    name: Seq<char>,
    value: Option<Seq<char>>,
) -> Seq<(Seq<char>, Seq<char>)> {
    match value {
        Some(value) => attributes.push((name, value)),
        None => attributes,
    }
}

/// The numeral of an optional 64-bit integer.
pub open spec fn numeral_of_i64(value: Option<i64>) -> Option<Seq<char>> {
    match value {
        Some(v) => Some(numeral_of(v as int)),
        None => None,
    }
}

/// The numeral of an optional small count.
pub open spec fn numeral_of_u8(value: Option<u8>) -> Option<Seq<char>> {
    match value {
        Some(v) => Some(numeral_of(v as int)),
        None => None,
    }
}

/// The text that states a truth value.
pub open spec fn flag_token(flag: bool) -> Seq<char> {
    if flag {
        "true"@
    } else {
        "false"@
    }
}

/// The text that states an optional truth value.
pub open spec fn token_of_flag(value: Option<bool>) -> Option<Seq<char>> {
    match value {
        Some(flag) => Some(flag_token(flag)),
        None => None,
    }
}

/// The token of an optional quality.
pub open spec fn token_of_quality(value: Option<Quality>) -> Option<Seq<char>> {
    match value {
        Some(quality) => Some(quality_token(quality)),
        None => None,
    }
}

/// The attributes that an [`Action`] is written with.
pub open spec fn action_attributes(value: ActionView) -> Seq<(Seq<char>, Seq<char>)> {
    let a = Seq::empty();
    let a = with_entry(a, "hide"@, numeral_of(value.hide as int));
    let a = with_entry(a, "name"@, value.name);
    a
}

/// The payload that an [`Action`] is written as.
pub open spec fn action_node(value: ActionView) -> Node {
    Node {
        name: "action"@,
        attributes: action_attributes(value),
        text: Seq::empty(),
        children: Seq::empty(),
    }
}

/// The payloads that actions are written as, in order.
pub open spec fn action_nodes(list: Seq<ActionView>) -> Seq<Node> {
    list.map_values(|x: ActionView| action_node(x))
}

/// The element that holds the actions of a status.
pub open spec fn actions_node(list: Seq<ActionView>) -> Node {
    Node {
        name: "actions"@,
        attributes: Seq::empty(),
        text: Seq::empty(),
        children: action_nodes(list),
    }
}

/// The attributes that a [`Status`] is written with.
pub open spec fn status_attributes(value: StatusView) -> Seq<(Seq<char>, Seq<char>)> {
    let a = Seq::empty();
    let a = with_entry(a, "etag"@, value.etag);
    let a = with_entry(a, "volume"@, numeral_of(value.volume as int));
    let a = with_entry(a, "db"@, value.volume_decibel);
    let a = with_entry(a, "mute"@, numeral_of(value.mute as int));
    let a = with_optional(a, "muteVolume"@, numeral_of_i64(value.muted_volume));
    let a = with_optional(a, "muteDb"@, numeral_of_i64(value.muted_decibel));
    let a = with_optional(a, "name"@, value.name);
    let a = with_optional(a, "album"@, value.album);
    let a = with_optional(a, "artist"@, value.artist);
    let a = with_optional(a, "totlen"@, numeral_of_i64(value.total_length));
    let a = with_optional(a, "secs"@, numeral_of_i64(value.seconds_played));
    let a = with_entry(a, "repeat"@, numeral_of(value.repeat as int));
    let a = with_entry(a, "shuffle"@, numeral_of(value.shuffle as int));
    let a = with_entry(a, "song"@, numeral_of(value.song_queue_position as int));
    let a = with_optional(a, "quality"@, token_of_quality(value.quality));
    let a = with_optional(a, "fn"@, value.filename);
    let a = with_optional(a, "image"@, value.image);
    let a = with_optional(a, "title1"@, value.title1);
    let a = with_optional(a, "title2"@, value.title2);
    let a = with_optional(a, "title3"@, value.title3);
    let a = with_optional(a, "twolineTitle1"@, value.twoline_title1);
    let a = with_optional(a, "twolineTitle2"@, value.twoline_title2);
    let a = with_optional(a, "currentImage"@, value.current_image);
    let a = with_optional(a, "groupName"@, value.group_name);
    let a = with_optional(a, "groupVolume"@, value.group_volume);
    let a = with_optional(a, "canSeek"@, numeral_of_u8(value.can_seek));
    let a = with_optional(a, "canMovePlayback"@, token_of_flag(value.can_move_playback));
    let a = with_optional(a, "notifyUrl"@, value.notify_url);
    let a = with_entry(a, "mode"@, numeral_of(value.mode as int));
    let a = with_entry(a, "pid"@, numeral_of(value.pid as int));
    let a = with_entry(a, "prid"@, numeral_of(value.prid as int));
    let a = with_entry(a, "sid"@, numeral_of(value.sid as int));
    let a = with_entry(a, "state"@, value.state);
    let a = with_optional(a, "streamUrl"@, value.stream_url);
    let a = with_entry(a, "syncStat"@, numeral_of(value.sync_stat as int));
    let a = with_optional(a, "cursor"@, numeral_of_i64(value.cursor));
    let a = with_entry(a, "indexing"@, numeral_of(value.indexing as int));
    let a = with_entry(a, "mid"@, numeral_of(value.mid as int));
    a
}

/// The payload that a [`Status`] is written as.
pub open spec fn status_node(value: StatusView) -> Node {
    Node {
        name: "status"@,
        attributes: status_attributes(value),
        text: Seq::empty(),
        children: match value.actions {
            Some(list) => seq![actions_node(list)],
            None => Seq::empty(),
        },
    }
}

/// The attributes that a [`PlaylistEntry`] is written with.
pub open spec fn playlist_entry_attributes(value: PlaylistEntryView) -> Seq<(Seq<char>, Seq<char>)> {
    let a = Seq::empty();
    let a = with_entry(a, "id"@, numeral_of(value.id as int));
    let a = with_optional(a, "songid"@, value.song_id);
    let a = with_optional(a, "albumid"@, value.album_id);
    let a = with_optional(a, "artistid"@, value.artist_id);
    let a = with_optional(a, "service"@, value.service);
    let a = with_optional(a, "title"@, value.title);
    let a = with_optional(a, "art"@, value.art);
    let a = with_optional(a, "alb"@, value.alb);
    let a = with_optional(a, "fn"@, value.filename);
    let a = with_optional(a, "quality"@, token_of_quality(value.quality));
    a
}

/// The payload that a [`PlaylistEntry`] is written as.
pub open spec fn playlist_entry_node(value: PlaylistEntryView) -> Node {
    Node {
        name: "song"@,
        attributes: playlist_entry_attributes(value),
        text: Seq::empty(),
        children: Seq::empty(),
    }
}

/// The payloads that the tracks of a queue are written as, in order.
pub open spec fn entry_nodes(list: Seq<PlaylistEntryView>) -> Seq<Node> {
    list.map_values(|x: PlaylistEntryView| playlist_entry_node(x))
}

/// The attributes that a [`Playlist`] is written with.
pub open spec fn playlist_attributes(value: PlaylistView) -> Seq<(Seq<char>, Seq<char>)> {
    let a = Seq::empty();
    let a = with_entry(a, "id"@, numeral_of(value.id as int));
    let a = with_optional(a, "name"@, value.name);
    let a = with_entry(a, "modified"@, numeral_of(value.modified as int));
    let a = with_entry(a, "length"@, numeral_of(value.length as int));
    a
}

/// The payload that a [`Playlist`] is written as.
pub open spec fn playlist_node(value: PlaylistView) -> Node {
    Node {
        name: "playlist"@,
        attributes: playlist_attributes(value),
        text: Seq::empty(),
        children: entry_nodes(value.entries),
    }
}

/// The attributes that a [`BrowseItem`] is written with.
pub open spec fn browse_item_attributes(value: BrowseItemView) -> Seq<(Seq<char>, Seq<char>)> {
    let a = Seq::empty();
    let a = with_optional(a, "image"@, value.image);
    let a = with_optional(a, "browseKey"@, value.browse_key);
    let a = with_optional(a, "text"@, value.text);
    let a = with_optional(a, "text2"@, value.text2);
    let a = with_entry(a, "type"@, item_type_token(value.item_type));
    let a = with_optional(a, "playURL"@, value.play_url);
    let a = with_optional(a, "autoplayURL"@, value.autoplay_url);
    let a = with_optional(a, "contextMenuKey"@, value.context_menu_key);
    let a = with_optional(a, "actionURL"@, value.action_url);
    a
}

/// The payload that a [`BrowseItem`] is written as.
pub open spec fn browse_item_node(value: BrowseItemView) -> Node {
    Node {
        name: "item"@,
        attributes: browse_item_attributes(value),
        text: Seq::empty(),
        children: Seq::empty(),
    }
}

/// The payloads that the items of a browse result are written as, in order.
pub open spec fn item_nodes(list: Seq<BrowseItemView>) -> Seq<Node> {
    list.map_values(|x: BrowseItemView| browse_item_node(x))
}

/// The attributes that a [`Browse`] is written with.
pub open spec fn browse_attributes(value: BrowseView) -> Seq<(Seq<char>, Seq<char>)> {
    let a = Seq::empty();
    let a = with_entry(a, "sid"@, value.sid);
    let a = with_entry(a, "type"@, browse_type_token(value.browse_type));
    let a = with_optional(a, "serviceIcon"@, value.service_icon);
    let a = with_optional(a, "serviceName"@, value.service_name);
    let a = with_optional(a, "searchKey"@, value.search_key);
    let a = with_optional(a, "nextKey"@, value.next_key);
    let a = with_optional(a, "parentKey"@, value.parent_key);
    a
}

/// The payload that a [`Browse`] is written as.
pub open spec fn browse_node(value: BrowseView) -> Node {
    Node {
        name: "browse"@,
        attributes: browse_attributes(value),
        text: Seq::empty(),
        children: item_nodes(value.items),
    }
}

/// The attributes that a [`SyncStatus`] is written with.
pub open spec fn sync_status_attributes(value: SyncStatusView) -> Seq<(Seq<char>, Seq<char>)> {
    let a = Seq::empty();
    let a = with_entry(a, "mac"@, value.mac);
    let a = with_entry(a, "id"@, value.id);
    let a = with_entry(a, "brand"@, value.brand);
    let a = with_entry(a, "db"@, value.db);
    let a = with_entry(a, "volume"@, numeral_of(value.volume as int));
    let a = with_optional(a, "group"@, value.group);
    let a = with_entry(a, "icon"@, value.icon);
    let a = with_entry(a, "model"@, value.model);
    let a = with_entry(a, "modelName"@, value.model_name);
    let a = with_entry(a, "name"@, value.name);
    let a = with_entry(a, "schemaVersion"@, value.schema_version);
    a
}

/// The payload that a [`SyncStatus`] is written as.
pub open spec fn sync_status_node(value: SyncStatusView) -> Node {
    Node {
        name: "SyncStatus"@,
        attributes: sync_status_attributes(value),
        text: Seq::empty(),
        children: Seq::empty(),
    }
}

/// The payload that a [`StateResponse`] is written as.
pub open spec fn state_response_node(value: StateResponse) -> Node {
    leaf("state"@, state_token(value.state))
}

/// The payload that an [`IdResponse`] is written as.
pub open spec fn id_response_node(value: IdResponse) -> Node {
    leaf(
        "id"@,
        match value.id {
            Some(id) => numeral_of(id as int),
            None => Seq::empty(),
        },
    )
}

fn put(element: &mut Element, name: &str, value: String)
    ensures
        final(element)@ == (Node {
            attributes: with_entry(old(element)@.attributes, name@, value@),
            ..old(element)@
        }),
{
    reveal(with_entry);
    element.push_attribute(name, value);
}

fn put_optional(element: &mut Element, name: &str, value: Option<String>)
    ensures
        final(element)@ == (Node {
            attributes: with_optional(old(element)@.attributes, name@, text_view(value)),
            ..old(element)@
        }),
{
    reveal(with_optional);
    match value {
        Some(text) => element.push_attribute(name, text),
        None => {},
    }
}

fn copy_of(text: &Option<String>) -> (r: Option<String>)
    ensures
        text_view(r) == text_view(*text),
{
    match text {
        Some(t) => Some(t.clone()),
        None => None,
    }
}

fn written_i64(value: Option<i64>) -> (r: Option<String>)
    ensures
        text_view(r) == numeral_of_i64(value),
{
    match value {
        Some(v) => Some(render_i64(v)),
        None => None,
    }
}

fn written_u8(value: Option<u8>) -> (r: Option<String>)
    ensures
        text_view(r) == numeral_of_u8(value),
{
    match value {
        Some(v) => Some(render_i64(v as i64)),
        None => None,
    }
}

fn written_flag(value: Option<bool>) -> (r: Option<String>)
    ensures
        text_view(r) == token_of_flag(value),
{
    match value {
        Some(true) => Some(String::from_str("true")),
        Some(false) => Some(String::from_str("false")),
        None => None,
    }
}

fn written_quality(value: Option<Quality>) -> (r: Option<String>)
    ensures
        text_view(r) == token_of_quality(value),
{
    match value {
        Some(quality) => Some(quality.token()),
        None => None,
    }
}

impl Action {
    /// Writes this value as a payload.
    pub fn encode(&self) -> (r: Element)
        ensures
            r@ == action_node(self@),
    {
        let mut element = Element::new("action");
        put(&mut element, "hide", render_i64(self.hide as i64));
        put(&mut element, "name", self.name.clone());
        element
    }
}

fn put_actions(element: &mut Element, list: &Vec<Action>)
    requires
        old(element)@.children.len() == 0,
    ensures
        final(element)@ == (Node { children: action_nodes(action_views(list@)), ..old(element)@ }),
{
    let ghost all = action_views(list@);
    let mut i: usize = 0;
    assert(element@.children =~= action_nodes(all.subrange(0, 0)));
    while i < list.len()
        invariant
            0 <= i <= list.len(),
            all == action_views(list@),
            element@ == (Node { children: action_nodes(all.subrange(0, i as int)), ..old(element)@ }),
        decreases list.len() - i,
    {
        let child = list[i].encode();
        element.push_child(child);
        assert(action_nodes(all.subrange(0, i + 1)) =~= action_nodes(all.subrange(0, i as int)).push(child@));
        i = i + 1;
    }
    assert(all.subrange(0, i as int) =~= all);
}

impl Actions {
    /// Writes these actions as the element that holds them.
    pub fn encode(&self) -> (r: Element)
        ensures
            r@ == actions_node(self@),
    {
        let mut element = Element::new("actions");
        put_actions(&mut element, &self.action);
        element
    }
}

impl Status {
    /// Writes this value as a payload.
    pub fn encode(&self) -> (r: Element)
        ensures
            r@ == status_node(self@),
    {
        let mut element = Element::new("status");
        put(&mut element, "etag", self.etag.clone());
        put(&mut element, "volume", render_i64(self.volume));
        put(&mut element, "db", self.volume_decibel.clone());
        put(&mut element, "mute", render_i64(self.mute as i64));
        put_optional(&mut element, "muteVolume", written_i64(self.muted_volume));
        put_optional(&mut element, "muteDb", written_i64(self.muted_decibel));
        put_optional(&mut element, "name", copy_of(&self.name));
        put_optional(&mut element, "album", copy_of(&self.album));
        put_optional(&mut element, "artist", copy_of(&self.artist));
        put_optional(&mut element, "totlen", written_i64(self.total_length));
        put_optional(&mut element, "secs", written_i64(self.seconds_played));
        put(&mut element, "repeat", render_i64(self.repeat as i64));
        put(&mut element, "shuffle", render_i64(self.shuffle as i64));
        put(&mut element, "song", render_i64(self.song_queue_position));
        put_optional(&mut element, "quality", written_quality(self.quality));
        put_optional(&mut element, "fn", copy_of(&self.filename));
        put_optional(&mut element, "image", copy_of(&self.image));
        put_optional(&mut element, "title1", copy_of(&self.title1));
        put_optional(&mut element, "title2", copy_of(&self.title2));
        put_optional(&mut element, "title3", copy_of(&self.title3));
        put_optional(&mut element, "twolineTitle1", copy_of(&self.twoline_title1));
        put_optional(&mut element, "twolineTitle2", copy_of(&self.twoline_title2));
        put_optional(&mut element, "currentImage", copy_of(&self.current_image));
        put_optional(&mut element, "groupName", copy_of(&self.group_name));
        put_optional(&mut element, "groupVolume", copy_of(&self.group_volume));
        put_optional(&mut element, "canSeek", written_u8(self.can_seek));
        put_optional(&mut element, "canMovePlayback", written_flag(self.can_move_playback));
        put_optional(&mut element, "notifyUrl", copy_of(&self.notify_url));
        put(&mut element, "mode", render_i64(self.mode));
        put(&mut element, "pid", render_i64(self.pid));
        put(&mut element, "prid", render_i64(self.prid as i64));
        put(&mut element, "sid", render_i64(self.sid));
        put(&mut element, "state", self.state.clone());
        put_optional(&mut element, "streamUrl", copy_of(&self.stream_url));
        put(&mut element, "syncStat", render_i64(self.sync_stat));
        put_optional(&mut element, "cursor", written_i64(self.cursor));
        put(&mut element, "indexing", render_i64(self.indexing));
        put(&mut element, "mid", render_i64(self.mid));
        match &self.actions {
            Some(actions) => {
                let holder = actions.encode();
                element.push_child(holder);
                assert(element@.children =~= seq![actions_node(actions@)]);
            },
            None => {},
        }
        element
    }
}

impl PlaylistEntry {
    /// Writes this value as a payload.
    pub fn encode(&self) -> (r: Element)
        ensures
            r@ == playlist_entry_node(self@),
    {
        let mut element = Element::new("song");
        put(&mut element, "id", render_i64(self.id));
        put_optional(&mut element, "songid", copy_of(&self.song_id));
        put_optional(&mut element, "albumid", copy_of(&self.album_id));
        put_optional(&mut element, "artistid", copy_of(&self.artist_id));
        put_optional(&mut element, "service", copy_of(&self.service));
        put_optional(&mut element, "title", copy_of(&self.title));
        put_optional(&mut element, "art", copy_of(&self.art));
        put_optional(&mut element, "alb", copy_of(&self.alb));
        put_optional(&mut element, "fn", copy_of(&self.filename));
        put_optional(&mut element, "quality", written_quality(self.quality));
        element
    }
}

fn put_entries(element: &mut Element, list: &Vec<PlaylistEntry>)
    requires
        old(element)@.children.len() == 0,
    ensures
        final(element)@ == (Node { children: entry_nodes(entry_views(list@)), ..old(element)@ }),
{
    let ghost all = entry_views(list@);
    let mut i: usize = 0;
    assert(element@.children =~= entry_nodes(all.subrange(0, 0)));
    while i < list.len()
        invariant
            0 <= i <= list.len(),
            all == entry_views(list@),
            element@ == (Node { children: entry_nodes(all.subrange(0, i as int)), ..old(element)@ }),
        decreases list.len() - i,
    {
        let child = list[i].encode();
        element.push_child(child);
        assert(entry_nodes(all.subrange(0, i + 1)) =~= entry_nodes(all.subrange(0, i as int)).push(child@));
        i = i + 1;
    }
    assert(all.subrange(0, i as int) =~= all);
}

impl Playlist {
    /// Writes this value as a payload.
    pub fn encode(&self) -> (r: Element)
        ensures
            r@ == playlist_node(self@),
    {
        let mut element = Element::new("playlist");
        put(&mut element, "id", render_i64(self.id));
        put_optional(&mut element, "name", copy_of(&self.name));
        put(&mut element, "modified", render_i64(self.modified));
        put(&mut element, "length", render_i64(self.length));
        put_entries(&mut element, &self.entries);
        element
    }
}

impl BrowseItem {
    /// Writes this value as a payload.
    pub fn encode(&self) -> (r: Element)
        ensures
            r@ == browse_item_node(self@),
    {
        let mut element = Element::new("item");
        put_optional(&mut element, "image", copy_of(&self.image));
        put_optional(&mut element, "browseKey", copy_of(&self.browse_key));
        put_optional(&mut element, "text", copy_of(&self.text));
        put_optional(&mut element, "text2", copy_of(&self.text2));
        put(&mut element, "type", String::from_str(self.item_type.token()));
        put_optional(&mut element, "playURL", copy_of(&self.play_url));
        put_optional(&mut element, "autoplayURL", copy_of(&self.autoplay_url));
        put_optional(&mut element, "contextMenuKey", copy_of(&self.context_menu_key));
        put_optional(&mut element, "actionURL", copy_of(&self.action_url));
        element
    }
}

fn put_items(element: &mut Element, list: &Vec<BrowseItem>)
    requires
        old(element)@.children.len() == 0,
    ensures
        final(element)@ == (Node { children: item_nodes(item_views(list@)), ..old(element)@ }),
{
    let ghost all = item_views(list@);
    let mut i: usize = 0;
    assert(element@.children =~= item_nodes(all.subrange(0, 0)));
    while i < list.len()
        invariant
            0 <= i <= list.len(),
            all == item_views(list@),
            element@ == (Node { children: item_nodes(all.subrange(0, i as int)), ..old(element)@ }),
        decreases list.len() - i,
    {
        let child = list[i].encode();
        element.push_child(child);
        assert(item_nodes(all.subrange(0, i + 1)) =~= item_nodes(all.subrange(0, i as int)).push(child@));
        i = i + 1;
    }
    assert(all.subrange(0, i as int) =~= all);
}

impl Browse {
    /// Writes this value as a payload.
    pub fn encode(&self) -> (r: Element)
        ensures
            r@ == browse_node(self@),
    {
        let mut element = Element::new("browse");
        put(&mut element, "sid", self.sid.clone());
        put(&mut element, "type", String::from_str(self.browse_type.token()));
        put_optional(&mut element, "serviceIcon", copy_of(&self.service_icon));
        put_optional(&mut element, "serviceName", copy_of(&self.service_name));
        put_optional(&mut element, "searchKey", copy_of(&self.search_key));
        put_optional(&mut element, "nextKey", copy_of(&self.next_key));
        put_optional(&mut element, "parentKey", copy_of(&self.parent_key));
        put_items(&mut element, &self.items);
        element
    }
}

impl SyncStatus {
    /// Writes this value as a payload.
    pub fn encode(&self) -> (r: Element)
        ensures
            r@ == sync_status_node(self@),
    {
        let mut element = Element::new("SyncStatus");
        put(&mut element, "mac", self.mac.clone());
        put(&mut element, "id", self.id.clone());
        put(&mut element, "brand", self.brand.clone());
        put(&mut element, "db", self.db.clone());
        put(&mut element, "volume", render_i64(self.volume as i64));
        put_optional(&mut element, "group", copy_of(&self.group));
        put(&mut element, "icon", self.icon.clone());
        put(&mut element, "model", self.model.clone());
        put(&mut element, "modelName", self.model_name.clone());
        put(&mut element, "name", self.name.clone());
        put(&mut element, "schemaVersion", self.schema_version.clone());
        element
    }
}

impl StateResponse {
    /// Writes this value as a payload.
    pub fn encode(&self) -> (r: Element)
        ensures
            r@ == state_response_node(*self),
    {
        Element::with_text("state", self.state.token())
    }
}

impl IdResponse {
    /// Writes this value as a payload.
    pub fn encode(&self) -> (r: Element)
        ensures
            r@ == id_response_node(*self),
    {
        match self.id {
            Some(id) => {
                let text = render_i64(id);
                Element::with_text("id", text.as_str())
            },
            None => {
                proof {
                    reveal_strlit("");
                    assert(""@ =~= Seq::<char>::empty());
                }
                Element::with_text("id", "")
            },
        }
    }
}

/// Looking a name up where nothing was written finds nothing, and looking it
/// up after one more attribute was written finds first what was there before.
pub proof fn lemma_lookup_after_entry()
    ensures
        forall|asked: Seq<char>| (#[trigger] attribute_value(Seq::empty(), asked)) is None,
        forall|a: Seq<(Seq<char>, Seq<char>)>, name: Seq<char>, value: Seq<char>, asked: Seq<char>|
            #[trigger] attribute_value(with_entry(a, name, value), asked) == match attribute_value(
                a,
                asked,
            ) {
                Some(found) => Some(found),
                None => if asked == name {
                    Some(value)
                } else {
                    None
                },
            },
        forall|a: Seq<(Seq<char>, Seq<char>)>, name: Seq<char>, value: Option<Seq<char>>, asked: Seq<char>|
            #[trigger] attribute_value(with_optional(a, name, value), asked) == match attribute_value(
                a,
                asked,
            ) {
                Some(found) => Some(found),
                None => if asked == name {
                    value
                } else {
                    None
                },
            },
{
    assert forall|asked: Seq<char>|
        (#[trigger] attribute_value(Seq::empty(), asked)) is None by {
        reveal(attribute_value);
    }
    assert forall|a: Seq<(Seq<char>, Seq<char>)>, name: Seq<char>, value: Seq<char>, asked: Seq<char>|
        #[trigger] attribute_value(with_entry(a, name, value), asked) == match attribute_value(
            a,
            asked,
        ) {
            Some(found) => Some(found),
            None => if asked == name {
                Some(value)
            } else {
                None
            },
        } by {
        reveal(with_entry);
        lemma_lookup_pushed(a, name, value, asked);
    }
    assert forall|a: Seq<(Seq<char>, Seq<char>)>, name: Seq<char>, value: Option<Seq<char>>, asked: Seq<char>|
        #[trigger] attribute_value(with_optional(a, name, value), asked) == match attribute_value(
            a,
            asked,
        ) {
            Some(found) => Some(found),
            None => if asked == name {
                value
            } else {
                None
            },
        } by {
        reveal(with_optional);
        if let Some(v) = value {
            lemma_lookup_pushed(a, name, v, asked);
        }
    }
}

proof fn lemma_lookup_pushed(
    a: Seq<(Seq<char>, Seq<char>)>,
    name: Seq<char>,
    value: Seq<char>,
    asked: Seq<char>,
)
    ensures
        attribute_value(a.push((name, value)), asked) == match attribute_value(a, asked) {
            Some(found) => Some(found),
            None => if asked == name {
                Some(value)
            } else {
                None
            },
        },
{
    reveal_with_fuel(attribute_value, 2);
    let one = seq![(name, value)];
    lemma_attribute_value_concat(a, one, asked);
    assert(a.push((name, value)) =~= a + one);
    assert(one.drop_first() =~= Seq::empty());
    assert(attribute_value(one.drop_first(), asked) is None);
}

/// Among children that all have one name, nothing is found under another.
pub proof fn lemma_children_of_one_name(children: Seq<Node>, name: Seq<char>)
    requires
        forall|i: int| 0 <= i < children.len() ==> (#[trigger] children[i]).name == name,
    ensures
        forall|asked: Seq<char>| asked != name ==> (#[trigger] first_child(children, asked)) is None,
{
    assert forall|asked: Seq<char>| asked != name implies (#[trigger] first_child(children, asked)) is None by {
        crate::markup::lemma_first_child_absent(children, asked);
    }
}

/// Reading back what was written for a number, a truth value or a token
/// gives what was written.
pub proof fn lemma_values_round_trip()
    ensures
        forall|v: i64| spec_parse_i64(#[trigger] numeral_of(v as int)) == Some(v),
        forall|v: i16| spec_parse_i16(#[trigger] numeral_of(v as int)) == Some(v),
        forall|v: u8| spec_parse_u8(#[trigger] numeral_of(v as int)) == Some(v),
        forall|flag: bool| flag_of(#[trigger] flag_token(flag)) == Some(flag),
        forall|quality: Quality| quality_of(#[trigger] quality_token(quality)) == quality,
        forall|kind: BrowseType| browse_type_of(#[trigger] browse_type_token(kind)) == kind,
        forall|kind: ItemType| item_type_of(#[trigger] item_type_token(kind)) == kind,
{
    assert forall|v: i64| spec_parse_i64(#[trigger] numeral_of(v as int)) == Some(v) by {
        lemma_numeral_round_trip(v as int);
    }
    assert forall|v: i16| spec_parse_i16(#[trigger] numeral_of(v as int)) == Some(v) by {
        lemma_numeral_round_trip(v as int);
    }
    assert forall|v: u8| spec_parse_u8(#[trigger] numeral_of(v as int)) == Some(v) by {
        lemma_numeral_round_trip(v as int);
        lemma_digits_of(v as nat);
        assert(is_digit(numeral_of(v as int)[0]));
    }
    assert forall|flag: bool| flag_of(#[trigger] flag_token(flag)) == Some(flag) by {
        reveal_strlit("true");
        reveal_strlit("false");
        reveal_strlit("1");
        reveal_strlit("0");
        assert("true"@.len() == 4 && "false"@.len() == 5 && "1"@.len() == 1 && "0"@.len() == 1);
    }
    assert forall|quality: Quality| quality_of(#[trigger] quality_token(quality)) == quality by {
        law_quality_round_trip(quality);
    }
    assert forall|kind: BrowseType| browse_type_of(#[trigger] browse_type_token(kind)) == kind by {
        law_browse_type_round_trip(kind);
    }
    assert forall|kind: ItemType| item_type_of(#[trigger] item_type_token(kind)) == kind by {
        law_item_type_round_trip(kind);
    }
}

/// Decoding what an [`Action`] was written as gives it back.
pub proof fn law_action_round_trip(value: ActionView)
    ensures
        action_of(action_node(value)) == Ok::<ActionView, FaultView>(value),
{
    lemma_action_names();
    lemma_lookup_after_entry();
    lemma_values_round_trip();
    let node = action_node(value);
    assert(node.children.len() == 0);
    lemma_children_of_one_name(node.children, Seq::empty());
}

/// Decoding what actions were written as gives them back.
pub proof fn lemma_actions_round_trip(list: Seq<ActionView>)
    ensures
        forall|i: int| 0 <= i < list.len() ==> (#[trigger] action_nodes(list)[i]).name == "action"@,
        actions_of(action_nodes(list)) == Ok::<Seq<ActionView>, FaultView>(list),
    decreases list.len(),
{
    let nodes = action_nodes(list);
    if list.len() == 0 {
        assert(list =~= Seq::empty());
        assert(nodes.len() == 0);
    } else {
        let rest = list.drop_first();
        lemma_actions_round_trip(rest);
        law_action_round_trip(list[0]);
        assert(nodes.drop_first() =~= action_nodes(rest));
        assert(nodes[0] == action_node(list[0]));
        assert(nodes[0].name == "action"@);
        assert(action_of(nodes[0]) == Ok::<ActionView, FaultView>(list[0]));
        assert(actions_of(nodes.drop_first()) == Ok::<Seq<ActionView>, FaultView>(rest));
        assert(seq![list[0]] + rest =~= list);
        assert(actions_of(nodes) == followed_by(seq![list[0]], actions_of(nodes.drop_first())));
    }
}

/// What is found under the first wire names of a [`Status`] that was written.
proof fn lemma_status_fields_1(value: StatusView)
    ensures
        field_text(status_node(value), "etag"@) == Some(value.etag),
        field_text(status_node(value), "volume"@) == Some(numeral_of(value.volume as int)),
        field_text(status_node(value), "db"@) == Some(value.volume_decibel),
        field_text(status_node(value), "mute"@) == Some(numeral_of(value.mute as int)),
        field_text(status_node(value), "muteVolume"@) == numeral_of_i64(value.muted_volume),
        field_text(status_node(value), "muteDb"@) == numeral_of_i64(value.muted_decibel),
        field_text(status_node(value), "name"@) == value.name,
        field_text(status_node(value), "album"@) == value.album,
        field_text(status_node(value), "artist"@) == value.artist,
        field_text(status_node(value), "totlen"@) == numeral_of_i64(value.total_length),
{
    lemma_status_names();
    lemma_lookup_after_entry();
    lemma_children_of_one_name(status_node(value).children, "actions"@);
}

/// What is found under the second wire names of a [`Status`] that was written.
proof fn lemma_status_fields_2(value: StatusView)
    ensures
        field_text(status_node(value), "secs"@) == numeral_of_i64(value.seconds_played),
        field_text(status_node(value), "repeat"@) == Some(numeral_of(value.repeat as int)),
        field_text(status_node(value), "shuffle"@) == Some(numeral_of(value.shuffle as int)),
        field_text(status_node(value), "song"@) == Some(numeral_of(value.song_queue_position as int)),
        field_text(status_node(value), "quality"@) == token_of_quality(value.quality),
        field_text(status_node(value), "fn"@) == value.filename,
        field_text(status_node(value), "image"@) == value.image,
        field_text(status_node(value), "title1"@) == value.title1,
        field_text(status_node(value), "title2"@) == value.title2,
        field_text(status_node(value), "title3"@) == value.title3,
{
    lemma_status_names();
    lemma_lookup_after_entry();
    lemma_children_of_one_name(status_node(value).children, "actions"@);
}

/// What is found under the third wire names of a [`Status`] that was written.
proof fn lemma_status_fields_3(value: StatusView)
    ensures
        field_text(status_node(value), "twolineTitle1"@) == value.twoline_title1,
        field_text(status_node(value), "twolineTitle2"@) == value.twoline_title2,
        field_text(status_node(value), "currentImage"@) == value.current_image,
        field_text(status_node(value), "groupName"@) == value.group_name,
        field_text(status_node(value), "groupVolume"@) == value.group_volume,
        field_text(status_node(value), "canSeek"@) == numeral_of_u8(value.can_seek),
        field_text(status_node(value), "canMovePlayback"@) == token_of_flag(value.can_move_playback),
        field_text(status_node(value), "notifyUrl"@) == value.notify_url,
        field_text(status_node(value), "mode"@) == Some(numeral_of(value.mode as int)),
        field_text(status_node(value), "pid"@) == Some(numeral_of(value.pid as int)),
{
    lemma_status_names();
    lemma_lookup_after_entry();
    lemma_children_of_one_name(status_node(value).children, "actions"@);
}

/// What is found under the fourth wire names of a [`Status`] that was written.
proof fn lemma_status_fields_4(value: StatusView)
    ensures
        field_text(status_node(value), "prid"@) == Some(numeral_of(value.prid as int)),
        field_text(status_node(value), "sid"@) == Some(numeral_of(value.sid as int)),
        field_text(status_node(value), "state"@) == Some(value.state),
        field_text(status_node(value), "streamUrl"@) == value.stream_url,
        field_text(status_node(value), "syncStat"@) == Some(numeral_of(value.sync_stat as int)),
        field_text(status_node(value), "cursor"@) == numeral_of_i64(value.cursor),
        field_text(status_node(value), "indexing"@) == Some(numeral_of(value.indexing as int)),
        field_text(status_node(value), "mid"@) == Some(numeral_of(value.mid as int)),
{
    lemma_status_names();
    lemma_lookup_after_entry();
    lemma_children_of_one_name(status_node(value).children, "actions"@);
}

/// Decoding what a [`Status`] was written as gives it back.
pub proof fn law_status_round_trip(value: StatusView)
    ensures
        status_of(status_node(value)) == Ok::<StatusView, FaultView>(value),
{
    lemma_status_fields_1(value);
    lemma_status_fields_2(value);
    lemma_status_fields_3(value);
    lemma_status_fields_4(value);
    lemma_values_round_trip();
    let node = status_node(value);
    if let Some(list) = value.actions {
        lemma_actions_round_trip(list);
        assert(node.children[0] == actions_node(list));
    }
    reveal(first_child);
}

/// Decoding what a [`PlaylistEntry`] was written as gives it back.
pub proof fn law_playlist_entry_round_trip(value: PlaylistEntryView)
    ensures
        playlist_entry_of(playlist_entry_node(value)) == Ok::<PlaylistEntryView, FaultView>(value),
{
    lemma_playlist_entry_names();
    lemma_lookup_after_entry();
    lemma_values_round_trip();
    let node = playlist_entry_node(value);
    assert(node.children.len() == 0);
    lemma_children_of_one_name(node.children, Seq::empty());
}

/// Decoding what the tracks of a queue were written as gives them back.
pub proof fn lemma_entries_round_trip(list: Seq<PlaylistEntryView>)
    ensures
        forall|i: int| 0 <= i < list.len() ==> (#[trigger] entry_nodes(list)[i]).name == "song"@,
        entries_of(entry_nodes(list)) == Ok::<Seq<PlaylistEntryView>, FaultView>(list),
    decreases list.len(),
{
    let nodes = entry_nodes(list);
    if list.len() == 0 {
        assert(list =~= Seq::empty());
        assert(nodes.len() == 0);
    } else {
        let rest = list.drop_first();
        lemma_entries_round_trip(rest);
        law_playlist_entry_round_trip(list[0]);
        assert(nodes.drop_first() =~= entry_nodes(rest));
        assert(nodes[0] == playlist_entry_node(list[0]));
        assert(nodes[0].name == "song"@);
        assert(playlist_entry_of(nodes[0]) == Ok::<PlaylistEntryView, FaultView>(list[0]));
        assert(entries_of(nodes.drop_first()) == Ok::<Seq<PlaylistEntryView>, FaultView>(rest));
        assert(seq![list[0]] + rest =~= list);
        assert(entries_of(nodes) == followed_by(seq![list[0]], entries_of(nodes.drop_first())));
    }
}

/// Decoding what a [`Playlist`] was written as gives it back.
pub proof fn law_playlist_round_trip(value: PlaylistView)
    ensures
        playlist_of(playlist_node(value)) == Ok::<PlaylistView, FaultView>(value),
{
    lemma_playlist_names();
    lemma_lookup_after_entry();
    lemma_values_round_trip();
    let node = playlist_node(value);
    lemma_children_of_one_name(node.children, "song"@);
    lemma_entries_round_trip(value.entries);
}

/// Decoding what a [`BrowseItem`] was written as gives it back.
pub proof fn law_browse_item_round_trip(value: BrowseItemView)
    ensures
        browse_item_of(browse_item_node(value)) == Ok::<BrowseItemView, FaultView>(value),
{
    lemma_browse_item_names();
    lemma_lookup_after_entry();
    lemma_values_round_trip();
    let node = browse_item_node(value);
    assert(node.children.len() == 0);
    lemma_children_of_one_name(node.children, Seq::empty());
}

/// Decoding what the items of a browse result were written as gives them back.
pub proof fn lemma_items_round_trip(list: Seq<BrowseItemView>)
    ensures
        forall|i: int| 0 <= i < list.len() ==> (#[trigger] item_nodes(list)[i]).name == "item"@,
        items_of(item_nodes(list)) == Ok::<Seq<BrowseItemView>, FaultView>(list),
    decreases list.len(),
{
    let nodes = item_nodes(list);
    if list.len() == 0 {
        assert(list =~= Seq::empty());
        assert(nodes.len() == 0);
    } else {
        let rest = list.drop_first();
        lemma_items_round_trip(rest);
        law_browse_item_round_trip(list[0]);
        assert(nodes.drop_first() =~= item_nodes(rest));
        assert(nodes[0] == browse_item_node(list[0]));
        assert(nodes[0].name == "item"@);
        assert(browse_item_of(nodes[0]) == Ok::<BrowseItemView, FaultView>(list[0]));
        assert(items_of(nodes.drop_first()) == Ok::<Seq<BrowseItemView>, FaultView>(rest));
        assert(seq![list[0]] + rest =~= list);
        assert(items_of(nodes) == followed_by(seq![list[0]], items_of(nodes.drop_first())));
    }
}

/// Decoding what a [`Browse`] was written as gives it back.
pub proof fn law_browse_round_trip(value: BrowseView)
    ensures
        browse_of(browse_node(value)) == Ok::<BrowseView, FaultView>(value),
{
    lemma_browse_names();
    lemma_lookup_after_entry();
    lemma_values_round_trip();
    let node = browse_node(value);
    lemma_children_of_one_name(node.children, "item"@);
    lemma_items_round_trip(value.items);
}

/// Decoding what a [`SyncStatus`] was written as gives it back.
pub proof fn law_sync_status_round_trip(value: SyncStatusView)
    ensures
        sync_status_of(sync_status_node(value)) == Ok::<SyncStatusView, FaultView>(value),
{
    lemma_sync_status_names();
    lemma_lookup_after_entry();
    lemma_values_round_trip();
    let node = sync_status_node(value);
    assert(node.children.len() == 0);
    lemma_children_of_one_name(node.children, Seq::empty());
}

/// Decoding what a [`StateResponse`] was written as gives it back.
pub proof fn law_state_response_round_trip(value: StateResponse)
    ensures
        state_response_of(state_response_node(value)) == value,
{
    law_state_round_trip(value.state);
}

/// Decoding what an [`IdResponse`] was written as gives it back.
pub proof fn law_id_response_round_trip(value: IdResponse)
    ensures
        id_response_of(id_response_node(value)) == Ok::<IdResponse, FaultView>(value),
{
    if let Some(id) = value.id {
        lemma_numeral_round_trip(id as int);
        if id >= 0 {
            lemma_digits_of(id as nat);
        }
    }
}

} // verus!
