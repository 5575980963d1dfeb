//! Tolerant decoding: from the generic shape of a payload to the typed
//! value it stands for.
//!
//! A field is read by its wire name, as an attribute or as a child element.
//! A field that the shape does not know is never looked at. An optional field
//! that is absent decodes to `None`. A token that a vocabulary does not know
//! decodes to the vocabulary's unspecified variant. Decoding fails only where
//! a required field is absent or a field's text is not of the field's type,
//! and then with the first such fault in the order of the shape's fields.
//!
//! Each shape is decoded from an element, by `decode`, and from the text of a
//! payload, by `from_payload`, which reads the text first and reports a
//! fault together with the text and with where the text came from.
use crate::error::{Error, ErrorView, Fault, FaultView};
use crate::markup::{
    attribute_views, field_text, first_child, lemma_attribute_added, lemma_child_added,
    with_attribute, with_child, Attribute, Element, Node,
};
use crate::reader::{markup_of, read_markup};
use crate::responses::{
    action_views, entry_views, item_views, Action, ActionView, Actions, Browse, BrowseItem,
    BrowseItemView, BrowseView, IdResponse, Playlist, PlaylistEntry, PlaylistEntryView,
    PlaylistView, StateResponse, Status, StatusView, SyncStatus, SyncStatusView,
};
use crate::text::{
    numeral_of, parse_i16, parse_i64, parse_u8, render_i64, same_text, signature,
    spec_parse_i16, spec_parse_i64, spec_parse_u8,
};
use crate::vocabulary::{
    browse_type_of, item_type_of, quality_of, state_of, BrowseType, ItemType, Quality, State,
};
use vstd::prelude::*;
use vstd::string::*;

verus! {

/// The model of what a decoder returned.
pub open spec fn decoded<T: View>(r: Result<T, Fault>) -> Result<T::V, FaultView> {
    match r {
        Ok(value) => Ok(value@),
        Err(fault) => Err(fault@),
    }
}

/// The model of what decoding a payload's text returned.
pub open spec fn reported<T: View>(r: Result<T, Error>) -> Result<T::V, ErrorView> {
    match r {
        Ok(value) => Ok(value@),
        Err(error) => Err(error@),
    }
}

/// A fault in a payload, reported with the payload's text and with where the
/// text came from.
pub open spec fn located<T>(r: Result<T, FaultView>, xml: Seq<char>, url: Seq<char>) -> Result<
    T,
    ErrorView,
> {
    match r {
        Ok(value) => Ok(value),
        Err(fault) => Err(ErrorView::XMLError { source: fault, xml, url }),
    }
}

/// The earliest fault among the fields read so far.
pub struct Faults {
    pub earliest: Option<FaultView>,
}

impl Faults {
    /// One more field read: its fault counts where none came before it.
    pub open spec fn or<T>(self, read: Result<T, FaultView>) -> Faults {
        match (self.earliest, read) {
            (None, Err(fault)) => Faults { earliest: Some(fault) },
            _ => self,
        }
    }
}

/// No field read yet.
pub open spec fn no_fault() -> Faults {
    Faults { earliest: None }
}

/// A list with more of it still to come, which may yet fail.
pub open spec fn followed_by<T>(front: Seq<T>, rest: Result<Seq<T>, FaultView>) -> Result<Seq<T>, FaultView> {
    match rest {
        Ok(rest) => Ok(front + rest),
        Err(fault) => Err(fault),
    }
}

/// The truth value that a text states: `true` or `1`, `false` or `0`.
pub open spec fn flag_of(text: Seq<char>) -> Option<bool> {
    if text == "true"@ || text == "1"@ {
        Some(true)
    } else if text == "false"@ || text == "0"@ {
        Some(false)
    } else {
        None
    }
}

/// A text that must be there.
pub open spec fn required_text(node: Node, name: Seq<char>) -> Result<Seq<char>, FaultView> {
    match field_text(node, name) {
        Some(text) => Ok(text),
        None => Err(FaultView::MissingField(name)),
    }
}

/// A 64-bit integer that must be there.
pub open spec fn required_i64(node: Node, name: Seq<char>) -> Result<i64, FaultView> {
    match field_text(node, name) {
        Some(text) => match spec_parse_i64(text) {
            Some(value) => Ok(value),
            None => Err(FaultView::InvalidValue(name)),
        },
        None => Err(FaultView::MissingField(name)),
    }
}

/// A 64-bit integer that may be absent.
pub open spec fn optional_i64(node: Node, name: Seq<char>) -> Result<Option<i64>, FaultView> {
    match field_text(node, name) {
        Some(text) => match spec_parse_i64(text) {
            Some(value) => Ok(Some(value)),
            None => Err(FaultView::InvalidValue(name)),
        },
        None => Ok(None),
    }
}

/// A 16-bit integer that must be there.
pub open spec fn required_i16(node: Node, name: Seq<char>) -> Result<i16, FaultView> {
    match field_text(node, name) {
        Some(text) => match spec_parse_i16(text) {
            Some(value) => Ok(value),
            None => Err(FaultView::InvalidValue(name)),
        },
        None => Err(FaultView::MissingField(name)),
    }
}

/// A small count that must be there.
pub open spec fn required_u8(node: Node, name: Seq<char>) -> Result<u8, FaultView> {
    match field_text(node, name) {
        Some(text) => match spec_parse_u8(text) {
            Some(value) => Ok(value),
            None => Err(FaultView::InvalidValue(name)),
        },
        None => Err(FaultView::MissingField(name)),
    }
}

/// A small count that may be absent.
pub open spec fn optional_u8(node: Node, name: Seq<char>) -> Result<Option<u8>, FaultView> {
    match field_text(node, name) {
        Some(text) => match spec_parse_u8(text) {
            Some(value) => Ok(Some(value)),
            None => Err(FaultView::InvalidValue(name)),
        },
        None => Ok(None),
    }
}

/// A truth value that may be absent.
pub open spec fn optional_flag(node: Node, name: Seq<char>) -> Result<Option<bool>, FaultView> {
    match field_text(node, name) {
        Some(text) => match flag_of(text) {
            Some(value) => Ok(Some(value)),
            None => Err(FaultView::InvalidValue(name)),
        },
        None => Ok(None),
    }
}

/// A quality that may be absent. Whatever the token, a quality that is
/// there is read.
pub open spec fn optional_quality(node: Node, name: Seq<char>) -> Option<Quality> {
    match field_text(node, name) {
        Some(token) => Some(quality_of(token)),
        None => None,
    }
}

/// The kind of list that a browse result says it is.
pub open spec fn browse_type_in(node: Node) -> BrowseType {
    match field_text(node, "type"@) {
        Some(token) => browse_type_of(token),
        None => BrowseType::Unspecified,
    }
}

/// The kind of item that a browse item says it is.
pub open spec fn item_type_in(node: Node) -> ItemType {
    match field_text(node, "type"@) {
        Some(token) => item_type_of(token),
        None => ItemType::Unspecified,
    }
}

/// The first fault in a payload read as an [`Action`], if it has one.
pub open spec fn action_fault(node: Node) -> Option<FaultView> {
    no_fault()
        .or(required_u8(node, "hide"@))
        .or(required_text(node, "name"@))
        .earliest
}

/// What a payload without a fault holds, read as an [`Action`].
pub open spec fn action_value(node: Node) -> ActionView {
    ActionView {
        hide: required_u8(node, "hide"@)->Ok_0,
        name: required_text(node, "name"@)->Ok_0,
    }
}

/// What decoding a payload as an [`Action`] gives.
pub open spec fn action_of(node: Node) -> Result<ActionView, FaultView> {
    match action_fault(node) {
        Some(fault) => Err(fault),
        None => Ok(action_value(node)),
    }
}

/// What decoding the children called `action` gives: the player's actions, in document order.
/// Children of another name are passed over.
pub open spec fn actions_of(children: Seq<Node>) -> Result<Seq<ActionView>, FaultView>
    decreases children.len(),
{
    if children.len() == 0 {
        Ok(Seq::empty())
    } else if children[0].name != "action"@ {
        actions_of(children.drop_first())
    } else {
        match action_of(children[0]) {
            Ok(first) => followed_by(seq![first], actions_of(children.drop_first())),
            Err(fault) => Err(fault),
        }
    }
}

/// The actions of a status: those below its child `actions`, where it has
/// that child.
pub open spec fn optional_actions(node: Node) -> Result<Option<Seq<ActionView>>, FaultView> {
    match first_child(node.children, "actions"@) {
        Some(holder) => match actions_of(holder.children) {
            Ok(list) => Ok(Some(list)),
            Err(fault) => Err(fault),
        },
        None => Ok(None),
    }
}

/// The first fault in a payload read as a [`Status`], if it has one.
pub open spec fn status_fault(node: Node) -> Option<FaultView> {
    no_fault()
        .or(required_text(node, "etag"@))
        .or(required_i64(node, "volume"@))
        .or(required_text(node, "db"@))
        .or(required_u8(node, "mute"@))
        .or(optional_i64(node, "muteVolume"@))
        .or(optional_i64(node, "muteDb"@))
        .or(optional_i64(node, "totlen"@))
        .or(optional_i64(node, "secs"@))
        .or(required_u8(node, "repeat"@))
        .or(required_u8(node, "shuffle"@))
        .or(required_i64(node, "song"@))
        .or(optional_actions(node))
        .or(optional_u8(node, "canSeek"@))
        .or(optional_flag(node, "canMovePlayback"@))
        .or(required_i64(node, "mode"@))
        .or(required_i64(node, "pid"@))
        .or(required_u8(node, "prid"@))
        .or(required_i64(node, "sid"@))
        .or(required_text(node, "state"@))
        .or(required_i64(node, "syncStat"@))
        .or(optional_i64(node, "cursor"@))
        .or(required_i64(node, "indexing"@))
        .or(required_i64(node, "mid"@))
        .earliest
}

/// What a payload without a fault holds, read as a [`Status`].
pub open spec fn status_value(node: Node) -> StatusView {
    StatusView {
        etag: required_text(node, "etag"@)->Ok_0,
        volume: required_i64(node, "volume"@)->Ok_0,
        volume_decibel: required_text(node, "db"@)->Ok_0,
        mute: required_u8(node, "mute"@)->Ok_0,
        muted_volume: optional_i64(node, "muteVolume"@)->Ok_0,
        muted_decibel: optional_i64(node, "muteDb"@)->Ok_0,
        name: field_text(node, "name"@),
        album: field_text(node, "album"@),
        artist: field_text(node, "artist"@),
        total_length: optional_i64(node, "totlen"@)->Ok_0,
        seconds_played: optional_i64(node, "secs"@)->Ok_0,
        repeat: required_u8(node, "repeat"@)->Ok_0,
        shuffle: required_u8(node, "shuffle"@)->Ok_0,
        song_queue_position: required_i64(node, "song"@)->Ok_0,
        quality: optional_quality(node, "quality"@),
        filename: field_text(node, "fn"@),
        image: field_text(node, "image"@),
        title1: field_text(node, "title1"@),
        title2: field_text(node, "title2"@),
        title3: field_text(node, "title3"@),
        twoline_title1: field_text(node, "twolineTitle1"@),
        twoline_title2: field_text(node, "twolineTitle2"@),
        current_image: field_text(node, "currentImage"@),
        group_name: field_text(node, "groupName"@),
        group_volume: field_text(node, "groupVolume"@),
        actions: optional_actions(node)->Ok_0,
        can_seek: optional_u8(node, "canSeek"@)->Ok_0,
        can_move_playback: optional_flag(node, "canMovePlayback"@)->Ok_0,
        notify_url: field_text(node, "notifyUrl"@),
        mode: required_i64(node, "mode"@)->Ok_0,
        pid: required_i64(node, "pid"@)->Ok_0,
        prid: required_u8(node, "prid"@)->Ok_0,
        sid: required_i64(node, "sid"@)->Ok_0,
        state: required_text(node, "state"@)->Ok_0,
        stream_url: field_text(node, "streamUrl"@),
        sync_stat: required_i64(node, "syncStat"@)->Ok_0,
        cursor: optional_i64(node, "cursor"@)->Ok_0,
        indexing: required_i64(node, "indexing"@)->Ok_0,
        mid: required_i64(node, "mid"@)->Ok_0,
    }
}

/// What decoding a payload as a [`Status`] gives.
pub open spec fn status_of(node: Node) -> Result<StatusView, FaultView> {
    match status_fault(node) {
        Some(fault) => Err(fault),
        None => Ok(status_value(node)),
    }
}

/// What reading a text and decoding it as a [`Status`] gives.
pub open spec fn status_in(xml: Seq<char>) -> Result<StatusView, FaultView> {
    match markup_of(xml) {
        Ok(node) => status_of(node),
        Err(fault) => Err(fault),
    }
}

/// The first fault in a payload read as a [`PlaylistEntry`], if it has one.
pub open spec fn playlist_entry_fault(node: Node) -> Option<FaultView> {
    no_fault()
        .or(required_i64(node, "id"@))
        .earliest
}

/// What a payload without a fault holds, read as a [`PlaylistEntry`].
pub open spec fn playlist_entry_value(node: Node) -> PlaylistEntryView {
    PlaylistEntryView {
        id: required_i64(node, "id"@)->Ok_0,
        song_id: field_text(node, "songid"@),
        album_id: field_text(node, "albumid"@),
        artist_id: field_text(node, "artistid"@),
        service: field_text(node, "service"@),
        title: field_text(node, "title"@),
        art: field_text(node, "art"@),
        alb: field_text(node, "alb"@),
        filename: field_text(node, "fn"@),
        quality: optional_quality(node, "quality"@),
    }
}

/// What decoding a payload as a [`PlaylistEntry`] gives.
pub open spec fn playlist_entry_of(node: Node) -> Result<PlaylistEntryView, FaultView> {
    match playlist_entry_fault(node) {
        Some(fault) => Err(fault),
        None => Ok(playlist_entry_value(node)),
    }
}

/// What decoding the children called `song` gives: the tracks of a queue, in document order.
/// Children of another name are passed over.
pub open spec fn entries_of(children: Seq<Node>) -> Result<Seq<PlaylistEntryView>, FaultView>
    decreases children.len(),
{
    if children.len() == 0 {
        Ok(Seq::empty())
    } else if children[0].name != "song"@ {
        entries_of(children.drop_first())
    } else {
        match playlist_entry_of(children[0]) {
            Ok(first) => followed_by(seq![first], entries_of(children.drop_first())),
            Err(fault) => Err(fault),
        }
    }
}

/// The first fault in a payload read as a [`Playlist`], if it has one.
pub open spec fn playlist_fault(node: Node) -> Option<FaultView> {
    no_fault()
        .or(required_i64(node, "id"@))
        .or(required_i64(node, "modified"@))
        .or(required_i64(node, "length"@))
        .or(entries_of(node.children))
        .earliest
}

/// What a payload without a fault holds, read as a [`Playlist`].
pub open spec fn playlist_value(node: Node) -> PlaylistView {
    PlaylistView {
        id: required_i64(node, "id"@)->Ok_0,
        name: field_text(node, "name"@),
        modified: required_i64(node, "modified"@)->Ok_0,
        length: required_i64(node, "length"@)->Ok_0,
        entries: entries_of(node.children)->Ok_0,
    }
}

/// What decoding a payload as a [`Playlist`] gives.
pub open spec fn playlist_of(node: Node) -> Result<PlaylistView, FaultView> {
    match playlist_fault(node) {
        Some(fault) => Err(fault),
        None => Ok(playlist_value(node)),
    }
}

/// What reading a text and decoding it as a [`Playlist`] gives.
pub open spec fn playlist_in(xml: Seq<char>) -> Result<PlaylistView, FaultView> {
    match markup_of(xml) {
        Ok(node) => playlist_of(node),
        Err(fault) => Err(fault),
    }
}

/// The first fault in a payload read as a [`BrowseItem`], if it has one.
pub open spec fn browse_item_fault(node: Node) -> Option<FaultView> {
    None
}

/// What a payload without a fault holds, read as a [`BrowseItem`].
pub open spec fn browse_item_value(node: Node) -> BrowseItemView {
    BrowseItemView {
        image: field_text(node, "image"@),
        browse_key: field_text(node, "browseKey"@),
        text: field_text(node, "text"@),
        text2: field_text(node, "text2"@),
        item_type: item_type_in(node),
        play_url: field_text(node, "playURL"@),
        autoplay_url: field_text(node, "autoplayURL"@),
        context_menu_key: field_text(node, "contextMenuKey"@),
        action_url: field_text(node, "actionURL"@),
    }
}

/// What decoding a payload as a [`BrowseItem`] gives.
pub open spec fn browse_item_of(node: Node) -> Result<BrowseItemView, FaultView> {
    match browse_item_fault(node) {
        Some(fault) => Err(fault),
        None => Ok(browse_item_value(node)),
    }
}

/// What decoding the children called `item` gives: the items of a browse result, in document order.
/// Children of another name are passed over.
pub open spec fn items_of(children: Seq<Node>) -> Result<Seq<BrowseItemView>, FaultView>
    decreases children.len(),
{
    if children.len() == 0 {
        Ok(Seq::empty())
    } else if children[0].name != "item"@ {
        items_of(children.drop_first())
    } else {
        match browse_item_of(children[0]) {
            Ok(first) => followed_by(seq![first], items_of(children.drop_first())),
            Err(fault) => Err(fault),
        }
    }
}

/// The first fault in a payload read as a [`Browse`], if it has one.
pub open spec fn browse_fault(node: Node) -> Option<FaultView> {
    no_fault()
        .or(required_text(node, "sid"@))
        .or(items_of(node.children))
        .earliest
}

/// What a payload without a fault holds, read as a [`Browse`].
pub open spec fn browse_value(node: Node) -> BrowseView {
    BrowseView {
        sid: required_text(node, "sid"@)->Ok_0,
        browse_type: browse_type_in(node),
        service_icon: field_text(node, "serviceIcon"@),
        service_name: field_text(node, "serviceName"@),
        search_key: field_text(node, "searchKey"@),
        next_key: field_text(node, "nextKey"@),
        parent_key: field_text(node, "parentKey"@),
        items: items_of(node.children)->Ok_0,
    }
}

/// What decoding a payload as a [`Browse`] gives.
pub open spec fn browse_of(node: Node) -> Result<BrowseView, FaultView> {
    match browse_fault(node) {
        Some(fault) => Err(fault),
        None => Ok(browse_value(node)),
    }
}

/// What reading a text and decoding it as a [`Browse`] gives.
pub open spec fn browse_in(xml: Seq<char>) -> Result<BrowseView, FaultView> {
    match markup_of(xml) {
        Ok(node) => browse_of(node),
        Err(fault) => Err(fault),
    }
}

/// The first fault in a payload read as a [`SyncStatus`], if it has one.
pub open spec fn sync_status_fault(node: Node) -> Option<FaultView> {
    no_fault()
        .or(required_text(node, "mac"@))
        .or(required_text(node, "id"@))
        .or(required_text(node, "brand"@))
        .or(required_text(node, "db"@))
        .or(required_i16(node, "volume"@))
        .or(required_text(node, "icon"@))
        .or(required_text(node, "model"@))
        .or(required_text(node, "modelName"@))
        .or(required_text(node, "name"@))
        .or(required_text(node, "schemaVersion"@))
        .earliest
}

/// What a payload without a fault holds, read as a [`SyncStatus`].
pub open spec fn sync_status_value(node: Node) -> SyncStatusView {
    SyncStatusView {
        mac: required_text(node, "mac"@)->Ok_0,
        id: required_text(node, "id"@)->Ok_0,
        brand: required_text(node, "brand"@)->Ok_0,
        db: required_text(node, "db"@)->Ok_0,
        volume: required_i16(node, "volume"@)->Ok_0,
        group: field_text(node, "group"@),
        icon: required_text(node, "icon"@)->Ok_0,
        model: required_text(node, "model"@)->Ok_0,
        model_name: required_text(node, "modelName"@)->Ok_0,
        name: required_text(node, "name"@)->Ok_0,
        schema_version: required_text(node, "schemaVersion"@)->Ok_0,
    }
}

/// What decoding a payload as a [`SyncStatus`] gives.
pub open spec fn sync_status_of(node: Node) -> Result<SyncStatusView, FaultView> {
    match sync_status_fault(node) {
        Some(fault) => Err(fault),
        None => Ok(sync_status_value(node)),
    }
}

/// What reading a text and decoding it as a [`SyncStatus`] gives.
pub open spec fn sync_status_in(xml: Seq<char>) -> Result<SyncStatusView, FaultView> {
    match markup_of(xml) {
        Ok(node) => sync_status_of(node),
        Err(fault) => Err(fault),
    }
}

/// What decoding a payload as a [`StateResponse`] gives: the state that
/// its text names.
pub open spec fn state_response_of(node: Node) -> StateResponse {
    StateResponse { state: state_of(node.text) }
}

/// What reading a text and decoding it as a [`StateResponse`] gives.
pub open spec fn state_response_in(xml: Seq<char>) -> Result<StateResponse, FaultView> {
    match markup_of(xml) {
        Ok(node) => Ok(state_response_of(node)),
        Err(fault) => Err(fault),
    }
}

/// What decoding a payload as an [`IdResponse`] gives: no position where its
/// text is empty, else the position that its text is the numeral of.
pub open spec fn id_response_of(node: Node) -> Result<IdResponse, FaultView> {
    if node.text.len() == 0 {
        Ok(IdResponse { id: None })
    } else {
        match spec_parse_i64(node.text) {
            Some(id) => Ok(IdResponse { id: Some(id) }),
            None => Err(FaultView::InvalidValue("id"@)),
        }
    }
}

/// What reading a text and decoding it as an [`IdResponse`] gives.
pub open spec fn id_response_in(xml: Seq<char>) -> Result<IdResponse, FaultView> {
    match markup_of(xml) {
        Ok(node) => id_response_of(node),
        Err(fault) => Err(fault),
    }
}

fn missing(name: &str) -> (r: Fault)
    ensures
        r@ == FaultView::MissingField(name@),
{
    Fault::MissingField(String::from_str(name))
}

fn invalid(name: &str) -> (r: Fault)
    ensures
        r@ == FaultView::InvalidValue(name@),
{
    Fault::InvalidValue(String::from_str(name))
}

fn read_text(element: &Element, name: &str) -> (r: Result<String, Fault>)
    ensures
        decoded(r) == required_text(element@, name@),
{
    match element.field(name) {
        Some(text) => Ok(text.clone()),
        None => Err(missing(name)),
    }
}

fn read_optional_text(element: &Element, name: &str) -> (r: Option<String>)
    ensures
        crate::responses::text_view(r) == field_text(element@, name@),
{
    match element.field(name) {
        Some(text) => Some(text.clone()),
        None => None,
    }
}

fn read_i64(element: &Element, name: &str) -> (r: Result<i64, Fault>)
    ensures
        decoded(r) == required_i64(element@, name@),
{
    match element.field(name) {
        Some(text) => match parse_i64(text.as_str()) {
            Some(value) => Ok(value),
            None => Err(invalid(name)),
        },
        None => Err(missing(name)),
    }
}

fn read_optional_i64(element: &Element, name: &str) -> (r: Result<Option<i64>, Fault>)
    ensures
        decoded(r) == optional_i64(element@, name@),
{
    match element.field(name) {
        Some(text) => match parse_i64(text.as_str()) {
            Some(value) => Ok(Some(value)),
            None => Err(invalid(name)),
        },
        None => Ok(None),
    }
}

fn read_i16(element: &Element, name: &str) -> (r: Result<i16, Fault>)
    ensures
        decoded(r) == required_i16(element@, name@),
{
    match element.field(name) {
        Some(text) => match parse_i16(text.as_str()) {
            Some(value) => Ok(value),
            None => Err(invalid(name)),
        },
        None => Err(missing(name)),
    }
}

fn read_u8(element: &Element, name: &str) -> (r: Result<u8, Fault>)
    ensures
        decoded(r) == required_u8(element@, name@),
{
    match element.field(name) {
        Some(text) => match parse_u8(text.as_str()) {
            Some(value) => Ok(value),
            None => Err(invalid(name)),
        },
        None => Err(missing(name)),
    }
}

fn read_optional_u8(element: &Element, name: &str) -> (r: Result<Option<u8>, Fault>)
    ensures
        decoded(r) == optional_u8(element@, name@),
{
    match element.field(name) {
        Some(text) => match parse_u8(text.as_str()) {
            Some(value) => Ok(Some(value)),
            None => Err(invalid(name)),
        },
        None => Ok(None),
    }
}

/// Reads a truth value from its text.
pub fn parse_flag(text: &str) -> (r: Option<bool>)
    ensures
        r == flag_of(text@),
{
    if same_text(text, "true") || same_text(text, "1") {
        Some(true)
    } else if same_text(text, "false") || same_text(text, "0") {
        Some(false)
    } else {
        None
    }
}

fn read_optional_flag(element: &Element, name: &str) -> (r: Result<Option<bool>, Fault>)
    ensures
        decoded(r) == optional_flag(element@, name@),
{
    match element.field(name) {
        Some(text) => match parse_flag(text.as_str()) {
            Some(value) => Ok(Some(value)),
            None => Err(invalid(name)),
        },
        None => Ok(None),
    }
}

fn read_quality(element: &Element, name: &str) -> (r: Option<Quality>)
    ensures
        r == optional_quality(element@, name@),
{
    match element.field(name) {
        Some(token) => Some(Quality::from(token.clone())),
        None => None,
    }
}

fn read_browse_type(element: &Element) -> (r: BrowseType)
    ensures
        r == browse_type_in(element@),
{
    match element.field("type") {
        Some(token) => BrowseType::from_token(token.as_str()),
        None => BrowseType::default(),
    }
}

fn read_item_type(element: &Element) -> (r: ItemType)
    ensures
        r == item_type_in(element@),
{
    match element.field("type") {
        Some(token) => ItemType::from_token(token.as_str()),
        None => ItemType::default(),
    }
}

impl Action {
    /// Decodes a payload as an [`Action`].
    pub fn decode(element: &Element) -> (r: Result<Action, Fault>)
        ensures
            decoded(r) == action_of(element@),
    {
        let hide = read_u8(element, "hide")?;
        let name = read_text(element, "name")?;
        Ok(Action { hide, name })
    }
}

fn read_actions(parent: &Element) -> (r: Result<Vec<Action>, Fault>)
    ensures
        match r {
            Ok(list) => actions_of(parent@.children) == Ok::<Seq<ActionView>, FaultView>(action_views(list@)),
            Err(fault) => actions_of(parent@.children) == Err::<Seq<ActionView>, FaultView>(fault@),
        },
{
    proof {
        parent.lemma_view();
    }
    let ghost all = parent@.children;
    let n = parent.children.len();
    let mut list: Vec<Action> = Vec::new();
    let mut i: usize = 0;
    assert(all.subrange(0, n as int) =~= all);
    assert(Seq::<ActionView>::empty() + actions_of(all)->Ok_0 =~= actions_of(all)->Ok_0);
    while i < n
        invariant
            0 <= i <= n,
            n == parent.children@.len(),
            all == parent@.children,
            all.len() == n,
            forall|k: int| 0 <= k < n ==> #[trigger] all[k] == parent.children@[k]@,
            actions_of(all) == followed_by(action_views(list@), actions_of(all.subrange(i as int, n as int))),
        decreases n - i,
    {
        let child = &parent.children[i];
        let ghost here = all.subrange(i as int, n as int);
        let ghost rest = all.subrange(i + 1, n as int);
        proof {
            child.lemma_view();
            assert(here[0] == child@);
            assert(here.drop_first() =~= rest);
        }
        if same_text(child.name.as_str(), "action") {
            let ghost before = action_views(list@);
            match Action::decode(child) {
                Ok(value) => {
                    list.push(value);
                    proof {
                        assert(action_views(list@) =~= before.push(value@));
                        if let Ok(tail) = actions_of(rest) {
                            assert(before + (seq![value@] + tail) =~= before.push(value@) + tail);
                        }
                    }
                },
                Err(fault) => {
                    return Err(fault);
                },
            }
        }
        i = i + 1;
    }
    assert(action_views(list@) + Seq::<ActionView>::empty() =~= action_views(list@));
    Ok(list)
}

fn read_optional_actions(element: &Element) -> (r: Result<Option<Actions>, Fault>)
    ensures
        match r {
            Ok(Some(actions)) => optional_actions(element@) == Ok::<Option<Seq<ActionView>>, FaultView>(
                Some(actions@),
            ),
            Ok(None) => optional_actions(element@) == Ok::<Option<Seq<ActionView>>, FaultView>(None),
            Err(fault) => optional_actions(element@) == Err::<Option<Seq<ActionView>>, FaultView>(
                fault@,
            ),
        },
{
    match element.child("actions") {
        Some(holder) => {
            let action = read_actions(holder)?;
            Ok(Some(Actions { action }))
        },
        None => Ok(None),
    }
}

impl Status {
    /// Decodes a payload as a [`Status`].
    pub fn decode(element: &Element) -> (r: Result<Status, Fault>)
        ensures
            decoded(r) == status_of(element@),
    {
        let etag = read_text(element, "etag")?;
        let volume = read_i64(element, "volume")?;
        let volume_decibel = read_text(element, "db")?;
        let mute = read_u8(element, "mute")?;
        let muted_volume = read_optional_i64(element, "muteVolume")?;
        let muted_decibel = read_optional_i64(element, "muteDb")?;
        let name = read_optional_text(element, "name");
        let album = read_optional_text(element, "album");
        let artist = read_optional_text(element, "artist");
        let total_length = read_optional_i64(element, "totlen")?;
        let seconds_played = read_optional_i64(element, "secs")?;
        let repeat = read_u8(element, "repeat")?;
        let shuffle = read_u8(element, "shuffle")?;
        let song_queue_position = read_i64(element, "song")?;
        let quality = read_quality(element, "quality");
        let filename = read_optional_text(element, "fn");
        let image = read_optional_text(element, "image");
        let title1 = read_optional_text(element, "title1");
        let title2 = read_optional_text(element, "title2");
        let title3 = read_optional_text(element, "title3");
        let twoline_title1 = read_optional_text(element, "twolineTitle1");
        let twoline_title2 = read_optional_text(element, "twolineTitle2");
        let current_image = read_optional_text(element, "currentImage");
        let group_name = read_optional_text(element, "groupName");
        let group_volume = read_optional_text(element, "groupVolume");
        let actions = read_optional_actions(element)?;
        let can_seek = read_optional_u8(element, "canSeek")?;
        let can_move_playback = read_optional_flag(element, "canMovePlayback")?;
        let notify_url = read_optional_text(element, "notifyUrl");
        let mode = read_i64(element, "mode")?;
        let pid = read_i64(element, "pid")?;
        let prid = read_u8(element, "prid")?;
        let sid = read_i64(element, "sid")?;
        let state = read_text(element, "state")?;
        let stream_url = read_optional_text(element, "streamUrl");
        let sync_stat = read_i64(element, "syncStat")?;
        let cursor = read_optional_i64(element, "cursor")?;
        let indexing = read_i64(element, "indexing")?;
        let mid = read_i64(element, "mid")?;
        Ok(
            Status {
                etag,
                volume,
                volume_decibel,
                mute,
                muted_volume,
                muted_decibel,
                name,
                album,
                artist,
                total_length,
                seconds_played,
                repeat,
                shuffle,
                song_queue_position,
                quality,
                filename,
                image,
                title1,
                title2,
                title3,
                twoline_title1,
                twoline_title2,
                current_image,
                group_name,
                group_volume,
                actions,
                can_seek,
                can_move_playback,
                notify_url,
                mode,
                pid,
                prid,
                sid,
                state,
                stream_url,
                sync_stat,
                cursor,
                indexing,
                mid,
            },
        )
    }

    /// Reads the text of a payload and decodes it as a [`Status`]. `url` says
    /// where the text came from, for the report of a fault.
    pub fn from_payload(xml: &str, url: &str) -> (r: Result<Status, Error>)
        ensures
            reported(r) == located(status_in(xml@), xml@, url@),
    {
        let element = match read_markup(xml) {
            Ok(element) => element,
            Err(fault) => {
                return Err(Error::decode_failure(fault, xml, url));
            },
        };
        match Status::decode(&element) {
            Ok(value) => Ok(value),
            Err(fault) => Err(Error::decode_failure(fault, xml, url)),
        }
    }
}

impl PlaylistEntry {
    /// Decodes a payload as a [`PlaylistEntry`].
    pub fn decode(element: &Element) -> (r: Result<PlaylistEntry, Fault>)
        ensures
            decoded(r) == playlist_entry_of(element@),
    {
        let id = read_i64(element, "id")?;
        let song_id = read_optional_text(element, "songid");
        let album_id = read_optional_text(element, "albumid");
        let artist_id = read_optional_text(element, "artistid");
        let service = read_optional_text(element, "service");
        let title = read_optional_text(element, "title");
        let art = read_optional_text(element, "art");
        let alb = read_optional_text(element, "alb");
        let filename = read_optional_text(element, "fn");
        let quality = read_quality(element, "quality");
        Ok(
            PlaylistEntry {
                id,
                song_id,
                album_id,
                artist_id,
                service,
                title,
                art,
                alb,
                filename,
                quality,
            },
        )
    }
}

fn read_entries(parent: &Element) -> (r: Result<Vec<PlaylistEntry>, Fault>)
    ensures
        match r {
            Ok(list) => entries_of(parent@.children) == Ok::<Seq<PlaylistEntryView>, FaultView>(entry_views(list@)),
            Err(fault) => entries_of(parent@.children) == Err::<Seq<PlaylistEntryView>, FaultView>(fault@),
        },
{
    proof {
        parent.lemma_view();
    }
    let ghost all = parent@.children;
    let n = parent.children.len();
    let mut list: Vec<PlaylistEntry> = Vec::new();
    let mut i: usize = 0;
    assert(all.subrange(0, n as int) =~= all);
    assert(Seq::<PlaylistEntryView>::empty() + entries_of(all)->Ok_0 =~= entries_of(all)->Ok_0);
    while i < n
        invariant
            0 <= i <= n,
            n == parent.children@.len(),
            all == parent@.children,
            all.len() == n,
            forall|k: int| 0 <= k < n ==> #[trigger] all[k] == parent.children@[k]@,
            entries_of(all) == followed_by(entry_views(list@), entries_of(all.subrange(i as int, n as int))),
        decreases n - i,
    {
        let child = &parent.children[i];
        let ghost here = all.subrange(i as int, n as int);
        let ghost rest = all.subrange(i + 1, n as int);
        proof {
            child.lemma_view();
            assert(here[0] == child@);
            assert(here.drop_first() =~= rest);
        }
        if same_text(child.name.as_str(), "song") {
            let ghost before = entry_views(list@);
            match PlaylistEntry::decode(child) {
                Ok(value) => {
                    list.push(value);
                    proof {
                        assert(entry_views(list@) =~= before.push(value@));
                        if let Ok(tail) = entries_of(rest) {
                            assert(before + (seq![value@] + tail) =~= before.push(value@) + tail);
                        }
                    }
                },
                Err(fault) => {
                    return Err(fault);
                },
            }
        }
        i = i + 1;
    }
    assert(entry_views(list@) + Seq::<PlaylistEntryView>::empty() =~= entry_views(list@));
    Ok(list)
}

impl Playlist {
    /// Decodes a payload as a [`Playlist`].
    pub fn decode(element: &Element) -> (r: Result<Playlist, Fault>)
        ensures
            decoded(r) == playlist_of(element@),
    {
        let id = read_i64(element, "id")?;
        let name = read_optional_text(element, "name");
        let modified = read_i64(element, "modified")?;
        let length = read_i64(element, "length")?;
        let entries = read_entries(element)?;
        Ok(
            Playlist {
                id,
                name,
                modified,
                length,
                entries,
            },
        )
    }

    /// Reads the text of a payload and decodes it as a [`Playlist`]. `url` says
    /// where the text came from, for the report of a fault.
    pub fn from_payload(xml: &str, url: &str) -> (r: Result<Playlist, Error>)
        ensures
            reported(r) == located(playlist_in(xml@), xml@, url@),
    {
        let element = match read_markup(xml) {
            Ok(element) => element,
            Err(fault) => {
                return Err(Error::decode_failure(fault, xml, url));
            },
        };
        match Playlist::decode(&element) {
            Ok(value) => Ok(value),
            Err(fault) => Err(Error::decode_failure(fault, xml, url)),
        }
    }
}

impl BrowseItem {
    /// Decodes a payload as a [`BrowseItem`].
    pub fn decode(element: &Element) -> (r: Result<BrowseItem, Fault>)
        ensures
            decoded(r) == browse_item_of(element@),
    {
        let image = read_optional_text(element, "image");
        let browse_key = read_optional_text(element, "browseKey");
        let text = read_optional_text(element, "text");
        let text2 = read_optional_text(element, "text2");
        let item_type = read_item_type(element);
        let play_url = read_optional_text(element, "playURL");
        let autoplay_url = read_optional_text(element, "autoplayURL");
        let context_menu_key = read_optional_text(element, "contextMenuKey");
        let action_url = read_optional_text(element, "actionURL");
        Ok(
            BrowseItem {
                image,
                browse_key,
                text,
                text2,
                item_type,
                play_url,
                autoplay_url,
                context_menu_key,
                action_url,
            },
        )
    }
}

fn read_items(parent: &Element) -> (r: Result<Vec<BrowseItem>, Fault>)
    ensures
        match r {
            Ok(list) => items_of(parent@.children) == Ok::<Seq<BrowseItemView>, FaultView>(item_views(list@)),
            Err(fault) => items_of(parent@.children) == Err::<Seq<BrowseItemView>, FaultView>(fault@),
        },
{
    proof {
        parent.lemma_view();
    }
    let ghost all = parent@.children;
    let n = parent.children.len();
    let mut list: Vec<BrowseItem> = Vec::new();
    let mut i: usize = 0;
    assert(all.subrange(0, n as int) =~= all);
    assert(Seq::<BrowseItemView>::empty() + items_of(all)->Ok_0 =~= items_of(all)->Ok_0);
    while i < n
        invariant
            0 <= i <= n,
            n == parent.children@.len(),
            all == parent@.children,
            all.len() == n,
            forall|k: int| 0 <= k < n ==> #[trigger] all[k] == parent.children@[k]@,
            items_of(all) == followed_by(item_views(list@), items_of(all.subrange(i as int, n as int))),
        decreases n - i,
    {
        let child = &parent.children[i];
        let ghost here = all.subrange(i as int, n as int);
        let ghost rest = all.subrange(i + 1, n as int);
        proof {
            child.lemma_view();
            assert(here[0] == child@);
            assert(here.drop_first() =~= rest);
        }
        if same_text(child.name.as_str(), "item") {
            let ghost before = item_views(list@);
            match BrowseItem::decode(child) {
                Ok(value) => {
                    list.push(value);
                    proof {
                        assert(item_views(list@) =~= before.push(value@));
                        if let Ok(tail) = items_of(rest) {
                            assert(before + (seq![value@] + tail) =~= before.push(value@) + tail);
                        }
                    }
                },
                Err(fault) => {
                    return Err(fault);
                },
            }
        }
        i = i + 1;
    }
    assert(item_views(list@) + Seq::<BrowseItemView>::empty() =~= item_views(list@));
    Ok(list)
}

impl Browse {
    /// Decodes a payload as a [`Browse`].
    pub fn decode(element: &Element) -> (r: Result<Browse, Fault>)
        ensures
            decoded(r) == browse_of(element@),
    {
        let sid = read_text(element, "sid")?;
        let browse_type = read_browse_type(element);
        let service_icon = read_optional_text(element, "serviceIcon");
        let service_name = read_optional_text(element, "serviceName");
        let search_key = read_optional_text(element, "searchKey");
        let next_key = read_optional_text(element, "nextKey");
        let parent_key = read_optional_text(element, "parentKey");
        let items = read_items(element)?;
        Ok(
            Browse {
                sid,
                browse_type,
                service_icon,
                service_name,
                search_key,
                next_key,
                parent_key,
                items,
            },
        )
    }

    /// Reads the text of a payload and decodes it as a [`Browse`]. `url` says
    /// where the text came from, for the report of a fault.
    pub fn from_payload(xml: &str, url: &str) -> (r: Result<Browse, Error>)
        ensures
            reported(r) == located(browse_in(xml@), xml@, url@),
    {
        let element = match read_markup(xml) {
            Ok(element) => element,
            Err(fault) => {
                return Err(Error::decode_failure(fault, xml, url));
            },
        };
        match Browse::decode(&element) {
            Ok(value) => Ok(value),
            Err(fault) => Err(Error::decode_failure(fault, xml, url)),
        }
    }
}

impl SyncStatus {
    /// Decodes a payload as a [`SyncStatus`].
    pub fn decode(element: &Element) -> (r: Result<SyncStatus, Fault>)
        ensures
            decoded(r) == sync_status_of(element@),
    {
        let mac = read_text(element, "mac")?;
        let id = read_text(element, "id")?;
        let brand = read_text(element, "brand")?;
        let db = read_text(element, "db")?;
        let volume = read_i16(element, "volume")?;
        let group = read_optional_text(element, "group");
        let icon = read_text(element, "icon")?;
        let model = read_text(element, "model")?;
        let model_name = read_text(element, "modelName")?;
        let name = read_text(element, "name")?;
        let schema_version = read_text(element, "schemaVersion")?;
        Ok(
            SyncStatus {
                mac,
                id,
                brand,
                db,
                volume,
                group,
                icon,
                model,
                model_name,
                name,
                schema_version,
            },
        )
    }

    /// Reads the text of a payload and decodes it as a [`SyncStatus`]. `url` says
    /// where the text came from, for the report of a fault.
    pub fn from_payload(xml: &str, url: &str) -> (r: Result<SyncStatus, Error>)
        ensures
            reported(r) == located(sync_status_in(xml@), xml@, url@),
    {
        let element = match read_markup(xml) {
            Ok(element) => element,
            Err(fault) => {
                return Err(Error::decode_failure(fault, xml, url));
            },
        };
        match SyncStatus::decode(&element) {
            Ok(value) => Ok(value),
            Err(fault) => Err(Error::decode_failure(fault, xml, url)),
        }
    }
}

/// The payload that an advertisement amounts to: the records that it
/// carries, as attributes, behind the network address that it came from,
/// which stands under `id`.
pub open spec fn advertisement_node(
    address: Seq<char>,
    port: u16,
    records: Seq<(Seq<char>, Seq<char>)>,
) -> Node {
    Node {
        name: "SyncStatus"@,
        attributes: seq![("id"@, address + ":"@ + numeral_of(port as int))] + records,
        text: Seq::empty(),
        children: Seq::empty(),
    }
}

impl SyncStatus {
    /// Makes out the player that an advertisement describes, from the
    /// network address that the advertisement came from and the records that
    /// it carries. The player's `id` is that address, whatever the records
    /// say.
    pub fn from_advertisement(address: &str, port: u16, records: &Vec<Attribute>) -> (r: Result<
        SyncStatus,
        Fault,
    >)
        ensures
            decoded(r) == sync_status_of(
                advertisement_node(address@, port, attribute_views(records@)),
            ),
    {
        let mut id = String::from_str(address);
        id.append(":");
        id.append(render_i64(port as i64).as_str());
        let mut element = Element::new("SyncStatus");
        element.push_attribute("id", id);
        let ghost first = seq![("id"@, address@ + ":"@ + numeral_of(port as int))];
        let ghost all = attribute_views(records@);
        assert(element@.attributes =~= first + all.subrange(0, 0));
        let mut i: usize = 0;
        while i < records.len()
            invariant
                0 <= i <= records.len(),
                all == attribute_views(records@),
                element@ == (Node {
                    attributes: first + all.subrange(0, i as int),
                    ..advertisement_node(address@, port, all)
                }),
            decreases records.len() - i,
        {
            element.push_attribute(records[i].name.as_str(), records[i].value.clone());
            assert(first + all.subrange(0, i + 1) =~= (first + all.subrange(0, i as int)).push(
                all[i as int],
            ));
            i = i + 1;
        }
        assert(all.subrange(0, i as int) =~= all);
        SyncStatus::decode(&element)
    }
}

/// The wire names of an [`Action`] differ in their signatures.
pub proof fn lemma_action_names()
    ensures
        signature("hide"@) == (4nat, 'h', 'i', 'e'),
        signature("name"@) == (4nat, 'n', 'a', 'e'),
{
    reveal_strlit("hide");
    reveal_strlit("name");
}

/// The wire names of a [`PlaylistEntry`] differ in their signatures.
pub proof fn lemma_playlist_entry_names()
    ensures
        signature("id"@) == (2nat, 'i', 'd', 'd'),
        signature("songid"@) == (6nat, 's', 'o', 'd'),
        signature("albumid"@) == (7nat, 'a', 'l', 'd'),
        signature("artistid"@) == (8nat, 'a', 'r', 'd'),
        signature("service"@) == (7nat, 's', 'e', 'e'),
        signature("title"@) == (5nat, 't', 'i', 'e'),
        signature("art"@) == (3nat, 'a', 'r', 't'),
        signature("alb"@) == (3nat, 'a', 'l', 'b'),
        signature("fn"@) == (2nat, 'f', 'n', 'n'),
        signature("quality"@) == (7nat, 'q', 'u', 'y'),
{
    reveal_strlit("id");
    reveal_strlit("songid");
    reveal_strlit("albumid");
    reveal_strlit("artistid");
    reveal_strlit("service");
    reveal_strlit("title");
    reveal_strlit("art");
    reveal_strlit("alb");
    reveal_strlit("fn");
    reveal_strlit("quality");
}

/// The wire names of a [`Playlist`] differ in their signatures.
pub proof fn lemma_playlist_names()
    ensures
        signature("id"@) == (2nat, 'i', 'd', 'd'),
        signature("name"@) == (4nat, 'n', 'a', 'e'),
        signature("modified"@) == (8nat, 'm', 'o', 'd'),
        signature("length"@) == (6nat, 'l', 'e', 'h'),
        signature("song"@) == (4nat, 's', 'o', 'g'),
{
    reveal_strlit("id");
    reveal_strlit("name");
    reveal_strlit("modified");
    reveal_strlit("length");
    reveal_strlit("song");
}

/// The wire names of a [`BrowseItem`] differ in their signatures.
pub proof fn lemma_browse_item_names()
    ensures
        signature("image"@) == (5nat, 'i', 'm', 'e'),
        signature("browseKey"@) == (9nat, 'b', 'r', 'y'),
        signature("text"@) == (4nat, 't', 'e', 't'),
        signature("text2"@) == (5nat, 't', 'e', '2'),
        signature("type"@) == (4nat, 't', 'y', 'e'),
        signature("playURL"@) == (7nat, 'p', 'l', 'L'),
        signature("autoplayURL"@) == (11nat, 'a', 'u', 'L'),
        signature("contextMenuKey"@) == (14nat, 'c', 'o', 'y'),
        signature("actionURL"@) == (9nat, 'a', 'c', 'L'),
{
    reveal_strlit("image");
    reveal_strlit("browseKey");
    reveal_strlit("text");
    reveal_strlit("text2");
    reveal_strlit("type");
    reveal_strlit("playURL");
    reveal_strlit("autoplayURL");
    reveal_strlit("contextMenuKey");
    reveal_strlit("actionURL");
}

/// The wire names of a [`Browse`] differ in their signatures.
pub proof fn lemma_browse_names()
    ensures
        signature("sid"@) == (3nat, 's', 'i', 'd'),
        signature("type"@) == (4nat, 't', 'y', 'e'),
        signature("serviceIcon"@) == (11nat, 's', 'e', 'n'),
        signature("serviceName"@) == (11nat, 's', 'e', 'e'),
        signature("searchKey"@) == (9nat, 's', 'e', 'y'),
        signature("nextKey"@) == (7nat, 'n', 'e', 'y'),
        signature("parentKey"@) == (9nat, 'p', 'a', 'y'),
        signature("item"@) == (4nat, 'i', 't', 'm'),
{
    reveal_strlit("sid");
    reveal_strlit("type");
    reveal_strlit("serviceIcon");
    reveal_strlit("serviceName");
    reveal_strlit("searchKey");
    reveal_strlit("nextKey");
    reveal_strlit("parentKey");
    reveal_strlit("item");
}

/// The wire names of a [`Status`] differ in their signatures.
pub proof fn lemma_status_names()
    ensures
        signature("etag"@) == (4nat, 'e', 't', 'g'),
        signature("volume"@) == (6nat, 'v', 'o', 'e'),
        signature("db"@) == (2nat, 'd', 'b', 'b'),
        signature("mute"@) == (4nat, 'm', 'u', 'e'),
        signature("muteVolume"@) == (10nat, 'm', 'u', 'e'),
        signature("muteDb"@) == (6nat, 'm', 'u', 'b'),
        signature("name"@) == (4nat, 'n', 'a', 'e'),
        signature("album"@) == (5nat, 'a', 'l', 'm'),
        signature("artist"@) == (6nat, 'a', 'r', 't'),
        signature("totlen"@) == (6nat, 't', 'o', 'n'),
        signature("secs"@) == (4nat, 's', 'e', 's'),
        signature("repeat"@) == (6nat, 'r', 'e', 't'),
        signature("shuffle"@) == (7nat, 's', 'h', 'e'),
        signature("song"@) == (4nat, 's', 'o', 'g'),
        signature("quality"@) == (7nat, 'q', 'u', 'y'),
        signature("fn"@) == (2nat, 'f', 'n', 'n'),
        signature("image"@) == (5nat, 'i', 'm', 'e'),
        signature("title1"@) == (6nat, 't', 'i', '1'),
        signature("title2"@) == (6nat, 't', 'i', '2'),
        signature("title3"@) == (6nat, 't', 'i', '3'),
        signature("twolineTitle1"@) == (13nat, 't', 'w', '1'),
        signature("twolineTitle2"@) == (13nat, 't', 'w', '2'),
        signature("currentImage"@) == (12nat, 'c', 'u', 'e'),
        signature("groupName"@) == (9nat, 'g', 'r', 'e'),
        signature("groupVolume"@) == (11nat, 'g', 'r', 'e'),
        signature("canSeek"@) == (7nat, 'c', 'a', 'k'),
        signature("canMovePlayback"@) == (15nat, 'c', 'a', 'k'),
        signature("notifyUrl"@) == (9nat, 'n', 'o', 'l'),
        signature("mode"@) == (4nat, 'm', 'o', 'e'),
        signature("pid"@) == (3nat, 'p', 'i', 'd'),
        signature("prid"@) == (4nat, 'p', 'r', 'd'),
        signature("sid"@) == (3nat, 's', 'i', 'd'),
        signature("state"@) == (5nat, 's', 't', 'e'),
        signature("streamUrl"@) == (9nat, 's', 't', 'l'),
        signature("syncStat"@) == (8nat, 's', 'y', 't'),
        signature("cursor"@) == (6nat, 'c', 'u', 'r'),
        signature("indexing"@) == (8nat, 'i', 'n', 'g'),
        signature("mid"@) == (3nat, 'm', 'i', 'd'),
        signature("actions"@) == (7nat, 'a', 'c', 's'),
{
    reveal_strlit("etag");
    reveal_strlit("volume");
    reveal_strlit("db");
    reveal_strlit("mute");
    reveal_strlit("muteVolume");
    reveal_strlit("muteDb");
    reveal_strlit("name");
    reveal_strlit("album");
    reveal_strlit("artist");
    reveal_strlit("totlen");
    reveal_strlit("secs");
    reveal_strlit("repeat");
    reveal_strlit("shuffle");
    reveal_strlit("song");
    reveal_strlit("quality");
    reveal_strlit("fn");
    reveal_strlit("image");
    reveal_strlit("title1");
    reveal_strlit("title2");
    reveal_strlit("title3");
    reveal_strlit("twolineTitle1");
    reveal_strlit("twolineTitle2");
    reveal_strlit("currentImage");
    reveal_strlit("groupName");
    reveal_strlit("groupVolume");
    reveal_strlit("canSeek");
    reveal_strlit("canMovePlayback");
    reveal_strlit("notifyUrl");
    reveal_strlit("mode");
    reveal_strlit("pid");
    reveal_strlit("prid");
    reveal_strlit("sid");
    reveal_strlit("state");
    reveal_strlit("streamUrl");
    reveal_strlit("syncStat");
    reveal_strlit("cursor");
    reveal_strlit("indexing");
    reveal_strlit("mid");
    reveal_strlit("actions");
}

/// The wire names of a [`SyncStatus`] differ in their signatures.
pub proof fn lemma_sync_status_names()
    ensures
        signature("mac"@) == (3nat, 'm', 'a', 'c'),
        signature("id"@) == (2nat, 'i', 'd', 'd'),
        signature("brand"@) == (5nat, 'b', 'r', 'd'),
        signature("db"@) == (2nat, 'd', 'b', 'b'),
        signature("volume"@) == (6nat, 'v', 'o', 'e'),
        signature("group"@) == (5nat, 'g', 'r', 'p'),
        signature("icon"@) == (4nat, 'i', 'c', 'n'),
        signature("model"@) == (5nat, 'm', 'o', 'l'),
        signature("modelName"@) == (9nat, 'm', 'o', 'e'),
        signature("name"@) == (4nat, 'n', 'a', 'e'),
        signature("schemaVersion"@) == (13nat, 's', 'c', 'n'),
{
    reveal_strlit("mac");
    reveal_strlit("id");
    reveal_strlit("brand");
    reveal_strlit("db");
    reveal_strlit("volume");
    reveal_strlit("group");
    reveal_strlit("icon");
    reveal_strlit("model");
    reveal_strlit("modelName");
    reveal_strlit("name");
    reveal_strlit("schemaVersion");
}

/// A child that is no `song`, put in anywhere, changes nothing of the tracks read.
pub proof fn lemma_entries_pass_over(children: Seq<Node>, at: int, child: Node)
    requires
        0 <= at <= children.len(),
        child.name != "song"@,
    ensures
        entries_of(children.insert(at, child)) == entries_of(children),
    decreases children.len(),
{
    let more = children.insert(at, child);
    if at == 0 {
        assert(more.drop_first() =~= children);
    } else {
        assert(more[0] == children[0]);
        assert(more.drop_first() =~= children.drop_first().insert(at - 1, child));
        lemma_entries_pass_over(children.drop_first(), at - 1, child);
    }
}

/// A child that is no `item`, put in anywhere, changes nothing of the items read.
pub proof fn lemma_items_pass_over(children: Seq<Node>, at: int, child: Node)
    requires
        0 <= at <= children.len(),
        child.name != "item"@,
    ensures
        items_of(children.insert(at, child)) == items_of(children),
    decreases children.len(),
{
    let more = children.insert(at, child);
    if at == 0 {
        assert(more.drop_first() =~= children);
    } else {
        assert(more[0] == children[0]);
        assert(more.drop_first() =~= children.drop_first().insert(at - 1, child));
        lemma_items_pass_over(children.drop_first(), at - 1, child);
    }
}

/// Whether a field of a [`Playlist`], or the list in it, goes by `name`.
pub open spec fn playlist_knows(name: Seq<char>) -> bool {
    ||| name == "id"@
    ||| name == "name"@
    ||| name == "modified"@
    ||| name == "length"@
    ||| name == "song"@
}

/// An attribute that a [`Playlist`] has no field for is dropped: wherever it
/// stands, the payload decodes to what it decodes to without it.
pub proof fn law_playlist_drops_unknown_attribute(
    node: Node,
    at: int,
    name: Seq<char>,
    value: Seq<char>,
)
    requires
        0 <= at <= node.attributes.len(),
        !playlist_knows(name),
    ensures
        playlist_of(with_attribute(node, at, name, value)) == playlist_of(node),
{
    lemma_attribute_added(node, at, name, value, "id"@);
    lemma_attribute_added(node, at, name, value, "name"@);
    lemma_attribute_added(node, at, name, value, "modified"@);
    lemma_attribute_added(node, at, name, value, "length"@);
}

/// A child element that a [`Playlist`] has no field for is dropped: wherever it
/// stands, the payload decodes to what it decodes to without it.
pub proof fn law_playlist_drops_unknown_child(node: Node, at: int, child: Node)
    requires
        0 <= at <= node.children.len(),
        !playlist_knows(child.name),
    ensures
        playlist_of(with_child(node, at, child)) == playlist_of(node),
{
    lemma_child_added(node, at, child, "id"@);
    lemma_child_added(node, at, child, "name"@);
    lemma_child_added(node, at, child, "modified"@);
    lemma_child_added(node, at, child, "length"@);
    lemma_entries_pass_over(node.children, at, child);
}

/// Whether a field of a [`Browse`], or the list in it, goes by `name`.
pub open spec fn browse_knows(name: Seq<char>) -> bool {
    ||| name == "sid"@
    ||| name == "type"@
    ||| name == "serviceIcon"@
    ||| name == "serviceName"@
    ||| name == "searchKey"@
    ||| name == "nextKey"@
    ||| name == "parentKey"@
    ||| name == "item"@
}

/// An attribute that a [`Browse`] has no field for is dropped: wherever it
/// stands, the payload decodes to what it decodes to without it.
pub proof fn law_browse_drops_unknown_attribute(
    node: Node,
    at: int,
    name: Seq<char>,
    value: Seq<char>,
)
    requires
        0 <= at <= node.attributes.len(),
        !browse_knows(name),
    ensures
        browse_of(with_attribute(node, at, name, value)) == browse_of(node),
{
    lemma_attribute_added(node, at, name, value, "sid"@);
    lemma_attribute_added(node, at, name, value, "type"@);
    lemma_attribute_added(node, at, name, value, "serviceIcon"@);
    lemma_attribute_added(node, at, name, value, "serviceName"@);
    lemma_attribute_added(node, at, name, value, "searchKey"@);
    lemma_attribute_added(node, at, name, value, "nextKey"@);
    lemma_attribute_added(node, at, name, value, "parentKey"@);
}

/// A child element that a [`Browse`] has no field for is dropped: wherever it
/// stands, the payload decodes to what it decodes to without it.
pub proof fn law_browse_drops_unknown_child(node: Node, at: int, child: Node)
    requires
        0 <= at <= node.children.len(),
        !browse_knows(child.name),
    ensures
        browse_of(with_child(node, at, child)) == browse_of(node),
{
    lemma_child_added(node, at, child, "sid"@);
    lemma_child_added(node, at, child, "type"@);
    lemma_child_added(node, at, child, "serviceIcon"@);
    lemma_child_added(node, at, child, "serviceName"@);
    lemma_child_added(node, at, child, "searchKey"@);
    lemma_child_added(node, at, child, "nextKey"@);
    lemma_child_added(node, at, child, "parentKey"@);
    lemma_items_pass_over(node.children, at, child);
}

/// Whether a field of a [`Status`], or the list in it, goes by `name`.
pub open spec fn status_knows(name: Seq<char>) -> bool {
    ||| name == "etag"@
    ||| name == "volume"@
    ||| name == "db"@
    ||| name == "mute"@
    ||| name == "muteVolume"@
    ||| name == "muteDb"@
    ||| name == "name"@
    ||| name == "album"@
    ||| name == "artist"@
    ||| name == "totlen"@
    ||| name == "secs"@
    ||| name == "repeat"@
    ||| name == "shuffle"@
    ||| name == "song"@
    ||| name == "quality"@
    ||| name == "fn"@
    ||| name == "image"@
    ||| name == "title1"@
    ||| name == "title2"@
    ||| name == "title3"@
    ||| name == "twolineTitle1"@
    ||| name == "twolineTitle2"@
    ||| name == "currentImage"@
    ||| name == "groupName"@
    ||| name == "groupVolume"@
    ||| name == "canSeek"@
    ||| name == "canMovePlayback"@
    ||| name == "notifyUrl"@
    ||| name == "mode"@
    ||| name == "pid"@
    ||| name == "prid"@
    ||| name == "sid"@
    ||| name == "state"@
    ||| name == "streamUrl"@
    ||| name == "syncStat"@
    ||| name == "cursor"@
    ||| name == "indexing"@
    ||| name == "mid"@
    ||| name == "actions"@
}

/// An attribute that a [`Status`] has no field for is dropped: wherever it
/// stands, the payload decodes to what it decodes to without it.
pub proof fn law_status_drops_unknown_attribute(
    node: Node,
    at: int,
    name: Seq<char>,
    value: Seq<char>,
)
    requires
        0 <= at <= node.attributes.len(),
        !status_knows(name),
    ensures
        status_of(with_attribute(node, at, name, value)) == status_of(node),
{
    lemma_attribute_added(node, at, name, value, "etag"@);
    lemma_attribute_added(node, at, name, value, "volume"@);
    lemma_attribute_added(node, at, name, value, "db"@);
    lemma_attribute_added(node, at, name, value, "mute"@);
    lemma_attribute_added(node, at, name, value, "muteVolume"@);
    lemma_attribute_added(node, at, name, value, "muteDb"@);
    lemma_attribute_added(node, at, name, value, "name"@);
    lemma_attribute_added(node, at, name, value, "album"@);
    lemma_attribute_added(node, at, name, value, "artist"@);
    lemma_attribute_added(node, at, name, value, "totlen"@);
    lemma_attribute_added(node, at, name, value, "secs"@);
    lemma_attribute_added(node, at, name, value, "repeat"@);
    lemma_attribute_added(node, at, name, value, "shuffle"@);
    lemma_attribute_added(node, at, name, value, "song"@);
    lemma_attribute_added(node, at, name, value, "quality"@);
    lemma_attribute_added(node, at, name, value, "fn"@);
    lemma_attribute_added(node, at, name, value, "image"@);
    lemma_attribute_added(node, at, name, value, "title1"@);
    lemma_attribute_added(node, at, name, value, "title2"@);
    lemma_attribute_added(node, at, name, value, "title3"@);
    lemma_attribute_added(node, at, name, value, "twolineTitle1"@);
    lemma_attribute_added(node, at, name, value, "twolineTitle2"@);
    lemma_attribute_added(node, at, name, value, "currentImage"@);
    lemma_attribute_added(node, at, name, value, "groupName"@);
    lemma_attribute_added(node, at, name, value, "groupVolume"@);
    lemma_attribute_added(node, at, name, value, "canSeek"@);
    lemma_attribute_added(node, at, name, value, "canMovePlayback"@);
    lemma_attribute_added(node, at, name, value, "notifyUrl"@);
    lemma_attribute_added(node, at, name, value, "mode"@);
    lemma_attribute_added(node, at, name, value, "pid"@);
    lemma_attribute_added(node, at, name, value, "prid"@);
    lemma_attribute_added(node, at, name, value, "sid"@);
    lemma_attribute_added(node, at, name, value, "state"@);
    lemma_attribute_added(node, at, name, value, "streamUrl"@);
    lemma_attribute_added(node, at, name, value, "syncStat"@);
    lemma_attribute_added(node, at, name, value, "cursor"@);
    lemma_attribute_added(node, at, name, value, "indexing"@);
    lemma_attribute_added(node, at, name, value, "mid"@);
}

/// A child element that a [`Status`] has no field for is dropped: wherever it
/// stands, the payload decodes to what it decodes to without it.
pub proof fn law_status_drops_unknown_child(node: Node, at: int, child: Node)
    requires
        0 <= at <= node.children.len(),
        !status_knows(child.name),
    ensures
        status_of(with_child(node, at, child)) == status_of(node),
{
    lemma_child_added(node, at, child, "etag"@);
    lemma_child_added(node, at, child, "volume"@);
    lemma_child_added(node, at, child, "db"@);
    lemma_child_added(node, at, child, "mute"@);
    lemma_child_added(node, at, child, "muteVolume"@);
    lemma_child_added(node, at, child, "muteDb"@);
    lemma_child_added(node, at, child, "name"@);
    lemma_child_added(node, at, child, "album"@);
    lemma_child_added(node, at, child, "artist"@);
    lemma_child_added(node, at, child, "totlen"@);
    lemma_child_added(node, at, child, "secs"@);
    lemma_child_added(node, at, child, "repeat"@);
    lemma_child_added(node, at, child, "shuffle"@);
    lemma_child_added(node, at, child, "song"@);
    lemma_child_added(node, at, child, "quality"@);
    lemma_child_added(node, at, child, "fn"@);
    lemma_child_added(node, at, child, "image"@);
    lemma_child_added(node, at, child, "title1"@);
    lemma_child_added(node, at, child, "title2"@);
    lemma_child_added(node, at, child, "title3"@);
    lemma_child_added(node, at, child, "twolineTitle1"@);
    lemma_child_added(node, at, child, "twolineTitle2"@);
    lemma_child_added(node, at, child, "currentImage"@);
    lemma_child_added(node, at, child, "groupName"@);
    lemma_child_added(node, at, child, "groupVolume"@);
    lemma_child_added(node, at, child, "canSeek"@);
    lemma_child_added(node, at, child, "canMovePlayback"@);
    lemma_child_added(node, at, child, "notifyUrl"@);
    lemma_child_added(node, at, child, "mode"@);
    lemma_child_added(node, at, child, "pid"@);
    lemma_child_added(node, at, child, "prid"@);
    lemma_child_added(node, at, child, "sid"@);
    lemma_child_added(node, at, child, "state"@);
    lemma_child_added(node, at, child, "streamUrl"@);
    lemma_child_added(node, at, child, "syncStat"@);
    lemma_child_added(node, at, child, "cursor"@);
    lemma_child_added(node, at, child, "indexing"@);
    lemma_child_added(node, at, child, "mid"@);
    lemma_child_added(node, at, child, "actions"@);
}

/// Whether a field of a [`SyncStatus`], or the list in it, goes by `name`.
pub open spec fn sync_status_knows(name: Seq<char>) -> bool {
    ||| name == "mac"@
    ||| name == "id"@
    ||| name == "brand"@
    ||| name == "db"@
    ||| name == "volume"@
    ||| name == "group"@
    ||| name == "icon"@
    ||| name == "model"@
    ||| name == "modelName"@
    ||| name == "name"@
    ||| name == "schemaVersion"@
}

/// An attribute that a [`SyncStatus`] has no field for is dropped: wherever it
/// stands, the payload decodes to what it decodes to without it.
pub proof fn law_sync_status_drops_unknown_attribute(
    node: Node,
    at: int,
    name: Seq<char>,
    value: Seq<char>,
)
    requires
        0 <= at <= node.attributes.len(),
        !sync_status_knows(name),
    ensures
        sync_status_of(with_attribute(node, at, name, value)) == sync_status_of(node),
{
    lemma_attribute_added(node, at, name, value, "mac"@);
    lemma_attribute_added(node, at, name, value, "id"@);
    lemma_attribute_added(node, at, name, value, "brand"@);
    lemma_attribute_added(node, at, name, value, "db"@);
    lemma_attribute_added(node, at, name, value, "volume"@);
    lemma_attribute_added(node, at, name, value, "group"@);
    lemma_attribute_added(node, at, name, value, "icon"@);
    lemma_attribute_added(node, at, name, value, "model"@);
    lemma_attribute_added(node, at, name, value, "modelName"@);
    lemma_attribute_added(node, at, name, value, "name"@);
    lemma_attribute_added(node, at, name, value, "schemaVersion"@);
}

/// A child element that a [`SyncStatus`] has no field for is dropped: wherever it
/// stands, the payload decodes to what it decodes to without it.
pub proof fn law_sync_status_drops_unknown_child(node: Node, at: int, child: Node)
    requires
        0 <= at <= node.children.len(),
        !sync_status_knows(child.name),
    ensures
        sync_status_of(with_child(node, at, child)) == sync_status_of(node),
{
    lemma_child_added(node, at, child, "mac"@);
    lemma_child_added(node, at, child, "id"@);
    lemma_child_added(node, at, child, "brand"@);
    lemma_child_added(node, at, child, "db"@);
    lemma_child_added(node, at, child, "volume"@);
    lemma_child_added(node, at, child, "group"@);
    lemma_child_added(node, at, child, "icon"@);
    lemma_child_added(node, at, child, "model"@);
    lemma_child_added(node, at, child, "modelName"@);
    lemma_child_added(node, at, child, "name"@);
    lemma_child_added(node, at, child, "schemaVersion"@);
}

/// A browse item always decodes: none of its fields is required, and none
/// is of a type that a text can fail to be of.
pub proof fn law_browse_item_always_decodes(node: Node)
    ensures
        browse_item_of(node) is Ok,
{
}

/// What a payload gives as its kind of list touches nothing else: whether
/// the payload decodes as a browse result, and what every other field
/// decodes to, is the same whatever stands under `type`, a token that the
/// library does not know included.
pub proof fn law_browse_kind_touches_nothing_else(node: Node, other: Node)
    requires
        forall|name: Seq<char>| name != "type"@ ==> field_text(other, name) == #[trigger] field_text(node, name),
        items_of(other.children) == items_of(node.children),
    ensures
        browse_fault(other) == browse_fault(node),
        browse_value(other) == (BrowseView {
            browse_type: browse_type_in(other),
            ..browse_value(node)
        }),
{
    lemma_browse_names();
    reveal_strlit("type");
    assert(signature("type"@) == (4nat, 't', 'y', 'e'));
    assert(field_text(other, "sid"@) == field_text(node, "sid"@));
    assert(field_text(other, "serviceIcon"@) == field_text(node, "serviceIcon"@));
    assert(field_text(other, "serviceName"@) == field_text(node, "serviceName"@));
    assert(field_text(other, "searchKey"@) == field_text(node, "searchKey"@));
    assert(field_text(other, "nextKey"@) == field_text(node, "nextKey"@));
    assert(field_text(other, "parentKey"@) == field_text(node, "parentKey"@));
}

/// What a payload gives as its kind of item touches nothing else: every
/// other field decodes to the same whatever stands under `type`, a token that
/// the library does not know included.
pub proof fn law_item_kind_touches_nothing_else(node: Node, other: Node)
    requires
        forall|name: Seq<char>| name != "type"@ ==> field_text(other, name) == #[trigger] field_text(node, name),
    ensures
        browse_item_of(other) == Ok::<BrowseItemView, FaultView>(
            BrowseItemView { item_type: item_type_in(other), ..browse_item_value(node) },
        ),
{
    lemma_browse_item_names();
    reveal_strlit("type");
    assert(signature("type"@) == (4nat, 't', 'y', 'e'));
    assert(field_text(other, "image"@) == field_text(node, "image"@));
    assert(field_text(other, "browseKey"@) == field_text(node, "browseKey"@));
    assert(field_text(other, "text"@) == field_text(node, "text"@));
    assert(field_text(other, "text2"@) == field_text(node, "text2"@));
    assert(field_text(other, "playURL"@) == field_text(node, "playURL"@));
    assert(field_text(other, "autoplayURL"@) == field_text(node, "autoplayURL"@));
    assert(field_text(other, "contextMenuKey"@) == field_text(node, "contextMenuKey"@));
    assert(field_text(other, "actionURL"@) == field_text(node, "actionURL"@));
}

impl StateResponse {
    /// Decodes a payload as a [`StateResponse`]. This cannot fail: a state
    /// that the library does not know decodes to the unspecified state.
    pub fn decode(element: &Element) -> (r: StateResponse)
        ensures
            r == state_response_of(element@),
    {
        proof {
            element.lemma_view();
        }
        StateResponse { state: State::from_token(element.text.as_str()) }
    }

    /// Reads the text of a payload and decodes it as a [`StateResponse`].
    /// `url` says where the text came from, for the report of a fault.
    pub fn from_payload(xml: &str, url: &str) -> (r: Result<StateResponse, Error>)
        ensures
            match r {
                Ok(value) => located(state_response_in(xml@), xml@, url@) == Ok::<
                    StateResponse,
                    ErrorView,
                >(value),
                Err(error) => located(state_response_in(xml@), xml@, url@) == Err::<
                    StateResponse,
                    ErrorView,
                >(error@),
            },
    {
        match read_markup(xml) {
            Ok(element) => Ok(StateResponse::decode(&element)),
            Err(fault) => Err(Error::decode_failure(fault, xml, url)),
        }
    }
}

impl IdResponse {
    /// Decodes a payload as an [`IdResponse`].
    pub fn decode(element: &Element) -> (r: Result<IdResponse, Fault>)
        ensures
            match r {
                Ok(value) => id_response_of(element@) == Ok::<IdResponse, FaultView>(value),
                Err(fault) => id_response_of(element@) == Err::<IdResponse, FaultView>(fault@),
            },
    {
        proof {
            element.lemma_view();
        }
        if element.text.as_str().is_empty() {
            Ok(IdResponse { id: None })
        } else {
            match parse_i64(element.text.as_str()) {
                Some(id) => Ok(IdResponse { id: Some(id) }),
                None => Err(invalid("id")),
            }
        }
    }

    /// Reads the text of a payload and decodes it as an [`IdResponse`].
    /// `url` says where the text came from, for the report of a fault.
    pub fn from_payload(xml: &str, url: &str) -> (r: Result<IdResponse, Error>)
        ensures
            match r {
                Ok(value) => located(id_response_in(xml@), xml@, url@) == Ok::<
                    IdResponse,
                    ErrorView,
                >(value),
                Err(error) => located(id_response_in(xml@), xml@, url@) == Err::<
                    IdResponse,
                    ErrorView,
                >(error@),
            },
    {
        let element = match read_markup(xml) {
            Ok(element) => element,
            Err(fault) => {
                return Err(Error::decode_failure(fault, xml, url));
            },
        };
        match IdResponse::decode(&element) {
            Ok(value) => Ok(value),
            Err(fault) => Err(Error::decode_failure(fault, xml, url)),
        }
    }
}

} // verus!
