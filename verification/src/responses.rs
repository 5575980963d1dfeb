//! What a player answers, as typed values: its status, its play queue, a
//! node of its browse hierarchy, and its description of itself.
//!
//! Each type comes with a mathematical model, its view, in which texts are
//! sequences of characters and lists are sequences.
use crate::vocabulary::{state_of, BrowseType, ItemType, Quality, State};
use vstd::prelude::*;
use vstd::string::*;

verus! {

/// The characters of an optional text.
pub open spec fn text_view(text: Option<String>) -> Option<Seq<char>> {
    match text {
        Some(t) => Some(t@),
        None => None,
    }
}

/// Something the player offers to do.
#[derive(Debug, Clone, PartialEq)]
pub struct Action {
    pub hide: u8,
    pub name: String,
}

/// Mathematical model of [`Action`].
pub struct ActionView {
    pub hide: u8,
    pub name: Seq<char>,
}

impl View for Action {
    type V = ActionView;

    open spec fn view(&self) -> ActionView {
        ActionView {
            hide: self.hide,
            name: self.name@,
        }
    }
}

/// The models of a run of actions, in order.
pub open spec fn action_views(list: Seq<Action>) -> Seq<ActionView> {
    list.map_values(|x: Action| x@)
}

/// The things a player offers to do.
#[derive(Debug, Clone, PartialEq)]
pub struct Actions {
    pub action: Vec<Action>,
}

impl View for Actions {
    type V = Seq<ActionView>;

    open spec fn view(&self) -> Seq<ActionView> {
        action_views(self.action@)
    }
}

/// A snapshot of what a player is doing.
#[derive(Debug, Clone, PartialEq)]
pub struct Status {
    /// Changes whenever anything in the status changes.
    pub etag: String,
    /// Volume level in percent; -1 means that the volume is fixed.
    pub volume: i64,
    /// Volume in decibels, as the decimal text the player sent.
    pub volume_decibel: String,
    /// 1 if the player is muted.
    pub mute: u8,
    /// While muted: the volume level before muting, 0 to 100.
    pub muted_volume: Option<i64>,
    /// While muted: the volume before muting, in decibels.
    pub muted_decibel: Option<i64>,
    /// Title of the playing track.
    pub name: Option<String>,
    /// Album of the playing track.
    pub album: Option<String>,
    /// Artist of the playing track.
    pub artist: Option<String>,
    /// Length of the playing track, in seconds.
    pub total_length: Option<i64>,
    /// Seconds of the playing track played so far.
    pub seconds_played: Option<i64>,
    /// 0 repeats the play queue, 1 repeats the track, 2 repeats nothing.
    pub repeat: u8,
    /// 1 if shuffle is on.
    pub shuffle: u8,
    /// Position of the playing track in the play queue.
    pub song_queue_position: i64,
    /// Quality of the playing source.
    pub quality: Option<Quality>,
    pub filename: Option<String>,
    /// URL of the image that goes with the playing audio.
    pub image: Option<String>,
    /// First of three lines describing the playing audio.
    pub title1: Option<String>,
    /// Second of three lines describing the playing audio.
    pub title2: Option<String>,
    /// Third of three lines describing the playing audio.
    pub title3: Option<String>,
    /// First of two lines describing the playing audio.
    pub twoline_title1: Option<String>,
    /// Second of two lines describing the playing audio.
    pub twoline_title2: Option<String>,
    /// What the player displays at the moment.
    pub current_image: Option<String>,
    /// Name of the group, on the group's primary player.
    pub group_name: Option<String>,
    /// Volume of the group, on the group's primary player.
    pub group_volume: Option<String>,
    pub actions: Option<Actions>,
    pub can_seek: Option<u8>,
    pub can_move_playback: Option<bool>,
    /// URL of a pop-up notification.
    pub notify_url: Option<String>,
    pub mode: i64,
    /// Identity of the play queue; changes when the queue changes.
    pub pid: i64,
    /// Identity of the presets; changes when a preset changes.
    pub prid: u8,
    pub sid: i64,
    /// What the player is doing, as the token it sent.
    pub state: String,
    pub stream_url: Option<String>,
    pub sync_stat: i64,
    pub cursor: Option<i64>,
    /// Most likely whether the player is indexing.
    pub indexing: i64,
    pub mid: i64,
}

/// Mathematical model of [`Status`].
pub struct StatusView {
    pub etag: Seq<char>,
    pub volume: i64,
    pub volume_decibel: Seq<char>,
    pub mute: u8,
    pub muted_volume: Option<i64>,
    pub muted_decibel: Option<i64>,
    pub name: Option<Seq<char>>,
    pub album: Option<Seq<char>>,
    pub artist: Option<Seq<char>>,
    pub total_length: Option<i64>,
    pub seconds_played: Option<i64>,
    pub repeat: u8,
    pub shuffle: u8,
    pub song_queue_position: i64,
    pub quality: Option<Quality>,
    pub filename: Option<Seq<char>>,
    pub image: Option<Seq<char>>,
    pub title1: Option<Seq<char>>,
    pub title2: Option<Seq<char>>,
    pub title3: Option<Seq<char>>,
    pub twoline_title1: Option<Seq<char>>,
    pub twoline_title2: Option<Seq<char>>,
    pub current_image: Option<Seq<char>>,
    pub group_name: Option<Seq<char>>,
    pub group_volume: Option<Seq<char>>,
    pub actions: Option<Seq<ActionView>>,
    pub can_seek: Option<u8>,
    pub can_move_playback: Option<bool>,
    pub notify_url: Option<Seq<char>>,
    pub mode: i64,
    pub pid: i64,
    pub prid: u8,
    pub sid: i64,
    pub state: Seq<char>,
    pub stream_url: Option<Seq<char>>,
    pub sync_stat: i64,
    pub cursor: Option<i64>,
    pub indexing: i64,
    pub mid: i64,
}

impl View for Status {
    type V = StatusView;

    open spec fn view(&self) -> StatusView {
        StatusView {
            etag: self.etag@,
            volume: self.volume,
            volume_decibel: self.volume_decibel@,
            mute: self.mute,
            muted_volume: self.muted_volume,
            muted_decibel: self.muted_decibel,
            name: text_view(self.name),
            album: text_view(self.album),
            artist: text_view(self.artist),
            total_length: self.total_length,
            seconds_played: self.seconds_played,
            repeat: self.repeat,
            shuffle: self.shuffle,
            song_queue_position: self.song_queue_position,
            quality: self.quality,
            filename: text_view(self.filename),
            image: text_view(self.image),
            title1: text_view(self.title1),
            title2: text_view(self.title2),
            title3: text_view(self.title3),
            twoline_title1: text_view(self.twoline_title1),
            twoline_title2: text_view(self.twoline_title2),
            current_image: text_view(self.current_image),
            group_name: text_view(self.group_name),
            group_volume: text_view(self.group_volume),
            actions: match self.actions {
                Some(actions) => Some(actions@),
                None => None,
            },
            can_seek: self.can_seek,
            can_move_playback: self.can_move_playback,
            notify_url: text_view(self.notify_url),
            mode: self.mode,
            pid: self.pid,
            prid: self.prid,
            sid: self.sid,
            state: self.state@,
            stream_url: text_view(self.stream_url),
            sync_stat: self.sync_stat,
            cursor: self.cursor,
            indexing: self.indexing,
            mid: self.mid,
        }
    }
}

impl Status {
    /// What the player is doing, resolved from the token it sent.
    pub fn player_state(&self) -> (r: State)
        ensures
            r == state_of(self.state@),
    {
        State::from_token(self.state.as_str())
    }

    /// Whether the volume is fixed, so that it cannot be adjusted.
    pub fn volume_is_fixed(&self) -> (r: bool)
        ensures
            r == (self.volume == -1),
    {
        self.volume == -1
    }

    /// Whether the player is muted.
    pub fn muted(&self) -> (r: bool)
        ensures
            r == (self.mute == 1),
    {
        self.mute == 1
    }
}

/// The answer to a request that changes what the player is doing.
#[derive(Debug, Clone, Copy, PartialEq, Eq, Structural)]
pub struct StateResponse {
    pub state: State,
}

/// The answer to a request that names a track by its position.
#[derive(Debug, Clone, Copy, PartialEq, Eq, Structural)]
pub struct IdResponse {
    pub id: Option<i64>,
}

/// One track of a play queue.
#[derive(Debug, Clone, PartialEq)]
pub struct PlaylistEntry {
    /// Position of the track in the queue.
    pub id: i64,
    pub song_id: Option<String>,
    /// Identity of the album that the track is in.
    pub album_id: Option<String>,
    pub artist_id: Option<String>,
    pub service: Option<String>,
    pub title: Option<String>,
    pub art: Option<String>,
    pub alb: Option<String>,
    pub filename: Option<String>,
    pub quality: Option<Quality>,
}

/// Mathematical model of [`PlaylistEntry`].
pub struct PlaylistEntryView {
    pub id: i64,
    pub song_id: Option<Seq<char>>,
    pub album_id: Option<Seq<char>>,
    pub artist_id: Option<Seq<char>>,
    pub service: Option<Seq<char>>,
    pub title: Option<Seq<char>>,
    pub art: Option<Seq<char>>,
    pub alb: Option<Seq<char>>,
    pub filename: Option<Seq<char>>,
    pub quality: Option<Quality>,
}

impl View for PlaylistEntry {
    type V = PlaylistEntryView;

    open spec fn view(&self) -> PlaylistEntryView {
        PlaylistEntryView {
            id: self.id,
            song_id: text_view(self.song_id),
            album_id: text_view(self.album_id),
            artist_id: text_view(self.artist_id),
            service: text_view(self.service),
            title: text_view(self.title),
            art: text_view(self.art),
            alb: text_view(self.alb),
            filename: text_view(self.filename),
            quality: self.quality,
        }
    }
}

/// The models of a run of tracks, in order.
pub open spec fn entry_views(list: Seq<PlaylistEntry>) -> Seq<PlaylistEntryView> {
    list.map_values(|x: PlaylistEntry| x@)
}

/// The play queue: the tracks that the player will play, in order.
#[derive(Debug, Clone, PartialEq)]
pub struct Playlist {
    /// Identity of the queue in its present state.
    pub id: i64,
    /// Name of the play queue.
    pub name: Option<String>,
    /// 1 if the queue was modified since it was loaded, else 0.
    pub modified: i64,
    /// Number of tracks in the queue.
    pub length: i64,
    pub entries: Vec<PlaylistEntry>,
}

/// Mathematical model of [`Playlist`].
pub struct PlaylistView {
    pub id: i64,
    pub name: Option<Seq<char>>,
    pub modified: i64,
    pub length: i64,
    pub entries: Seq<PlaylistEntryView>,
}

impl View for Playlist {
    type V = PlaylistView;

    open spec fn view(&self) -> PlaylistView {
        PlaylistView {
            id: self.id,
            name: text_view(self.name),
            modified: self.modified,
            length: self.length,
            entries: entry_views(self.entries@),
        }
    }
}

/// One entry of a browse result.
#[derive(Debug, Clone, PartialEq)]
pub struct BrowseItem {
    /// An icon or artwork for the item.
    pub image: Option<String>,
    /// Key to browse with to descend into the item.
    pub browse_key: Option<String>,
    /// First line of the item's description.
    pub text: Option<String>,
    /// Second line of the item's description.
    pub text2: Option<String>,
    pub item_type: ItemType,
    /// URI that starts the item's default play action.
    pub play_url: Option<String>,
    /// URI that plays the item and queues what follows it.
    pub autoplay_url: Option<String>,
    /// Key to browse with for the item's context menu.
    pub context_menu_key: Option<String>,
    /// URI that performs the item's action.
    pub action_url: Option<String>,
}

/// Mathematical model of [`BrowseItem`].
pub struct BrowseItemView {
    pub image: Option<Seq<char>>,
    pub browse_key: Option<Seq<char>>,
    pub text: Option<Seq<char>>,
    pub text2: Option<Seq<char>>,
    pub item_type: ItemType,
    pub play_url: Option<Seq<char>>,
    pub autoplay_url: Option<Seq<char>>,
    pub context_menu_key: Option<Seq<char>>,
    pub action_url: Option<Seq<char>>,
}

impl View for BrowseItem {
    type V = BrowseItemView;

    open spec fn view(&self) -> BrowseItemView {
        BrowseItemView {
            image: text_view(self.image),
            browse_key: text_view(self.browse_key),
            text: text_view(self.text),
            text2: text_view(self.text2),
            item_type: self.item_type,
            play_url: text_view(self.play_url),
            autoplay_url: text_view(self.autoplay_url),
            context_menu_key: text_view(self.context_menu_key),
            action_url: text_view(self.action_url),
        }
    }
}

/// The models of a run of browse items, in order.
pub open spec fn item_views(list: Seq<BrowseItem>) -> Seq<BrowseItemView> {
    list.map_values(|x: BrowseItem| x@)
}

/// A node of the browse hierarchy with the items below it.
#[derive(Debug, Clone, PartialEq)]
pub struct Browse {
    pub sid: String,
    pub browse_type: BrowseType,
    /// URI of an icon of the service being browsed.
    pub service_icon: Option<String>,
    /// Name of the service being browsed, for display.
    pub service_name: Option<String>,
    /// Key to browse with to search the service.
    pub search_key: Option<String>,
    /// Key to browse with for the next page of items.
    pub next_key: Option<String>,
    /// Key to browse with to go back up, where the default is overridden.
    pub parent_key: Option<String>,
    pub items: Vec<BrowseItem>,
}

/// Mathematical model of [`Browse`].
pub struct BrowseView {
    pub sid: Seq<char>,
    pub browse_type: BrowseType,
    pub service_icon: Option<Seq<char>>,
    pub service_name: Option<Seq<char>>,
    pub search_key: Option<Seq<char>>,
    pub next_key: Option<Seq<char>>,
    pub parent_key: Option<Seq<char>>,
    pub items: Seq<BrowseItemView>,
}

impl View for Browse {
    type V = BrowseView;

    open spec fn view(&self) -> BrowseView {
        BrowseView {
            sid: self.sid@,
            browse_type: self.browse_type,
            service_icon: text_view(self.service_icon),
            service_name: text_view(self.service_name),
            search_key: text_view(self.search_key),
            next_key: text_view(self.next_key),
            parent_key: text_view(self.parent_key),
            items: item_views(self.items@),
        }
    }
}

/// A player as it describes itself to those who search for players.
#[derive(Debug, Clone, PartialEq)]
pub struct SyncStatus {
    /// The player's unique id; may be a MAC address.
    pub mac: String,
    /// The player's IP address and port.
    pub id: String,
    /// Brand of the player.
    pub brand: String,
    /// Volume in decibels, as the decimal text the player sent.
    pub db: String,
    /// Volume level from 0 to 100; -1 means that the volume is fixed.
    pub volume: i16,
    /// Name of the group the player is in.
    pub group: Option<String>,
    /// URL of the player's icon.
    pub icon: String,
    /// Model id of the player.
    pub model: String,
    /// Model name of the player.
    pub model_name: String,
    /// Name of the player.
    pub name: String,
    pub schema_version: String,
}

/// Mathematical model of [`SyncStatus`].
pub struct SyncStatusView {
    pub mac: Seq<char>,
    pub id: Seq<char>,
    pub brand: Seq<char>,
    pub db: Seq<char>,
    pub volume: i16,
    pub group: Option<Seq<char>>,
    pub icon: Seq<char>,
    pub model: Seq<char>,
    pub model_name: Seq<char>,
    pub name: Seq<char>,
    pub schema_version: Seq<char>,
}

impl View for SyncStatus {
    type V = SyncStatusView;

    open spec fn view(&self) -> SyncStatusView {
        SyncStatusView {
            mac: self.mac@,
            id: self.id@,
            brand: self.brand@,
            db: self.db@,
            volume: self.volume,
            group: text_view(self.group),
            icon: self.icon@,
            model: self.model@,
            model_name: self.model_name@,
            name: self.name@,
            schema_version: self.schema_version@,
        }
    }
}

/// The models of a run of players, in order.
pub open spec fn sync_status_views(list: Seq<SyncStatus>) -> Seq<SyncStatusView> {
    list.map_values(|x: SyncStatus| x@)
}

} // verus!
